//! What the functions of the library return and leave behind, in terms of what is stored.
use cosmwasm_std::StdError;
use vstd::prelude::*;

use crate::chain::{replied, Attributes, Env, MessageInfo, Response};
use crate::collateral::{self, holdings_of};
use crate::contract::{
    self, answered, execute, execute_add_audit_memo, execute_add_collateral_token,
    execute_create_credit_line, execute_create_draw, execute_deposit_collateral,
    execute_remove_collateral_token, execute_repay_draw, execute_set_collateral_risk_weight,
    execute_set_late_fee_config, execute_set_oracle_quorum_config, execute_submit_oracle_prices,
    execute_update_protocol_version, execute_withdraw_collateral, instantiate, migrate, query,
    Delegated, QueryAnswer,
};
use crate::error::{outcome, ContractError, ErrorView, StdFailure};
use crate::fees::{
    accrue_protocol_fee, assert_owner, get_treasury_fee_share_bps, split_protocol_fee,
    withdraw_bounty, withdraw_treasury, FeeSplitAmounts,
};
use crate::laws::credit::{
    a_credit_line_is_opened_as_requested, a_draw_is_recorded_as_requested,
    a_repayment_skims_the_protocol_fee,
};
use crate::laws::shares::{
    a_bounty_pool_gives_out_what_it_holds, a_split_is_by_the_share,
    a_treasury_gives_out_what_it_holds, an_accrual_follows_the_share,
};
use crate::laws::tokens::a_single_balance_counts_at_its_weight;
use crate::ledger::{Entry, Ledger};
use crate::limits::{execute_within_limits, query_within_limits, try_execute, try_query};
use crate::msg::{ExecuteMsg, InstantiateMsg, MigrateMsg, QueryMsg};
use crate::penalties::{validate_late_fee_config, LateFeeConfig};
use crate::records;
use crate::state::{
    Config, CreditLine, Draw, DrawAction, DrawAuditEntry, DrawAuditEvent, OracleQuorumConfig,
    Timestamp,
};
use crate::store::{ledger, ledger_mut, refusals, refusals_mut, Deps, DepsMut};
use crate::text::{amount_of, decimal, decimal_text, signed_decimal, signed_decimal_text, texts};

verus! {

/// Repaying a draw credits the treasury and the bounty pool of its market with the protocol fee on
/// its amount, rounded down, and the treasury with its share of that, rounded down.
pub proof fn repaying_skims_the_protocol_fee(
    deps: &mut DepsMut,
    env: Env,
    info: MessageInfo,
    credit_line_id: u64,
    draw_id: u64,
    r: Result<Response, ContractError>,
    bps: u32,
    share: u32,
)
    requires
        call_ensures(execute_repay_draw, (deps, env, info, credit_line_id, draw_id), r),
        r is Ok,
        ({
            let state = ledger_mut(*old(deps));
            &&& state.protocol_fee == Some(Entry::Value(bps)) || (state.protocol_fee is None && bps
                == 0)
            &&& (state.draws.get((credit_line_id, draw_id)) matches Some(Entry::Value(draw)) ==> {
                &&& draw.amount * bps < (u128::MAX + 1) * 10_000
                &&& match (state.market_shares.get(draw.denom), state.default_share) {
                    (Some(Entry::Value(own)), _) => share == own,
                    (_, Ok(default)) => share == default,
                    (_, Err(_)) => share == 10_000,
                }
            })
        }),
    ensures
        ({
            let state = ledger_mut(*old(deps));
            let after = ledger_mut(*final(deps));
            state.draws.get((credit_line_id, draw_id)) matches Some(Entry::Value(draw)) && {
                let t = after.treasury_of(draw.denom) - state.treasury_of(draw.denom);
                let b = after.bounty_of(draw.denom) - state.bounty_of(draw.denom);
                &&& (t + b) * 10_000 <= draw.amount * bps < (t + b + 1) * 10_000
                &&& t + b > 0 ==> t * 10_000 <= (t + b) * share < (t + 1) * 10_000
                &&& info.sender@ == draw.drawn_by
                &&& after.draws.get((credit_line_id, draw_id)) matches Some(Entry::Value(repaid))
                    && repaid.repaid && repaid.amount == draw.amount
            }
        }),
{
    a_repayment_skims_the_protocol_fee(
        ledger_mut(*old(deps)),
        env,
        info.sender@,
        credit_line_id,
        draw_id,
        bps,
        share,
    );
}

/// Drawing succeeds exactly if the credit line exists, the sender is its borrower, the number of
/// its draws decodes and the amount is a number of at most 128 bits; the new draw then holds that
/// amount, token, block time and sender.
pub proof fn drawing_records_the_draw(
    deps: &mut DepsMut,
    env: Env,
    info: MessageInfo,
    credit_line_id: u64,
    amount: String,
    denom: String,
    r: Result<Response, ContractError>,
    id: u64,
)
    requires
        call_ensures(execute_create_draw, (deps, env, info, credit_line_id, amount, denom), r),
        ({
            let slot = ledger_mut(*old(deps)).draw_counts.get(credit_line_id);
            slot == Some(Entry::Value(id)) || (slot is None && id == 0)
        }),
    ensures
        ({
            let state = ledger_mut(*old(deps));
            let after = ledger_mut(*final(deps));
            &&& r is Ok <==> {
                &&& state.credit_lines.get(credit_line_id) matches Some(Entry::Value(line))
                    && line.borrower == info.sender@
                &&& amount_of(amount@) is Some
            }
            &&& r is Err ==> after == state
            &&& r is Ok ==> (after.draws.get((credit_line_id, id)) matches Some(Entry::Value(draw))
                && {
                &&& draw.id == id
                &&& draw.credit_line_id == credit_line_id
                &&& amount_of(amount@) == Some(draw.amount)
                &&& draw.denom == denom@
                &&& draw.drawn_at == env.block.time
                &&& draw.drawn_by == info.sender@
                &&& !draw.repaid
            })
        }),
{
    a_draw_is_recorded_as_requested(
        ledger_mut(*old(deps)),
        env,
        info.sender@,
        credit_line_id,
        amount@,
        denom@,
        id,
    );
}

/// Opening a credit line succeeds exactly if the owner asks, the chain accepts the borrower, the
/// number of credit lines is known and both amounts are numbers of at most 128 bits; the record
/// under the next id then holds the borrower, both tokens and both amounts, and is active.
pub proof fn opening_records_the_credit_line(
    deps: &mut DepsMut,
    env: Env,
    info: MessageInfo,
    borrower: String,
    collateral_denom: String,
    collateral_amount: String,
    credit_denom: String,
    credit_amount: String,
    r: Result<Response, ContractError>,
    id: u64,
)
    requires
        call_ensures(
            execute_create_credit_line,
            (
                deps,
                env,
                info,
                borrower,
                collateral_denom,
                collateral_amount,
                credit_denom,
                credit_amount,
            ),
            r,
        ),
        ledger_mut(*old(deps)).credit_line_count == Ok::<u64, StdError>(id),
    ensures
        ({
            let state = ledger_mut(*old(deps));
            let after = ledger_mut(*final(deps));
            &&& r is Ok <==> {
                &&& state.config == Ok::<Seq<char>, StdError>(info.sender@)
                &&& !refusals_mut(*old(deps)).contains_key(borrower@)
                &&& amount_of(collateral_amount@) is Some
                &&& amount_of(credit_amount@) is Some
            }
            &&& r is Err ==> after == state
            &&& r is Ok ==> (after.credit_lines.get(id) matches Some(Entry::Value(line)) && {
                &&& line.id == id
                &&& line.borrower == borrower@
                &&& line.collateral_denom == collateral_denom@
                &&& amount_of(collateral_amount@) == Some(line.collateral_amount)
                &&& line.credit_denom == credit_denom@
                &&& amount_of(credit_amount@) == Some(line.credit_amount)
                &&& line.active
            })
        }),
{
    a_credit_line_is_opened_as_requested(
        ledger_mut(*old(deps)),
        refusals_mut(*old(deps)),
        info.sender@,
        borrower@,
        collateral_denom@,
        collateral_amount@,
        credit_denom@,
        credit_amount@,
    );
}

/// The share that is returned for a market is its own where it has one that decodes, else the
/// default where there is one that decodes, else everything.
pub proof fn the_share_that_is_returned_applies(deps: &Deps, denom: &str, r: u32)
    requires
        call_ensures(get_treasury_fee_share_bps, (deps, denom), r),
    ensures
        match (ledger(*deps).market_shares.get(denom@), ledger(*deps).default_share) {
            (Some(Entry::Value(own)), _) => r == own,
            (_, Ok(default)) => r == default,
            (_, Err(_)) => r == 10_000,
        },
{
}

/// Accruing a fee credits the treasury of the market with its share of the fee, rounded down, and
/// the bounty pool with the rest.
pub proof fn accruing_follows_the_share(
    deps: &mut DepsMut,
    denom: &str,
    fee: u128,
    r: Result<FeeSplitAmounts, ContractError>,
    share: u32,
)
    requires
        call_ensures(accrue_protocol_fee, (deps, denom, fee), r),
        match (
            ledger_mut(*old(deps)).market_shares.get(denom@),
            ledger_mut(*old(deps)).default_share,
        ) {
            (Some(Entry::Value(own)), _) => share == own,
            (_, Ok(default)) => share == default,
            (_, Err(_)) => share == 10_000,
        },
    ensures
        ({
            let state = ledger_mut(*old(deps));
            let after = ledger_mut(*final(deps));
            let t = after.treasury_of(denom@) - state.treasury_of(denom@);
            let b = after.bounty_of(denom@) - state.bounty_of(denom@);
            r matches Ok(parts) ==> {
                &&& parts.treasury_amount == t
                &&& parts.bounty_amount == b
                &&& t + b == fee
                &&& fee > 0 ==> t * 10_000 <= fee * share < (t + 1) * 10_000
            }
        }),
{
    an_accrual_follows_the_share(ledger_mut(*old(deps)), denom@, fee, share);
}

/// Splitting a fee gives the treasury its share rounded down and the bounty pool the rest.
pub proof fn splitting_follows_the_share(
    total: u128,
    bps: u32,
    r: Result<FeeSplitAmounts, ContractError>,
)
    requires
        call_ensures(split_protocol_fee, (total, bps), r),
    ensures
        r is Ok <==> bps == 0 || bps == 10_000 || (bps < 10_000 && total * bps <= u128::MAX),
        r matches Ok(parts) ==> {
            &&& parts.treasury_amount * 10_000 <= total * bps
            &&& total * bps < (parts.treasury_amount + 1) * 10_000
            &&& parts.treasury_amount + parts.bounty_amount == total
        },
        bps > 10_000 ==> r == Err::<FeeSplitAmounts, _>(ContractError::InvalidFeeShareBps),
{
    a_split_is_by_the_share(total, bps);
}

/// Withdrawing from a pool of a market takes out exactly the amount, exactly if the owner asks for
/// an amount above zero that the pool holds.
pub proof fn withdrawing_takes_out_the_amount(
    deps: &mut DepsMut,
    sender: &str,
    denom: &str,
    amount: u128,
    r: Result<u128, ContractError>,
    had: u128,
)
    ensures
        ({
            let state = ledger_mut(*old(deps));
            let after = ledger_mut(*final(deps));
            let asked = state.config == Ok::<Seq<char>, StdError>(sender@) && 0 < amount <= had;
            &&& state.treasury.get(denom@) == Some(Entry::Value(had)) && call_ensures(
                withdraw_treasury,
                (deps, sender, denom, amount),
                r,
            ) ==> {
                &&& r is Ok <==> asked
                &&& r is Ok ==> r == Ok::<u128, ContractError>(amount)
                &&& r is Ok ==> (after.treasury.get(denom@) matches Some(Entry::Value(left)) && left
                    + amount == had)
                &&& r is Err ==> after == state
                &&& after == Ledger { treasury: after.treasury, ..state }
            }
            &&& state.bounty.get(denom@) == Some(Entry::Value(had)) && call_ensures(
                withdraw_bounty,
                (deps, sender, denom, amount),
                r,
            ) ==> {
                &&& r is Ok <==> asked
                &&& r is Ok ==> r == Ok::<u128, ContractError>(amount)
                &&& r is Ok ==> (after.bounty.get(denom@) matches Some(Entry::Value(left)) && left
                    + amount == had)
                &&& r is Err ==> after == state
                &&& after == Ledger { bounty: after.bounty, ..state }
            }
        }),
{
    a_treasury_gives_out_what_it_holds(ledger_mut(*old(deps)), sender@, denom@, amount);
    a_bounty_pool_gives_out_what_it_holds(ledger_mut(*old(deps)), sender@, denom@, amount);
}

/// The risk-weighted total of a borrower with one deposited token is its balance times its weight
/// over 100 %, rounded down; it is refused where the product does not fit in 128 bits.
pub proof fn weighing_applies_the_weight(
    deps: &Deps,
    borrower: &str,
    r: Result<u128, ContractError>,
    denom: Seq<char>,
    balance: u128,
    weight: u32,
)
    requires
        call_ensures(collateral::weighted_collateral_total, (deps, borrower), r),
        ledger(*deps).tokens.get(borrower@) == Some(Entry::Value(seq![denom])),
        ledger(*deps).balances.get((borrower@, denom)) == Some(Entry::Value(balance)),
        ledger(*deps).weights.get(denom) == Some(Entry::Value(weight)) || (ledger(
            *deps,
        ).weights.get(denom) is None && weight == 10_000),
    ensures
        balance * weight <= u128::MAX ==> (r matches Ok(c) && c * 10_000 <= balance * weight < (c
            + 1) * 10_000),
        balance * weight > u128::MAX ==> r == Err::<u128, _>(ContractError::Overflow),
{
    a_single_balance_counts_at_its_weight(ledger(*deps), borrower@, denom, balance, weight);
}

/// What is returned of collateral is what is stored, with a balance of zero, a weight of 100 % and
/// an empty list where nothing is stored or it does not decode.
pub proof fn collateral_is_returned_as_stored(
    deps: &Deps,
    borrower: &str,
    denom: &str,
    balance: u128,
    weight: u32,
    allowed: bool,
    list: Vec<String>,
    held: Vec<(String, u128)>,
    total: Result<u128, ContractError>,
)
    ensures
        call_ensures(collateral::query_collateral_balance, (deps, borrower, denom), balance)
            ==> match ledger(*deps).balances.get((borrower@, denom@)) {
            Some(Entry::Value(stored)) => balance == stored,
            _ => balance == 0,
        },
        call_ensures(collateral::collateral_risk_weight_bps, (deps, denom), weight)
            ==> match ledger(*deps).weights.get(denom@) {
            Some(Entry::Value(stored)) => weight == stored,
            _ => weight == 10_000,
        },
        call_ensures(collateral::is_collateral_token_allowed, (deps, denom), allowed) ==> (allowed
            <==> (ledger(*deps).allowlist matches Some(Entry::Value(stored)) && stored.contains(
            denom@,
        ))),
        call_ensures(collateral::query_collateral_allowlist, (deps,), list) ==> match ledger(
            *deps,
        ).allowlist {
            Some(Entry::Value(stored)) => texts(list@) == stored,
            _ => texts(list@).len() == 0,
        },
        call_ensures(collateral::query_borrower_collateral, (deps, borrower), held)
            ==> holdings_of(held@) == ledger(*deps).holdings(borrower@),
        call_ensures(collateral::weighted_collateral_total, (deps, borrower), total) ==> outcome(
            total,
        ) == ledger(*deps).weighted_total(borrower@),
{
}

/// Whether `e` hands on what the chain reports as `reported`.
pub open spec fn hands_on(e: ContractError, reported: StdError) -> bool {
    e == ContractError::Std(StdFailure::Backend(reported))
}

/// Records are returned as they are stored: nothing where there is none, and what decoding reports
/// where one does not decode.
pub proof fn records_are_returned_as_stored(
    deps: &Deps,
    line_id: u64,
    draw_id: u64,
    seq: u64,
    line: Result<Option<CreditLine>, ContractError>,
    draw: Result<Option<Draw>, ContractError>,
    entry: Result<Option<DrawAuditEntry>, ContractError>,
)
    ensures
        call_ensures(records::credit_line, (deps, line_id), line) ==> match ledger(
            *deps,
        ).credit_lines.get(line_id) {
            None => line matches Ok(None),
            Some(Entry::Value(stored)) => line matches Ok(Some(returned)) && returned@ == stored,
            Some(Entry::Malformed(e)) => line matches Err(fault) && hands_on(fault, e),
        },
        call_ensures(records::draw, (deps, line_id, draw_id), draw) ==> match ledger(
            *deps,
        ).draws.get((line_id, draw_id)) {
            None => draw matches Ok(None),
            Some(Entry::Value(stored)) => draw matches Ok(Some(returned)) && returned@ == stored,
            Some(Entry::Malformed(e)) => draw matches Err(fault) && hands_on(fault, e),
        },
        call_ensures(records::audit_entry, (deps, line_id, draw_id, seq), entry) ==> match ledger(
            *deps,
        ).audit.get((line_id, draw_id, seq)) {
            None => entry matches Ok(None),
            Some(Entry::Value(stored)) => entry matches Ok(Some(returned)) && returned@ == stored,
            Some(Entry::Malformed(e)) => entry matches Err(fault) && hands_on(fault, e),
        },
{
}

/// Counts, and the credit line of a borrower, are returned as they are stored.
pub proof fn counts_are_returned_as_stored(
    deps: &Deps,
    borrower: &str,
    line_id: u64,
    draw_id: u64,
    r: Result<Option<u64>, ContractError>,
)
    ensures
        ({
            let own = ledger(*deps).borrower_ids.get(borrower@);
            let draws = ledger(*deps).draw_counts.get(line_id);
            let entries = ledger(*deps).audit_counts.get((line_id, draw_id));
            &&& call_ensures(records::credit_line_of, (deps, borrower), r) ==> match own {
                None => r matches Ok(None),
                Some(Entry::Value(id)) => r == Ok::<_, ContractError>(Some(id)),
                Some(Entry::Malformed(e)) => r matches Err(fault) && hands_on(fault, e),
            }
            &&& call_ensures(records::draw_count, (deps, line_id), r) ==> match draws {
                None => r matches Ok(None),
                Some(Entry::Value(count)) => r == Ok::<_, ContractError>(Some(count)),
                Some(Entry::Malformed(e)) => r matches Err(fault) && hands_on(fault, e),
            }
            &&& call_ensures(records::audit_count, (deps, line_id, draw_id), r) ==> match entries {
                None => r matches Ok(None),
                Some(Entry::Value(count)) => r == Ok::<_, ContractError>(Some(count)),
                Some(Entry::Malformed(e)) => r matches Err(fault) && hands_on(fault, e),
            }
        }),
{
}

/// The owner and nobody else passes the check.
pub proof fn checking_finds_the_owner(
    deps: &Deps,
    sender: &str,
    r: Result<Config, ContractError>,
)
    requires
        call_ensures(assert_owner, (deps, sender), r),
    ensures
        r is Ok <==> ledger(*deps).config == Ok::<Seq<char>, StdError>(sender@),
        r matches Ok(config) ==> config.owner@ == sender@,
        ledger(*deps).config matches Ok(owner) ==> owner != sender@ ==> r == Err::<Config, _>(
            ContractError::Unauthorized,
        ),
        ledger(*deps).config matches Err(e) ==> r matches Err(fault) && hands_on(fault, e),
{
}

/// Whether a call left the state behind and replied as a step of the ledger says.
pub open spec fn did(
    before: DepsMut,
    after: DepsMut,
    r: Result<Response, ContractError>,
    state: Ledger,
    reply: Result<Attributes, ErrorView>,
) -> bool {
    &&& replied(r) == reply
    &&& ledger_mut(after) == state
    &&& refusals_mut(after) == refusals_mut(before)
}

/// Each request about collateral, and the library function that it calls, does what its operation
/// says.
pub proof fn collateral_calls_do_what_they_name(
    deps: &mut DepsMut,
    info: MessageInfo,
    borrower: String,
    denom: String,
    amount: String,
    weight_bps: u32,
    borrower_ref: &str,
    denom_ref: &str,
    value: u128,
    r: Result<Response, ContractError>,
)
    ensures
        ({
            let state = ledger_mut(*old(deps));
            let refusals = refusals_mut(*old(deps));
            let sender = info.sender@;
            &&& call_ensures(execute_deposit_collateral, (deps, info, borrower, denom, amount), r)
                ==> {
                let step = state.deposit_collateral(refusals, sender, borrower@, denom@, amount@);
                did(*old(deps), *final(deps), r, step.ledger, step.reply)
            }
            &&& call_ensures(execute_withdraw_collateral, (deps, info, borrower, denom, amount), r)
                ==> {
                let step = state.withdraw_collateral(refusals, sender, borrower@, denom@, amount@);
                did(*old(deps), *final(deps), r, step.ledger, step.reply)
            }
            &&& call_ensures(execute_add_collateral_token, (deps, info, denom, weight_bps), r)
                ==> {
                let step = state.add_collateral_token(sender, denom@, weight_bps);
                did(*old(deps), *final(deps), r, step.ledger, step.reply)
            }
            &&& call_ensures(execute_remove_collateral_token, (deps, info, denom), r) ==> {
                let step = state.remove_collateral_token(sender, denom@);
                did(*old(deps), *final(deps), r, step.ledger, step.reply)
            }
            &&& call_ensures(execute_set_collateral_risk_weight, (deps, info, denom, weight_bps), r)
                ==> {
                let step = state.set_collateral_risk_weight(sender, denom@, weight_bps);
                did(*old(deps), *final(deps), r, step.ledger, step.reply)
            }
            &&& call_ensures(
                collateral::deposit_collateral,
                (deps, borrower_ref, denom_ref, value),
                r,
            ) ==> {
                let step = state.deposit(borrower_ref@, denom_ref@, value);
                did(*old(deps), *final(deps), r, step.ledger, step.reply)
            }
            &&& call_ensures(
                collateral::withdraw_collateral,
                (deps, borrower_ref, denom_ref, value),
                r,
            ) ==> {
                let step = state.withdraw(borrower_ref@, denom_ref@, value);
                did(*old(deps), *final(deps), r, step.ledger, step.reply)
            }
            &&& call_ensures(collateral::add_collateral_token, (deps, denom_ref, weight_bps), r)
                ==> {
                let step = state.add_token(denom_ref@, weight_bps);
                did(*old(deps), *final(deps), r, step.ledger, step.reply)
            }
            &&& call_ensures(collateral::remove_collateral_token, (deps, denom_ref), r) ==> {
                let step = state.remove_token(denom_ref@);
                did(*old(deps), *final(deps), r, step.ledger, step.reply)
            }
            &&& call_ensures(
                collateral::set_collateral_risk_weight,
                (deps, denom_ref, weight_bps),
                r,
            ) ==> {
                let step = state.set_weight(denom_ref@, weight_bps);
                did(*old(deps), *final(deps), r, step.ledger, step.reply)
            }
        }),
{
}

/// Each request about records and settings does what its operation says.
pub proof fn other_calls_do_what_they_name(
    deps: &mut DepsMut,
    env: Env,
    info: MessageInfo,
    line_id: u64,
    draw_id: u64,
    memo: String,
    major: u32,
    minor: u32,
    recorded: Result<(), ContractError>,
    fee: Option<LateFeeConfig>,
    quorum: OracleQuorumConfig,
    prices: Vec<i128>,
    resolved: Result<i128, ContractError>,
    r: Result<Response, ContractError>,
)
    ensures
        ({
            let state = ledger_mut(*old(deps));
            let sender = info.sender@;
            &&& call_ensures(execute_repay_draw, (deps, env, info, line_id, draw_id), r) ==> {
                let step = state.repay_draw(env, sender, line_id, draw_id);
                did(*old(deps), *final(deps), r, step.ledger, step.reply)
            }
            &&& call_ensures(execute_add_audit_memo, (deps, env, info, line_id, draw_id, memo), r)
                ==> {
                let step = state.add_audit_memo(env, sender, line_id, draw_id, memo@);
                did(*old(deps), *final(deps), r, step.ledger, step.reply)
            }
            &&& call_ensures(
                execute_update_protocol_version,
                (deps, info, major, minor, recorded),
                r,
            ) ==> {
                let step = state.update_protocol_version(sender, major, minor, outcome(recorded));
                did(*old(deps), *final(deps), r, step.ledger, step.reply)
            }
            &&& call_ensures(execute_set_late_fee_config, (deps, info, fee), r) ==> {
                let step = state.set_late_fee(sender, fee);
                did(*old(deps), *final(deps), r, step.ledger, step.reply)
            }
            &&& call_ensures(
                execute_set_oracle_quorum_config,
                (
                    deps,
                    info,
                    quorum.min_quorum_k,
                    quorum.max_deviation_bps,
                    quorum.max_age_seconds,
                ),
                r,
            ) ==> {
                let step = state.set_oracle_quorum(sender, quorum);
                did(*old(deps), *final(deps), r, step.ledger, step.reply)
            }
            &&& call_ensures(execute_submit_oracle_prices, (deps, env, info, prices, resolved), r)
                ==> {
                let step = state.submit_oracle_prices(
                    env,
                    sender,
                    prices@.len(),
                    outcome(resolved),
                );
                did(*old(deps), *final(deps), r, step.ledger, step.reply)
            }
        }),
{
}

/// Setting up, migrating and carrying out a request do what their operations say. Where a request
/// is tested first, it is carried out exactly if it is within the limits, and otherwise nothing
/// changes.
pub proof fn entry_points_do_what_they_name(
    deps: &mut DepsMut,
    env: Env,
    info: MessageInfo,
    set_up: InstantiateMsg,
    recorded: Result<(), ContractError>,
    migration: MigrateMsg,
    msg: ExecuteMsg,
    delegated: Delegated,
    r: Result<Response, ContractError>,
    tried: Option<Result<Response, ContractError>>,
)
    ensures
        ({
            let state = ledger_mut(*old(deps));
            let refusals = refusals_mut(*old(deps));
            let step = state.execute(
                refusals,
                env,
                info.sender@,
                msg,
                outcome(delegated.quorum_price),
                outcome(delegated.version_recorded),
            );
            &&& call_ensures(instantiate, (deps, env, info, set_up, recorded), r) ==> {
                let ready = state.set_up(refusals, set_up.owner@, outcome(recorded));
                did(*old(deps), *final(deps), r, ready.ledger, ready.reply)
            }
            &&& call_ensures(migrate, (deps, env, migration), r) ==> did(
                *old(deps),
                *final(deps),
                r,
                state,
                Ok(Attributes::empty()),
            )
            &&& call_ensures(execute, (deps, env, info, msg, delegated), r) ==> did(
                *old(deps),
                *final(deps),
                r,
                step.ledger,
                step.reply,
            )
            &&& call_ensures(try_execute, (deps, env, info, msg, delegated), tried) ==> {
                &&& tried is Some <==> state.within_limits(refusals, env, info.sender@, msg)
                &&& (tried matches Some(result) ==> did(
                    *old(deps),
                    *final(deps),
                    result,
                    step.ledger,
                    step.reply,
                ))
                &&& tried is None ==> ledger_mut(*final(deps)) == state
            }
        }),
{
}

/// Queries and tests return what the ledger says.
pub proof fn queries_return_what_the_ledger_says(
    deps: &Deps,
    env: Env,
    info: &MessageInfo,
    request: &ExecuteMsg,
    asked: &QueryMsg,
    msg: QueryMsg,
    prices: &Vec<i128>,
    within: bool,
    r: Result<QueryAnswer, ContractError>,
    tried: Option<Result<QueryAnswer, ContractError>>,
    submission: Result<OracleQuorumConfig, ContractError>,
)
    ensures
        ({
            let state = ledger(*deps);
            &&& call_ensures(query, (deps, env, msg), r) ==> answered(r) == state.query(
                refusals(*deps),
                msg,
            )
            &&& call_ensures(try_query, (deps, env, msg), tried) ==> {
                &&& tried is Some <==> state.query_within_limits(refusals(*deps), msg)
                &&& (tried matches Some(result) ==> answered(result) == state.query(
                    refusals(*deps),
                    msg,
                ))
            }
            &&& call_ensures(execute_within_limits, (deps, env, info, request), within) ==> within
                == state.within_limits(refusals(*deps), env, info.sender@, *request)
            &&& call_ensures(query_within_limits, (deps, asked), within) ==> within
                == state.query_within_limits(refusals(*deps), *asked)
            &&& call_ensures(contract::oracle_submission, (deps, info, prices), submission)
                ==> outcome(submission) == state.oracle_submission(info.sender@, prices@.len())
        }),
{
}

/// Numbers are written in decimal, times are cut to whole seconds, actions are named by their
/// words, and an audit entry is reported with everything but the ids of its draw and credit line.
pub proof fn values_are_converted_as_they_are(
    n: u128,
    i: i128,
    text: String,
    time: &Timestamp,
    seconds: u64,
    action: &DrawAction,
    word: &'static str,
    entry: DrawAuditEntry,
    event: DrawAuditEvent,
)
    ensures
        call_ensures(decimal_text, (n,), text) ==> text@ == decimal(n as nat),
        call_ensures(signed_decimal_text, (i,), text) ==> text@ == signed_decimal(i as int),
        call_ensures(Timestamp::seconds, (time,), seconds) ==> seconds * 1_000_000_000
            <= time.nanos < (seconds + 1) * 1_000_000_000,
        call_ensures(DrawAction::as_word, (action,), word) ==> word@ == action.word(),
        call_ensures(DrawAuditEntry::into_event, (entry,), event) ==> {
            &&& event.seq == entry.seq
            &&& event.action == entry.action
            &&& event.timestamp == entry.timestamp
            &&& event.block_height == entry.block_height
            &&& event.by@ == entry.by@
            &&& event.memo@ == entry.memo@
        },
{
}

/// A late fee is accepted exactly if it is a flat amount above zero or a surcharge of at most
/// 100 %.
pub proof fn validating_checks_the_range(config: &LateFeeConfig, r: Result<(), ContractError>)
    requires
        call_ensures(validate_late_fee_config, (config,), r),
    ensures
        match *config {
            LateFeeConfig::Flat(flat) => if flat.amount > 0 {
                r is Ok
            } else {
                r == Err::<(), _>(ContractError::InvalidAmount)
            },
            LateFeeConfig::AprBased(apr) => if apr.surcharge_bps <= 10_000 {
                r is Ok
            } else {
                r == Err::<(), _>(ContractError::RateTooHigh)
            },
        },
{
}

/// A reply states what was added to it, in the order in which it was added.
pub proof fn replies_state_what_was_added(
    empty: Response,
    before: Response,
    key: &str,
    value: String,
    after: Response,
)
    ensures
        call_ensures(Response::new, (), empty) ==> empty@.len() == 0,
        call_ensures(Response::add_attribute, (before, key, value), after) ==> after@
            == before@.push((key@, value@)),
{
}

} // verus!
