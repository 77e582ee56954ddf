//! What setting the contract up and changing its settings come to, for every state.
use cosmwasm_std::StdError;
use vstd::prelude::*;

use crate::chain::{Attributes, Env};
use crate::error::{ContractError, ErrorView, StdFailureView};
use crate::ledger::{Entry, Ledger, Refusals};
use crate::msg::ExecuteMsg;
use crate::penalties::LateFeeConfig;
use crate::state::{action_of, DrawAction, OracleQuorumConfig};
use crate::text::{decimal, signed_decimal};

verus! {

/// Setting the contract up stores the owner and starts counting credit lines at zero, and changes
/// nothing else. It replies nothing. Where the chain refuses the owner, nothing changes; where the
/// version could not be recorded, that is reported.
pub proof fn setting_up_stores_the_owner(
    state: Ledger,
    refusals: Refusals,
    owner: Seq<char>,
    version_recorded: Result<(), ErrorView>,
)
    ensures
        ({
            let step = state.set_up(refusals, owner, version_recorded);
            let after = step.ledger;
            &&& step.reply is Ok <==> !refusals.contains_key(owner) && version_recorded is Ok
            &&& refusals.contains_key(owner) ==> after == state && step.reply == Err::<
                Attributes,
                _,
            >(ErrorView::Std(StdFailureView::Backend(refusals[owner])))
            &&& !refusals.contains_key(owner) ==> {
                &&& after.config == Ok::<Seq<char>, StdError>(owner)
                &&& after.credit_line_count == Ok::<u64, StdError>(0)
                &&& after == Ledger {
                    config: after.config,
                    credit_line_count: after.credit_line_count,
                    ..state
                }
                &&& (version_recorded matches Err(e) ==> step.reply == Err::<Attributes, _>(e))
            }
            &&& step.reply matches Ok(reply) ==> reply.len() == 0
        }),
{
}

/// The owner and nobody else passes the check. Everyone else is reported as unauthorized, and
/// where no owner can be loaded, that is reported.
pub proof fn the_owner_is_the_stored_one(state: Ledger, sender: Seq<char>)
    ensures
        state.owner_check(sender) is Ok <==> state.config == Ok::<Seq<char>, StdError>(sender),
        state.config matches Ok(owner) ==> owner != sender ==> state.owner_check(sender) == Err::<
            (),
            _,
        >(ErrorView::Unauthorized),
        state.config matches Err(e) ==> state.owner_check(sender) == Err::<(), _>(
            ErrorView::Std(StdFailureView::Backend(e)),
        ),
{
}

/// The version is reported as recorded exactly if the owner asks and it was recorded. The state
/// stays as it is. The reply names both numbers.
pub proof fn a_version_is_reported_as_requested(
    state: Ledger,
    sender: Seq<char>,
    major: u32,
    minor: u32,
    recorded: Result<(), ErrorView>,
)
    ensures
        ({
            let step = state.update_protocol_version(sender, major, minor, recorded);
            let owned = state.config == Ok::<Seq<char>, StdError>(sender);
            &&& step.ledger == state
            &&& step.reply is Ok <==> owned && recorded is Ok
            &&& step.reply matches Ok(reply) ==> reply == seq![
                ("action"@, "update_protocol_version"@),
                ("major"@, decimal(major as nat)),
                ("minor"@, decimal(minor as nat)),
            ]
            &&& owned ==> (recorded matches Err(e) ==> step.reply == Err::<Attributes, _>(e))
            &&& (state.config matches Err(e) ==> step.reply == Err::<Attributes, _>(
                ErrorView::Std(StdFailureView::Backend(e)),
            ))
            &&& state.config is Ok && !owned ==> step.reply == Err::<Attributes, _>(
                ErrorView::Unauthorized,
            )
        }),
{
}

/// A late fee is set exactly if the owner asks and it is a flat amount above zero or a surcharge
/// of at most 100 %; without one, the late fee is removed. What is stored is the amount or the
/// surcharge as given, and nothing else changes. The reply says whether there is a late fee.
pub proof fn a_late_fee_is_set_as_requested(
    state: Ledger,
    sender: Seq<char>,
    config: Option<LateFeeConfig>,
)
    ensures
        ({
            let step = state.set_late_fee(sender, config);
            let after = step.ledger;
            let owned = state.config == Ok::<Seq<char>, StdError>(sender);
            &&& step.reply is Ok <==> owned && match config {
                None => true,
                Some(LateFeeConfig::Flat(flat)) => flat.amount > 0,
                Some(LateFeeConfig::AprBased(apr)) => apr.surcharge_bps <= 10_000,
            }
            &&& step.reply is Err ==> after == state
            &&& step.reply is Ok ==> {
                &&& match config {
                    None => after.late_fee is None,
                    Some(LateFeeConfig::Flat(flat)) => after.late_fee == Some(
                        Entry::Value(Ok::<u128, u32>(flat.amount)),
                    ),
                    Some(LateFeeConfig::AprBased(apr)) => after.late_fee == Some(
                        Entry::Value(Err::<u128, u32>(apr.surcharge_bps)),
                    ),
                }
                &&& after == Ledger { late_fee: after.late_fee, ..state }
            }
            &&& step.reply matches Ok(reply) ==> reply == seq![
                ("action"@, "set_late_fee_config"@),
                (
                    "has_config"@,
                    if config is Some {
                        "true"@
                    } else {
                        "false"@
                    },
                ),
            ]
            &&& (state.config matches Err(e) ==> step.reply == Err::<Attributes, _>(
                ErrorView::Std(StdFailureView::Backend(e)),
            ))
            &&& state.config is Ok && !owned ==> step.reply == Err::<Attributes, _>(
                ErrorView::Unauthorized,
            )
            &&& owned ==> (config matches Some(LateFeeConfig::Flat(flat)) ==> flat.amount == 0
                ==> step.reply == Err::<Attributes, _>(ErrorView::InvalidAmount))
            &&& owned ==> (config matches Some(LateFeeConfig::AprBased(apr)) ==> apr.surcharge_bps
                > 10_000 ==> step.reply == Err::<Attributes, _>(ErrorView::RateTooHigh))
        }),
{
}

/// A late fee is valid exactly if it is a flat amount above zero or a surcharge of at most 100 %.
pub proof fn late_fees_are_in_range(config: LateFeeConfig)
    ensures
        match config {
            LateFeeConfig::Flat(flat) => if flat.amount == 0 {
                config.fault() == Some(ContractError::InvalidAmount)
            } else {
                config.fault() is None
            },
            LateFeeConfig::AprBased(apr) => if apr.surcharge_bps > 10_000 {
                config.fault() == Some(ContractError::RateTooHigh)
            } else {
                config.fault() is None
            },
        },
{
}

/// An oracle quorum is configured exactly if the owner asks, it takes two prices or more, it
/// allows a deviation of at most 100 % and its prices live for a second or more. It is stored as
/// given, and nothing else changes. The reply names the three numbers.
pub proof fn an_oracle_quorum_is_set_as_requested(
    state: Ledger,
    sender: Seq<char>,
    config: OracleQuorumConfig,
)
    ensures
        ({
            let step = state.set_oracle_quorum(sender, config);
            let after = step.ledger;
            let owned = state.config == Ok::<Seq<char>, StdError>(sender);
            let valid = config.min_quorum_k >= 2 && config.max_deviation_bps <= 10_000
                && config.max_age_seconds >= 1;
            &&& step.reply is Ok <==> owned && valid
            &&& step.reply is Err ==> after == state
            &&& step.reply is Ok ==> {
                &&& after.oracle_quorum matches Some(Entry::Value(stored)) && {
                    &&& stored.min_quorum_k == config.min_quorum_k
                    &&& stored.max_deviation_bps == config.max_deviation_bps
                    &&& stored.max_age_seconds == config.max_age_seconds
                }
                &&& after == Ledger { oracle_quorum: after.oracle_quorum, ..state }
            }
            &&& step.reply matches Ok(reply) ==> reply == seq![
                ("action"@, "set_oracle_quorum_config"@),
                ("min_quorum_k"@, decimal(config.min_quorum_k as nat)),
                ("max_deviation_bps"@, decimal(config.max_deviation_bps as nat)),
                ("max_age_seconds"@, decimal(config.max_age_seconds as nat)),
            ]
            &&& (state.config matches Err(e) ==> step.reply == Err::<Attributes, _>(
                ErrorView::Std(StdFailureView::Backend(e)),
            ))
            &&& state.config is Ok && !owned ==> step.reply == Err::<Attributes, _>(
                ErrorView::Unauthorized,
            )
            &&& owned && !valid ==> step.reply == Err::<Attributes, _>(ErrorView::InvalidAmount)
        }),
{
}

/// Prices are to be resolved under the stored configuration, exactly if the owner submits them,
/// there is a configuration, and there are at most twenty.
pub proof fn prices_are_resolved_under_the_stored_configuration(
    state: Ledger,
    sender: Seq<char>,
    count: nat,
)
    ensures
        ({
            let submission = state.oracle_submission(sender, count);
            let owned = state.config == Ok::<Seq<char>, StdError>(sender);
            &&& submission is Ok <==> owned && count <= 20 && (state.oracle_quorum matches Some(
                Entry::Value(_),
            ))
            &&& submission matches Ok(config) ==> state.oracle_quorum == Some(Entry::Value(config))
            &&& (state.config matches Err(e) ==> submission == Err::<OracleQuorumConfig, _>(
                ErrorView::Std(StdFailureView::Backend(e)),
            ))
            &&& state.config is Ok && !owned ==> submission == Err::<OracleQuorumConfig, _>(
                ErrorView::Unauthorized,
            )
            &&& owned ==> match state.oracle_quorum {
                Some(Entry::Malformed(e)) => submission == Err::<OracleQuorumConfig, _>(
                    ErrorView::Std(StdFailureView::Backend(e)),
                ),
                None => submission == Err::<OracleQuorumConfig, _>(ErrorView::OraclePriceInvalid),
                Some(Entry::Value(_)) => count > 20 ==> submission == Err::<OracleQuorumConfig, _>(
                    ErrorView::OraclePriceInvalid,
                ),
            }
        }),
{
}

/// A price is recorded exactly if the prices could be submitted and resolved to one. It is stored
/// as resolved, with the whole seconds of the block time, and nothing else changes. The reply
/// names the price, the quorum and the time.
pub proof fn a_price_is_recorded_as_resolved(
    state: Ledger,
    env: Env,
    sender: Seq<char>,
    count: nat,
    resolved: Result<i128, ErrorView>,
)
    ensures
        ({
            let step = state.submit_oracle_prices(env, sender, count, resolved);
            let after = step.ledger;
            let submission = state.oracle_submission(sender, count);
            &&& step.reply is Ok <==> submission is Ok && resolved is Ok
            &&& step.reply is Err ==> after == state
            &&& step.reply is Ok ==> {
                &&& after.oracle_price matches Some(Entry::Value(record)) && {
                    &&& resolved == Ok::<i128, ErrorView>(record.price)
                    &&& record.timestamp * 1_000_000_000 <= env.block.time.nanos
                    &&& env.block.time.nanos < (record.timestamp + 1) * 1_000_000_000
                }
                &&& after == Ledger { oracle_price: after.oracle_price, ..state }
            }
            &&& step.reply matches Ok(reply) ==> {
                &&& after.oracle_price matches Some(Entry::Value(record))
                    && state.oracle_quorum matches Some(Entry::Value(config)) && reply == seq![
                    ("action"@, "submit_oracle_prices"@),
                    ("canonical_price"@, signed_decimal(record.price as int)),
                    ("min_quorum_k"@, decimal(config.min_quorum_k as nat)),
                    ("timestamp"@, decimal(record.timestamp as nat)),
                ]
            }
            &&& (submission matches Err(e) ==> step.reply == Err::<Attributes, _>(e))
            &&& submission is Ok ==> (resolved matches Err(e) ==> step.reply == Err::<
                Attributes,
                _,
            >(e))
        }),
{
}

/// Each request comes to the operation that it names, with what it asks for.
pub proof fn requests_come_to_what_they_name(
    state: Ledger,
    refusals: Refusals,
    env: Env,
    sender: Seq<char>,
    msg: ExecuteMsg,
    quorum_price: Result<i128, ErrorView>,
    version_recorded: Result<(), ErrorView>,
)
    ensures
        ({
            let step = state.execute(
                refusals,
                env,
                sender,
                msg,
                quorum_price,
                version_recorded,
            );
            &&& msg matches ExecuteMsg::CreateCreditLine {
                borrower,
                collateral_denom,
                collateral_amount,
                credit_denom,
                credit_amount,
            } ==> step == state.create_credit_line(
                refusals,
                sender,
                borrower@,
                collateral_denom@,
                collateral_amount@,
                credit_denom@,
                credit_amount@,
            )
            &&& msg matches ExecuteMsg::CreateDraw { credit_line_id, amount, denom } ==> step
                == state.create_draw(env, sender, credit_line_id, amount@, denom@)
            &&& msg matches ExecuteMsg::RepayDraw { credit_line_id, draw_id } ==> step
                == state.repay_draw(env, sender, credit_line_id, draw_id)
            &&& msg matches ExecuteMsg::AddAuditMemo { credit_line_id, draw_id, memo } ==> step
                == state.add_audit_memo(env, sender, credit_line_id, draw_id, memo@)
            &&& msg matches ExecuteMsg::UpdateProtocolVersion { major, minor } ==> step
                == state.update_protocol_version(sender, major, minor, version_recorded)
            &&& msg matches ExecuteMsg::SetOracleQuorumConfig {
                min_quorum_k,
                max_deviation_bps,
                max_age_seconds,
            } ==> step == state.set_oracle_quorum(
                sender,
                OracleQuorumConfig { min_quorum_k, max_deviation_bps, max_age_seconds },
            )
            &&& msg matches ExecuteMsg::SubmitOraclePrices { prices } ==> step
                == state.submit_oracle_prices(env, sender, prices@.len(), quorum_price)
            &&& msg matches ExecuteMsg::SetLateFeeConfig { config } ==> step == state.set_late_fee(
                sender,
                config,
            )
            &&& msg matches ExecuteMsg::DepositCollateral { borrower, denom, amount } ==> step
                == state.deposit_collateral(refusals, sender, borrower@, denom@, amount@)
            &&& msg matches ExecuteMsg::WithdrawCollateral { borrower, denom, amount } ==> step
                == state.withdraw_collateral(refusals, sender, borrower@, denom@, amount@)
            &&& msg matches ExecuteMsg::AddCollateralToken { denom, risk_weight_bps } ==> step
                == state.add_collateral_token(sender, denom@, risk_weight_bps)
            &&& msg matches ExecuteMsg::RemoveCollateralToken { denom } ==> step
                == state.remove_collateral_token(sender, denom@)
            &&& msg matches ExecuteMsg::SetCollateralRiskWeight { denom, risk_weight_bps } ==> step
                == state.set_collateral_risk_weight(sender, denom@, risk_weight_bps)
        }),
{
}

/// An action is stored under a word of its own, and read back from it; no other word stands for
/// an action.
pub proof fn actions_are_read_back(action: DrawAction, word: Seq<char>)
    ensures
        DrawAction::DrawCreated.word() == "draw_created"@,
        DrawAction::Repaid.word() == "repaid"@,
        DrawAction::Liquidated.word() == "liquidated"@,
        DrawAction::MemoAdded.word() == "memo_added"@,
        action_of(action.word()) == Some(action),
        action_of(word) matches Some(found) ==> word == found.word(),
{
    reveal_strlit("draw_created");
    reveal_strlit("repaid");
    reveal_strlit("liquidated");
    reveal_strlit("memo_added");
    assert("draw_created"@.len() == 12);
    assert("repaid"@.len() == 6);
    assert("liquidated"@[0] == 'l');
    assert("memo_added"@[0] == 'm');
    assert("liquidated"@.len() == 10);
    assert("memo_added"@.len() == 10);
}

} // verus!
