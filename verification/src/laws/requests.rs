//! What holds of every request, whatever it asks for.
use cosmwasm_std::StdError;
use vstd::prelude::*;

use crate::chain::{Attributes, Env};
use crate::contract::QueryAnswerView;
use crate::error::{backend, ErrorView};
use crate::laws::collateral::{
    deposits_keep_the_index, refused_transfers_change_nothing, the_allowlist_stays_sound,
    withdrawals_keep_the_index,
};
use crate::laws::fees::{a_refused_accrual_credits_no_bounty, an_accrual_credits_the_fee};
use crate::laws::records::{
    a_memo_extends_the_trail, a_new_credit_line_is_sound, a_new_draw_is_sound,
    a_repayment_marks_the_draw, records_decide_their_soundness,
};
use crate::ledger::{malformed, value_or, Entry, Ledger, Refusals};
use crate::msg::{
    ExecuteMsg, LateFeeConfigResponse, OraclePriceResponse, OracleQuorumConfigResponse, QueryMsg,
};
use crate::penalties::LateFeeConfig;
use crate::state::OracleQuorumConfig;
use crate::text::amount_of;

verus! {

impl Ledger {
    /// Whether this is the state of a store in which nothing was saved yet.
    pub open spec fn is_blank(self) -> bool {
        self == Ledger {
            config: self.config,
            credit_line_count: self.credit_line_count,
            credit_lines: Map::empty(),
            draw_counts: Map::empty(),
            draws: Map::empty(),
            audit_counts: Map::empty(),
            audit: Map::empty(),
            borrower_ids: Map::empty(),
            oracle_quorum: None,
            oracle_price: None,
            late_fee: None,
            protocol_fee: None,
            default_share: self.default_share,
            market_shares: Map::empty(),
            treasury: Map::empty(),
            bounty: Map::empty(),
            allowlist: None,
            weights: Map::empty(),
            balances: Map::empty(),
            tokens: Map::empty(),
        } && self.config is Err && self.credit_line_count is Err && self.default_share is Err
    }

    /// Whether the contract is set up and everything that it keeps is in step.
    pub open spec fn sound(self) -> bool {
        &&& self.config is Ok
        &&& self.records_sound()
        &&& self.collateral_indexed()
        &&& self.allowlist_sound()
    }

    /// Whether `other` holds the same collateral, allowlist and risk weights.
    pub open spec fn same_collateral(self, other: Ledger) -> bool {
        &&& other.balances == self.balances
        &&& other.tokens == self.tokens
        &&& other.allowlist == self.allowlist
        &&& other.weights == self.weights
    }

    /// Whether a request is a repayment that credits the treasury part of its fee and then finds
    /// that the bounty part cannot be credited.
    pub open spec fn half_credits(self, sender: Seq<char>, msg: ExecuteMsg) -> bool {
        match msg {
            ExecuteMsg::RepayDraw { credit_line_id, draw_id } => match self.draws.get(
                (credit_line_id, draw_id),
            ) {
                Some(Entry::Value(draw)) => sender == draw.drawn_by && self.half_accrues(
                    draw.denom,
                    self.fee_on(draw.amount) as u128,
                ),
                _ => false,
            },
            _ => false,
        }
    }
}

/// Whether only the owner may make a request.
pub open spec fn for_the_owner(msg: ExecuteMsg) -> bool {
    !(msg is CreateDraw) && !(msg is RepayDraw)
}

/// The borrower whose address a request has the chain validate, if it does.
pub open spec fn validated_in(msg: ExecuteMsg) -> Option<Seq<char>> {
    match msg {
        ExecuteMsg::CreateCreditLine { borrower, .. } => Some(borrower@),
        ExecuteMsg::DepositCollateral { borrower, .. } => Some(borrower@),
        ExecuteMsg::WithdrawCollateral { borrower, .. } => Some(borrower@),
        _ => None,
    }
}

/// The draw that a request looks up, if it does, as credit line id and draw id.
pub open spec fn draw_in(msg: ExecuteMsg) -> Option<(u64, u64)> {
    match msg {
        ExecuteMsg::RepayDraw { credit_line_id, draw_id } => Some((credit_line_id, draw_id)),
        ExecuteMsg::AddAuditMemo { credit_line_id, draw_id, .. } => Some(
            (credit_line_id, draw_id),
        ),
        _ => None,
    }
}

/// Whether a request is about collateral.
pub open spec fn about_collateral(msg: ExecuteMsg) -> bool {
    msg is DepositCollateral || msg is WithdrawCollateral || msg is AddCollateralToken
        || msg is RemoveCollateralToken || msg is SetCollateralRiskWeight
}

/// Whether a request is about credit lines and draws.
pub open spec fn about_records(msg: ExecuteMsg) -> bool {
    msg is CreateCreditLine || msg is CreateDraw || msg is RepayDraw || msg is AddAuditMemo
}

/// A contract that was just set up is sound.
pub proof fn a_new_contract_is_sound(blank: Ledger, refusals: Refusals, owner: Seq<char>)
    requires
        blank.is_blank(),
        !refusals.contains_key(owner),
    ensures
        blank.set_up(refusals, owner, Ok(())).reply is Ok,
        blank.set_up(refusals, owner, Ok(())).ledger.sound(),
{
    let state = blank.set_up(refusals, owner, Ok(())).ledger;
    assert forall|b: Seq<char>| (#[trigger] state.deposited(b)).no_duplicates() by {}
    assert forall|l: u64, d: u64| #[trigger] state.repayment_sound(l, d) by {}
}

/// Every request keeps the state sound, whether it is carried out or refused.
pub proof fn requests_keep_the_state_sound(
    state: Ledger,
    refusals: Refusals,
    env: Env,
    sender: Seq<char>,
    msg: ExecuteMsg,
    quorum_price: Result<i128, ErrorView>,
    version_recorded: Result<(), ErrorView>,
)
    requires
        state.sound(),
        state.within_limits(refusals, env, sender, msg),
    ensures
        state.execute(
            refusals,
            env,
            sender,
            msg,
            quorum_price,
            version_recorded,
        ).ledger.sound(),
        state.records_kept_in(
            state.execute(
                refusals,
                env,
                sender,
                msg,
                quorum_price,
                version_recorded,
            ).ledger,
        ),
{
    let step = state.execute(refusals, env, sender, msg, quorum_price, version_recorded);
    let after = step.ledger;
    records_decide_their_soundness(state, state);
    match msg {
        ExecuteMsg::CreateCreditLine {
            borrower,
            collateral_denom,
            collateral_amount,
            credit_denom,
            credit_amount,
        } => {
            if step.reply is Ok {
                a_new_credit_line_is_sound(
                    state,
                    refusals,
                    sender,
                    borrower@,
                    collateral_denom@,
                    collateral_amount@,
                    credit_denom@,
                    credit_amount@,
                );
            }
            lemma_collateral_decides(state, after);
        },
        ExecuteMsg::CreateDraw { credit_line_id, amount, denom } => {
            if step.reply is Ok {
                a_new_draw_is_sound(state, env, sender, credit_line_id, amount@, denom@);
            }
            lemma_collateral_decides(state, after);
        },
        ExecuteMsg::RepayDraw { credit_line_id, draw_id } => {
            lemma_repayment(state, env, sender, credit_line_id, draw_id);
            lemma_collateral_decides(state, after);
        },
        ExecuteMsg::AddAuditMemo { credit_line_id, draw_id, memo } => {
            assert(state.trail_sound(credit_line_id, draw_id));
            if step.reply is Ok {
                a_memo_extends_the_trail(state, env, sender, credit_line_id, draw_id, memo@);
            }
            lemma_collateral_decides(state, after);
        },
        ExecuteMsg::DepositCollateral { borrower, denom, amount } => {
            if let Ok(value) = state.transfer_amount(refusals, sender, borrower@, amount@) {
                deposits_keep_the_index(state, borrower@, denom@, value);
            }
            records_decide_their_soundness(state, after);
        },
        ExecuteMsg::WithdrawCollateral { borrower, denom, amount } => {
            if let Ok(value) = state.transfer_amount(refusals, sender, borrower@, amount@) {
                withdrawals_keep_the_index(state, borrower@, denom@, value);
            }
            records_decide_their_soundness(state, after);
        },
        ExecuteMsg::AddCollateralToken { denom, risk_weight_bps } => {
            the_allowlist_stays_sound(state, denom@, risk_weight_bps);
            records_decide_their_soundness(state, after);
            lemma_index_decides(state, after);
        },
        ExecuteMsg::RemoveCollateralToken { denom } => {
            the_allowlist_stays_sound(state, denom@, 0);
            records_decide_their_soundness(state, after);
            lemma_index_decides(state, after);
        },
        ExecuteMsg::SetCollateralRiskWeight { denom, risk_weight_bps } => {
            the_allowlist_stays_sound(state, denom@, risk_weight_bps);
            records_decide_their_soundness(state, after);
            lemma_index_decides(state, after);
        },
        _ => {
            records_decide_their_soundness(state, after);
            lemma_collateral_decides(state, after);
        },
    }
}

proof fn lemma_index_decides(state: Ledger, other: Ledger)
    requires
        state.collateral_indexed(),
        other.balances == state.balances,
        other.tokens == state.tokens,
    ensures
        other.collateral_indexed(),
{
    assert forall|b: Seq<char>| (#[trigger] other.deposited(b)).no_duplicates() by {
        assert(state.deposited(b).no_duplicates());
    }
    assert forall|b: Seq<char>, d: Seq<char>|
        #![trigger other.deposited(b).contains(d)]
        #![trigger other.balances.get((b, d))]
        other.deposited(b).contains(d) <==> other.balances.get((b, d)) is Some by {
        assert(state.deposited(b).contains(d) <==> state.balances.get((b, d)) is Some);
    }
}

proof fn lemma_collateral_decides(state: Ledger, other: Ledger)
    requires
        state.collateral_indexed(),
        state.allowlist_sound(),
        state.same_collateral(other),
    ensures
        other.collateral_indexed(),
        other.allowlist_sound(),
{
    lemma_index_decides(state, other);
}

proof fn lemma_repayment(
    state: Ledger,
    env: Env,
    sender: Seq<char>,
    line_id: u64,
    draw_id: u64,
)
    requires
        state.records_sound(),
        state.fee_fits(sender, line_id, draw_id),
        state.repay_draw(env, sender, line_id, draw_id).reply is Ok ==> state.audit_len(
            line_id,
            draw_id,
        ) < u64::MAX,
    ensures
        ({
            let step = state.repay_draw(env, sender, line_id, draw_id);
            &&& step.ledger.records_sound()
            &&& state.records_kept_in(step.ledger)
            &&& state.same_collateral(step.ledger)
            &&& step.ledger.config == state.config
            &&& step.reply is Err ==> step.ledger == Ledger {
                treasury: step.ledger.treasury,
                bounty: state.bounty,
                ..state
            }
            &&& step.reply is Err && !state.half_credits(
                sender,
                ExecuteMsg::RepayDraw { credit_line_id: line_id, draw_id },
            ) ==> step.ledger == state
        }),
{
    let step = state.repay_draw(env, sender, line_id, draw_id);
    records_decide_their_soundness(state, state);
    assert(state.trail_sound(line_id, draw_id));
    if step.reply is Ok {
        a_repayment_marks_the_draw(state, env, sender, line_id, draw_id);
    } else if let Some(Entry::Value(draw)) = state.draws.get((line_id, draw_id)) {
        let fee = state.fee_on(draw.amount) as u128;
        assert(0 <= draw.amount * value_or(state.protocol_fee, 0)) by (nonlinear_arith)
            requires
                0 <= draw.amount,
                0 <= value_or(state.protocol_fee, 0),
        ;
        if state.accrue(draw.denom, fee).reply is Err {
            a_refused_accrual_credits_no_bounty(state, draw.denom, fee);
        } else {
            an_accrual_credits_the_fee(state, draw.denom, fee);
        }
        records_decide_their_soundness(state, step.ledger);
    }
}

/// A refused request changes nothing, but for a repayment whose fee is credited to the treasury in
/// part and then cannot be credited to the bounty pool.
pub proof fn refused_requests_change_nothing(
    state: Ledger,
    refusals: Refusals,
    env: Env,
    sender: Seq<char>,
    msg: ExecuteMsg,
    quorum_price: Result<i128, ErrorView>,
    version_recorded: Result<(), ErrorView>,
)
    requires
        state.sound(),
        state.within_limits(refusals, env, sender, msg),
        !state.half_credits(sender, msg),
        state.execute(refusals, env, sender, msg, quorum_price, version_recorded).reply is Err,
    ensures
        state.execute(refusals, env, sender, msg, quorum_price, version_recorded).ledger == state,
{
    match msg {
        ExecuteMsg::RepayDraw { credit_line_id, draw_id } => {
            lemma_repayment(state, env, sender, credit_line_id, draw_id);
        },
        ExecuteMsg::AddAuditMemo { credit_line_id, draw_id, .. } => {
            assert(state.trail_sound(credit_line_id, draw_id));
        },
        ExecuteMsg::DepositCollateral { borrower, denom, amount } => {
            if let Ok(value) = state.transfer_amount(refusals, sender, borrower@, amount@) {
                refused_transfers_change_nothing(state, borrower@, denom@, value);
            }
        },
        ExecuteMsg::WithdrawCollateral { borrower, denom, amount } => {
            if let Ok(value) = state.transfer_amount(refusals, sender, borrower@, amount@) {
                refused_transfers_change_nothing(state, borrower@, denom@, value);
            }
        },
        _ => {},
    }
}

/// Anyone but the owner is refused as unauthorized whatever only the owner may ask for, and
/// nothing changes.
pub proof fn only_the_owner_administers(
    state: Ledger,
    owner: Seq<char>,
    refusals: Refusals,
    env: Env,
    sender: Seq<char>,
    msg: ExecuteMsg,
    quorum_price: Result<i128, ErrorView>,
    version_recorded: Result<(), ErrorView>,
)
    requires
        state.config == Ok::<Seq<char>, StdError>(owner),
        sender != owner,
        for_the_owner(msg),
    ensures
        state.execute(refusals, env, sender, msg, quorum_price, version_recorded)
            == state.refuses::<Attributes>(ErrorView::Unauthorized),
{
}

/// What the chain reports comes back as it is, and nothing changes: where it refuses an address,
/// where the owner cannot be loaded, and where a credit line or a draw does not decode.
pub proof fn chain_failures_come_back_unchanged(
    state: Ledger,
    refusals: Refusals,
    env: Env,
    sender: Seq<char>,
    msg: ExecuteMsg,
    quorum_price: Result<i128, ErrorView>,
    version_recorded: Result<(), ErrorView>,
    e: StdError,
)
    ensures
        ({
            let step = state.execute(
                refusals,
                env,
                sender,
                msg,
                quorum_price,
                version_recorded,
            );
            let handed_on = state.refuses::<Attributes>(backend(e));
            &&& refusals.contains_key(sender) && refusals[sender] == e ==> state.set_up(
                refusals,
                sender,
                version_recorded,
            ) == handed_on
            &&& for_the_owner(msg) && state.config == Err::<Seq<char>, StdError>(e) ==> step
                == handed_on
            &&& state.owner_check(sender) is Ok && (validated_in(msg) matches Some(borrower)
                && refusals.contains_key(borrower) && refusals[borrower] == e) ==> step
                == handed_on
            &&& (msg matches ExecuteMsg::CreateDraw { credit_line_id, .. } ==> malformed(
                state.credit_lines.get(credit_line_id),
                e,
            ) ==> step == handed_on)
            &&& (for_the_owner(msg) ==> state.owner_check(sender) is Ok) && (draw_in(
                msg,
            ) matches Some(key) && malformed(state.draws.get(key), e)) ==> step == handed_on
        }),
{
    match msg {
        ExecuteMsg::CreateCreditLine { .. } => {},
        ExecuteMsg::CreateDraw { .. } => {},
        ExecuteMsg::RepayDraw { .. } => {},
        ExecuteMsg::AddAuditMemo { .. } => {},
        ExecuteMsg::DepositCollateral { .. } => {},
        ExecuteMsg::WithdrawCollateral { .. } => {},
        _ => {},
    }
}

/// What a part of the protocol outside the library reports comes back as it is, and nothing
/// changes, wherever its answer is needed.
pub proof fn outside_failures_come_back_unchanged(
    state: Ledger,
    refusals: Refusals,
    env: Env,
    sender: Seq<char>,
    msg: ExecuteMsg,
    quorum_price: Result<i128, ErrorView>,
    version_recorded: Result<(), ErrorView>,
    e: ErrorView,
)
    ensures
        ({
            let step = state.execute(
                refusals,
                env,
                sender,
                msg,
                quorum_price,
                version_recorded,
            );
            &&& msg is UpdateProtocolVersion && state.owner_check(sender) is Ok && version_recorded
                == Err::<(), ErrorView>(e) ==> step == state.refuses::<Attributes>(e)
            &&& (msg matches ExecuteMsg::SubmitOraclePrices { prices } ==> state.oracle_submission(
                sender,
                prices@.len(),
            ) is Ok && quorum_price == Err::<i128, ErrorView>(e) ==> step == state.refuses::<
                Attributes,
            >(e))
        }),
{
}

/// No request changes the owner, the fee rates or the fee shares.
pub proof fn requests_keep_the_configuration(
    state: Ledger,
    refusals: Refusals,
    env: Env,
    sender: Seq<char>,
    msg: ExecuteMsg,
    quorum_price: Result<i128, ErrorView>,
    version_recorded: Result<(), ErrorView>,
)
    ensures
        ({
            let after = state.execute(
                refusals,
                env,
                sender,
                msg,
                quorum_price,
                version_recorded,
            ).ledger;
            &&& after.config == state.config
            &&& after.protocol_fee == state.protocol_fee
            &&& after.default_share == state.default_share
            &&& after.market_shares == state.market_shares
        }),
{
    collateral_and_records_are_independent(
        state,
        refusals,
        env,
        sender,
        msg,
        quorum_price,
        version_recorded,
    );
    match msg {
        ExecuteMsg::CreateCreditLine { .. } => {},
        ExecuteMsg::CreateDraw { .. } => {},
        ExecuteMsg::RepayDraw { .. } => {},
        ExecuteMsg::AddAuditMemo { .. } => {},
        _ => {},
    }
}

/// Requests about collateral change nothing but collateral; requests about credit lines and draws
/// change no collateral; and the remaining requests change neither, nor the fees.
pub proof fn collateral_and_records_are_independent(
    state: Ledger,
    refusals: Refusals,
    env: Env,
    sender: Seq<char>,
    msg: ExecuteMsg,
    quorum_price: Result<i128, ErrorView>,
    version_recorded: Result<(), ErrorView>,
)
    ensures
        ({
            let after = state.execute(
                refusals,
                env,
                sender,
                msg,
                quorum_price,
                version_recorded,
            ).ledger;
            &&& about_collateral(msg) ==> after == Ledger {
                balances: after.balances,
                tokens: after.tokens,
                allowlist: after.allowlist,
                weights: after.weights,
                ..state
            }
            &&& about_records(msg) ==> state.same_collateral(after)
            &&& !about_collateral(msg) && !about_records(msg) ==> after == Ledger {
                oracle_quorum: after.oracle_quorum,
                oracle_price: after.oracle_price,
                late_fee: after.late_fee,
                ..state
            }
            &&& !(msg is RepayDraw) ==> after.treasury == state.treasury && after.bounty
                == state.bounty
        }),
{
}

/// A late fee that was set is the one that is reported, whatever was set before; after it was
/// removed, none is.
pub proof fn late_fees_are_read_back(
    state: Ledger,
    refusals: Refusals,
    sender: Seq<char>,
    config: Option<LateFeeConfig>,
)
    requires
        state.set_late_fee(sender, config).reply is Ok,
    ensures
        state.set_late_fee(sender, config).ledger.query(refusals, QueryMsg::GetLateFeeConfig {})
            == Ok::<_, ErrorView>(
            QueryAnswerView::LateFeeConfig(LateFeeConfigResponse { config }),
        ),
{
}

/// An oracle quorum configuration that was set is the one that is reported.
pub proof fn oracle_quorums_are_read_back(
    state: Ledger,
    refusals: Refusals,
    sender: Seq<char>,
    config: OracleQuorumConfig,
)
    requires
        state.set_oracle_quorum(sender, config).reply is Ok,
    ensures
        state.set_oracle_quorum(sender, config).ledger.query(
            refusals,
            QueryMsg::GetOracleQuorumConfig {},
        ) == Ok::<_, ErrorView>(
            QueryAnswerView::OracleQuorumConfig(
                OracleQuorumConfigResponse { config: Some(config) },
            ),
        ),
{
}

/// A price that was recorded is the one that is reported, with the whole seconds of its block
/// time.
pub proof fn oracle_prices_are_read_back(
    state: Ledger,
    refusals: Refusals,
    env: Env,
    sender: Seq<char>,
    count: nat,
    price: i128,
)
    requires
        state.submit_oracle_prices(env, sender, count, Ok(price)).reply is Ok,
    ensures
        state.submit_oracle_prices(env, sender, count, Ok(price)).ledger.query(
            refusals,
            QueryMsg::GetOraclePrice {},
        ) == Ok::<_, ErrorView>(
            QueryAnswerView::OraclePrice(
                OraclePriceResponse {
                    price: Some(price),
                    timestamp: Some(env.block.time.nanos / 1_000_000_000),
                },
            ),
        ),
{
}

/// What was deposited is reported: the balance of the token after a deposit is the one before
/// with the amount added. The report is refused only where the risk-weighted total overflows.
pub proof fn deposits_are_read_back(
    state: Ledger,
    refusals: Refusals,
    sender: Seq<char>,
    borrower: Seq<char>,
    denom: Seq<char>,
    amount: Seq<char>,
)
    requires
        state.deposit_collateral(refusals, sender, borrower, denom, amount).reply is Ok,
    ensures
        ({
            let after = state.deposit_collateral(refusals, sender, borrower, denom, amount).ledger;
            let value = amount_of(amount)->0;
            match after.collateral_report(refusals, borrower, Some(denom)) {
                Ok(report) => {
                    &&& report.borrower == borrower
                    &&& report.entries == seq![
                        (
                            denom,
                            (state.balance(borrower, denom) + value) as u128,
                            state.weight(denom),
                        ),
                    ]
                },
                Err(e) => e == ErrorView::Overflow && after.weighted_total(borrower) is Err,
            }
        }),
{
}

} // verus!
