//! Which requests and queries stay within what the machine can hold, for every state.
use cosmwasm_std::StdError;
use vstd::prelude::*;
use vstd::utf8::encode_utf8;

use crate::chain::Env;
use crate::laws::credit::fee_rate;
use crate::laws::tokens::on_allowlist;
use crate::ledger::{value_or, Entry, Ledger, Refusals};
use crate::msg::{ExecuteMsg, QueryMsg};
use crate::store::key_fits;
use crate::text::amount_of;

verus! {

/// An address is short enough for a key if its encoding has at most 65535 bytes.
pub proof fn keys_take_two_length_bytes(part: Seq<char>)
    ensures
        key_fits(part) <==> encode_utf8(part).len() < 0x1_0000,
{
}

/// Opening a credit line is out of reach exactly where it would be accepted and the number of
/// credit lines is at its end.
pub proof fn credit_lines_can_be_counted(
    state: Ledger,
    refusals: Refusals,
    env: Env,
    sender: Seq<char>,
    msg: ExecuteMsg,
)
    requires
        msg is CreateCreditLine,
    ensures
        msg matches ExecuteMsg::CreateCreditLine { borrower, collateral_amount, credit_amount, .. }
            && (!state.within_limits(refusals, env, sender, msg) <==> {
            &&& state.credit_line_count == Ok::<u64, StdError>(u64::MAX)
            &&& state.config == Ok::<Seq<char>, StdError>(sender)
            &&& !refusals.contains_key(borrower@)
            &&& amount_of(collateral_amount@) is Some
            &&& amount_of(credit_amount@) is Some
        }),
{
}

/// A draw is out of reach exactly where it would be accepted and the number of draws on its credit
/// line is at its end.
pub proof fn draws_can_be_counted(
    state: Ledger,
    refusals: Refusals,
    env: Env,
    sender: Seq<char>,
    msg: ExecuteMsg,
)
    requires
        msg is CreateDraw,
    ensures
        msg matches ExecuteMsg::CreateDraw { credit_line_id, amount, .. } && (
        !state.within_limits(refusals, env, sender, msg) <==> {
            &&& state.draw_counts.get(credit_line_id) == Some(Entry::Value(u64::MAX))
            &&& state.credit_lines.get(credit_line_id) matches Some(Entry::Value(line))
                && line.borrower == sender
            &&& amount_of(amount@) is Some
        }),
{
}

/// A repayment by whoever made the draw is out of reach exactly where its fee does not fit in 128
/// bits, or where it would be accepted and the length of the audit trail is at its end. A
/// repayment by anyone else is within reach.
pub proof fn repayments_can_be_recorded(
    state: Ledger,
    refusals: Refusals,
    env: Env,
    sender: Seq<char>,
    line_id: u64,
    draw_id: u64,
    bps: u32,
)
    requires
        fee_rate(state, bps) || (state.protocol_fee matches Some(Entry::Malformed(_)) && bps == 0),
    ensures
        ({
            let msg = ExecuteMsg::RepayDraw { credit_line_id: line_id, draw_id };
            let full = state.audit_counts.get((line_id, draw_id)) == Some(Entry::Value(u64::MAX));
            let within = state.within_limits(refusals, env, sender, msg);
            match state.draws.get((line_id, draw_id)) {
                Some(Entry::Value(draw)) => if draw.drawn_by == sender {
                    &&& draw.amount * bps >= (u128::MAX + 1) * 10_000 ==> !within
                    &&& draw.amount * bps < (u128::MAX + 1) * 10_000 ==> (!within <==> full
                        && state.repay_draw(env, sender, line_id, draw_id).reply is Ok)
                } else {
                    within
                },
                _ => within,
            }
        }),
{
    if let Some(Entry::Value(draw)) = state.draws.get((line_id, draw_id)) {
        assert(0 <= draw.amount * bps) by (nonlinear_arith)
            requires
                0 <= draw.amount,
                0 <= bps,
        ;
        assert(bps == value_or(state.protocol_fee, 0));
    }
}

/// A memo is out of reach exactly where it would be accepted and the length of the audit trail is
/// at its end.
pub proof fn memos_can_be_recorded(
    state: Ledger,
    refusals: Refusals,
    env: Env,
    sender: Seq<char>,
    msg: ExecuteMsg,
)
    requires
        msg is AddAuditMemo,
    ensures
        msg matches ExecuteMsg::AddAuditMemo { credit_line_id, draw_id, .. } && (
        !state.within_limits(refusals, env, sender, msg) <==> {
            &&& state.audit_counts.get((credit_line_id, draw_id)) == Some(Entry::Value(u64::MAX))
            &&& state.config == Ok::<Seq<char>, StdError>(sender)
            &&& state.draws.get((credit_line_id, draw_id)) matches Some(Entry::Value(_))
        }),
{
}

/// A deposit or a withdrawal is out of reach exactly where its balance would be looked up for a
/// borrower that does not fit in a key. Requests that count nothing and compute no fee are always
/// within reach.
pub proof fn transfers_fit_in_keys(
    state: Ledger,
    refusals: Refusals,
    env: Env,
    sender: Seq<char>,
    msg: ExecuteMsg,
)
    ensures
        msg matches ExecuteMsg::DepositCollateral { borrower, denom, amount } ==> (
        !state.within_limits(refusals, env, sender, msg) <==> {
            &&& state.config == Ok::<Seq<char>, StdError>(sender)
            &&& !refusals.contains_key(borrower@)
            &&& amount_of(amount@) matches Some(value) && value > 0
            &&& on_allowlist(state, denom@)
            &&& encode_utf8(borrower@).len() > 0xFFFF
        }),
        msg matches ExecuteMsg::WithdrawCollateral { borrower, denom: _, amount } ==> (
        !state.within_limits(refusals, env, sender, msg) <==> {
            &&& state.config == Ok::<Seq<char>, StdError>(sender)
            &&& !refusals.contains_key(borrower@)
            &&& amount_of(amount@) matches Some(value) && value > 0
            &&& encode_utf8(borrower@).len() > 0xFFFF
        }),
        msg is UpdateProtocolVersion || msg is SetOracleQuorumConfig || msg is SubmitOraclePrices
            || msg is SetLateFeeConfig || msg is AddCollateralToken || msg is RemoveCollateralToken
            || msg is SetCollateralRiskWeight ==> state.within_limits(refusals, env, sender, msg),
{
}

/// A query is out of reach exactly where it would look up a balance for a borrower that does not
/// fit in a key.
pub proof fn queries_fit_in_keys(state: Ledger, refusals: Refusals, msg: QueryMsg)
    ensures
        msg matches QueryMsg::GetCollateralBalance { borrower, denom } ==> (
        !state.query_within_limits(refusals, msg) <==> {
            &&& !refusals.contains_key(borrower@)
            &&& denom is Some || (state.tokens.get(borrower@) matches Some(Entry::Value(list))
                && list.len() > 0)
            &&& encode_utf8(borrower@).len() > 0xFFFF
        }),
        !(msg is GetCollateralBalance) ==> state.query_within_limits(refusals, msg),
{
}

} // verus!
