//! Whether a request stays within what the machine can hold.
//!
//! Requests that do not are outside the contracts of [`execute`] and [`query`]. These functions
//! tell them apart beforehand, or test and then call.
use vstd::prelude::*;

use crate::chain::{replied, Env, MessageInfo, Response};
use crate::collateral::is_collateral_token_allowed;
use crate::contract::{
    answered, execute, multiply_ratio, query, transfer_amount, Delegated, QueryAnswer,
    PROTOCOL_FEE_SCALE,
};
use crate::error::{outcome, ContractError};
use crate::fees::{assert_owner, can_accrue};
use crate::ledger::Entry;
use crate::msg::{ExecuteMsg, QueryMsg};
use crate::store::{
    addr_validate, key_fits, ledger, ledger_mut, load_audit_count, load_credit_line,
    load_credit_line_count, load_draw, load_draw_count, load_protocol_fee, load_tokens, reading,
    refusals, refusals_mut, Deps, DepsMut,
};
use crate::text::{parse_amount, same_text};

verus! {

/// Whether `borrower` fits in a key.
fn fits_in_key(borrower: &str) -> (r: bool)
    ensures
        r == key_fits(borrower@),
{
    borrower.as_bytes().len() <= 0xFFFF
}

/// Whether the fee of `bps` on `amount` fits in 128 bits.
fn fee_in_range(amount: u128, bps: u32) -> (r: bool)
    ensures
        r == (amount * bps / PROTOCOL_FEE_SCALE as int <= u128::MAX),
{
    let scale = PROTOCOL_FEE_SCALE as u128;
    let wide = bps as u128;
    let whole = amount / scale;
    let rest = amount % scale;
    proof {
        assert(rest * wide <= 10_000 * 0x1_0000_0000) by (nonlinear_arith)
            requires
                rest < 10_000,
                wide < 0x1_0000_0000,
        ;
        assert(amount * bps == 10_000 * (whole * wide) + rest * wide) by (nonlinear_arith)
            requires
                amount == 10_000 * whole + rest,
                wide == bps,
        ;
    }
    match whole.checked_mul(wide) {
        None => false,
        Some(product) => product.checked_add(rest * wide / scale).is_some(),
    }
}

/// Whether the number of audit entries of a draw is at its end.
fn audit_full(deps: &Deps, credit_line_id: u64, draw_id: u64) -> (r: bool)
    ensures
        r == (ledger(*deps).audit_counts.get((credit_line_id, draw_id)) == Some(
            Entry::Value(u64::MAX),
        )),
{
    match load_audit_count(deps, credit_line_id, draw_id) {
        Ok(Some(count)) => count == u64::MAX,
        _ => false,
    }
}

/// Whether a repayment stays within the limits.
fn repayment_within_limits(
    deps: &Deps,
    env: Env,
    info: &MessageInfo,
    credit_line_id: u64,
    draw_id: u64,
) -> (r: bool)
    ensures
        r == ledger(*deps).within_limits(
            refusals(*deps),
            env,
            info.sender@,
            ExecuteMsg::RepayDraw { credit_line_id, draw_id },
        ),
{
    let draw = match load_draw(deps, credit_line_id, draw_id) {
        Ok(Some(draw)) => draw,
        _ => return true,
    };
    if !same_text(info.sender.as_str(), draw.drawn_by.as_str()) {
        return true;
    }
    let fee_bps = match load_protocol_fee(deps) {
        Ok(Some(bps)) => bps,
        Ok(None) => 0,
        Err(_) => {
            proof {
                assert(draw.amount * 0 == 0) by (nonlinear_arith);
            }
            return true;
        },
    };
    if !fee_in_range(draw.amount, fee_bps) {
        return false;
    }
    let fee = multiply_ratio(draw.amount, fee_bps, PROTOCOL_FEE_SCALE);
    !audit_full(deps, credit_line_id, draw_id) || !can_accrue(deps, draw.denom.as_str(), fee)
}

/// Whether `msg` may be handed to [`execute`].
pub fn execute_within_limits(deps: &Deps, env: Env, info: &MessageInfo, msg: &ExecuteMsg) -> (r:
    bool)
    ensures
        r == ledger(*deps).within_limits(refusals(*deps), env, info.sender@, *msg),
{
    let sender = info.sender.as_str();
    match msg {
        ExecuteMsg::CreateCreditLine { borrower, collateral_amount, credit_amount, .. } => {
            let full = match load_credit_line_count(deps) {
                Ok(count) => count == u64::MAX,
                Err(_) => false,
            };
            !(full && assert_owner(deps, sender).is_ok() && addr_validate(
                deps,
                borrower.as_str(),
            ).is_ok() && parse_amount(collateral_amount.as_str()).is_some() && parse_amount(
                credit_amount.as_str(),
            ).is_some())
        },
        ExecuteMsg::CreateDraw { credit_line_id, amount, .. } => {
            let full = match load_draw_count(deps, *credit_line_id) {
                Ok(Some(count)) => count == u64::MAX,
                _ => false,
            };
            let drawn = match load_credit_line(deps, *credit_line_id) {
                Ok(Some(line)) => same_text(sender, line.borrower.as_str()),
                _ => false,
            };
            !(full && drawn && parse_amount(amount.as_str()).is_some())
        },
        ExecuteMsg::RepayDraw { credit_line_id, draw_id } => repayment_within_limits(
            deps,
            env,
            info,
            *credit_line_id,
            *draw_id,
        ),
        ExecuteMsg::AddAuditMemo { credit_line_id, draw_id, .. } => {
            let found = match load_draw(deps, *credit_line_id, *draw_id) {
                Ok(Some(_)) => true,
                _ => false,
            };
            !(found && assert_owner(deps, sender).is_ok() && audit_full(
                deps,
                *credit_line_id,
                *draw_id,
            ))
        },
        ExecuteMsg::DepositCollateral { borrower, denom, amount } => match transfer_amount(
            deps,
            info,
            borrower.as_str(),
            amount.clone(),
        ) {
            Ok(value) => value == 0 || !is_collateral_token_allowed(deps, denom.as_str())
                || fits_in_key(borrower.as_str()),
            Err(_) => true,
        },
        ExecuteMsg::WithdrawCollateral { borrower, denom: _, amount } => match transfer_amount(
            deps,
            info,
            borrower.as_str(),
            amount.clone(),
        ) {
            Ok(value) => value == 0 || fits_in_key(borrower.as_str()),
            Err(_) => true,
        },
        _ => true,
    }
}

/// Whether `msg` may be handed to [`query`].
pub fn query_within_limits(deps: &Deps, msg: &QueryMsg) -> (r: bool)
    ensures
        r == ledger(*deps).query_within_limits(refusals(*deps), *msg),
{
    match msg {
        QueryMsg::GetCollateralBalance { borrower, denom } => {
            let held = match load_tokens(deps, borrower.as_str()) {
                Ok(Some(tokens)) => tokens.len() > 0,
                _ => false,
            };
            !addr_validate(deps, borrower.as_str()).is_ok() || (!denom.is_some() && !held)
                || fits_in_key(borrower.as_str())
        },
        _ => true,
    }
}

/// Carries out a request as [`execute`] does, where it stays within the limits. Where it does not,
/// nothing happens and the result is `None`.
///
/// # Errors
///
/// Those of [`execute`].
pub fn try_execute(
    deps: &mut DepsMut,
    env: Env,
    info: MessageInfo,
    msg: ExecuteMsg,
    delegated: Delegated,
) -> (r: Option<Result<Response, ContractError>>)
    ensures
        r is Some <==> ledger_mut(*old(deps)).within_limits(
            refusals_mut(*old(deps)),
            env,
            info.sender@,
            msg,
        ),
        match r {
            None => ledger_mut(*final(deps)) == ledger_mut(*old(deps)),
            Some(result) => {
                let step = ledger_mut(*old(deps)).execute(
                    refusals_mut(*old(deps)),
                    env,
                    info.sender@,
                    msg,
                    outcome(delegated.quorum_price),
                    outcome(delegated.version_recorded),
                );
                replied(result) == step.reply && ledger_mut(*final(deps)) == step.ledger
            },
        },
        refusals_mut(*final(deps)) == refusals_mut(*old(deps)),
{
    if execute_within_limits(&reading(deps), env, &info, &msg) {
        Some(execute(deps, env, info, msg, delegated))
    } else {
        None
    }
}

/// Answers a query as [`query`] does, where it stays within the limits, and `None` where it does
/// not.
///
/// # Errors
///
/// Those of [`query`].
pub fn try_query(deps: &Deps, env: Env, msg: QueryMsg) -> (r: Option<
    Result<QueryAnswer, ContractError>,
>)
    ensures
        r is Some <==> ledger(*deps).query_within_limits(refusals(*deps), msg),
        r matches Some(result) ==> answered(result) == ledger(*deps).query(refusals(*deps), msg),
{
    if query_within_limits(deps, &msg) {
        Some(query(deps, env, msg))
    } else {
        None
    }
}

} // verus!
