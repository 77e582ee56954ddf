//! The records of the contract, for reading: credit lines, draws and audit trails.
use vstd::prelude::*;

use crate::error::{from_chain, outcome, ContractError, ErrorView};
use crate::ledger::read;
use crate::state::{action_of, CreditLine, Draw, DrawAction, DrawAuditEntry, Timestamp};
use crate::store::{
    ledger, load_audit_count, load_audit_entry, load_borrower_id, load_credit_line,
    load_draw, load_draw_count, unknown_action_error, Deps,
};
use crate::text::same_text;

verus! {

/// What reading a record came to: the record and the error by their views.
pub open spec fn found<T: View>(r: Result<Option<T>, ContractError>) -> Result<
    Option<T::V>,
    ErrorView,
> {
    match r {
        Ok(Some(record)) => Ok(Some(record@)),
        Ok(None) => Ok(None),
        Err(e) => Err(e@),
    }
}

/// The credit line with the given id, if there is one.
///
/// # Errors
///
/// [`ContractError::Std`] if the entry does not decode.
pub fn credit_line(deps: &Deps, id: u64) -> (r: Result<Option<CreditLine>, ContractError>)
    ensures
        found(r) == read(ledger(*deps).credit_lines.get(id)),
{
    from_chain(load_credit_line(deps, id))
}

/// The credit line most recently opened for a borrower, by its id.
///
/// # Errors
///
/// [`ContractError::Std`] if the entry does not decode.
pub fn credit_line_of(deps: &Deps, borrower: &str) -> (r: Result<Option<u64>, ContractError>)
    ensures
        outcome(r) == read(ledger(*deps).borrower_ids.get(borrower@)),
{
    from_chain(load_borrower_id(deps, borrower))
}

/// The number of draws on a credit line, if there were any.
///
/// # Errors
///
/// [`ContractError::Std`] if the entry does not decode.
pub fn draw_count(deps: &Deps, credit_line_id: u64) -> (r: Result<Option<u64>, ContractError>)
    ensures
        outcome(r) == read(ledger(*deps).draw_counts.get(credit_line_id)),
{
    from_chain(load_draw_count(deps, credit_line_id))
}

/// The draw with the given id on a credit line, if there is one.
///
/// # Errors
///
/// [`ContractError::Std`] if the entry does not decode.
pub fn draw(deps: &Deps, credit_line_id: u64, draw_id: u64) -> (r: Result<
    Option<Draw>,
    ContractError,
>)
    ensures
        found(r) == read(ledger(*deps).draws.get((credit_line_id, draw_id))),
{
    from_chain(load_draw(deps, credit_line_id, draw_id))
}

/// The number of entries in the audit trail of a draw, if it has one.
///
/// # Errors
///
/// [`ContractError::Std`] if the entry does not decode.
pub fn audit_count(deps: &Deps, credit_line_id: u64, draw_id: u64) -> (r: Result<
    Option<u64>,
    ContractError,
>)
    ensures
        outcome(r) == read(ledger(*deps).audit_counts.get((credit_line_id, draw_id))),
{
    from_chain(load_audit_count(deps, credit_line_id, draw_id))
}

/// The action that `word` stands for in storage, if any.
fn action_from(word: &str) -> (r: Option<DrawAction>)
    ensures
        r == action_of(word@),
{
    if same_text(word, "draw_created") {
        Some(DrawAction::DrawCreated)
    } else if same_text(word, "repaid") {
        Some(DrawAction::Repaid)
    } else if same_text(word, "liquidated") {
        Some(DrawAction::Liquidated)
    } else if same_text(word, "memo_added") {
        Some(DrawAction::MemoAdded)
    } else {
        None
    }
}

/// The entry with the given number in the audit trail of a draw, if there is one.
///
/// # Errors
///
/// [`ContractError::Std`] if the entry does not decode.
pub fn audit_entry(deps: &Deps, credit_line_id: u64, draw_id: u64, seq: u64) -> (r: Result<
    Option<DrawAuditEntry>,
    ContractError,
>)
    ensures
        found(r) == read(ledger(*deps).audit.get((credit_line_id, draw_id, seq))),
{
    match from_chain(load_audit_entry(deps, credit_line_id, draw_id, seq))? {
        None => Ok(None),
        Some((seq, draw_id, credit_line_id, word, nanos, block_height, by, memo)) => {
            match action_from(word.as_str()) {
                Some(action) => Ok(
                    Some(
                        DrawAuditEntry {
                            seq,
                            draw_id,
                            credit_line_id,
                            action,
                            timestamp: Timestamp { nanos },
                            block_height,
                            by,
                            memo,
                        },
                    ),
                ),
                None => from_chain(Err(unknown_action_error(word.as_str()))),
            }
        },
    }
}

} // verus!
