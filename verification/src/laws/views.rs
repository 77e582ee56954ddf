//! Values are what they are made of: views keep every field, and results keep their contents.
use cosmwasm_std::StdError;
use vstd::prelude::*;

use crate::chain::{replied, Attributes, Response};
use crate::collateral::holdings_of;
use crate::contract::{answered, QueryAnswer, QueryAnswerView};
use crate::error::{
    backend, generic, not_an_amount, outcome, ContractError, ErrorView, StdFailure, StdFailureView,
};
use crate::fees::PROTOCOL_FEE_BPS;
use crate::ledger::{malformed, read, value_of, value_or, Entry};
use crate::msg::CollateralBalanceResponse;
use crate::records::found;
use crate::state::{
    CreditLine, Draw, DrawAuditEntry, BORROWER_COLLATERAL_TOKENS, BORROWER_TO_ID, BOUNTY_BALANCE,
    COLLATERAL_BALANCES, COLLATERAL_RISK_WEIGHTS, COLLATERAL_TOKEN_ALLOWLIST, CONFIG, CREDIT_LINES,
    CREDIT_LINE_COUNT, DEFAULT_FEE_SHARE_BPS, DRAWS, DRAW_AUDIT, DRAW_AUDIT_COUNT, DRAW_COUNT,
    LATE_FEE_CONFIG, MARKET_FEE_SHARE_BPS, ORACLE_PRICE_RECORD, ORACLE_QUORUM_CONFIG,
    TREASURY_BALANCE,
};
use crate::text::texts;

verus! {

/// Reading an entry gives its value, nothing where there is none, and what decoding reports where
/// it does not decode.
pub proof fn entries_are_read_as_stored<V>(v: V, default: V, e: StdError)
    ensures
        read(Some(Entry::Value(v))) == Ok::<_, ErrorView>(Some(v)),
        read::<V>(None) == Ok::<Option<V>, ErrorView>(None),
        read::<V>(Some(Entry::Malformed(e))) == Err::<Option<V>, _>(
            ErrorView::Std(StdFailureView::Backend(e)),
        ),
        value_of(Some(Entry::Value(v))) == Some(v),
        value_of::<V>(None) is None,
        value_of::<V>(Some(Entry::Malformed(e))) is None,
        value_or(Some(Entry::Value(v)), default) == v,
        value_or(None, default) == default,
        value_or(Some(Entry::Malformed(e)), default) == default,
{
}

/// The storage keys, by which what was stored is found again.
pub proof fn storage_keys_stay_as_they_are()
    ensures
        CONFIG@ == "config"@,
        CREDIT_LINE_COUNT@ == "clc"@,
        CREDIT_LINES@ == "cl"@,
        DRAW_COUNT@ == "dcnt"@,
        DRAWS@ == "dr"@,
        DRAW_AUDIT_COUNT@ == "dacnt"@,
        DRAW_AUDIT@ == "da"@,
        BORROWER_TO_ID@ == "bid"@,
        ORACLE_QUORUM_CONFIG@ == "orc_qcfg"@,
        ORACLE_PRICE_RECORD@ == "orc_prc"@,
        DEFAULT_FEE_SHARE_BPS@ == "dfsb"@,
        MARKET_FEE_SHARE_BPS@ == "mfsb"@,
        TREASURY_BALANCE@ == "trb"@,
        BOUNTY_BALANCE@ == "bnb"@,
        LATE_FEE_CONFIG@ == "lfc"@,
        COLLATERAL_BALANCES@ == "cb"@,
        BORROWER_COLLATERAL_TOKENS@ == "bct"@,
        COLLATERAL_TOKEN_ALLOWLIST@ == "ctal"@,
        COLLATERAL_RISK_WEIGHTS@ == "crw"@,
        PROTOCOL_FEE_BPS@ == "pfb"@,
{
}

/// An entry is malformed with an error exactly if that is what decoding it reports.
pub proof fn malformed_entries_report_their_error<V>(slot: Option<Entry<V>>, e: StdError)
    ensures
        malformed(slot, e) <==> slot == Some(Entry::<V>::Malformed(e)),
{
}

/// Records are seen with all their fields.
pub proof fn records_are_seen_as_they_are(line: CreditLine, draw: Draw, entry: DrawAuditEntry)
    ensures
        line@.id == line.id,
        line@.borrower == line.borrower@,
        line@.collateral_denom == line.collateral_denom@,
        line@.collateral_amount == line.collateral_amount,
        line@.credit_denom == line.credit_denom@,
        line@.credit_amount == line.credit_amount,
        line@.active == line.active,
        draw@.id == draw.id,
        draw@.credit_line_id == draw.credit_line_id,
        draw@.amount == draw.amount,
        draw@.denom == draw.denom@,
        draw@.drawn_at == draw.drawn_at,
        draw@.drawn_by == draw.drawn_by@,
        draw@.repaid == draw.repaid,
        entry@.seq == entry.seq,
        entry@.draw_id == entry.draw_id,
        entry@.credit_line_id == entry.credit_line_id,
        entry@.action == entry.action,
        entry@.timestamp == entry.timestamp,
        entry@.block_height == entry.block_height,
        entry@.by == entry.by@,
        entry@.memo == entry.memo@,
{
}

/// Errors are seen as they are, each kind as itself and with its contents.
pub proof fn errors_are_seen_as_they_are(error: ContractError, e: StdError, text: Seq<char>)
    ensures
        error is Unauthorized <==> error@ is Unauthorized,
        error is InvalidAmount <==> error@ is InvalidAmount,
        error is RateTooHigh <==> error@ is RateTooHigh,
        error is OraclePriceInvalid <==> error@ is OraclePriceInvalid,
        error is CollateralTokenNotAllowed <==> error@ is CollateralTokenNotAllowed,
        error is AlreadySettled <==> error@ is AlreadySettled,
        error is Overflow <==> error@ is Overflow,
        error is InsufficientCollateralBalance <==> error@ is InsufficientCollateralBalance,
        error is InvalidFeeShareBps <==> error@ is InvalidFeeShareBps,
        error is InsufficientTreasuryBalance <==> error@ is InsufficientTreasuryBalance,
        error is InsufficientBountyBalance <==> error@ is InsufficientBountyBalance,
        match error {
            ContractError::CreditLineNotFound(id) => error@ == ErrorView::CreditLineNotFound(id),
            ContractError::DrawNotFound(draw_id, line_id) => error@ == ErrorView::DrawNotFound(
                draw_id,
                line_id,
            ),
            ContractError::Std(StdFailure::GenericErr { msg }) => error@ == ErrorView::Std(
                StdFailureView::GenericErr(msg@),
            ),
            ContractError::Std(StdFailure::ParseErr { target_type, msg }) => error@
                == ErrorView::Std(
                StdFailureView::ParseErr { target_type: target_type@, msg: msg@ },
            ),
            ContractError::Std(StdFailure::Backend(reported)) => error@ == ErrorView::Std(
                StdFailureView::Backend(reported),
            ),
            _ => !(error@ is Std || error@ is CreditLineNotFound || error@ is DrawNotFound),
        },
        backend(e) == ErrorView::Std(StdFailureView::Backend(e)),
        generic(text) == ErrorView::Std(StdFailureView::GenericErr(text)),
        not_an_amount(text) == ErrorView::Std(
            StdFailureView::ParseErr { target_type: "Uint128"@, msg: text },
        ),
{
}

/// Results are seen as they are: a value as a value, an error as an error, with its contents.
pub proof fn results_are_seen_as_they_are(
    amount: Result<u128, ContractError>,
    response: Result<Response, ContractError>,
    answer: Result<QueryAnswer, ContractError>,
    line: Result<Option<CreditLine>, ContractError>,
)
    ensures
        match amount {
            Ok(value) => outcome(amount) == Ok::<u128, ErrorView>(value),
            Err(e) => outcome(amount) == Err::<u128, _>(e@),
        },
        match response {
            Ok(value) => replied(response) == Ok::<Attributes, ErrorView>(value@),
            Err(e) => replied(response) == Err::<Attributes, _>(e@),
        },
        match answer {
            Ok(value) => answered(answer) == Ok::<QueryAnswerView, ErrorView>(value@),
            Err(e) => answered(answer) == Err::<QueryAnswerView, _>(e@),
        },
        match line {
            Ok(Some(record)) => found(line) matches Ok(Some(seen)) && seen == record@,
            Ok(None) => found(line) matches Ok(None),
            Err(e) => found(line) matches Err(fault) && fault == e@,
        },
{
}

/// Replies and answers are seen with everything that they state, in its order.
pub proof fn answers_are_seen_as_they_are(
    response: Response,
    answer: QueryAnswer,
    collateral: CollateralBalanceResponse,
    held: Seq<(String, u128)>,
    list: Seq<String>,
)
    ensures
        response@.len() == response.attributes@.len(),
        forall|i: int|
            0 <= i < response@.len() ==> (#[trigger] response@[i]) == (
                response.attributes@[i].key@,
                response.attributes@[i].value@,
            ),
        collateral@.borrower == collateral.borrower@,
        collateral@.weighted_total == collateral.weighted_total,
        collateral@.entries.len() == collateral.entries@.len(),
        forall|i: int|
            0 <= i < collateral@.entries.len() ==> (#[trigger] collateral@.entries[i]) == (
                collateral.entries@[i].denom@,
                collateral.entries@[i].amount,
                collateral.entries@[i].risk_weight_bps,
            ),
        holdings_of(held).len() == held.len(),
        forall|i: int|
            0 <= i < held.len() ==> #[trigger] holdings_of(held)[i] == (held[i].0@, held[i].1),
        texts(list).len() == list.len(),
        forall|i: int| 0 <= i < list.len() ==> #[trigger] texts(list)[i] == list[i]@,
        match answer {
            QueryAnswer::OracleQuorumConfig(resp) => answer@ == QueryAnswerView::OracleQuorumConfig(
                resp,
            ),
            QueryAnswer::OraclePrice(resp) => answer@ == QueryAnswerView::OraclePrice(resp),
            QueryAnswer::LateFeeConfig(resp) => answer@ == QueryAnswerView::LateFeeConfig(resp),
            QueryAnswer::CollateralBalance(resp) => answer@ == QueryAnswerView::CollateralBalance(
                resp@,
            ),
            QueryAnswer::CollateralAllowlist(resp) => answer@
                == QueryAnswerView::CollateralAllowlist(texts(resp.denoms@)),
            QueryAnswer::Report(msg) => answer@ == QueryAnswerView::Report(msg),
        },
{
}

} // verus!
