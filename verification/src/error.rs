//! The errors of the contract.
use vstd::prelude::*;

verus! {

/// `cosmwasm_std::StdError`, carried through unread.
#[verifier::external_type_specification]
#[verifier::external_body]
pub struct ExStdError(cosmwasm_std::StdError);

/// A failure that is not specific to the credit rules.
#[derive(Debug, PartialEq)]
pub enum StdFailure {
    /// A failure described in words.
    GenericErr { msg: String },
    /// A text that is not a value of the type it should denote.
    ParseErr { target_type: String, msg: String },
    /// A failure reported by the chain: a storage entry that is missing or does not decode, or
    /// an address that the chain refuses.
    Backend(cosmwasm_std::StdError),
}

/// Why a request to the contract is refused.
#[derive(Debug, PartialEq)]
pub enum ContractError {
    /// The sender may not make the request.
    Unauthorized,
    /// There is no credit line with this id.
    CreditLineNotFound(u64),
    /// There is no draw with this id (first) on this credit line (second).
    DrawNotFound(u64, u64),
    /// An amount or a parameter is out of its range.
    InvalidAmount,
    /// A rate is above its maximum.
    RateTooHigh,
    /// The submitted prices cannot be resolved.
    OraclePriceInvalid,
    /// The token is not on the collateral allowlist.
    CollateralTokenNotAllowed,
    /// The token is on the collateral allowlist already.
    AlreadySettled,
    /// A balance or a product does not fit in 128 bits.
    Overflow,
    /// The borrower has deposited less than the amount to withdraw.
    InsufficientCollateralBalance,
    /// A treasury share is above 100 %.
    InvalidFeeShareBps,
    /// The treasury holds less than the amount to withdraw.
    InsufficientTreasuryBalance,
    /// The bounty pool holds less than the amount to withdraw.
    InsufficientBountyBalance,
    /// A failure that is not specific to the credit rules.
    Std(StdFailure),
}

/// A [`StdFailure`] with its texts as sequences of characters.
pub enum StdFailureView {
    GenericErr(Seq<char>),
    ParseErr { target_type: Seq<char>, msg: Seq<char> },
    Backend(cosmwasm_std::StdError),
}

/// A [`ContractError`] with its texts as sequences of characters.
pub enum ErrorView {
    Unauthorized,
    CreditLineNotFound(u64),
    DrawNotFound(u64, u64),
    InvalidAmount,
    RateTooHigh,
    OraclePriceInvalid,
    CollateralTokenNotAllowed,
    AlreadySettled,
    Overflow,
    InsufficientCollateralBalance,
    InvalidFeeShareBps,
    InsufficientTreasuryBalance,
    InsufficientBountyBalance,
    Std(StdFailureView),
}

impl View for StdFailure {
    type V = StdFailureView;

    open spec fn view(&self) -> StdFailureView {
        match *self {
            StdFailure::GenericErr { msg } => StdFailureView::GenericErr(msg@),
            StdFailure::ParseErr { target_type, msg } => StdFailureView::ParseErr {
                target_type: target_type@,
                msg: msg@,
            },
            StdFailure::Backend(e) => StdFailureView::Backend(e),
        }
    }
}

impl View for ContractError {
    type V = ErrorView;

    open spec fn view(&self) -> ErrorView {
        match *self {
            ContractError::Unauthorized => ErrorView::Unauthorized,
            ContractError::CreditLineNotFound(id) => ErrorView::CreditLineNotFound(id),
            ContractError::DrawNotFound(draw_id, line_id) => ErrorView::DrawNotFound(
                draw_id,
                line_id,
            ),
            ContractError::InvalidAmount => ErrorView::InvalidAmount,
            ContractError::RateTooHigh => ErrorView::RateTooHigh,
            ContractError::OraclePriceInvalid => ErrorView::OraclePriceInvalid,
            ContractError::CollateralTokenNotAllowed => ErrorView::CollateralTokenNotAllowed,
            ContractError::AlreadySettled => ErrorView::AlreadySettled,
            ContractError::Overflow => ErrorView::Overflow,
            ContractError::InsufficientCollateralBalance => ErrorView::InsufficientCollateralBalance,
            ContractError::InvalidFeeShareBps => ErrorView::InvalidFeeShareBps,
            ContractError::InsufficientTreasuryBalance => ErrorView::InsufficientTreasuryBalance,
            ContractError::InsufficientBountyBalance => ErrorView::InsufficientBountyBalance,
            ContractError::Std(e) => ErrorView::Std(e@),
        }
    }
}

/// The view of the failure `e` reported by the chain.
pub open spec fn backend(e: cosmwasm_std::StdError) -> ErrorView {
    ErrorView::Std(StdFailureView::Backend(e))
}

/// The view of a failure described by `msg`.
pub open spec fn generic(msg: Seq<char>) -> ErrorView {
    ErrorView::Std(StdFailureView::GenericErr(msg))
}

/// The view of the failure to read `text` as an amount.
pub open spec fn not_an_amount(text: Seq<char>) -> ErrorView {
    ErrorView::Std(StdFailureView::ParseErr { target_type: "Uint128"@, msg: text })
}

/// What a fallible call came to: its value as it is, its error by its view.
pub open spec fn outcome<T>(r: Result<T, ContractError>) -> Result<T, ErrorView> {
    match r {
        Ok(value) => Ok(value),
        Err(e) => Err(e@),
    }
}

/// A failure described by `msg`.
pub(crate) fn generic_error(msg: &str) -> (r: ContractError)
    ensures
        r@ == generic(msg@),
{
    ContractError::Std(StdFailure::GenericErr { msg: msg.to_owned() })
}

/// The failure to read `text` as an amount.
pub(crate) fn parse_error(text: String) -> (r: ContractError)
    ensures
        r@ == not_an_amount(text@),
{
    ContractError::Std(StdFailure::ParseErr { target_type: "Uint128".to_owned(), msg: text })
}

/// Takes a failure reported by the chain over into the errors of the contract.
pub(crate) fn from_chain<T>(r: Result<T, cosmwasm_std::StdError>) -> (o: Result<T, ContractError>)
    ensures
        match r {
            Ok(value) => o == Ok::<T, ContractError>(value),
            Err(e) => o == Err::<T, ContractError>(ContractError::Std(StdFailure::Backend(e))),
        },
{
    match r {
        Ok(value) => Ok(value),
        Err(e) => Err(ContractError::Std(StdFailure::Backend(e))),
    }
}

} // verus!
