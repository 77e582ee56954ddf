//! The late-fee configuration.
use vstd::prelude::*;

use crate::error::ContractError;

verus! {

/// Maximum late-fee surcharge, in basis points.
pub const MAX_SURCHARGE_BPS: u32 = 10_000;

/// A fixed amount for each missed installment.
#[derive(Debug, Clone, Copy, PartialEq, Eq, Structural)]
pub struct FlatFeeConfig {
    pub amount: u128,
}

/// A surcharge on the interest rate.
#[derive(Debug, Clone, Copy, PartialEq, Eq, Structural)]
pub struct AprFeeConfig {
    pub surcharge_bps: u32,
}

/// How a late payment is charged.
#[derive(Debug, Clone, Copy, PartialEq, Eq, Structural)]
pub enum LateFeeConfig {
    Flat(FlatFeeConfig),
    AprBased(AprFeeConfig),
}

impl LateFeeConfig {
    /// Why the configuration is refused, if it is.
    pub open spec fn fault(self) -> Option<ContractError> {
        match self {
            LateFeeConfig::Flat(flat) => if flat.amount == 0 {
                Some(ContractError::InvalidAmount)
            } else {
                None
            },
            LateFeeConfig::AprBased(apr) => if apr.surcharge_bps > MAX_SURCHARGE_BPS {
                Some(ContractError::RateTooHigh)
            } else {
                None
            },
        }
    }
}

/// Accepts a flat fee above zero and a surcharge of at most [`MAX_SURCHARGE_BPS`].
///
/// # Errors
///
/// - [`ContractError::InvalidAmount`] if the flat fee is zero.
/// - [`ContractError::RateTooHigh`] if the surcharge is above [`MAX_SURCHARGE_BPS`].
pub fn validate_late_fee_config(config: &LateFeeConfig) -> (r: Result<(), ContractError>)
    ensures
        match config.fault() {
            None => r == Ok::<(), ContractError>(()),
            Some(e) => r == Err::<(), ContractError>(e),
        },
{
    match config {
        LateFeeConfig::Flat(flat) => {
            if flat.amount == 0 {
                return Err(ContractError::InvalidAmount);
            }
        },
        LateFeeConfig::AprBased(apr) => {
            if apr.surcharge_bps > MAX_SURCHARGE_BPS {
                return Err(ContractError::RateTooHigh);
            }
        },
    }
    Ok(())
}

} // verus!
