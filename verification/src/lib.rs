//! Credit lines against collateral, with draws, repayments, protocol fees and an audit trail.
pub mod chain;
pub mod collateral;
pub mod contract;
pub mod error;
pub mod fees;
pub mod laws;
pub mod ledger;
pub mod limits;
pub mod msg;
pub mod penalties;
pub mod records;
pub mod state;
pub mod store;
pub mod text;

pub use crate::error::ContractError;
