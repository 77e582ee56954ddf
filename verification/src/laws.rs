//! What holds of the contract as a whole.
pub mod amounts;
pub mod calls;
pub mod collateral;
pub mod credit;
pub mod fees;
pub mod limits;
pub mod order;
pub mod queries;
pub mod records;
pub mod requests;
pub mod settings;
pub mod shares;
pub mod tokens;
pub mod views;
