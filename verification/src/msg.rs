//! Requests to the contract and its replies.
use vstd::prelude::*;

use crate::penalties::LateFeeConfig;
use crate::state::{DrawAuditEvent, OracleQuorumConfig, Timestamp};

verus! {

/// Sets the contract up.
#[derive(Debug, Clone, PartialEq, Eq)]
pub struct InstantiateMsg {
    /// The address that will administer the contract.
    pub owner: String,
}

/// A request that may change the state of the contract.
#[derive(Debug, Clone, PartialEq, Eq)]
pub enum ExecuteMsg {
    /// Open a credit line for a borrower (owner only).
    CreateCreditLine {
        borrower: String,
        collateral_denom: String,
        collateral_amount: String,
        credit_denom: String,
        credit_amount: String,
    },
    /// Draw on a credit line (its borrower only).
    CreateDraw { credit_line_id: u64, amount: String, denom: String },
    /// Repay a draw (whoever drew it only).
    RepayDraw { credit_line_id: u64, draw_id: u64 },
    /// Add a memo to the audit trail of a draw (owner only).
    AddAuditMemo { credit_line_id: u64, draw_id: u64, memo: String },
    /// Record the protocol version (owner only).
    UpdateProtocolVersion { major: u32, minor: u32 },
    /// Configure the oracle quorum (owner only).
    SetOracleQuorumConfig { min_quorum_k: u32, max_deviation_bps: u32, max_age_seconds: u64 },
    /// Submit oracle prices and record the price they resolve to (owner only).
    SubmitOraclePrices { prices: Vec<i128> },
    /// Set the late-fee configuration, or remove it with `None` (owner only).
    SetLateFeeConfig { config: Option<LateFeeConfig> },
    /// Deposit a collateral token on behalf of a borrower (owner only).
    DepositCollateral { borrower: String, denom: String, amount: String },
    /// Withdraw a collateral token for a borrower (owner only).
    WithdrawCollateral { borrower: String, denom: String, amount: String },
    /// Add a token to the collateral allowlist (owner only).
    AddCollateralToken { denom: String, risk_weight_bps: u32 },
    /// Remove a token from the collateral allowlist (owner only).
    RemoveCollateralToken { denom: String },
    /// Set the risk weight of a token on the collateral allowlist (owner only).
    SetCollateralRiskWeight { denom: String, risk_weight_bps: u32 },
}

/// A request that only reads the state of the contract.
#[derive(Debug, Clone, PartialEq, Eq)]
pub enum QueryMsg {
    DrawAuditTrail { credit_line_id: u64, draw_id: Option<u64> },
    ProofOfReserve { denom: Option<String> },
    BorrowerHealthFactor { borrower: String },
    GetOracleQuorumConfig {},
    GetOraclePrice {},
    GetLateFeeConfig {},
    GetCollateralBalance {
        borrower: String,
        /// The token to report, or `None` for all of them.
        denom: Option<String>,
    },
    GetCollateralAllowlist {},
}

/// A request to move to this version of the contract.
#[derive(Debug, Clone, PartialEq, Eq)]
pub struct MigrateMsg {}

/// A draw with its audit trail.
#[derive(Debug, Clone, PartialEq, Eq)]
pub struct DrawAuditTrailResponse {
    pub credit_line_id: u64,
    pub draw_id: u64,
    pub draw_amount: String,
    pub draw_denom: String,
    pub drawn_at: Timestamp,
    pub drawn_by: String,
    pub repaid: bool,
    pub events: Vec<DrawAuditEvent>,
}

/// The reserves of the contract as a whole.
#[derive(Debug, Clone, PartialEq, Eq)]
pub struct ProofOfReserveResponse {
    pub total_credit_lines: u64,
    pub active_credit_lines: u64,
    pub total_collateral: u128,
    pub total_credit_limit: u128,
    pub total_drawn: u128,
    pub total_repaid: u128,
    pub net_outstanding: u128,
    pub reserves_by_denom: Vec<DenomReserve>,
}

/// The reserves of one token.
#[derive(Debug, Clone, PartialEq, Eq)]
pub struct DenomReserve {
    pub denom: String,
    pub collateral_amount: u128,
    pub credit_limit: u128,
    pub drawn_amount: u128,
    pub repaid_amount: u128,
    pub net_outstanding: u128,
}

/// The health of the credit lines of a borrower.
#[derive(Debug, Clone, PartialEq, Eq)]
pub struct BorrowerHealthFactorResponse {
    pub borrower: String,
    pub credit_lines: Vec<CreditLineHealthResponse>,
}

/// The health of one credit line.
#[derive(Debug, Clone, PartialEq, Eq)]
pub struct CreditLineHealthResponse {
    pub credit_line_id: u64,
    pub collateral_denom: String,
    pub collateral_amount: u128,
    pub credit_denom: String,
    pub credit_amount: u128,
    pub utilized_amount: u128,
    pub health_factor_bps: u32,
}

/// The oracle quorum configuration, or `None` if unset.
#[derive(Debug, Clone, Copy, PartialEq, Eq, Structural)]
pub struct OracleQuorumConfigResponse {
    pub config: Option<OracleQuorumConfig>,
}

/// The last resolved oracle price, or `None` if there is none.
#[derive(Debug, Clone, Copy, PartialEq, Eq, Structural)]
pub struct OraclePriceResponse {
    pub price: Option<i128>,
    pub timestamp: Option<u64>,
}

/// The late-fee configuration, or `None` if unset.
#[derive(Debug, Clone, Copy, PartialEq, Eq, Structural)]
pub struct LateFeeConfigResponse {
    pub config: Option<LateFeeConfig>,
}

/// One token in the collateral of a borrower.
#[derive(Debug, Clone, PartialEq, Eq)]
pub struct CollateralEntryResponse {
    pub denom: String,
    /// Deposited balance, before risk weighting.
    pub amount: u128,
    pub risk_weight_bps: u32,
}

/// The collateral of a borrower.
#[derive(Debug, Clone, PartialEq, Eq)]
pub struct CollateralBalanceResponse {
    pub borrower: String,
    pub entries: Vec<CollateralEntryResponse>,
    /// Risk-weighted total across all tokens.
    pub weighted_total: u128,
}

/// The accepted collateral tokens.
#[derive(Debug, Clone, PartialEq, Eq)]
pub struct CollateralAllowlistResponse {
    pub denoms: Vec<String>,
}

} // verus!
