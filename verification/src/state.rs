//! The records that the contract keeps, and the storage keys that it keeps them under.
use vstd::prelude::*;

verus! {

/// Storage key of the contract configuration.
pub const CONFIG: &'static str = "config";

/// Storage key of the number of credit lines, which is also the id of the next one.
pub const CREDIT_LINE_COUNT: &'static str = "clc";

/// Credit lines by their id.
pub const CREDIT_LINES: &'static str = "cl";

/// The number of draws of each credit line, which is also the id of its next draw.
pub const DRAW_COUNT: &'static str = "dcnt";

/// Draws by credit line id and draw id.
pub const DRAWS: &'static str = "dr";

/// The number of audit entries of each draw, which is also the number of its next entry.
pub const DRAW_AUDIT_COUNT: &'static str = "dacnt";

/// Audit entries by credit line id, draw id and entry number.
pub const DRAW_AUDIT: &'static str = "da";

/// The credit line most recently opened for each borrower.
pub const BORROWER_TO_ID: &'static str = "bid";

/// Storage key of the oracle quorum configuration.
pub const ORACLE_QUORUM_CONFIG: &'static str = "orc_qcfg";

/// Storage key of the last resolved oracle price.
pub const ORACLE_PRICE_RECORD: &'static str = "orc_prc";

/// Storage key of the treasury fee share of markets without one of their own, in basis points.
pub const DEFAULT_FEE_SHARE_BPS: &'static str = "dfsb";

/// Treasury fee share of each market that has one of its own, in basis points.
pub const MARKET_FEE_SHARE_BPS: &'static str = "mfsb";

/// Accumulated treasury balance of each market.
pub const TREASURY_BALANCE: &'static str = "trb";

/// Accumulated bounty balance of each market.
pub const BOUNTY_BALANCE: &'static str = "bnb";

/// Storage key of the late-fee configuration. Absent where no late fee is charged.
pub const LATE_FEE_CONFIG: &'static str = "lfc";

/// Collateral balances by borrower and token. A missing entry stands for zero.
pub const COLLATERAL_BALANCES: &'static str = "cb";

/// The tokens that each borrower has deposited.
pub const BORROWER_COLLATERAL_TOKENS: &'static str = "bct";

/// Storage key of the list of accepted collateral tokens. Absent where none is accepted.
pub const COLLATERAL_TOKEN_ALLOWLIST: &'static str = "ctal";

/// Risk weight of each token that has one of its own, in basis points.
pub const COLLATERAL_RISK_WEIGHTS: &'static str = "crw";

/// Risk weight of tokens without one of their own: full notional value.
pub const DEFAULT_COLLATERAL_RISK_WEIGHT_BPS: u32 = 10_000;

/// Maximum number of oracle prices in one submission.
pub const MAX_ORACLE_FEEDS: usize = 20;

/// A point in time, in nanoseconds since the epoch.
#[derive(Debug, Clone, Copy, PartialEq, Eq, Structural)]
pub struct Timestamp {
    pub nanos: u64,
}

impl Timestamp {
    /// Whole seconds since the epoch.
    pub fn seconds(&self) -> (r: u64)
        ensures
            r == self.nanos / 1_000_000_000,
    {
        self.nanos / 1_000_000_000
    }
}

/// The contract configuration.
#[derive(Debug, Clone, PartialEq, Eq)]
pub struct Config {
    /// The address that may administer the contract.
    pub owner: String,
}

/// A borrowing facility of a borrower.
#[derive(Debug, Clone, PartialEq, Eq)]
pub struct CreditLine {
    pub id: u64,
    pub borrower: String,
    pub collateral_denom: String,
    pub collateral_amount: u128,
    pub credit_denom: String,
    pub credit_amount: u128,
    pub active: bool,
}

/// A [`CreditLine`] with its texts as sequences of characters.
pub struct CreditLineView {
    pub id: u64,
    pub borrower: Seq<char>,
    pub collateral_denom: Seq<char>,
    pub collateral_amount: u128,
    pub credit_denom: Seq<char>,
    pub credit_amount: u128,
    pub active: bool,
}

impl View for CreditLine {
    type V = CreditLineView;

    open spec fn view(&self) -> CreditLineView {
        CreditLineView {
            id: self.id,
            borrower: self.borrower@,
            collateral_denom: self.collateral_denom@,
            collateral_amount: self.collateral_amount,
            credit_denom: self.credit_denom@,
            credit_amount: self.credit_amount,
            active: self.active,
        }
    }
}

/// A borrowing event against a credit line.
#[derive(Debug, Clone, PartialEq, Eq)]
pub struct Draw {
    pub id: u64,
    pub credit_line_id: u64,
    pub amount: u128,
    pub denom: String,
    pub drawn_at: Timestamp,
    pub drawn_by: String,
    pub repaid: bool,
}

/// A [`Draw`] with its texts as sequences of characters.
pub struct DrawView {
    pub id: u64,
    pub credit_line_id: u64,
    pub amount: u128,
    pub denom: Seq<char>,
    pub drawn_at: Timestamp,
    pub drawn_by: Seq<char>,
    pub repaid: bool,
}

impl View for Draw {
    type V = DrawView;

    open spec fn view(&self) -> DrawView {
        DrawView {
            id: self.id,
            credit_line_id: self.credit_line_id,
            amount: self.amount,
            denom: self.denom@,
            drawn_at: self.drawn_at,
            drawn_by: self.drawn_by@,
            repaid: self.repaid,
        }
    }
}

/// What an audit entry records.
#[derive(Debug, Clone, Copy, PartialEq, Eq, Structural)]
pub enum DrawAction {
    DrawCreated,
    Repaid,
    Liquidated,
    MemoAdded,
}

impl DrawAction {
    /// The word that stands for the action in storage.
    pub open spec fn word(self) -> Seq<char> {
        match self {
            DrawAction::DrawCreated => "draw_created"@,
            DrawAction::Repaid => "repaid"@,
            DrawAction::Liquidated => "liquidated"@,
            DrawAction::MemoAdded => "memo_added"@,
        }
    }

    /// The word that stands for the action in storage.
    pub fn as_word(&self) -> (r: &'static str)
        ensures
            r@ == self.word(),
    {
        match self {
            DrawAction::DrawCreated => "draw_created",
            DrawAction::Repaid => "repaid",
            DrawAction::Liquidated => "liquidated",
            DrawAction::MemoAdded => "memo_added",
        }
    }
}

/// The action that `word` stands for in storage.
pub open spec fn action_of(word: Seq<char>) -> Option<DrawAction> {
    if word == "draw_created"@ {
        Some(DrawAction::DrawCreated)
    } else if word == "repaid"@ {
        Some(DrawAction::Repaid)
    } else if word == "liquidated"@ {
        Some(DrawAction::Liquidated)
    } else if word == "memo_added"@ {
        Some(DrawAction::MemoAdded)
    } else {
        None
    }
}

/// An action performed on a draw, as it is kept.
#[derive(Debug, Clone, PartialEq, Eq)]
pub struct DrawAuditEntry {
    pub seq: u64,
    pub draw_id: u64,
    pub credit_line_id: u64,
    pub action: DrawAction,
    pub timestamp: Timestamp,
    pub block_height: u64,
    pub by: String,
    pub memo: String,
}

/// A [`DrawAuditEntry`] with its texts as sequences of characters.
pub struct DrawAuditEntryView {
    pub seq: u64,
    pub draw_id: u64,
    pub credit_line_id: u64,
    pub action: DrawAction,
    pub timestamp: Timestamp,
    pub block_height: u64,
    pub by: Seq<char>,
    pub memo: Seq<char>,
}

impl View for DrawAuditEntry {
    type V = DrawAuditEntryView;

    open spec fn view(&self) -> DrawAuditEntryView {
        DrawAuditEntryView {
            seq: self.seq,
            draw_id: self.draw_id,
            credit_line_id: self.credit_line_id,
            action: self.action,
            timestamp: self.timestamp,
            block_height: self.block_height,
            by: self.by@,
            memo: self.memo@,
        }
    }
}

/// An action performed on a draw, as queries report it.
#[derive(Debug, Clone, PartialEq, Eq)]
pub struct DrawAuditEvent {
    pub seq: u64,
    pub action: DrawAction,
    pub timestamp: Timestamp,
    pub block_height: u64,
    pub by: String,
    pub memo: String,
}

impl DrawAuditEntry {
    /// The entry without the ids of its draw and credit line.
    pub fn into_event(self) -> (r: DrawAuditEvent)
        ensures
            r == (DrawAuditEvent {
                seq: self.seq,
                action: self.action,
                timestamp: self.timestamp,
                block_height: self.block_height,
                by: self.by,
                memo: self.memo,
            }),
    {
        DrawAuditEvent {
            seq: self.seq,
            action: self.action,
            timestamp: self.timestamp,
            block_height: self.block_height,
            by: self.by,
            memo: self.memo,
        }
    }
}

/// When the prices of several oracles make a quorum.
#[derive(Debug, Clone, Copy, PartialEq, Eq, Structural)]
pub struct OracleQuorumConfig {
    /// Minimum number of submitted prices that must agree within `max_deviation_bps`.
    pub min_quorum_k: u32,
    /// Maximum deviation between the highest and the lowest price of a quorum, in basis points.
    pub max_deviation_bps: u32,
    /// Age in seconds from which a resolved price is stale.
    pub max_age_seconds: u64,
}

/// The canonical price that a quorum resolved, and when.
#[derive(Debug, Clone, Copy, PartialEq, Eq, Structural)]
pub struct OraclePriceRecord {
    pub price: i128,
    /// Block time in seconds at which the price was resolved.
    pub timestamp: u64,
}

} // verus!
