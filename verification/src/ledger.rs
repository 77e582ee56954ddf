//! The state of the contract as mathematical values.
use cosmwasm_std::StdError;
use vstd::prelude::*;

use crate::error::{backend, ErrorView};
use crate::state::{
    CreditLineView, DrawAuditEntryView, DrawView, OraclePriceRecord, OracleQuorumConfig,
};

verus! {

/// What is stored under a key that is in use.
pub enum Entry<V> {
    /// Bytes that decode to a value.
    Value(V),
    /// Bytes that do not decode, with what decoding them reports.
    Malformed(StdError),
}

/// Whether an entry does not decode, and decoding it reports `e`.
pub open spec fn malformed<V>(slot: Option<Entry<V>>, e: StdError) -> bool {
    slot matches Some(Entry::Malformed(found)) && found == e
}

/// What reading an entry gives: the value, nothing where the key is not in use, or a failure
/// where the bytes do not decode.
pub open spec fn read<V>(slot: Option<Entry<V>>) -> Result<Option<V>, ErrorView> {
    match slot {
        None => Ok(None),
        Some(Entry::Value(v)) => Ok(Some(v)),
        Some(Entry::Malformed(e)) => Err(backend(e)),
    }
}

/// The value of an entry, if there is one that decodes.
pub open spec fn value_of<V>(slot: Option<Entry<V>>) -> Option<V> {
    match slot {
        Some(Entry::Value(v)) => Some(v),
        _ => None,
    }
}

/// The value of an entry, or `default` if there is none that decodes.
pub open spec fn value_or<V>(slot: Option<Entry<V>>, default: V) -> V {
    match slot {
        Some(Entry::Value(v)) => v,
        _ => default,
    }
}

/// The addresses that the chain refuses, each with what it reports.
pub type Refusals = Map<Seq<char>, StdError>;

/// Everything that the contract stores. Texts are sequences of characters.
#[verifier::ext_equal]
pub struct Ledger {
    /// The owner, or what loading it reports where there is none that decodes.
    pub config: Result<Seq<char>, StdError>,
    /// The number of credit lines, or what loading it reports where there is none that decodes.
    pub credit_line_count: Result<u64, StdError>,
    /// Credit lines by id.
    pub credit_lines: Map<u64, Entry<CreditLineView>>,
    /// The number of draws by credit line id.
    pub draw_counts: Map<u64, Entry<u64>>,
    /// Draws by credit line id and draw id.
    pub draws: Map<(u64, u64), Entry<DrawView>>,
    /// The number of audit entries by credit line id and draw id.
    pub audit_counts: Map<(u64, u64), Entry<u64>>,
    /// Audit entries by credit line id, draw id and number.
    pub audit: Map<(u64, u64, u64), Entry<DrawAuditEntryView>>,
    /// The credit line last opened for each borrower.
    pub borrower_ids: Map<Seq<char>, Entry<u64>>,
    /// The oracle quorum configuration.
    pub oracle_quorum: Option<Entry<OracleQuorumConfig>>,
    /// The last resolved oracle price.
    pub oracle_price: Option<Entry<OraclePriceRecord>>,
    /// The late fee: a flat amount (`Ok`) or a surcharge in basis points (`Err`).
    pub late_fee: Option<Entry<Result<u128, u32>>>,
    /// The fee charged on repayment, in basis points.
    pub protocol_fee: Option<Entry<u32>>,
    /// The treasury share of markets without one of their own, in basis points, or what loading it
    /// reports where there is none that decodes.
    pub default_share: Result<u32, StdError>,
    /// The treasury share by market, in basis points.
    pub market_shares: Map<Seq<char>, Entry<u32>>,
    /// Treasury balances by market.
    pub treasury: Map<Seq<char>, Entry<u128>>,
    /// Bounty balances by market.
    pub bounty: Map<Seq<char>, Entry<u128>>,
    /// The accepted collateral tokens.
    pub allowlist: Option<Entry<Seq<Seq<char>>>>,
    /// Risk weights by token, in basis points.
    pub weights: Map<Seq<char>, Entry<u32>>,
    /// Collateral balances by borrower and token.
    pub balances: Map<(Seq<char>, Seq<char>), Entry<u128>>,
    /// The deposited tokens by borrower.
    pub tokens: Map<Seq<char>, Entry<Seq<Seq<char>>>>,
}

/// What a request comes to: the state it leaves behind, and what is replied.
pub struct Step<T> {
    pub ledger: Ledger,
    pub reply: Result<T, ErrorView>,
}

impl Ledger {
    /// The number of credit lines.
    pub open spec fn line_count(self) -> u64 {
        match self.credit_line_count {
            Ok(count) => count,
            Err(_) => 0,
        }
    }

    /// Replies `value` and leaves this state behind.
    pub open spec fn replies<T>(self, value: T) -> Step<T> {
        Step { ledger: self, reply: Ok(value) }
    }

    /// Refuses with `error` and leaves this state behind.
    pub open spec fn refuses<T>(self, error: ErrorView) -> Step<T> {
        Step { ledger: self, reply: Err(error) }
    }
}

} // verus!
