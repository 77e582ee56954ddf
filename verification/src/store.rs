//! Access to the chain: the typed storage of `cw_storage_plus` and address validation.
//!
//! `cw_storage_plus` keeps one value per key, as JSON. The key of an `Item` is its name; the key
//! of an entry of a `Map` is made of the length-prefixed name, the length-prefixed leading parts
//! of a composite key, and its last part. The names in [`crate::state`] differ from one another
//! and none starts with a zero byte, so no two entries share a key. A record is stored as an object
//! with one member for each of its fields, under the name of the field; a late fee as an object
//! with the one member `flat` or `apr_based` and no other. Amounts and times are stored as
//! `Uint128` and `Timestamp`, addresses as `Addr`, actions as words.
//!
//! A record does not decode where a member that it has a field for is missing or holds a value of
//! another type. Other members are passed over, as long as their numbers fit in 64 bits; those of
//! a price record may hold anything. Of a member that stands there twice, the last one counts.
//!
//! JSON made from such values can always be written and decodes to the same values, so saving
//! does not fail and what was saved is read back. What decoding reports depends on the bytes
//! alone, but for the backtrace that an error may carry off the chain. The store is taken to do
//! what `cosmwasm_std::Storage` documents: `get` returns what was last `set` under a key and not
//! removed since, and `set` and `remove` touch no other key.
use std::collections::BTreeMap;

use cosmwasm_std::{
    from_json, Addr, StdError, StdResult, Timestamp as ChainTime, Uint128, Uint64,
};
use cw_storage_plus::{Item, Map as StorageMap};
use serde_json::value::RawValue;
use serde_json::{from_slice, from_value, to_vec, Value};
use vstd::prelude::*;

use crate::fees::PROTOCOL_FEE_BPS;
use crate::ledger::{malformed, Entry, Ledger, Refusals};
use crate::state::{
    action_of, Config, CreditLine, Draw, DrawAuditEntry, DrawAuditEntryView, OraclePriceRecord,
    OracleQuorumConfig, Timestamp, BORROWER_COLLATERAL_TOKENS, BORROWER_TO_ID, BOUNTY_BALANCE,
    COLLATERAL_BALANCES, COLLATERAL_RISK_WEIGHTS, COLLATERAL_TOKEN_ALLOWLIST, CONFIG, CREDIT_LINES,
    CREDIT_LINE_COUNT, DEFAULT_FEE_SHARE_BPS, DRAWS, DRAW_AUDIT, DRAW_AUDIT_COUNT, DRAW_COUNT,
    LATE_FEE_CONFIG, MARKET_FEE_SHARE_BPS, ORACLE_PRICE_RECORD, ORACLE_QUORUM_CONFIG,
    TREASURY_BALANCE,
};
use crate::text::texts;

verus! {

/// Read access to the chain, as the chain hands it to the contract.
#[verifier::external_body]
pub struct Deps<'a>(pub cosmwasm_std::Deps<'a>);

/// Read and write access to the chain, as the chain hands it to the contract.
#[verifier::external_body]
pub struct DepsMut<'a>(pub cosmwasm_std::DepsMut<'a>);

/// What the store behind `deps` holds.
pub uninterp spec fn ledger(deps: Deps) -> Ledger;

/// What the store behind `deps` holds.
pub uninterp spec fn ledger_mut(deps: DepsMut) -> Ledger;

/// The addresses that the chain behind `deps` refuses, each with what it reports.
pub uninterp spec fn refusals(deps: Deps) -> Refusals;

/// The addresses that the chain behind `deps` refuses, each with what it reports.
pub uninterp spec fn refusals_mut(deps: DepsMut) -> Refusals;

/// What `cosmwasm_std::StdError::parse_err` makes of a word that stands for no action.
pub uninterp spec fn unknown_action(word: Seq<char>) -> StdError;

/// Whether `part` is short enough to stand before the last part of a composite key: its length
/// in bytes is kept in two bytes.
pub open spec fn key_fits(part: Seq<char>) -> bool {
    vstd::utf8::encode_utf8(part).len() <= 0xFFFF
}

/// `cosmwasm_std::DepsMut::as_ref`: the same store and the same chain, for reading.
#[verifier::external_body]
pub(crate) fn reading<'a>(deps: &'a DepsMut) -> (r: Deps<'a>)
    ensures
        ledger(r) == ledger_mut(*deps),
        refusals(r) == refusals_mut(*deps),
{
    Deps(deps.0.as_ref())
}

/// `cosmwasm_std::Api::addr_validate`, which is documented to return the same for the same input
/// and, where it accepts an address, to return it as it is. Which addresses it refuses, and with
/// which error, is left to the chain.
#[verifier::external_body]
pub(crate) fn addr_validate(deps: &Deps, human: &str) -> (r: StdResult<String>)
    ensures
        match r {
            Ok(address) => !refusals(*deps).contains_key(human@) && address@ == human@,
            Err(e) => refusals(*deps).contains_key(human@) && refusals(*deps)[human@] == e,
        },
{
    Ok(deps.0.api.addr_validate(human)?.into_string())
}

/// `cosmwasm_std::StdError::parse_err` on a word that stands for no action. It makes the same
/// error of the same word.
#[verifier::external_body]
pub(crate) fn unknown_action_error(word: &str) -> (r: StdError)
    ensures
        r == unknown_action(word@),
{
    StdError::parse_err("creditra_credit::state::DrawAuditEntry", word)
}

/// `cw_storage_plus::Item::may_load` on [`CONFIG`]. It returns the value stored under the key, and
/// an error where there is none or the bytes do not decode.
#[verifier::external_body]
pub(crate) fn load_config(deps: &Deps) -> (r: StdResult<Config>)
    ensures
        match r {
            Ok(found) => ledger(*deps).config == Ok::<_, StdError>(found.owner@),
            Err(e) => ledger(*deps).config == Err::<Seq<char>, StdError>(e),
        },
{
    let found = Item::<Value>::new(CONFIG).may_load(deps.0.storage)?;
    let name = "creditra_credit::state::Config";
    let key = format!("type: {}; key: {:02X?}", name, CONFIG.as_bytes());
    let record = found.ok_or_else(|| StdError::not_found(key))?;
    let owner = from_value(record["owner"].clone()).map_err(|e| StdError::parse_err(name, e))?;
    Ok(Config { owner })
}

/// `cw_storage_plus::Item::save` on [`CONFIG`]. It writes the value under the key, does not
/// fail, and changes no other entry.
#[verifier::external_body]
pub(crate) fn save_config(deps: &mut DepsMut, config: &Config) -> (r: StdResult<()>)
    ensures
        r is Ok,
        ledger_mut(*final(deps)) == (Ledger {
            config: Ok(config.owner@),
            ..ledger_mut(*old(deps))
        }),
        refusals_mut(*final(deps)) == refusals_mut(*old(deps)),
{
    let record = Value::from_iter([("owner", config.owner.as_str())]);
    Item::<Value>::new(CONFIG).save(deps.0.storage, &record)
}

/// `cw_storage_plus::Item::load` on [`CREDIT_LINE_COUNT`]. It returns the value stored under
/// the key, and an error where there is none or the bytes do not decode.
#[verifier::external_body]
pub(crate) fn load_credit_line_count(deps: &Deps) -> (r: StdResult<u64>)
    ensures
        r == ledger(*deps).credit_line_count,
{
    Item::<u64>::new(CREDIT_LINE_COUNT).load(deps.0.storage)
}

/// `cw_storage_plus::Item::save` on [`CREDIT_LINE_COUNT`]. It writes the value under the key,
/// does not fail, and changes no other entry.
#[verifier::external_body]
pub(crate) fn save_credit_line_count(deps: &mut DepsMut, count: u64) -> (r: StdResult<()>)
    ensures
        r is Ok,
        ledger_mut(*final(deps)) == (Ledger {
            credit_line_count: Ok(count),
            ..ledger_mut(*old(deps))
        }),
        refusals_mut(*final(deps)) == refusals_mut(*old(deps)),
{
    Item::<u64>::new(CREDIT_LINE_COUNT).save(deps.0.storage, &count)
}

/// `cw_storage_plus::Map::may_load` on [`CREDIT_LINES`]. It returns the value stored under the
/// key, nothing where the key is not in use, and an error where the bytes do not decode.
#[verifier::external_body]
pub(crate) fn load_credit_line(deps: &Deps, id: u64) -> (r: StdResult<Option<CreditLine>>)
    ensures
        match r {
            Ok(Some(found)) => ledger(*deps).credit_lines.get(id) == Some(Entry::Value(found@)),
            Ok(None) => ledger(*deps).credit_lines.get(id) is None,
            Err(e) => malformed(ledger(*deps).credit_lines.get(id), e),
        },
{
    let stored = StorageMap::<u64, Value>::new(CREDIT_LINES);
    let Some(record) = stored.may_load(deps.0.storage, id)? else { return Ok(None) };
    let names = ["id", "borrower", "collateral_denom", "collateral_amount", "credit_denom",
        "credit_amount", "active"];
    let values = Value::from_iter(names.map(|name| record[name].clone()));
    let found: (u64, String, String, Uint128, String, Uint128, bool) = from_value(values)
        .map_err(|e| StdError::parse_err("creditra_credit::state::CreditLine", e))?;
    Ok(Some(CreditLine {
        id: found.0,
        borrower: found.1,
        collateral_denom: found.2,
        collateral_amount: found.3.u128(),
        credit_denom: found.4,
        credit_amount: found.5.u128(),
        active: found.6 }))
}

/// `cw_storage_plus::Map::save` on [`CREDIT_LINES`]. It writes the value under the key, does
/// not fail, and changes no other entry.
#[verifier::external_body]
pub(crate) fn save_credit_line(deps: &mut DepsMut, id: u64, line: &CreditLine) -> (r: StdResult<()>)
    ensures
        r is Ok,
        ledger_mut(*final(deps)) == (Ledger {
            credit_lines: ledger_mut(*old(deps)).credit_lines.insert(id, Entry::Value(line@)),
            ..ledger_mut(*old(deps))
        }),
        refusals_mut(*final(deps)) == refusals_mut(*old(deps)),
{
    let members: [(&str, Value); 7] = [
        ("id", line.id.into()),
        ("borrower", line.borrower.as_str().into()),
        ("collateral_denom", line.collateral_denom.as_str().into()),
        ("collateral_amount", Uint128::new(line.collateral_amount).to_string().into()),
        ("credit_denom", line.credit_denom.as_str().into()),
        ("credit_amount", Uint128::new(line.credit_amount).to_string().into()),
        ("active", line.active.into()),
    ];
    StorageMap::<u64, Value>::new(CREDIT_LINES).save(deps.0.storage, id, &Value::from_iter(members))
}

/// `cw_storage_plus::Map::may_load` on [`DRAW_COUNT`]. It returns the value stored under the
/// key, nothing where the key is not in use, and an error where the bytes do not decode.
#[verifier::external_body]
pub(crate) fn load_draw_count(deps: &Deps, line_id: u64) -> (r: StdResult<Option<u64>>)
    ensures
        match r {
            Ok(Some(found)) => ledger(*deps).draw_counts.get(line_id) == Some(Entry::Value(found)),
            Ok(None) => ledger(*deps).draw_counts.get(line_id) is None,
            Err(e) => malformed(ledger(*deps).draw_counts.get(line_id), e),
        },
{
    StorageMap::<u64, u64>::new(DRAW_COUNT).may_load(deps.0.storage, line_id)
}

/// `cw_storage_plus::Map::save` on [`DRAW_COUNT`]. It writes the value under the key, does not
/// fail, and changes no other entry.
#[verifier::external_body]
pub(crate) fn save_draw_count(deps: &mut DepsMut, line_id: u64, count: u64) -> (r: StdResult<()>)
    ensures
        r is Ok,
        ledger_mut(*final(deps)) == (Ledger {
            draw_counts: ledger_mut(*old(deps)).draw_counts.insert(line_id, Entry::Value(count)),
            ..ledger_mut(*old(deps))
        }),
        refusals_mut(*final(deps)) == refusals_mut(*old(deps)),
{
    StorageMap::<u64, u64>::new(DRAW_COUNT).save(deps.0.storage, line_id, &count)
}

/// `cw_storage_plus::Map::may_load` on [`DRAWS`]. It returns the value stored under the key,
/// nothing where the key is not in use, and an error where the bytes do not decode.
#[verifier::external_body]
pub(crate) fn load_draw(deps: &Deps, line_id: u64, draw_id: u64) -> (r: StdResult<Option<Draw>>)
    ensures
        match r {
            Ok(Some(found)) => ledger(*deps).draws.get((line_id, draw_id)) == Some(
                Entry::Value(found@),
            ),
            Ok(None) => ledger(*deps).draws.get((line_id, draw_id)) is None,
            Err(e) => malformed(ledger(*deps).draws.get((line_id, draw_id)), e),
        },
{
    let stored = StorageMap::<(u64, u64), Value>::new(DRAWS);
    let key = (line_id, draw_id);
    let Some(record) = stored.may_load(deps.0.storage, key)? else { return Ok(None) };
    let names = ["id", "credit_line_id", "amount", "denom", "drawn_at", "drawn_by", "repaid"];
    let values = Value::from_iter(names.map(|name| record[name].clone()));
    let found: (u64, u64, Uint128, String, ChainTime, String, bool) = from_value(values)
        .map_err(|e| StdError::parse_err("creditra_credit::state::Draw", e))?;
    Ok(Some(Draw {
        id: found.0,
        credit_line_id: found.1,
        amount: found.2.u128(),
        denom: found.3,
        drawn_at: Timestamp { nanos: found.4.nanos() },
        drawn_by: found.5,
        repaid: found.6 }))
}

/// `cw_storage_plus::Map::save` on [`DRAWS`]. It writes the value under the key, does not fail,
/// and changes no other entry.
#[verifier::external_body]
pub(crate) fn save_draw(
    deps: &mut DepsMut,
    line_id: u64,
    draw_id: u64,
    draw: &Draw,
) -> (r: StdResult<()>)
    ensures
        r is Ok,
        ledger_mut(*final(deps)) == (Ledger {
            draws: ledger_mut(*old(deps)).draws.insert((line_id, draw_id), Entry::Value(draw@)),
            ..ledger_mut(*old(deps))
        }),
        refusals_mut(*final(deps)) == refusals_mut(*old(deps)),
{
    let members: [(&str, Value); 7] = [
        ("id", draw.id.into()),
        ("credit_line_id", draw.credit_line_id.into()),
        ("amount", Uint128::new(draw.amount).to_string().into()),
        ("denom", draw.denom.as_str().into()),
        ("drawn_at", Uint64::new(draw.drawn_at.nanos).to_string().into()),
        ("drawn_by", draw.drawn_by.as_str().into()),
        ("repaid", draw.repaid.into()),
    ];
    StorageMap::<(u64, u64), Value>::new(DRAWS)
        .save(deps.0.storage, (line_id, draw_id), &Value::from_iter(members))
}

/// `cw_storage_plus::Map::may_load` on [`DRAW_AUDIT_COUNT`]. It returns the value stored under
/// the key, nothing where the key is not in use, and an error where the bytes do not decode.
#[verifier::external_body]
pub(crate) fn load_audit_count(
    deps: &Deps,
    line_id: u64,
    draw_id: u64,
) -> (r: StdResult<Option<u64>>)
    ensures
        match r {
            Ok(Some(found)) => ledger(*deps).audit_counts.get((line_id, draw_id)) == Some(
                Entry::Value(found),
            ),
            Ok(None) => ledger(*deps).audit_counts.get((line_id, draw_id)) is None,
            Err(e) => malformed(ledger(*deps).audit_counts.get((line_id, draw_id)), e),
        },
{
    StorageMap::<(u64, u64), u64>::new(DRAW_AUDIT_COUNT)
        .may_load(deps.0.storage, (line_id, draw_id))
}

/// `cw_storage_plus::Map::save` on [`DRAW_AUDIT_COUNT`]. It writes the value under the key,
/// does not fail, and changes no other entry.
#[verifier::external_body]
pub(crate) fn save_audit_count(
    deps: &mut DepsMut,
    line_id: u64,
    draw_id: u64,
    count: u64,
) -> (r: StdResult<()>)
    ensures
        r is Ok,
        ledger_mut(*final(deps)) == (Ledger {
            audit_counts: ledger_mut(*old(deps)).audit_counts.insert(
                (line_id, draw_id),
                Entry::Value(count),
            ),
            ..ledger_mut(*old(deps))
        }),
        refusals_mut(*final(deps)) == refusals_mut(*old(deps)),
{
    StorageMap::<(u64, u64), u64>::new(DRAW_AUDIT_COUNT)
        .save(deps.0.storage, (line_id, draw_id), &count)
}

/// `cw_storage_plus::Map::save` on [`DRAW_AUDIT`], under the ids and the number that the entry
/// itself holds, with `word` for its action. It writes the value under the key, does not fail,
/// and changes no other entry.
#[verifier::external_body]
pub(crate) fn save_audit_entry(
    deps: &mut DepsMut,
    entry: &DrawAuditEntry,
    word: &str,
) -> (r: StdResult<()>)
    requires
        word@ == entry.action.word(),
    ensures
        r is Ok,
        ledger_mut(*final(deps)) == (Ledger {
            audit: ledger_mut(*old(deps)).audit.insert(
                (entry.credit_line_id, entry.draw_id, entry.seq),
                Entry::Value(entry@),
            ),
            ..ledger_mut(*old(deps))
        }),
        refusals_mut(*final(deps)) == refusals_mut(*old(deps)),
{
    let members: [(&str, Value); 8] = [
        ("seq", entry.seq.into()),
        ("draw_id", entry.draw_id.into()),
        ("credit_line_id", entry.credit_line_id.into()),
        ("action", word.into()),
        ("timestamp", Uint64::new(entry.timestamp.nanos).to_string().into()),
        ("block_height", entry.block_height.into()),
        ("by", entry.by.as_str().into()),
        ("memo", entry.memo.as_str().into()),
    ];
    let key = (entry.credit_line_id, entry.draw_id, entry.seq);
    StorageMap::<(u64, u64, u64), Value>::new(DRAW_AUDIT)
        .save(deps.0.storage, key, &Value::from_iter(members))
}

/// An audit entry with the word for its action: number, draw id, credit line id, word, time in
/// nanoseconds, block height, sender and memo.
pub(crate) type AuditFields = (u64, u64, u64, String, u64, u64, String, String);

/// `cw_storage_plus::Map::may_load` on [`DRAW_AUDIT`], with the word for the action as it stands.
/// It returns the value stored under the key, nothing where the key is not in use, and an error
/// where the bytes do not decode. An entry whose word stands for no action does not decode either.
#[verifier::external_body]
pub(crate) fn load_audit_entry(
    deps: &Deps,
    line_id: u64,
    draw_id: u64,
    seq: u64,
) -> (r: StdResult<Option<AuditFields>>)
    ensures
        match r {
            Ok(Some(found)) => ledger(*deps).audit.get((line_id, draw_id, seq)) == Some(
                match action_of(found.3@) {
                    Some(action) => Entry::Value(
                        DrawAuditEntryView {
                            seq: found.0,
                            draw_id: found.1,
                            credit_line_id: found.2,
                            action,
                            timestamp: Timestamp { nanos: found.4 },
                            block_height: found.5,
                            by: found.6@,
                            memo: found.7@,
                        },
                    ),
                    None => Entry::Malformed(unknown_action(found.3@)),
                },
            ),
            Ok(None) => ledger(*deps).audit.get((line_id, draw_id, seq)) is None,
            Err(e) => malformed(ledger(*deps).audit.get((line_id, draw_id, seq)), e),
        },
{
    let stored = StorageMap::<(u64, u64, u64), Value>::new(DRAW_AUDIT);
    let key = (line_id, draw_id, seq);
    let Some(record) = stored.may_load(deps.0.storage, key)? else { return Ok(None) };
    let names = ["seq", "draw_id", "credit_line_id", "action", "timestamp", "block_height", "by",
        "memo"];
    let values = Value::from_iter(names.map(|name| record[name].clone()));
    let found: (u64, u64, u64, String, ChainTime, u64, String, String) = from_value(values)
        .map_err(|e| StdError::parse_err("creditra_credit::state::DrawAuditEntry", e))?;
    let nanos = found.4.nanos();
    Ok(Some((found.0, found.1, found.2, found.3, nanos, found.5, found.6, found.7)))
}

/// `cw_storage_plus::Map::may_load` on [`BORROWER_TO_ID`]. It returns the value stored under the
/// key, nothing where the key is not in use, and an error where the bytes do not decode.
#[verifier::external_body]
pub(crate) fn load_borrower_id(deps: &Deps, borrower: &str) -> (r: StdResult<Option<u64>>)
    ensures
        match r {
            Ok(Some(found)) => ledger(*deps).borrower_ids.get(borrower@) == Some(
                Entry::Value(found),
            ),
            Ok(None) => ledger(*deps).borrower_ids.get(borrower@) is None,
            Err(e) => malformed(ledger(*deps).borrower_ids.get(borrower@), e),
        },
{
    StorageMap::<Addr, u64>::new(BORROWER_TO_ID)
        .may_load(deps.0.storage, Addr::unchecked(borrower))
}

/// `cw_storage_plus::Map::save` on [`BORROWER_TO_ID`]. It writes the value under the key, does
/// not fail, and changes no other entry.
#[verifier::external_body]
pub(crate) fn save_borrower_id(deps: &mut DepsMut, borrower: &str, id: u64) -> (r: StdResult<()>)
    ensures
        r is Ok,
        ledger_mut(*final(deps)) == (Ledger {
            borrower_ids: ledger_mut(*old(deps)).borrower_ids.insert(borrower@, Entry::Value(id)),
            ..ledger_mut(*old(deps))
        }),
        refusals_mut(*final(deps)) == refusals_mut(*old(deps)),
{
    StorageMap::<Addr, u64>::new(BORROWER_TO_ID)
        .save(deps.0.storage, Addr::unchecked(borrower), &id)
}

/// `cw_storage_plus::Item::may_load` on [`ORACLE_QUORUM_CONFIG`]. It returns the value stored
/// under the key, nothing where the key is not in use, and an error where the bytes do not
/// decode.
#[verifier::external_body]
pub(crate) fn load_oracle_quorum(deps: &Deps) -> (r: StdResult<Option<OracleQuorumConfig>>)
    ensures
        match r {
            Ok(Some(found)) => ledger(*deps).oracle_quorum == Some(Entry::Value(found)),
            Ok(None) => ledger(*deps).oracle_quorum is None,
            Err(e) => malformed(ledger(*deps).oracle_quorum, e),
        },
{
    let stored = Item::<Value>::new(ORACLE_QUORUM_CONFIG);
    let Some(record) = stored.may_load(deps.0.storage)? else { return Ok(None) };
    let names = ["min_quorum_k", "max_deviation_bps", "max_age_seconds"];
    let values = Value::from_iter(names.map(|name| record[name].clone()));
    let (min_quorum_k, max_deviation_bps, max_age_seconds) = from_value(values)
        .map_err(|e| StdError::parse_err("creditra_credit::state::OracleQuorumConfig", e))?;
    Ok(Some(OracleQuorumConfig { min_quorum_k, max_deviation_bps, max_age_seconds }))
}

/// `cw_storage_plus::Item::save` on [`ORACLE_QUORUM_CONFIG`]. It writes the value under the
/// key, does not fail, and changes no other entry.
#[verifier::external_body]
pub(crate) fn save_oracle_quorum(
    deps: &mut DepsMut,
    config: OracleQuorumConfig,
) -> (r: StdResult<()>)
    ensures
        r is Ok,
        ledger_mut(*final(deps)) == (Ledger {
            oracle_quorum: Some(Entry::Value(config)),
            ..ledger_mut(*old(deps))
        }),
        refusals_mut(*final(deps)) == refusals_mut(*old(deps)),
{
    let members: [(&str, Value); 3] = [
        ("min_quorum_k", config.min_quorum_k.into()),
        ("max_deviation_bps", config.max_deviation_bps.into()),
        ("max_age_seconds", config.max_age_seconds.into()),
    ];
    Item::<Value>::new(ORACLE_QUORUM_CONFIG).save(deps.0.storage, &Value::from_iter(members))
}

/// `cosmwasm_std::Storage::get` on [`ORACLE_PRICE_RECORD`], with `cosmwasm_std::from_json` on the
/// two members that make the record; prices are wider than the numbers of `serde_json`. It returns
/// the value stored under the key, nothing where the key is not in use, and an error where the
/// bytes do not decode.
#[verifier::external_body]
pub(crate) fn load_oracle_price(deps: &Deps) -> (r: StdResult<Option<OraclePriceRecord>>)
    ensures
        match r {
            Ok(Some(found)) => ledger(*deps).oracle_price == Some(Entry::Value(found)),
            Ok(None) => ledger(*deps).oracle_price is None,
            Err(e) => malformed(ledger(*deps).oracle_price, e),
        },
{
    let key = ORACLE_PRICE_RECORD.as_bytes();
    let Some(bytes) = deps.0.storage.get(key) else { return Ok(None) };
    let record: BTreeMap<String, Box<RawValue>> = from_slice(&bytes)
        .map_err(|e| StdError::parse_err("creditra_credit::state::OraclePriceRecord", e))?;
    let values = to_vec(&["price", "timestamp"].map(|name| record.get(name)))
        .map_err(|e| StdError::parse_err("creditra_credit::state::OraclePriceRecord", e))?;
    let (price, timestamp) = from_json(values)?;
    Ok(Some(OraclePriceRecord { price, timestamp }))
}

/// `cw_storage_plus::Item::save` on [`ORACLE_PRICE_RECORD`]. It writes the value under the key,
/// does not fail, and changes no other entry.
#[verifier::external_body]
pub(crate) fn save_oracle_price(deps: &mut DepsMut, record: OraclePriceRecord) -> (r: StdResult<()>)
    ensures
        r is Ok,
        ledger_mut(*final(deps)) == (Ledger {
            oracle_price: Some(Entry::Value(record)),
            ..ledger_mut(*old(deps))
        }),
        refusals_mut(*final(deps)) == refusals_mut(*old(deps)),
{
    let (price, time) = ("price".to_string(), "timestamp".to_string());
    let record = BTreeMap::from([(price, record.price), (time, i128::from(record.timestamp))]);
    Item::<BTreeMap<String, i128>>::new(ORACLE_PRICE_RECORD).save(deps.0.storage, &record)
}

/// `cw_storage_plus::Item::may_load` on [`LATE_FEE_CONFIG`], a flat amount (`Ok`) or a
/// surcharge (`Err`). It returns the value stored under the key, nothing where the key is not
/// in use, and an error where the bytes do not decode.
#[verifier::external_body]
pub(crate) fn load_late_fee(deps: &Deps) -> (r: StdResult<Option<Result<u128, u32>>>)
    ensures
        match r {
            Ok(Some(found)) => ledger(*deps).late_fee == Some(Entry::Value(found)),
            Ok(None) => ledger(*deps).late_fee is None,
            Err(e) => malformed(ledger(*deps).late_fee, e),
        },
{
    let stored = Item::<BTreeMap<String, Value>>::new(LATE_FEE_CONFIG);
    let Some(record) = stored.may_load(deps.0.storage)? else { return Ok(None) };
    let name = "creditra_credit::penalties::LateFeeConfig";
    let refused = |why: String| StdError::parse_err(name, why);
    let [(variant, config)] = <[_; 1]>::try_from(Vec::from_iter(record))
        .map_err(|_| refused("not one variant".to_string()))?;
    let found = match variant.as_str() {
        "flat" => from_value(config["amount"].clone()).map(|amount: Uint128| Ok(amount.u128())),
        "apr_based" => from_value(config["surcharge_bps"].clone()).map(Err),
        _ => return Err(refused(variant)),
    };
    Ok(Some(found.map_err(|e| refused(e.to_string()))?))
}

/// `cw_storage_plus::Item::save` on [`LATE_FEE_CONFIG`], a flat amount (`Ok`) or a surcharge
/// (`Err`). It writes the value under the key, does not fail, and changes no other entry.
#[verifier::external_body]
pub(crate) fn save_late_fee(deps: &mut DepsMut, fee: Result<u128, u32>) -> (r: StdResult<()>)
    ensures
        r is Ok,
        ledger_mut(*final(deps)) == (Ledger {
            late_fee: Some(Entry::Value(fee)),
            ..ledger_mut(*old(deps))
        }),
        refusals_mut(*final(deps)) == refusals_mut(*old(deps)),
{
    let record = match fee {
        Ok(amount) => {
            let flat = Value::from_iter([("amount", Uint128::new(amount).to_string())]);
            Value::from_iter([("flat", flat)])
        },
        Err(surcharge_bps) => {
            let apr = Value::from_iter([("surcharge_bps", surcharge_bps)]);
            Value::from_iter([("apr_based", apr)])
        },
    };
    Item::<Value>::new(LATE_FEE_CONFIG).save(deps.0.storage, &record)
}

/// `cw_storage_plus::Item::remove` on [`LATE_FEE_CONFIG`]. It frees the key, and changes no
/// other entry.
#[verifier::external_body]
pub(crate) fn remove_late_fee(deps: &mut DepsMut)
    ensures
        ledger_mut(*final(deps)) == (Ledger {
            late_fee: None,
            ..ledger_mut(*old(deps))
        }),
        refusals_mut(*final(deps)) == refusals_mut(*old(deps)),
{
    Item::<Value>::new(LATE_FEE_CONFIG).remove(deps.0.storage)
}

/// `cw_storage_plus::Item::may_load` on [`PROTOCOL_FEE_BPS`]. It returns the value stored under
/// the key, nothing where the key is not in use, and an error where the bytes do not decode.
#[verifier::external_body]
pub(crate) fn load_protocol_fee(deps: &Deps) -> (r: StdResult<Option<u32>>)
    ensures
        match r {
            Ok(Some(found)) => ledger(*deps).protocol_fee == Some(Entry::Value(found)),
            Ok(None) => ledger(*deps).protocol_fee is None,
            Err(e) => malformed(ledger(*deps).protocol_fee, e),
        },
{
    Item::<u32>::new(PROTOCOL_FEE_BPS).may_load(deps.0.storage)
}

/// `cw_storage_plus::Item::load` on [`DEFAULT_FEE_SHARE_BPS`]. It returns the value stored
/// under the key, and an error where there is none or the bytes do not decode.
#[verifier::external_body]
pub(crate) fn load_default_share(deps: &Deps) -> (r: StdResult<u32>)
    ensures
        r == ledger(*deps).default_share,
{
    Item::<u32>::new(DEFAULT_FEE_SHARE_BPS).load(deps.0.storage)
}

/// `cw_storage_plus::Map::may_load` on [`MARKET_FEE_SHARE_BPS`]. It returns the value stored
/// under the key, nothing where the key is not in use, and an error where the bytes do not
/// decode.
#[verifier::external_body]
pub(crate) fn load_market_share(deps: &Deps, denom: &str) -> (r: StdResult<Option<u32>>)
    ensures
        match r {
            Ok(Some(found)) => ledger(*deps).market_shares.get(denom@) == Some(Entry::Value(found)),
            Ok(None) => ledger(*deps).market_shares.get(denom@) is None,
            Err(e) => malformed(ledger(*deps).market_shares.get(denom@), e),
        },
{
    StorageMap::<&str, u32>::new(MARKET_FEE_SHARE_BPS).may_load(deps.0.storage, denom)
}

/// `cw_storage_plus::Map::may_load` on [`TREASURY_BALANCE`]. It returns the value stored under
/// the key, nothing where the key is not in use, and an error where the bytes do not decode.
#[verifier::external_body]
pub(crate) fn load_treasury(deps: &Deps, denom: &str) -> (r: StdResult<Option<u128>>)
    ensures
        match r {
            Ok(Some(found)) => ledger(*deps).treasury.get(denom@) == Some(Entry::Value(found)),
            Ok(None) => ledger(*deps).treasury.get(denom@) is None,
            Err(e) => malformed(ledger(*deps).treasury.get(denom@), e),
        },
{
    match StorageMap::<&str, Uint128>::new(TREASURY_BALANCE).may_load(deps.0.storage, denom)? {
        Some(found) => Ok(Some(found.u128())),
        None => Ok(None),
    }
}

/// `cw_storage_plus::Map::save` on [`TREASURY_BALANCE`]. It writes the value under the key,
/// does not fail, and changes no other entry.
#[verifier::external_body]
pub(crate) fn save_treasury(deps: &mut DepsMut, denom: &str, balance: u128) -> (r: StdResult<()>)
    ensures
        r is Ok,
        ledger_mut(*final(deps)) == (Ledger {
            treasury: ledger_mut(*old(deps)).treasury.insert(denom@, Entry::Value(balance)),
            ..ledger_mut(*old(deps))
        }),
        refusals_mut(*final(deps)) == refusals_mut(*old(deps)),
{
    StorageMap::<&str, Uint128>::new(TREASURY_BALANCE)
        .save(deps.0.storage, denom, &Uint128::new(balance))
}

/// `cw_storage_plus::Map::may_load` on [`BOUNTY_BALANCE`]. It returns the value stored under
/// the key, nothing where the key is not in use, and an error where the bytes do not decode.
#[verifier::external_body]
pub(crate) fn load_bounty(deps: &Deps, denom: &str) -> (r: StdResult<Option<u128>>)
    ensures
        match r {
            Ok(Some(found)) => ledger(*deps).bounty.get(denom@) == Some(Entry::Value(found)),
            Ok(None) => ledger(*deps).bounty.get(denom@) is None,
            Err(e) => malformed(ledger(*deps).bounty.get(denom@), e),
        },
{
    match StorageMap::<&str, Uint128>::new(BOUNTY_BALANCE).may_load(deps.0.storage, denom)? {
        Some(found) => Ok(Some(found.u128())),
        None => Ok(None),
    }
}

/// `cw_storage_plus::Map::save` on [`BOUNTY_BALANCE`]. It writes the value under the key, does
/// not fail, and changes no other entry.
#[verifier::external_body]
pub(crate) fn save_bounty(deps: &mut DepsMut, denom: &str, balance: u128) -> (r: StdResult<()>)
    ensures
        r is Ok,
        ledger_mut(*final(deps)) == (Ledger {
            bounty: ledger_mut(*old(deps)).bounty.insert(denom@, Entry::Value(balance)),
            ..ledger_mut(*old(deps))
        }),
        refusals_mut(*final(deps)) == refusals_mut(*old(deps)),
{
    StorageMap::<&str, Uint128>::new(BOUNTY_BALANCE)
        .save(deps.0.storage, denom, &Uint128::new(balance))
}

/// `cw_storage_plus::Item::may_load` on [`COLLATERAL_TOKEN_ALLOWLIST`]. It returns the value
/// stored under the key, nothing where the key is not in use, and an error where the bytes do
/// not decode.
#[verifier::external_body]
pub(crate) fn load_allowlist(deps: &Deps) -> (r: StdResult<Option<Vec<String>>>)
    ensures
        match r {
            Ok(Some(found)) => ledger(*deps).allowlist == Some(Entry::Value(texts(found@))),
            Ok(None) => ledger(*deps).allowlist is None,
            Err(e) => malformed(ledger(*deps).allowlist, e),
        },
{
    Item::<Vec<String>>::new(COLLATERAL_TOKEN_ALLOWLIST).may_load(deps.0.storage)
}

/// `cw_storage_plus::Item::save` on [`COLLATERAL_TOKEN_ALLOWLIST`]. It writes the value under
/// the key, does not fail, and changes no other entry.
#[verifier::external_body]
pub(crate) fn save_allowlist(deps: &mut DepsMut, list: &Vec<String>) -> (r: StdResult<()>)
    ensures
        r is Ok,
        ledger_mut(*final(deps)) == (Ledger {
            allowlist: Some(Entry::Value(texts(list@))),
            ..ledger_mut(*old(deps))
        }),
        refusals_mut(*final(deps)) == refusals_mut(*old(deps)),
{
    Item::<Vec<String>>::new(COLLATERAL_TOKEN_ALLOWLIST).save(deps.0.storage, list)
}

/// `cw_storage_plus::Map::may_load` on [`COLLATERAL_RISK_WEIGHTS`]. It returns the value stored
/// under the key, nothing where the key is not in use, and an error where the bytes do not
/// decode.
#[verifier::external_body]
pub(crate) fn load_weight(deps: &Deps, denom: &str) -> (r: StdResult<Option<u32>>)
    ensures
        match r {
            Ok(Some(found)) => ledger(*deps).weights.get(denom@) == Some(Entry::Value(found)),
            Ok(None) => ledger(*deps).weights.get(denom@) is None,
            Err(e) => malformed(ledger(*deps).weights.get(denom@), e),
        },
{
    StorageMap::<&str, u32>::new(COLLATERAL_RISK_WEIGHTS).may_load(deps.0.storage, denom)
}

/// `cw_storage_plus::Map::save` on [`COLLATERAL_RISK_WEIGHTS`]. It writes the value under the
/// key, does not fail, and changes no other entry.
#[verifier::external_body]
pub(crate) fn save_weight(deps: &mut DepsMut, denom: &str, weight_bps: u32) -> (r: StdResult<()>)
    ensures
        r is Ok,
        ledger_mut(*final(deps)) == (Ledger {
            weights: ledger_mut(*old(deps)).weights.insert(denom@, Entry::Value(weight_bps)),
            ..ledger_mut(*old(deps))
        }),
        refusals_mut(*final(deps)) == refusals_mut(*old(deps)),
{
    StorageMap::<&str, u32>::new(COLLATERAL_RISK_WEIGHTS).save(deps.0.storage, denom, &weight_bps)
}

/// `cw_storage_plus::Map::remove` on [`COLLATERAL_RISK_WEIGHTS`]. It frees the key, and changes
/// no other entry.
#[verifier::external_body]
pub(crate) fn remove_weight(deps: &mut DepsMut, denom: &str)
    ensures
        ledger_mut(*final(deps)) == (Ledger {
            weights: ledger_mut(*old(deps)).weights.remove(denom@),
            ..ledger_mut(*old(deps))
        }),
        refusals_mut(*final(deps)) == refusals_mut(*old(deps)),
{
    StorageMap::<&str, u32>::new(COLLATERAL_RISK_WEIGHTS).remove(deps.0.storage, denom)
}

/// `cw_storage_plus::Map::may_load` on [`COLLATERAL_BALANCES`], which panics where the borrower
/// does not fit in a key. It returns the value stored under the key, nothing where the key is
/// not in use, and an error where the bytes do not decode.
#[verifier::external_body]
pub(crate) fn load_balance(deps: &Deps, borrower: &str, denom: &str) -> (r: StdResult<Option<u128>>)
    requires
        key_fits(borrower@),
    ensures
        match r {
            Ok(Some(found)) => ledger(*deps).balances.get((borrower@, denom@)) == Some(
                Entry::Value(found),
            ),
            Ok(None) => ledger(*deps).balances.get((borrower@, denom@)) is None,
            Err(e) => malformed(ledger(*deps).balances.get((borrower@, denom@)), e),
        },
{
    match StorageMap::<(&Addr, &str), Uint128>::new(COLLATERAL_BALANCES)
        .may_load(deps.0.storage, (&Addr::unchecked(borrower), denom))? {
        Some(found) => Ok(Some(found.u128())),
        None => Ok(None),
    }
}

/// `cw_storage_plus::Map::save` on [`COLLATERAL_BALANCES`], which panics where the borrower
/// does not fit in a key. It writes the value under the key, does not fail, and changes no
/// other entry.
#[verifier::external_body]
pub(crate) fn save_balance(
    deps: &mut DepsMut,
    borrower: &str,
    denom: &str,
    balance: u128,
) -> (r: StdResult<()>)
    requires
        key_fits(borrower@),
    ensures
        r is Ok,
        ledger_mut(*final(deps)) == (Ledger {
            balances: ledger_mut(*old(deps)).balances.insert(
                (borrower@, denom@),
                Entry::Value(balance),
            ),
            ..ledger_mut(*old(deps))
        }),
        refusals_mut(*final(deps)) == refusals_mut(*old(deps)),
{
    StorageMap::<(&Addr, &str), Uint128>::new(COLLATERAL_BALANCES)
        .save(deps.0.storage, (&Addr::unchecked(borrower), denom), &Uint128::new(balance))
}

/// `cw_storage_plus::Map::remove` on [`COLLATERAL_BALANCES`], which panics where the borrower
/// does not fit in a key. It frees the key, and changes no other entry.
#[verifier::external_body]
pub(crate) fn remove_balance(deps: &mut DepsMut, borrower: &str, denom: &str)
    requires
        key_fits(borrower@),
    ensures
        ledger_mut(*final(deps)) == (Ledger {
            balances: ledger_mut(*old(deps)).balances.remove((borrower@, denom@)),
            ..ledger_mut(*old(deps))
        }),
        refusals_mut(*final(deps)) == refusals_mut(*old(deps)),
{
    StorageMap::<(&Addr, &str), Uint128>::new(COLLATERAL_BALANCES)
        .remove(deps.0.storage, (&Addr::unchecked(borrower), denom))
}

/// `cw_storage_plus::Map::may_load` on [`BORROWER_COLLATERAL_TOKENS`]. It returns the value
/// stored under the key, nothing where the key is not in use, and an error where the bytes do
/// not decode.
#[verifier::external_body]
pub(crate) fn load_tokens(deps: &Deps, borrower: &str) -> (r: StdResult<Option<Vec<String>>>)
    ensures
        match r {
            Ok(Some(found)) => ledger(*deps).tokens.get(borrower@) == Some(
                Entry::Value(texts(found@)),
            ),
            Ok(None) => ledger(*deps).tokens.get(borrower@) is None,
            Err(e) => malformed(ledger(*deps).tokens.get(borrower@), e),
        },
{
    StorageMap::<&Addr, Vec<String>>::new(BORROWER_COLLATERAL_TOKENS)
        .may_load(deps.0.storage, &Addr::unchecked(borrower))
}

/// `cw_storage_plus::Map::save` on [`BORROWER_COLLATERAL_TOKENS`]. It writes the value under
/// the key, does not fail, and changes no other entry.
#[verifier::external_body]
pub(crate) fn save_tokens(
    deps: &mut DepsMut,
    borrower: &str,
    list: &Vec<String>,
) -> (r: StdResult<()>)
    ensures
        r is Ok,
        ledger_mut(*final(deps)) == (Ledger {
            tokens: ledger_mut(*old(deps)).tokens.insert(borrower@, Entry::Value(texts(list@))),
            ..ledger_mut(*old(deps))
        }),
        refusals_mut(*final(deps)) == refusals_mut(*old(deps)),
{
    StorageMap::<&Addr, Vec<String>>::new(BORROWER_COLLATERAL_TOKENS)
        .save(deps.0.storage, &Addr::unchecked(borrower), list)
}

} // verus!
