//! The entry points of the contract: setting it up, requests that change its state, and queries.
//!
//! What a request does is stated as a step of the [`Ledger`]: the state that it leaves behind and
//! what is replied. Requests are checked before anything is written, with the exceptions that the
//! steps show; the chain drops what a refused request has written.
use cosmwasm_std::Uint128;
use vstd::prelude::*;

use crate::chain::{replied, Attributes, Env, MessageInfo, Response};
use crate::collateral::{self, Holding};
use crate::error::{
    backend, from_chain, not_an_amount, outcome, parse_error, ContractError, ErrorView,
};
use crate::fees::{self, assert_owner};
use crate::ledger::{read, value_or, Entry, Ledger, Refusals, Step};
use crate::msg::{
    CollateralAllowlistResponse, CollateralBalanceResponse, CollateralEntryResponse, ExecuteMsg,
    InstantiateMsg, LateFeeConfigResponse, MigrateMsg, OraclePriceResponse,
    OracleQuorumConfigResponse, QueryMsg,
};
use crate::penalties::{
    validate_late_fee_config, AprFeeConfig, FlatFeeConfig, LateFeeConfig,
};
use crate::state::{
    Config, CreditLine, CreditLineView, Draw, DrawAction, DrawAuditEntry, DrawAuditEntryView,
    DrawView, OraclePriceRecord, OracleQuorumConfig, MAX_ORACLE_FEEDS,
};
use crate::store::{
    addr_validate, refusals, refusals_mut, key_fits, ledger, ledger_mut, load_audit_count,
    load_credit_line, load_credit_line_count, load_draw, load_draw_count, load_late_fee,
    load_oracle_price, load_oracle_quorum, load_protocol_fee, reading, remove_late_fee,
    save_audit_count, save_audit_entry, save_borrower_id, save_config, save_credit_line,
    save_credit_line_count, save_draw, save_draw_count, save_late_fee, save_oracle_price,
    save_oracle_quorum, Deps, DepsMut,
};
use crate::text::{
    amount_of, decimal, decimal_text, parse_amount, same_text, signed_decimal,
    signed_decimal_text, texts,
};

verus! {

/// The largest deviation that an oracle quorum may allow, in basis points.
pub const MAX_ORACLE_DEVIATION_BPS: u32 = 10_000;

/// The smallest number of prices that makes an oracle quorum.
pub const MIN_ORACLE_QUORUM: u32 = 2;

/// A ratio of 100 % in the protocol fee, in basis points.
pub const PROTOCOL_FEE_SCALE: u32 = 10_000;

/// What the parts of the protocol outside this library answered to a request.
#[derive(Debug, PartialEq)]
pub struct Delegated {
    /// The price that the submitted prices resolve to under the oracle quorum configuration.
    pub quorum_price: Result<i128, ContractError>,
    /// Whether the protocol version was recorded.
    pub version_recorded: Result<(), ContractError>,
}

/// A late fee as it is stored: a flat amount (`Ok`) or a surcharge in basis points (`Err`).
pub open spec fn stored_late_fee(config: LateFeeConfig) -> Result<u128, u32> {
    match config {
        LateFeeConfig::Flat(flat) => Ok(flat.amount),
        LateFeeConfig::AprBased(apr) => Err(apr.surcharge_bps),
    }
}

/// The late fee that is stored as `fee`.
pub open spec fn late_fee_from(fee: Result<u128, u32>) -> LateFeeConfig {
    match fee {
        Ok(amount) => LateFeeConfig::Flat(FlatFeeConfig { amount }),
        Err(surcharge_bps) => LateFeeConfig::AprBased(AprFeeConfig { surcharge_bps }),
    }
}

/// The word for a truth value.
pub open spec fn truth(b: bool) -> Seq<char> {
    if b {
        "true"@
    } else {
        "false"@
    }
}

/// The reply to a request about one draw.
pub open spec fn draw_reply(action: Seq<char>, line_id: u64, draw_id: u64) -> Attributes {
    seq![
        ("action"@, action),
        ("credit_line_id"@, decimal(line_id as nat)),
        ("draw_id"@, decimal(draw_id as nat)),
    ]
}

impl Ledger {
    /// Setting the contract up for `owner`.
    pub open spec fn set_up(
        self,
        refusals: Refusals,
        owner: Seq<char>,
        version_recorded: Result<(), ErrorView>,
    ) -> Step<Attributes> {
        if refusals.contains_key(owner) {
            self.refuses(backend(refusals[owner]))
        } else {
            let ready = Ledger {
                config: Ok(owner),
                credit_line_count: Ok(0),
                ..self
            };
            match version_recorded {
                Err(e) => ready.refuses(e),
                Ok(_) => ready.replies(Attributes::empty()),
            }
        }
    }

    /// Opening a credit line. Its id is the number of credit lines so far.
    pub open spec fn create_credit_line(
        self,
        refusals: Refusals,
        sender: Seq<char>,
        borrower: Seq<char>,
        collateral_denom: Seq<char>,
        collateral_amount: Seq<char>,
        credit_denom: Seq<char>,
        credit_amount: Seq<char>,
    ) -> Step<Attributes> {
        let id = self.line_count();
        match self.owner_check(sender) {
            Err(e) => self.refuses(e),
            Ok(_) => if refusals.contains_key(borrower) {
                self.refuses(backend(refusals[borrower]))
            } else if self.credit_line_count is Err {
                self.refuses(backend(self.credit_line_count->Err_0))
            } else if amount_of(collateral_amount) is None {
                self.refuses(not_an_amount(collateral_amount))
            } else if amount_of(credit_amount) is None {
                self.refuses(not_an_amount(credit_amount))
            } else {
                let line = CreditLineView {
                    id,
                    borrower,
                    collateral_denom,
                    collateral_amount: amount_of(collateral_amount)->0,
                    credit_denom,
                    credit_amount: amount_of(credit_amount)->0,
                    active: true,
                };
                (Ledger {
                    credit_lines: self.credit_lines.insert(id, Entry::Value(line)),
                    credit_line_count: Ok((id + 1) as u64),
                    borrower_ids: self.borrower_ids.insert(borrower, Entry::Value(id)),
                    ..self
                }).replies(
                    seq![
                        ("action"@, "create_credit_line"@),
                        ("credit_line_id"@, decimal(id as nat)),
                    ],
                )
            },
        }
    }

    /// Drawing on a credit line. The id of the draw is the number of draws on the line so far,
    /// and its audit trail starts with one entry.
    pub open spec fn create_draw(
        self,
        env: Env,
        sender: Seq<char>,
        line_id: u64,
        amount: Seq<char>,
        denom: Seq<char>,
    ) -> Step<Attributes> {
        let id = value_or(self.draw_counts.get(line_id), 0);
        match self.credit_lines.get(line_id) {
            None => self.refuses(ErrorView::CreditLineNotFound(line_id)),
            Some(Entry::Malformed(e)) => self.refuses(backend(e)),
            Some(Entry::Value(line)) => if sender != line.borrower {
                self.refuses(ErrorView::Unauthorized)
            } else if read(self.draw_counts.get(line_id)) is Err {
                self.refuses(read(self.draw_counts.get(line_id))->Err_0)
            } else if amount_of(amount) is None {
                self.refuses(not_an_amount(amount))
            } else {
                let draw = DrawView {
                    id,
                    credit_line_id: line_id,
                    amount: amount_of(amount)->0,
                    denom,
                    drawn_at: env.block.time,
                    drawn_by: sender,
                    repaid: false,
                };
                let entry = DrawAuditEntryView {
                    seq: 0,
                    draw_id: id,
                    credit_line_id: line_id,
                    action: DrawAction::DrawCreated,
                    timestamp: env.block.time,
                    block_height: env.block.height,
                    by: sender,
                    memo: Seq::empty(),
                };
                (Ledger {
                    draws: self.draws.insert((line_id, id), Entry::Value(draw)),
                    draw_counts: self.draw_counts.insert(line_id, Entry::Value((id + 1) as u64)),
                    audit: self.audit.insert((line_id, id, 0), Entry::Value(entry)),
                    audit_counts: self.audit_counts.insert((line_id, id), Entry::Value(1)),
                    ..self
                }).replies(draw_reply("create_draw"@, line_id, id))
            },
        }
    }

    /// The number of audit entries of a draw.
    pub open spec fn audit_len(self, line_id: u64, draw_id: u64) -> u64 {
        value_or(self.audit_counts.get((line_id, draw_id)), 0)
    }

    /// Adding an entry to the audit trail of a draw, numbered by how many there are.
    pub open spec fn append_audit(
        self,
        env: Env,
        sender: Seq<char>,
        line_id: u64,
        draw_id: u64,
        action: DrawAction,
        memo: Seq<char>,
    ) -> Step<()> {
        let seq = self.audit_len(line_id, draw_id);
        if read(self.audit_counts.get((line_id, draw_id))) is Err {
            self.refuses(read(self.audit_counts.get((line_id, draw_id)))->Err_0)
        } else {
            let entry = DrawAuditEntryView {
                seq,
                draw_id,
                credit_line_id: line_id,
                action,
                timestamp: env.block.time,
                block_height: env.block.height,
                by: sender,
                memo,
            };
            (Ledger {
                audit: self.audit.insert((line_id, draw_id, seq), Entry::Value(entry)),
                audit_counts: self.audit_counts.insert(
                    (line_id, draw_id),
                    Entry::Value((seq + 1) as u64),
                ),
                ..self
            }).replies(())
        }
    }

    /// The protocol fee on a repayment of `amount`, rounded down.
    pub open spec fn fee_on(self, amount: u128) -> int {
        amount * value_or(self.protocol_fee, 0) / PROTOCOL_FEE_SCALE as int
    }

    /// Repaying a draw. The protocol fee is accrued to the market of the draw first; then the
    /// draw is marked as repaid and its audit trail gains an entry.
    pub open spec fn repay_draw(
        self,
        env: Env,
        sender: Seq<char>,
        line_id: u64,
        draw_id: u64,
    ) -> Step<Attributes> {
        match self.draws.get((line_id, draw_id)) {
            None => self.refuses(ErrorView::DrawNotFound(draw_id, line_id)),
            Some(Entry::Malformed(e)) => self.refuses(backend(e)),
            Some(Entry::Value(draw)) => if sender != draw.drawn_by {
                self.refuses(ErrorView::Unauthorized)
            } else if read(self.protocol_fee) is Err {
                self.refuses(read(self.protocol_fee)->Err_0)
            } else {
                let fee = self.fee_on(draw.amount) as u128;
                let accrued = self.accrue(draw.denom, fee);
                let marked = Ledger {
                    draws: accrued.ledger.draws.insert(
                        (line_id, draw_id),
                        Entry::Value(DrawView { repaid: true, ..draw }),
                    ),
                    ..accrued.ledger
                };
                let noted = marked.append_audit(
                    env,
                    sender,
                    line_id,
                    draw_id,
                    DrawAction::Repaid,
                    Seq::empty(),
                );
                match accrued.reply {
                    Err(e) => accrued.ledger.refuses(e),
                    Ok(_) => match noted.reply {
                        Err(e) => noted.ledger.refuses(e),
                        Ok(_) => noted.ledger.replies(
                            if fee == 0 {
                                draw_reply("repay_draw"@, line_id, draw_id)
                            } else {
                                draw_reply("repay_draw"@, line_id, draw_id).push(
                                    ("protocol_fee_skimmed"@, decimal(fee as nat)),
                                )
                            },
                        ),
                    },
                }
            },
        }
    }

    /// Whether the protocol fee of a repayment fits in 128 bits, where one is computed.
    pub open spec fn fee_fits(self, sender: Seq<char>, line_id: u64, draw_id: u64) -> bool {
        match self.draws.get((line_id, draw_id)) {
            Some(Entry::Value(draw)) => sender == draw.drawn_by ==> self.fee_on(draw.amount)
                <= u128::MAX,
            _ => true,
        }
    }

    /// Adding a memo to the audit trail of a draw.
    pub open spec fn add_audit_memo(
        self,
        env: Env,
        sender: Seq<char>,
        line_id: u64,
        draw_id: u64,
        memo: Seq<char>,
    ) -> Step<Attributes> {
        match self.owner_check(sender) {
            Err(e) => self.refuses(e),
            Ok(_) => match self.draws.get((line_id, draw_id)) {
                None => self.refuses(ErrorView::DrawNotFound(draw_id, line_id)),
                Some(Entry::Malformed(e)) => self.refuses(backend(e)),
                Some(Entry::Value(_)) => {
                    let noted = self.append_audit(
                        env,
                        sender,
                        line_id,
                        draw_id,
                        DrawAction::MemoAdded,
                        memo,
                    );
                    match noted.reply {
                        Err(e) => noted.ledger.refuses(e),
                        Ok(_) => noted.ledger.replies(
                            draw_reply("add_audit_memo"@, line_id, draw_id),
                        ),
                    }
                },
            },
        }
    }

    /// Recording the protocol version, which is kept outside the ledger.
    pub open spec fn update_protocol_version(
        self,
        sender: Seq<char>,
        major: u32,
        minor: u32,
        recorded: Result<(), ErrorView>,
    ) -> Step<Attributes> {
        match self.owner_check(sender) {
            Err(e) => self.refuses(e),
            Ok(_) => match recorded {
                Err(e) => self.refuses(e),
                Ok(_) => self.replies(
                    seq![
                        ("action"@, "update_protocol_version"@),
                        ("major"@, decimal(major as nat)),
                        ("minor"@, decimal(minor as nat)),
                    ],
                ),
            },
        }
    }

    /// Setting the late fee, or removing it.
    pub open spec fn set_late_fee(
        self,
        sender: Seq<char>,
        config: Option<LateFeeConfig>,
    ) -> Step<Attributes> {
        let reply = seq![
            ("action"@, "set_late_fee_config"@),
            ("has_config"@, truth(config is Some)),
        ];
        match self.owner_check(sender) {
            Err(e) => self.refuses(e),
            Ok(_) => match config {
                None => (Ledger { late_fee: None, ..self }).replies(reply),
                Some(c) => match c.fault() {
                    Some(e) => self.refuses(e@),
                    None => (Ledger {
                        late_fee: Some(Entry::Value(stored_late_fee(c))),
                        ..self
                    }).replies(reply),
                },
            },
        }
    }

    /// Setting the oracle quorum configuration.
    pub open spec fn set_oracle_quorum(
        self,
        sender: Seq<char>,
        config: OracleQuorumConfig,
    ) -> Step<Attributes> {
        match self.owner_check(sender) {
            Err(e) => self.refuses(e),
            Ok(_) => if config.min_quorum_k < MIN_ORACLE_QUORUM || config.max_deviation_bps
                > MAX_ORACLE_DEVIATION_BPS || config.max_age_seconds == 0 {
                self.refuses(ErrorView::InvalidAmount)
            } else {
                (Ledger { oracle_quorum: Some(Entry::Value(config)), ..self }).replies(
                    seq![
                        ("action"@, "set_oracle_quorum_config"@),
                        ("min_quorum_k"@, decimal(config.min_quorum_k as nat)),
                        ("max_deviation_bps"@, decimal(config.max_deviation_bps as nat)),
                        ("max_age_seconds"@, decimal(config.max_age_seconds as nat)),
                    ],
                )
            },
        }
    }

    /// The configuration under which `count` prices of `sender` are to be resolved, or why they
    /// are refused.
    pub open spec fn oracle_submission(
        self,
        sender: Seq<char>,
        count: nat,
    ) -> Result<OracleQuorumConfig, ErrorView> {
        match self.owner_check(sender) {
            Err(e) => Err(e),
            Ok(_) => match self.oracle_quorum {
                Some(Entry::Malformed(e)) => Err(backend(e)),
                None => Err(ErrorView::OraclePriceInvalid),
                Some(Entry::Value(config)) => if count > MAX_ORACLE_FEEDS {
                    Err(ErrorView::OraclePriceInvalid)
                } else {
                    Ok(config)
                },
            },
        }
    }

    /// Recording the price that `count` submitted prices resolved to.
    pub open spec fn submit_oracle_prices(
        self,
        env: Env,
        sender: Seq<char>,
        count: nat,
        resolved: Result<i128, ErrorView>,
    ) -> Step<Attributes> {
        match self.oracle_submission(sender, count) {
            Err(e) => self.refuses(e),
            Ok(config) => match resolved {
                Err(e) => self.refuses(e),
                Ok(price) => {
                    let timestamp = env.block.time.nanos / 1_000_000_000;
                    (Ledger {
                        oracle_price: Some(Entry::Value(OraclePriceRecord { price, timestamp })),
                        ..self
                    }).replies(
                        seq![
                            ("action"@, "submit_oracle_prices"@),
                            ("canonical_price"@, signed_decimal(price as int)),
                            ("min_quorum_k"@, decimal(config.min_quorum_k as nat)),
                            ("timestamp"@, decimal(timestamp as nat)),
                        ],
                    )
                },
            },
        }
    }

    /// The amount of a collateral transfer that `sender` requests for `borrower`, or why it is
    /// refused.
    pub open spec fn transfer_amount(
        self,
        refusals: Refusals,
        sender: Seq<char>,
        borrower: Seq<char>,
        amount: Seq<char>,
    ) -> Result<u128, ErrorView> {
        match self.owner_check(sender) {
            Err(e) => Err(e),
            Ok(_) => if refusals.contains_key(borrower) {
                Err(backend(refusals[borrower]))
            } else {
                match amount_of(amount) {
                    None => Err(not_an_amount(amount)),
                    Some(value) => Ok(value),
                }
            },
        }
    }

    /// Depositing collateral on behalf of a borrower.
    pub open spec fn deposit_collateral(
        self,
        refusals: Refusals,
        sender: Seq<char>,
        borrower: Seq<char>,
        denom: Seq<char>,
        amount: Seq<char>,
    ) -> Step<Attributes> {
        match self.transfer_amount(refusals, sender, borrower, amount) {
            Err(e) => self.refuses(e),
            Ok(value) => self.deposit(borrower, denom, value),
        }
    }

    /// Withdrawing collateral on behalf of a borrower.
    pub open spec fn withdraw_collateral(
        self,
        refusals: Refusals,
        sender: Seq<char>,
        borrower: Seq<char>,
        denom: Seq<char>,
        amount: Seq<char>,
    ) -> Step<Attributes> {
        match self.transfer_amount(refusals, sender, borrower, amount) {
            Err(e) => self.refuses(e),
            Ok(value) => self.withdraw(borrower, denom, value),
        }
    }

    /// Adding a token to the collateral allowlist.
    pub open spec fn add_collateral_token(
        self,
        sender: Seq<char>,
        denom: Seq<char>,
        weight_bps: u32,
    ) -> Step<Attributes> {
        match self.owner_check(sender) {
            Err(e) => self.refuses(e),
            Ok(_) => self.add_token(denom, weight_bps),
        }
    }

    /// Removing a token from the collateral allowlist.
    pub open spec fn remove_collateral_token(
        self,
        sender: Seq<char>,
        denom: Seq<char>,
    ) -> Step<Attributes> {
        match self.owner_check(sender) {
            Err(e) => self.refuses(e),
            Ok(_) => self.remove_token(denom),
        }
    }

    /// Setting the risk weight of a token on the collateral allowlist.
    pub open spec fn set_collateral_risk_weight(
        self,
        sender: Seq<char>,
        denom: Seq<char>,
        weight_bps: u32,
    ) -> Step<Attributes> {
        match self.owner_check(sender) {
            Err(e) => self.refuses(e),
            Ok(_) => self.set_weight(denom, weight_bps),
        }
    }
}

/// `cosmwasm_std::Uint128::multiply_ratio`, which computes the product in 256 bits and rounds the
/// quotient down. It panics where the quotient does not fit in 128 bits, and on a zero
/// denominator.
#[verifier::external_body]
pub(crate) fn multiply_ratio(amount: u128, numerator: u32, denominator: u32) -> (r: u128)
    requires
        denominator != 0,
        amount * numerator / denominator as int <= u128::MAX,
    ensures
        r == amount * numerator / denominator as int,
{
    Uint128::new(amount).multiply_ratio(numerator, denominator).u128()
}

/// Reads `text` as an amount.
fn amount_from(text: String) -> (r: Result<u128, ContractError>)
    ensures
        outcome(r) == (match amount_of(text@) {
            Some(amount) => Ok::<u128, ErrorView>(amount),
            None => Err::<u128, ErrorView>(not_an_amount(text@)),
        }),
{
    match parse_amount(text.as_str()) {
        Some(amount) => Ok(amount),
        None => Err(parse_error(text)),
    }
}

/// Sets the contract up for the owner that `msg` names.
///
/// `version_recorded` says whether the initial protocol version was recorded.
///
/// # Errors
///
/// [`ContractError::Std`] if the chain refuses the address of the owner, and the error of
/// `version_recorded`.
pub fn instantiate(
    deps: &mut DepsMut,
    _env: Env,
    _info: MessageInfo,
    msg: InstantiateMsg,
    version_recorded: Result<(), ContractError>,
) -> (r: Result<Response, ContractError>)
    ensures
        replied(r) == ledger_mut(*old(deps)).set_up(
            refusals_mut(*old(deps)),
            msg.owner@,
            outcome(version_recorded),
        ).reply,
        ledger_mut(*final(deps)) == ledger_mut(*old(deps)).set_up(
            refusals_mut(*old(deps)),
            msg.owner@,
            outcome(version_recorded),
        ).ledger,
        refusals_mut(*final(deps)) == refusals_mut(*old(deps)),
        !refusals_mut(*old(deps)).contains_key(msg.owner@) ==> (version_recorded matches Err(e)
            ==> r == Err::<Response, ContractError>(e)),
{
    let owner = from_chain(addr_validate(&reading(deps), msg.owner.as_str()))?;
    from_chain(save_config(deps, &Config { owner }))?;
    from_chain(save_credit_line_count(deps, 0))?;
    version_recorded?;
    Ok(Response::new())
}

/// Opens a credit line (owner only). Its id is the number of credit lines so far.
///
/// # Errors
///
/// - [`ContractError::Unauthorized`] if the sender is not the owner.
/// - [`ContractError::Std`] if the chain refuses the address of the borrower, or an amount is
///   not a number of at most 128 bits.
pub fn execute_create_credit_line(
    deps: &mut DepsMut,
    _env: Env,
    info: MessageInfo,
    borrower: String,
    collateral_denom: String,
    collateral_amount: String,
    credit_denom: String,
    credit_amount: String,
) -> (r: Result<Response, ContractError>)
    requires
        ledger_mut(*old(deps)).create_credit_line(
            refusals_mut(*old(deps)),
            info.sender@,
            borrower@,
            collateral_denom@,
            collateral_amount@,
            credit_denom@,
            credit_amount@,
        ).reply is Ok ==> ledger_mut(*old(deps)).line_count() < u64::MAX,
    ensures
        replied(r) == ledger_mut(*old(deps)).create_credit_line(
            refusals_mut(*old(deps)),
            info.sender@,
            borrower@,
            collateral_denom@,
            collateral_amount@,
            credit_denom@,
            credit_amount@,
        ).reply,
        ledger_mut(*final(deps)) == ledger_mut(*old(deps)).create_credit_line(
            refusals_mut(*old(deps)),
            info.sender@,
            borrower@,
            collateral_denom@,
            collateral_amount@,
            credit_denom@,
            credit_amount@,
        ).ledger,
        refusals_mut(*final(deps)) == refusals_mut(*old(deps)),
{
    assert_owner(&reading(deps), info.sender.as_str())?;
    let borrower = from_chain(addr_validate(&reading(deps), borrower.as_str()))?;
    let id = from_chain(load_credit_line_count(&reading(deps)))?;
    let line = CreditLine {
        id,
        borrower,
        collateral_denom,
        collateral_amount: amount_from(collateral_amount)?,
        credit_denom,
        credit_amount: amount_from(credit_amount)?,
        active: true,
    };
    from_chain(save_credit_line(deps, id, &line))?;
    from_chain(save_credit_line_count(deps, id + 1))?;
    from_chain(save_borrower_id(deps, line.borrower.as_str(), id))?;
    let reply = Response::new().add_attribute(
        "action",
        "create_credit_line".to_owned(),
    ).add_attribute("credit_line_id", decimal_text(id as u128));
    proof {
        assert(reply@ =~= seq![
            ("action"@, "create_credit_line"@),
            ("credit_line_id"@, decimal(id as nat)),
        ]);
    }
    Ok(reply)
}

/// The reply to a request about one draw.
fn about_draw(action: &str, credit_line_id: u64, draw_id: u64) -> (r: Response)
    ensures
        r@ == draw_reply(action@, credit_line_id, draw_id),
{
    Response::new().add_attribute("action", action.to_owned()).add_attribute(
        "credit_line_id",
        decimal_text(credit_line_id as u128),
    ).add_attribute("draw_id", decimal_text(draw_id as u128))
}

/// Draws on a credit line (its borrower only). The id of the draw is the number of draws on the
/// line so far.
///
/// # Errors
///
/// - [`ContractError::CreditLineNotFound`] if there is no such credit line.
/// - [`ContractError::Unauthorized`] if the sender is not its borrower.
/// - [`ContractError::Std`] if the amount is not a number of at most 128 bits.
pub fn execute_create_draw(
    deps: &mut DepsMut,
    env: Env,
    info: MessageInfo,
    credit_line_id: u64,
    amount: String,
    denom: String,
) -> (r: Result<Response, ContractError>)
    requires
        ledger_mut(*old(deps)).create_draw(
            env,
            info.sender@,
            credit_line_id,
            amount@,
            denom@,
        ).reply is Ok ==> value_or(ledger_mut(*old(deps)).draw_counts.get(credit_line_id), 0)
            < u64::MAX,
    ensures
        replied(r) == ledger_mut(*old(deps)).create_draw(
            env,
            info.sender@,
            credit_line_id,
            amount@,
            denom@,
        ).reply,
        ledger_mut(*final(deps)) == ledger_mut(*old(deps)).create_draw(
            env,
            info.sender@,
            credit_line_id,
            amount@,
            denom@,
        ).ledger,
        refusals_mut(*final(deps)) == refusals_mut(*old(deps)),
{
    let line = match from_chain(load_credit_line(&reading(deps), credit_line_id))? {
        Some(line) => line,
        None => return Err(ContractError::CreditLineNotFound(credit_line_id)),
    };
    if !same_text(info.sender.as_str(), line.borrower.as_str()) {
        return Err(ContractError::Unauthorized);
    }
    let id = match from_chain(load_draw_count(&reading(deps), credit_line_id))? {
        Some(count) => count,
        None => 0,
    };
    let draw = Draw {
        id,
        credit_line_id,
        amount: amount_from(amount)?,
        denom,
        drawn_at: env.block.time,
        drawn_by: info.sender.clone(),
        repaid: false,
    };
    from_chain(save_draw(deps, credit_line_id, id, &draw))?;
    from_chain(save_draw_count(deps, credit_line_id, id + 1))?;
    let entry = DrawAuditEntry {
        seq: 0,
        draw_id: id,
        credit_line_id,
        action: DrawAction::DrawCreated,
        timestamp: env.block.time,
        block_height: env.block.height,
        by: info.sender,
        memo: no_memo(),
    };
    from_chain(save_audit_entry(deps, &entry, entry.action.as_word()))?;
    from_chain(save_audit_count(deps, credit_line_id, id, 1))?;
    Ok(about_draw("create_draw", credit_line_id, id))
}

/// An empty memo.
fn no_memo() -> (r: String)
    ensures
        r@ == Seq::<char>::empty(),
{
    let r = String::new();
    proof {
        assert(r@ =~= Seq::<char>::empty());
    }
    r
}

/// Repays a draw (whoever drew it only). The protocol fee on its amount is accrued to the market
/// of the draw.
///
/// # Errors
///
/// - [`ContractError::DrawNotFound`] if there is no such draw.
/// - [`ContractError::Unauthorized`] if the sender did not draw it.
/// - Those of [`fees::accrue_protocol_fee`].
pub fn execute_repay_draw(
    deps: &mut DepsMut,
    env: Env,
    info: MessageInfo,
    credit_line_id: u64,
    draw_id: u64,
) -> (r: Result<Response, ContractError>)
    requires
        ledger_mut(*old(deps)).fee_fits(info.sender@, credit_line_id, draw_id),
        ledger_mut(*old(deps)).repay_draw(env, info.sender@, credit_line_id, draw_id).reply is Ok
            ==> ledger_mut(*old(deps)).audit_len(credit_line_id, draw_id) < u64::MAX,
    ensures
        replied(r) == ledger_mut(*old(deps)).repay_draw(
            env,
            info.sender@,
            credit_line_id,
            draw_id,
        ).reply,
        ledger_mut(*final(deps)) == ledger_mut(*old(deps)).repay_draw(
            env,
            info.sender@,
            credit_line_id,
            draw_id,
        ).ledger,
        refusals_mut(*final(deps)) == refusals_mut(*old(deps)),
{
    let mut draw = match from_chain(load_draw(&reading(deps), credit_line_id, draw_id))? {
        Some(draw) => draw,
        None => return Err(ContractError::DrawNotFound(draw_id, credit_line_id)),
    };
    if !same_text(info.sender.as_str(), draw.drawn_by.as_str()) {
        return Err(ContractError::Unauthorized);
    }
    let fee_bps = match from_chain(load_protocol_fee(&reading(deps)))? {
        Some(bps) => bps,
        None => 0,
    };
    let mut fee: u128 = 0;
    if fee_bps > 0 && draw.amount != 0 {
        fee = multiply_ratio(draw.amount, fee_bps, PROTOCOL_FEE_SCALE);
    } else {
        proof {
            assert(draw.amount * fee_bps == 0) by (nonlinear_arith)
                requires
                    fee_bps == 0 || draw.amount == 0,
            ;
        }
    }
    if fee != 0 {
        fees::accrue_protocol_fee(deps, draw.denom.as_str(), fee)?;
    }
    draw.repaid = true;
    from_chain(save_draw(deps, credit_line_id, draw_id, &draw))?;
    append_audit_entry(deps, env, info, credit_line_id, draw_id, DrawAction::Repaid, no_memo())?;
    let reply = about_draw("repay_draw", credit_line_id, draw_id);
    if fee != 0 {
        Ok(reply.add_attribute("protocol_fee_skimmed", decimal_text(fee)))
    } else {
        Ok(reply)
    }
}

/// Adds a memo to the audit trail of a draw (owner only).
///
/// # Errors
///
/// - [`ContractError::Unauthorized`] if the sender is not the owner.
/// - [`ContractError::DrawNotFound`] if there is no such draw.
pub fn execute_add_audit_memo(
    deps: &mut DepsMut,
    env: Env,
    info: MessageInfo,
    credit_line_id: u64,
    draw_id: u64,
    memo: String,
) -> (r: Result<Response, ContractError>)
    requires
        ledger_mut(*old(deps)).add_audit_memo(
            env,
            info.sender@,
            credit_line_id,
            draw_id,
            memo@,
        ).reply is Ok ==> ledger_mut(*old(deps)).audit_len(credit_line_id, draw_id) < u64::MAX,
    ensures
        replied(r) == ledger_mut(*old(deps)).add_audit_memo(
            env,
            info.sender@,
            credit_line_id,
            draw_id,
            memo@,
        ).reply,
        ledger_mut(*final(deps)) == ledger_mut(*old(deps)).add_audit_memo(
            env,
            info.sender@,
            credit_line_id,
            draw_id,
            memo@,
        ).ledger,
        refusals_mut(*final(deps)) == refusals_mut(*old(deps)),
{
    assert_owner(&reading(deps), info.sender.as_str())?;
    match from_chain(load_draw(&reading(deps), credit_line_id, draw_id))? {
        Some(_) => {},
        None => return Err(ContractError::DrawNotFound(draw_id, credit_line_id)),
    }
    append_audit_entry(deps, env, info, credit_line_id, draw_id, DrawAction::MemoAdded, memo)?;
    Ok(about_draw("add_audit_memo", credit_line_id, draw_id))
}

/// Adds an entry to the audit trail of a draw.
fn append_audit_entry(
    deps: &mut DepsMut,
    env: Env,
    info: MessageInfo,
    credit_line_id: u64,
    draw_id: u64,
    action: DrawAction,
    memo: String,
) -> (r: Result<(), ContractError>)
    requires
        read(ledger_mut(*old(deps)).audit_counts.get((credit_line_id, draw_id))) is Ok
            ==> ledger_mut(*old(deps)).audit_len(credit_line_id, draw_id) < u64::MAX,
    ensures
        outcome(r) == ledger_mut(*old(deps)).append_audit(
            env,
            info.sender@,
            credit_line_id,
            draw_id,
            action,
            memo@,
        ).reply,
        ledger_mut(*final(deps)) == ledger_mut(*old(deps)).append_audit(
            env,
            info.sender@,
            credit_line_id,
            draw_id,
            action,
            memo@,
        ).ledger,
        refusals_mut(*final(deps)) == refusals_mut(*old(deps)),
{
    let seq = match from_chain(load_audit_count(&reading(deps), credit_line_id, draw_id))? {
        Some(count) => count,
        None => 0,
    };
    let entry = DrawAuditEntry {
        seq,
        draw_id,
        credit_line_id,
        action,
        timestamp: env.block.time,
        block_height: env.block.height,
        by: info.sender,
        memo,
    };
    from_chain(save_audit_entry(deps, &entry, entry.action.as_word()))?;
    from_chain(save_audit_count(deps, credit_line_id, draw_id, seq + 1))?;
    Ok(())
}

/// Records the protocol version (owner only).
///
/// `recorded` says whether the version was recorded.
///
/// # Errors
///
/// [`ContractError::Unauthorized`] if the sender is not the owner, and the error of `recorded`.
pub fn execute_update_protocol_version(
    deps: &mut DepsMut,
    info: MessageInfo,
    major: u32,
    minor: u32,
    recorded: Result<(), ContractError>,
) -> (r: Result<Response, ContractError>)
    ensures
        replied(r) == ledger_mut(*old(deps)).update_protocol_version(
            info.sender@,
            major,
            minor,
            outcome(recorded),
        ).reply,
        ledger_mut(*final(deps)) == ledger_mut(*old(deps)).update_protocol_version(
            info.sender@,
            major,
            minor,
            outcome(recorded),
        ).ledger,
        refusals_mut(*final(deps)) == refusals_mut(*old(deps)),
        ledger_mut(*old(deps)).owner_check(info.sender@) is Ok ==> (recorded matches Err(e) ==> r
            == Err::<Response, ContractError>(e)),
{
    assert_owner(&reading(deps), info.sender.as_str())?;
    recorded?;
    let reply = Response::new().add_attribute(
        "action",
        "update_protocol_version".to_owned(),
    ).add_attribute("major", decimal_text(major as u128)).add_attribute(
        "minor",
        decimal_text(minor as u128),
    );
    proof {
        assert(reply@ =~= seq![
            ("action"@, "update_protocol_version"@),
            ("major"@, decimal(major as nat)),
            ("minor"@, decimal(minor as nat)),
        ]);
    }
    Ok(reply)
}

/// Sets the late-fee configuration, or removes it with `None` (owner only).
///
/// # Errors
///
/// [`ContractError::Unauthorized`] if the sender is not the owner, and those of
/// [`validate_late_fee_config`].
pub fn execute_set_late_fee_config(
    deps: &mut DepsMut,
    info: MessageInfo,
    config: Option<LateFeeConfig>,
) -> (r: Result<Response, ContractError>)
    ensures
        replied(r) == ledger_mut(*old(deps)).set_late_fee(info.sender@, config).reply,
        ledger_mut(*final(deps)) == ledger_mut(*old(deps)).set_late_fee(
            info.sender@,
            config,
        ).ledger,
        refusals_mut(*final(deps)) == refusals_mut(*old(deps)),
{
    assert_owner(&reading(deps), info.sender.as_str())?;
    let has_config = match config {
        Some(c) => {
            validate_late_fee_config(&c)?;
            let fee = match c {
                LateFeeConfig::Flat(flat) => Ok(flat.amount),
                LateFeeConfig::AprBased(apr) => Err(apr.surcharge_bps),
            };
            from_chain(save_late_fee(deps, fee))?;
            "true"
        },
        None => {
            remove_late_fee(deps);
            "false"
        },
    };
    let reply = Response::new().add_attribute(
        "action",
        "set_late_fee_config".to_owned(),
    ).add_attribute("has_config", has_config.to_owned());
    proof {
        assert(reply@ =~= seq![
            ("action"@, "set_late_fee_config"@),
            ("has_config"@, truth(config is Some)),
        ]);
    }
    Ok(reply)
}

/// Sets the oracle quorum configuration (owner only).
///
/// # Errors
///
/// - [`ContractError::Unauthorized`] if the sender is not the owner.
/// - [`ContractError::InvalidAmount`] if the quorum is below [`MIN_ORACLE_QUORUM`], the deviation
///   is above [`MAX_ORACLE_DEVIATION_BPS`], or the age is zero.
pub fn execute_set_oracle_quorum_config(
    deps: &mut DepsMut,
    info: MessageInfo,
    min_quorum_k: u32,
    max_deviation_bps: u32,
    max_age_seconds: u64,
) -> (r: Result<Response, ContractError>)
    ensures
        replied(r) == ledger_mut(*old(deps)).set_oracle_quorum(
            info.sender@,
            OracleQuorumConfig { min_quorum_k, max_deviation_bps, max_age_seconds },
        ).reply,
        ledger_mut(*final(deps)) == ledger_mut(*old(deps)).set_oracle_quorum(
            info.sender@,
            OracleQuorumConfig { min_quorum_k, max_deviation_bps, max_age_seconds },
        ).ledger,
        refusals_mut(*final(deps)) == refusals_mut(*old(deps)),
{
    assert_owner(&reading(deps), info.sender.as_str())?;
    if min_quorum_k < MIN_ORACLE_QUORUM {
        return Err(ContractError::InvalidAmount);
    }
    if max_deviation_bps > MAX_ORACLE_DEVIATION_BPS {
        return Err(ContractError::InvalidAmount);
    }
    if max_age_seconds == 0 {
        return Err(ContractError::InvalidAmount);
    }
    let config = OracleQuorumConfig { min_quorum_k, max_deviation_bps, max_age_seconds };
    from_chain(save_oracle_quorum(deps, config))?;
    let reply = Response::new().add_attribute(
        "action",
        "set_oracle_quorum_config".to_owned(),
    ).add_attribute("min_quorum_k", decimal_text(min_quorum_k as u128)).add_attribute(
        "max_deviation_bps",
        decimal_text(max_deviation_bps as u128),
    ).add_attribute("max_age_seconds", decimal_text(max_age_seconds as u128));
    proof {
        assert(reply@ =~= seq![
            ("action"@, "set_oracle_quorum_config"@),
            ("min_quorum_k"@, decimal(min_quorum_k as nat)),
            ("max_deviation_bps"@, decimal(max_deviation_bps as nat)),
            ("max_age_seconds"@, decimal(max_age_seconds as nat)),
        ]);
    }
    Ok(reply)
}

/// The configuration under which the submitted prices are to be resolved (owner only).
///
/// # Errors
///
/// - [`ContractError::Unauthorized`] if the sender is not the owner.
/// - [`ContractError::OraclePriceInvalid`] if there is no configuration, or there are more than
///   [`MAX_ORACLE_FEEDS`] prices.
pub fn oracle_submission(deps: &Deps, info: &MessageInfo, prices: &Vec<i128>) -> (r: Result<
    OracleQuorumConfig,
    ContractError,
>)
    ensures
        outcome(r) == ledger(*deps).oracle_submission(info.sender@, prices@.len()),
{
    assert_owner(deps, info.sender.as_str())?;
    let config = match from_chain(load_oracle_quorum(deps))? {
        Some(config) => config,
        None => return Err(ContractError::OraclePriceInvalid),
    };
    if prices.len() > MAX_ORACLE_FEEDS {
        return Err(ContractError::OraclePriceInvalid);
    }
    Ok(config)
}

/// Records the price that the submitted prices resolve to (owner only).
///
/// `resolved` is what resolving `prices` under the configuration of [`oracle_submission`] came to.
///
/// # Errors
///
/// Those of [`oracle_submission`], and the error of `resolved`.
pub fn execute_submit_oracle_prices(
    deps: &mut DepsMut,
    env: Env,
    info: MessageInfo,
    prices: Vec<i128>,
    resolved: Result<i128, ContractError>,
) -> (r: Result<Response, ContractError>)
    ensures
        replied(r) == ledger_mut(*old(deps)).submit_oracle_prices(
            env,
            info.sender@,
            prices@.len(),
            outcome(resolved),
        ).reply,
        ledger_mut(*final(deps)) == ledger_mut(*old(deps)).submit_oracle_prices(
            env,
            info.sender@,
            prices@.len(),
            outcome(resolved),
        ).ledger,
        refusals_mut(*final(deps)) == refusals_mut(*old(deps)),
        ledger_mut(*old(deps)).oracle_submission(info.sender@, prices@.len()) is Ok ==> (
        resolved matches Err(e) ==> r == Err::<Response, ContractError>(e)),
{
    let config = oracle_submission(&reading(deps), &info, &prices)?;
    let price = resolved?;
    let timestamp = env.block.time.seconds();
    from_chain(save_oracle_price(deps, OraclePriceRecord { price, timestamp }))?;
    let reply = Response::new().add_attribute(
        "action",
        "submit_oracle_prices".to_owned(),
    ).add_attribute("canonical_price", signed_decimal_text(price)).add_attribute(
        "min_quorum_k",
        decimal_text(config.min_quorum_k as u128),
    ).add_attribute("timestamp", decimal_text(timestamp as u128));
    proof {
        assert(reply@ =~= seq![
            ("action"@, "submit_oracle_prices"@),
            ("canonical_price"@, signed_decimal(price as int)),
            ("min_quorum_k"@, decimal(config.min_quorum_k as nat)),
            ("timestamp"@, decimal(timestamp as nat)),
        ]);
    }
    Ok(reply)
}

/// The amount of a collateral transfer that the sender requests for `borrower`.
pub(crate) fn transfer_amount(
    deps: &Deps,
    info: &MessageInfo,
    borrower: &str,
    amount: String,
) -> (r: Result<u128, ContractError>)
    ensures
        outcome(r) == ledger(*deps).transfer_amount(
            refusals(*deps),
            info.sender@,
            borrower@,
            amount@,
        ),
{
    assert_owner(deps, info.sender.as_str())?;
    from_chain(addr_validate(deps, borrower))?;
    amount_from(amount)
}

/// Deposits a collateral token on behalf of a borrower (owner only).
///
/// # Errors
///
/// - [`ContractError::Unauthorized`] if the sender is not the owner.
/// - [`ContractError::Std`] if the chain refuses the address of the borrower, or the amount is
///   not a number of at most 128 bits.
/// - Those of [`collateral::deposit_collateral`].
pub fn execute_deposit_collateral(
    deps: &mut DepsMut,
    info: MessageInfo,
    borrower: String,
    denom: String,
    amount: String,
) -> (r: Result<Response, ContractError>)
    requires
        ledger_mut(*old(deps)).transfer_amount(
            refusals_mut(*old(deps)),
            info.sender@,
            borrower@,
            amount@,
        ) matches Ok(value) ==> value > 0 && ledger_mut(*old(deps)).listed().contains(denom@)
            ==> key_fits(borrower@),
    ensures
        replied(r) == ledger_mut(*old(deps)).deposit_collateral(
            refusals_mut(*old(deps)),
            info.sender@,
            borrower@,
            denom@,
            amount@,
        ).reply,
        ledger_mut(*final(deps)) == ledger_mut(*old(deps)).deposit_collateral(
            refusals_mut(*old(deps)),
            info.sender@,
            borrower@,
            denom@,
            amount@,
        ).ledger,
        refusals_mut(*final(deps)) == refusals_mut(*old(deps)),
{
    let value = transfer_amount(&reading(deps), &info, borrower.as_str(), amount)?;
    collateral::deposit_collateral(deps, borrower.as_str(), denom.as_str(), value)
}

/// Withdraws a collateral token on behalf of a borrower (owner only).
///
/// # Errors
///
/// - [`ContractError::Unauthorized`] if the sender is not the owner.
/// - [`ContractError::Std`] if the chain refuses the address of the borrower, or the amount is
///   not a number of at most 128 bits.
/// - Those of [`collateral::withdraw_collateral`].
pub fn execute_withdraw_collateral(
    deps: &mut DepsMut,
    info: MessageInfo,
    borrower: String,
    denom: String,
    amount: String,
) -> (r: Result<Response, ContractError>)
    requires
        ledger_mut(*old(deps)).transfer_amount(
            refusals_mut(*old(deps)),
            info.sender@,
            borrower@,
            amount@,
        ) matches Ok(value) ==> value > 0 ==> key_fits(borrower@),
    ensures
        replied(r) == ledger_mut(*old(deps)).withdraw_collateral(
            refusals_mut(*old(deps)),
            info.sender@,
            borrower@,
            denom@,
            amount@,
        ).reply,
        ledger_mut(*final(deps)) == ledger_mut(*old(deps)).withdraw_collateral(
            refusals_mut(*old(deps)),
            info.sender@,
            borrower@,
            denom@,
            amount@,
        ).ledger,
        refusals_mut(*final(deps)) == refusals_mut(*old(deps)),
{
    let value = transfer_amount(&reading(deps), &info, borrower.as_str(), amount)?;
    collateral::withdraw_collateral(deps, borrower.as_str(), denom.as_str(), value)
}

/// Adds a token to the collateral allowlist (owner only).
///
/// # Errors
///
/// [`ContractError::Unauthorized`] if the sender is not the owner, and those of
/// [`collateral::add_collateral_token`].
pub fn execute_add_collateral_token(
    deps: &mut DepsMut,
    info: MessageInfo,
    denom: String,
    risk_weight_bps: u32,
) -> (r: Result<Response, ContractError>)
    ensures
        replied(r) == ledger_mut(*old(deps)).add_collateral_token(
            info.sender@,
            denom@,
            risk_weight_bps,
        ).reply,
        ledger_mut(*final(deps)) == ledger_mut(*old(deps)).add_collateral_token(
            info.sender@,
            denom@,
            risk_weight_bps,
        ).ledger,
        refusals_mut(*final(deps)) == refusals_mut(*old(deps)),
{
    assert_owner(&reading(deps), info.sender.as_str())?;
    collateral::add_collateral_token(deps, denom.as_str(), risk_weight_bps)
}

/// Removes a token from the collateral allowlist (owner only).
///
/// # Errors
///
/// [`ContractError::Unauthorized`] if the sender is not the owner, and those of
/// [`collateral::remove_collateral_token`].
pub fn execute_remove_collateral_token(
    deps: &mut DepsMut,
    info: MessageInfo,
    denom: String,
) -> (r: Result<Response, ContractError>)
    ensures
        replied(r) == ledger_mut(*old(deps)).remove_collateral_token(info.sender@, denom@).reply,
        ledger_mut(*final(deps)) == ledger_mut(*old(deps)).remove_collateral_token(
            info.sender@,
            denom@,
        ).ledger,
        refusals_mut(*final(deps)) == refusals_mut(*old(deps)),
{
    assert_owner(&reading(deps), info.sender.as_str())?;
    collateral::remove_collateral_token(deps, denom.as_str())
}

/// Sets the risk weight of a token on the collateral allowlist (owner only).
///
/// # Errors
///
/// [`ContractError::Unauthorized`] if the sender is not the owner, and those of
/// [`collateral::set_collateral_risk_weight`].
pub fn execute_set_collateral_risk_weight(
    deps: &mut DepsMut,
    info: MessageInfo,
    denom: String,
    risk_weight_bps: u32,
) -> (r: Result<Response, ContractError>)
    ensures
        replied(r) == ledger_mut(*old(deps)).set_collateral_risk_weight(
            info.sender@,
            denom@,
            risk_weight_bps,
        ).reply,
        ledger_mut(*final(deps)) == ledger_mut(*old(deps)).set_collateral_risk_weight(
            info.sender@,
            denom@,
            risk_weight_bps,
        ).ledger,
        refusals_mut(*final(deps)) == refusals_mut(*old(deps)),
{
    assert_owner(&reading(deps), info.sender.as_str())?;
    collateral::set_collateral_risk_weight(deps, denom.as_str(), risk_weight_bps)
}

/// The late fee that is stored as `fee`.
fn late_fee_of(fee: Result<u128, u32>) -> (r: LateFeeConfig)
    ensures
        r == late_fee_from(fee),
{
    match fee {
        Ok(amount) => LateFeeConfig::Flat(FlatFeeConfig { amount }),
        Err(surcharge_bps) => LateFeeConfig::AprBased(AprFeeConfig { surcharge_bps }),
    }
}

impl Ledger {
    /// Carrying out a request.
    pub open spec fn execute(
        self,
        refusals: Refusals,
        env: Env,
        sender: Seq<char>,
        msg: ExecuteMsg,
        quorum_price: Result<i128, ErrorView>,
        version_recorded: Result<(), ErrorView>,
    ) -> Step<Attributes> {
        match msg {
            ExecuteMsg::CreateCreditLine {
                borrower,
                collateral_denom,
                collateral_amount,
                credit_denom,
                credit_amount,
            } => self.create_credit_line(
                refusals,
                sender,
                borrower@,
                collateral_denom@,
                collateral_amount@,
                credit_denom@,
                credit_amount@,
            ),
            ExecuteMsg::CreateDraw { credit_line_id, amount, denom } => self.create_draw(
                env,
                sender,
                credit_line_id,
                amount@,
                denom@,
            ),
            ExecuteMsg::RepayDraw { credit_line_id, draw_id } => self.repay_draw(
                env,
                sender,
                credit_line_id,
                draw_id,
            ),
            ExecuteMsg::AddAuditMemo { credit_line_id, draw_id, memo } => self.add_audit_memo(
                env,
                sender,
                credit_line_id,
                draw_id,
                memo@,
            ),
            ExecuteMsg::UpdateProtocolVersion { major, minor } => self.update_protocol_version(
                sender,
                major,
                minor,
                version_recorded,
            ),
            ExecuteMsg::SetOracleQuorumConfig {
                min_quorum_k,
                max_deviation_bps,
                max_age_seconds,
            } => self.set_oracle_quorum(
                sender,
                OracleQuorumConfig { min_quorum_k, max_deviation_bps, max_age_seconds },
            ),
            ExecuteMsg::SubmitOraclePrices { prices } => self.submit_oracle_prices(
                env,
                sender,
                prices@.len(),
                quorum_price,
            ),
            ExecuteMsg::SetLateFeeConfig { config } => self.set_late_fee(sender, config),
            ExecuteMsg::DepositCollateral { borrower, denom, amount } => self.deposit_collateral(
                refusals,
                sender,
                borrower@,
                denom@,
                amount@,
            ),
            ExecuteMsg::WithdrawCollateral { borrower, denom, amount } => self.withdraw_collateral(
                refusals,
                sender,
                borrower@,
                denom@,
                amount@,
            ),
            ExecuteMsg::AddCollateralToken { denom, risk_weight_bps } => self.add_collateral_token(
                sender,
                denom@,
                risk_weight_bps,
            ),
            ExecuteMsg::RemoveCollateralToken { denom } => self.remove_collateral_token(
                sender,
                denom@,
            ),
            ExecuteMsg::SetCollateralRiskWeight {
                denom,
                risk_weight_bps,
            } => self.set_collateral_risk_weight(sender, denom@, risk_weight_bps),
        }
    }

    /// Whether a request stays within what the machine can hold: no counter is at its end where
    /// it is to be incremented, a protocol fee fits in 128 bits, and a borrower fits in a key.
    pub open spec fn within_limits(
        self,
        refusals: Refusals,
        env: Env,
        sender: Seq<char>,
        msg: ExecuteMsg,
    ) -> bool {
        let accepted = self.execute(
            refusals,
            env,
            sender,
            msg,
            Err(ErrorView::OraclePriceInvalid),
            Ok(()),
        ).reply is Ok;
        match msg {
            ExecuteMsg::CreateCreditLine { .. } => accepted ==> self.line_count()
                < u64::MAX,
            ExecuteMsg::CreateDraw { credit_line_id, .. } => accepted ==> value_or(
                self.draw_counts.get(credit_line_id),
                0,
            ) < u64::MAX,
            ExecuteMsg::RepayDraw { credit_line_id, draw_id } => self.fee_fits(
                sender,
                credit_line_id,
                draw_id,
            ) && (accepted ==> self.audit_len(credit_line_id, draw_id) < u64::MAX),
            ExecuteMsg::AddAuditMemo { credit_line_id, draw_id, .. } => accepted
                ==> self.audit_len(credit_line_id, draw_id) < u64::MAX,
            ExecuteMsg::DepositCollateral { borrower, denom, amount } => {
                self.transfer_amount(refusals, sender, borrower@, amount@) matches Ok(value)
                    ==> value > 0 && self.listed().contains(denom@) ==> key_fits(borrower@)
            },
            ExecuteMsg::WithdrawCollateral { borrower, denom: _, amount } => {
                self.transfer_amount(refusals, sender, borrower@, amount@) matches Ok(value)
                    ==> value > 0 ==> key_fits(borrower@)
            },
            _ => true,
        }
    }
}

/// Carries out a request.
///
/// `delegated` holds the answers of the parts of the protocol outside this library; only
/// requests that need an answer look at it.
///
/// # Errors
///
/// Those of the function that carries the request out.
pub fn execute(
    deps: &mut DepsMut,
    env: Env,
    info: MessageInfo,
    msg: ExecuteMsg,
    delegated: Delegated,
) -> (r: Result<Response, ContractError>)
    requires
        ledger_mut(*old(deps)).within_limits(refusals_mut(*old(deps)), env, info.sender@, msg),
    ensures
        replied(r) == ledger_mut(*old(deps)).execute(
            refusals_mut(*old(deps)),
            env,
            info.sender@,
            msg,
            outcome(delegated.quorum_price),
            outcome(delegated.version_recorded),
        ).reply,
        ledger_mut(*final(deps)) == ledger_mut(*old(deps)).execute(
            refusals_mut(*old(deps)),
            env,
            info.sender@,
            msg,
            outcome(delegated.quorum_price),
            outcome(delegated.version_recorded),
        ).ledger,
        refusals_mut(*final(deps)) == refusals_mut(*old(deps)),
        msg matches ExecuteMsg::UpdateProtocolVersion { .. } && ledger_mut(*old(deps)).owner_check(
            info.sender@,
        ) is Ok ==> (delegated.version_recorded matches Err(e) ==> r == Err::<
            Response,
            ContractError,
        >(e)),
        msg matches ExecuteMsg::SubmitOraclePrices { prices } && ledger_mut(
            *old(deps),
        ).oracle_submission(info.sender@, prices@.len()) is Ok ==> (
        delegated.quorum_price matches Err(e) ==> r == Err::<Response, ContractError>(e)),
{
    match msg {
        ExecuteMsg::CreateCreditLine {
            borrower,
            collateral_denom,
            collateral_amount,
            credit_denom,
            credit_amount,
        } => execute_create_credit_line(
            deps,
            env,
            info,
            borrower,
            collateral_denom,
            collateral_amount,
            credit_denom,
            credit_amount,
        ),
        ExecuteMsg::CreateDraw { credit_line_id, amount, denom } => execute_create_draw(
            deps,
            env,
            info,
            credit_line_id,
            amount,
            denom,
        ),
        ExecuteMsg::RepayDraw { credit_line_id, draw_id } => execute_repay_draw(
            deps,
            env,
            info,
            credit_line_id,
            draw_id,
        ),
        ExecuteMsg::AddAuditMemo { credit_line_id, draw_id, memo } => execute_add_audit_memo(
            deps,
            env,
            info,
            credit_line_id,
            draw_id,
            memo,
        ),
        ExecuteMsg::UpdateProtocolVersion { major, minor } => execute_update_protocol_version(
            deps,
            info,
            major,
            minor,
            delegated.version_recorded,
        ),
        ExecuteMsg::SetOracleQuorumConfig {
            min_quorum_k,
            max_deviation_bps,
            max_age_seconds,
        } => execute_set_oracle_quorum_config(
            deps,
            info,
            min_quorum_k,
            max_deviation_bps,
            max_age_seconds,
        ),
        ExecuteMsg::SubmitOraclePrices { prices } => execute_submit_oracle_prices(
            deps,
            env,
            info,
            prices,
            delegated.quorum_price,
        ),
        ExecuteMsg::SetLateFeeConfig { config } => execute_set_late_fee_config(deps, info, config),
        ExecuteMsg::DepositCollateral { borrower, denom, amount } => execute_deposit_collateral(
            deps,
            info,
            borrower,
            denom,
            amount,
        ),
        ExecuteMsg::WithdrawCollateral { borrower, denom, amount } => execute_withdraw_collateral(
            deps,
            info,
            borrower,
            denom,
            amount,
        ),
        ExecuteMsg::AddCollateralToken { denom, risk_weight_bps } => execute_add_collateral_token(
            deps,
            info,
            denom,
            risk_weight_bps,
        ),
        ExecuteMsg::RemoveCollateralToken { denom } => execute_remove_collateral_token(
            deps,
            info,
            denom,
        ),
        ExecuteMsg::SetCollateralRiskWeight {
            denom,
            risk_weight_bps,
        } => execute_set_collateral_risk_weight(deps, info, denom, risk_weight_bps),
    }
}

/// The answer to a query.
#[derive(Debug, Clone, PartialEq, Eq)]
pub enum QueryAnswer {
    OracleQuorumConfig(OracleQuorumConfigResponse),
    OraclePrice(OraclePriceResponse),
    LateFeeConfig(LateFeeConfigResponse),
    CollateralBalance(CollateralBalanceResponse),
    CollateralAllowlist(CollateralAllowlistResponse),
    /// A report over the records, which is made outside this library.
    Report(QueryMsg),
}

/// The collateral of a borrower: tokens with their balances and risk weights, and the
/// risk-weighted total.
pub struct CollateralView {
    pub borrower: Seq<char>,
    pub entries: Seq<(Seq<char>, u128, u32)>,
    pub weighted_total: u128,
}

/// A [`QueryAnswer`] with its texts as sequences of characters.
pub enum QueryAnswerView {
    OracleQuorumConfig(OracleQuorumConfigResponse),
    OraclePrice(OraclePriceResponse),
    LateFeeConfig(LateFeeConfigResponse),
    CollateralBalance(CollateralView),
    CollateralAllowlist(Seq<Seq<char>>),
    Report(QueryMsg),
}

impl View for CollateralBalanceResponse {
    type V = CollateralView;

    open spec fn view(&self) -> CollateralView {
        CollateralView {
            borrower: self.borrower@,
            entries: self.entries@.map_values(
                |e: CollateralEntryResponse| (e.denom@, e.amount, e.risk_weight_bps),
            ),
            weighted_total: self.weighted_total,
        }
    }
}

impl View for QueryAnswer {
    type V = QueryAnswerView;

    open spec fn view(&self) -> QueryAnswerView {
        match *self {
            QueryAnswer::OracleQuorumConfig(resp) => QueryAnswerView::OracleQuorumConfig(resp),
            QueryAnswer::OraclePrice(resp) => QueryAnswerView::OraclePrice(resp),
            QueryAnswer::LateFeeConfig(resp) => QueryAnswerView::LateFeeConfig(resp),
            QueryAnswer::CollateralBalance(resp) => QueryAnswerView::CollateralBalance(resp@),
            QueryAnswer::CollateralAllowlist(resp) => QueryAnswerView::CollateralAllowlist(
                texts(resp.denoms@),
            ),
            QueryAnswer::Report(msg) => QueryAnswerView::Report(msg),
        }
    }
}

/// What a query came to: the answer or the error, by their views.
pub open spec fn answered(r: Result<QueryAnswer, ContractError>) -> Result<
    QueryAnswerView,
    ErrorView,
> {
    match r {
        Ok(answer) => Ok(answer@),
        Err(e) => Err(e@),
    }
}

impl Ledger {
    /// The collateral of a borrower: one token, or all of them. The risk-weighted total is that of
    /// all tokens either way.
    pub open spec fn collateral_report(
        self,
        refusals: Refusals,
        borrower: Seq<char>,
        denom: Option<Seq<char>>,
    ) -> Result<CollateralView, ErrorView> {
        let entries = match denom {
            Some(d) => if self.balance(borrower, d) == 0 {
                Seq::empty()
            } else {
                seq![(d, self.balance(borrower, d), self.weight(d))]
            },
            None => self.holdings(borrower).map_values(
                |h: Holding| (h.0, h.1, self.weight(h.0)),
            ),
        };
        if refusals.contains_key(borrower) {
            Err(backend(refusals[borrower]))
        } else {
            match self.weighted_total(borrower) {
                Err(e) => Err(e),
                Ok(weighted_total) => Ok(CollateralView { borrower, entries, weighted_total }),
            }
        }
    }

    /// Answering a query.
    pub open spec fn query(self, refusals: Refusals, msg: QueryMsg) -> Result<
        QueryAnswerView,
        ErrorView,
    > {
        match msg {
            QueryMsg::GetOracleQuorumConfig {} => match read(self.oracle_quorum) {
                Err(e) => Err(e),
                Ok(config) => Ok(
                    QueryAnswerView::OracleQuorumConfig(OracleQuorumConfigResponse { config }),
                ),
            },
            QueryMsg::GetOraclePrice {} => match read(self.oracle_price) {
                Err(e) => Err(e),
                Ok(None) => Ok(
                    QueryAnswerView::OraclePrice(
                        OraclePriceResponse { price: None, timestamp: None },
                    ),
                ),
                Ok(Some(record)) => Ok(
                    QueryAnswerView::OraclePrice(
                        OraclePriceResponse {
                            price: Some(record.price),
                            timestamp: Some(record.timestamp),
                        },
                    ),
                ),
            },
            QueryMsg::GetLateFeeConfig {} => match read(self.late_fee) {
                Err(e) => Err(e),
                Ok(None) => Ok(
                    QueryAnswerView::LateFeeConfig(LateFeeConfigResponse { config: None }),
                ),
                Ok(Some(fee)) => Ok(
                    QueryAnswerView::LateFeeConfig(
                        LateFeeConfigResponse { config: Some(late_fee_from(fee)) },
                    ),
                ),
            },
            QueryMsg::GetCollateralBalance { borrower, denom } => match self.collateral_report(
                refusals,
                borrower@,
                match denom {
                    Some(d) => Some(d@),
                    None => None,
                },
            ) {
                Err(e) => Err(e),
                Ok(report) => Ok(QueryAnswerView::CollateralBalance(report)),
            },
            QueryMsg::GetCollateralAllowlist {} => Ok(
                QueryAnswerView::CollateralAllowlist(self.listed()),
            ),
            _ => Ok(QueryAnswerView::Report(msg)),
        }
    }

    /// Whether the borrower that a query is about fits in a key, where a balance is read.
    pub open spec fn query_within_limits(self, refusals: Refusals, msg: QueryMsg) -> bool {
        match msg {
            QueryMsg::GetCollateralBalance { borrower, denom } => {
                let reads_balance = denom is Some || self.deposited(borrower@).len() > 0;
                !refusals.contains_key(borrower@) && reads_balance ==> key_fits(borrower@)
            },
            _ => true,
        }
    }
}

/// Answers a query. The reports on audit trails, reserves and health are handed back: they are
/// made outside this library.
///
/// # Errors
///
/// - [`ContractError::Std`] if an entry in the storage does not decode, or the chain refuses the
///   address of the borrower.
/// - [`ContractError::Overflow`] if the risk-weighted total does not fit in 128 bits.
pub fn query(deps: &Deps, _env: Env, msg: QueryMsg) -> (r: Result<QueryAnswer, ContractError>)
    requires
        ledger(*deps).query_within_limits(refusals(*deps), msg),
    ensures
        answered(r) == ledger(*deps).query(refusals(*deps), msg),
{
    match msg {
        QueryMsg::GetOracleQuorumConfig {} => {
            let config = from_chain(load_oracle_quorum(deps))?;
            Ok(QueryAnswer::OracleQuorumConfig(OracleQuorumConfigResponse { config }))
        },
        QueryMsg::GetOraclePrice {} => match from_chain(load_oracle_price(deps))? {
            Some(record) => Ok(
                QueryAnswer::OraclePrice(
                    OraclePriceResponse {
                        price: Some(record.price),
                        timestamp: Some(record.timestamp),
                    },
                ),
            ),
            None => Ok(
                QueryAnswer::OraclePrice(OraclePriceResponse { price: None, timestamp: None }),
            ),
        },
        QueryMsg::GetLateFeeConfig {} => match from_chain(load_late_fee(deps))? {
            Some(fee) => Ok(
                QueryAnswer::LateFeeConfig(
                    LateFeeConfigResponse { config: Some(late_fee_of(fee)) },
                ),
            ),
            None => Ok(QueryAnswer::LateFeeConfig(LateFeeConfigResponse { config: None })),
        },
        QueryMsg::GetCollateralBalance { borrower, denom } => {
            let resp = query_collateral_balance(deps, borrower, denom)?;
            Ok(QueryAnswer::CollateralBalance(resp))
        },
        QueryMsg::GetCollateralAllowlist {} => Ok(
            QueryAnswer::CollateralAllowlist(query_collateral_allowlist(deps)),
        ),
        report => Ok(QueryAnswer::Report(report)),
    }
}

/// The tokens that a borrower holds, with their balances and risk weights.
fn collateral_entries(deps: &Deps, borrower: &str) -> (r: Vec<CollateralEntryResponse>)
    requires
        ledger(*deps).deposited(borrower@).len() > 0 ==> key_fits(borrower@),
    ensures
        r@.map_values(|e: CollateralEntryResponse| (e.denom@, e.amount, e.risk_weight_bps))
            == ledger(*deps).holdings(borrower@).map_values(
            |h: Holding| (h.0, h.1, ledger(*deps).weight(h.0)),
        ),
{
    let held = collateral::query_borrower_collateral(deps, borrower);
    let mut entries: Vec<CollateralEntryResponse> = Vec::new();
    let mut i: usize = 0;
    while i < held.len()
        invariant
            i <= held.len(),
            entries@.len() == i,
            forall|j: int|
                0 <= j < i ==> (#[trigger] entries@[j]).denom@ == held@[j].0@ && entries@[j].amount
                    == held@[j].1 && entries@[j].risk_weight_bps == ledger(*deps).weight(
                    held@[j].0@,
                ),
        decreases held.len() - i,
    {
        let denom = held[i].0.clone();
        let risk_weight_bps = collateral::collateral_risk_weight_bps(deps, denom.as_str());
        entries.push(CollateralEntryResponse { denom, amount: held[i].1, risk_weight_bps });
        i = i + 1;
    }
    proof {
        let holdings = ledger(*deps).holdings(borrower@);
        assert(holdings.len() == held@.len());
        assert forall|j: int| 0 <= j < holdings.len() implies holdings[j] == (
            held@[j].0@,
            held@[j].1,
        ) by {
            assert(holdings[j] == collateral::holdings_of(held@)[j]);
        }
        assert(entries@.map_values(
            |e: CollateralEntryResponse| (e.denom@, e.amount, e.risk_weight_bps),
        ) =~= holdings.map_values(|h: Holding| (h.0, h.1, ledger(*deps).weight(h.0))));
    }
    entries
}

/// The collateral of a borrower: one token, or all of them with `None`.
fn query_collateral_balance(deps: &Deps, borrower: String, denom: Option<String>) -> (r: Result<
    CollateralBalanceResponse,
    ContractError,
>)
    requires
        !refusals(*deps).contains_key(borrower@) && (denom is Some || ledger(*deps).deposited(
            borrower@,
        ).len() > 0) ==> key_fits(borrower@),
    ensures
        match (
            r,
            ledger(*deps).collateral_report(
                refusals(*deps),
                borrower@,
                match denom {
                    Some(d) => Some(d@),
                    None => None,
                },
            ),
        ) {
            (Ok(resp), Ok(report)) => resp@ == report,
            (Err(e), Err(fault)) => e@ == fault,
            _ => false,
        },
{
    from_chain(addr_validate(deps, borrower.as_str()))?;
    let entries = match denom {
        Some(d) => {
            let amount = collateral::query_collateral_balance(deps, borrower.as_str(), d.as_str());
            let risk_weight_bps = collateral::collateral_risk_weight_bps(deps, d.as_str());
            let mut one: Vec<CollateralEntryResponse> = Vec::new();
            if amount != 0 {
                one.push(CollateralEntryResponse { denom: d, amount, risk_weight_bps });
            }
            one
        },
        None => collateral_entries(deps, borrower.as_str()),
    };
    let weighted_total = collateral::weighted_collateral_total(deps, borrower.as_str())?;
    let resp = CollateralBalanceResponse { borrower, entries, weighted_total };
    proof {
        if denom is Some {
            let d = denom->0@;
            let amount = ledger(*deps).balance(borrower@, d);
            if amount == 0 {
                assert(resp@.entries =~= Seq::<(Seq<char>, u128, u32)>::empty());
            } else {
                assert(resp@.entries =~= seq![(d, amount, ledger(*deps).weight(d))]);
            }
        }
    }
    Ok(resp)
}

/// The accepted collateral tokens.
fn query_collateral_allowlist(deps: &Deps) -> (r: CollateralAllowlistResponse)
    ensures
        texts(r.denoms@) == ledger(*deps).listed(),
{
    CollateralAllowlistResponse { denoms: collateral::query_collateral_allowlist(deps) }
}

/// Moves to this version of the contract. The state needs no change.
pub fn migrate(_deps: &mut DepsMut, _env: Env, _msg: MigrateMsg) -> (r: Result<
    Response,
    ContractError,
>)
    ensures
        replied(r) == Ok::<Attributes, ErrorView>(Attributes::empty()),
        ledger_mut(*final(_deps)) == ledger_mut(*old(_deps)),
        refusals_mut(*final(_deps)) == refusals_mut(*old(_deps)),
{
    Ok(Response::new())
}

} // verus!
