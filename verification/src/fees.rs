//! The protocol fee and its split, market by market, between treasury and bounty pool.
//!
//! A market is named by its credit token. Its fee is split by its own ratio, or by the default
//! ratio where it has none. The treasury share is rounded down and the bounty pool receives the
//! remainder, so no token is lost to the division.
use cosmwasm_std::StdResult;
use vstd::prelude::*;

use crate::error::{
    backend, from_chain, generic, generic_error, outcome, ContractError, ErrorView,
};
use crate::ledger::{read, value_of, value_or, Entry, Ledger, Step};
use crate::state::Config;
use crate::store::{
    refusals_mut, ledger, ledger_mut, load_bounty, load_config, load_default_share,
    load_market_share, load_treasury, reading, save_bounty, save_treasury, Deps, DepsMut,
};
use crate::text::same_text;

verus! {

/// A ratio of 100 %, in basis points.
pub const MAX_FEE_SHARE_BPS: u32 = 10_000;

/// The treasury share where neither the market nor the contract has one: everything.
pub const DEFAULT_TREASURY_FEE_SHARE_BPS: u32 = 10_000;

/// Storage key of the fee charged on repayment, in basis points. Absent where none is charged.
pub const PROTOCOL_FEE_BPS: &'static str = "pfb";

/// A fee in two parts.
#[derive(Debug, Clone, Copy, PartialEq, Eq, Structural)]
pub struct FeeSplitAmounts {
    /// The part of the treasury.
    pub treasury_amount: u128,
    /// The part of the bounty pool.
    pub bounty_amount: u128,
}

/// The part of `total` that a share of `bps` comes to, rounded down.
pub open spec fn share_of(total: u128, bps: u32) -> int {
    total * bps / MAX_FEE_SHARE_BPS as int
}

/// How `total` is split: the treasury receives its share rounded down, the bounty pool the rest.
/// A share above 100 % is refused, and so is a fee whose product with a partial share does not
/// fit in 128 bits.
pub open spec fn split(total: u128, bps: u32) -> Result<FeeSplitAmounts, ErrorView> {
    if bps > MAX_FEE_SHARE_BPS {
        Err(ErrorView::InvalidFeeShareBps)
    } else if 0 < bps < MAX_FEE_SHARE_BPS && total * bps > u128::MAX {
        Err(generic("Fee split overflow"@))
    } else {
        Ok(
            FeeSplitAmounts {
                treasury_amount: share_of(total, bps) as u128,
                bounty_amount: (total - share_of(total, bps)) as u128,
            },
        )
    }
}

/// Balances by market.
pub type Balances = Map<Seq<char>, Entry<u128>>;

/// The balances after `amount` is credited to `denom`. Nothing is read or written for an amount
/// of zero.
pub open spec fn credited(
    balances: Balances,
    denom: Seq<char>,
    amount: u128,
    overflow: Seq<char>,
) -> Result<Balances, ErrorView> {
    let balance = value_or(balances.get(denom), 0);
    if amount == 0 {
        Ok(balances)
    } else if read(balances.get(denom)) is Err {
        Err(read(balances.get(denom))->Err_0)
    } else if balance + amount > u128::MAX {
        Err(generic(overflow))
    } else {
        Ok(balances.insert(denom, Entry::Value((balance + amount) as u128)))
    }
}

/// The balances after `amount` is debited from `denom`; `shortfall` where there is less.
pub open spec fn debited(
    balances: Balances,
    denom: Seq<char>,
    amount: u128,
    shortfall: ErrorView,
) -> Result<Balances, ErrorView> {
    let balance = value_or(balances.get(denom), 0);
    if amount == 0 {
        Err(ErrorView::InvalidAmount)
    } else if read(balances.get(denom)) is Err {
        Err(read(balances.get(denom))->Err_0)
    } else if amount > balance {
        Err(shortfall)
    } else {
        Ok(balances.insert(denom, Entry::Value((balance - amount) as u128)))
    }
}

impl Ledger {
    /// Why `sender` may not administer the contract, if it may not.
    pub open spec fn owner_check(self, sender: Seq<char>) -> Result<(), ErrorView> {
        match self.config {
            Err(e) => Err(backend(e)),
            Ok(owner) => if sender == owner {
                Ok(())
            } else {
                Err(ErrorView::Unauthorized)
            },
        }
    }

    /// The treasury share of a market: its own, else the default, else everything.
    pub open spec fn treasury_share(self, denom: Seq<char>) -> u32 {
        match value_of(self.market_shares.get(denom)) {
            Some(bps) => bps,
            None => match self.default_share {
                Ok(bps) => bps,
                Err(_) => DEFAULT_TREASURY_FEE_SHARE_BPS,
            },
        }
    }

    /// Crediting a fee to a market: its treasury part first, then its bounty part.
    pub open spec fn accrue(self, denom: Seq<char>, fee: u128) -> Step<FeeSplitAmounts> {
        if fee == 0 {
            self.replies(FeeSplitAmounts { treasury_amount: 0, bounty_amount: 0 })
        } else {
            match split(fee, self.treasury_share(denom)) {
                Err(e) => self.refuses(e),
                Ok(parts) => match credited(
                    self.treasury,
                    denom,
                    parts.treasury_amount,
                    "Treasury balance overflow"@,
                ) {
                    Err(e) => self.refuses(e),
                    Ok(treasury) => match credited(
                        self.bounty,
                        denom,
                        parts.bounty_amount,
                        "Bounty balance overflow"@,
                    ) {
                        Err(e) => (Ledger { treasury, ..self }).refuses(e),
                        Ok(bounty) => (Ledger { treasury, bounty, ..self }).replies(parts),
                    },
                },
            }
        }
    }

    /// Debiting the treasury of a market on behalf of `sender`.
    pub open spec fn debit_treasury(
        self,
        sender: Seq<char>,
        denom: Seq<char>,
        amount: u128,
    ) -> Step<u128> {
        match self.owner_check(sender) {
            Err(e) => self.refuses(e),
            Ok(_) => match debited(
                self.treasury,
                denom,
                amount,
                ErrorView::InsufficientTreasuryBalance,
            ) {
                Err(e) => self.refuses(e),
                Ok(treasury) => (Ledger { treasury, ..self }).replies(amount),
            },
        }
    }

    /// Debiting the bounty pool of a market on behalf of `sender`.
    pub open spec fn debit_bounty(
        self,
        sender: Seq<char>,
        denom: Seq<char>,
        amount: u128,
    ) -> Step<u128> {
        match self.owner_check(sender) {
            Err(e) => self.refuses(e),
            Ok(_) => match debited(
                self.bounty,
                denom,
                amount,
                ErrorView::InsufficientBountyBalance,
            ) {
                Err(e) => self.refuses(e),
                Ok(bounty) => (Ledger { bounty, ..self }).replies(amount),
            },
        }
    }
}

/// Splits `total_fee` by `treasury_share_bps`.
///
/// The treasury receives `floor(total_fee * treasury_share_bps / 10_000)`; the bounty pool
/// receives the remainder.
///
/// # Errors
///
/// - [`ContractError::InvalidFeeShareBps`] if the share is above [`MAX_FEE_SHARE_BPS`].
/// - [`ContractError::Std`] if a partial share makes the product overflow 128 bits.
pub fn split_protocol_fee(total_fee: u128, treasury_share_bps: u32) -> (r: Result<
    FeeSplitAmounts,
    ContractError,
>)
    ensures
        outcome(r) == split(total_fee, treasury_share_bps),
{
    if treasury_share_bps > MAX_FEE_SHARE_BPS {
        return Err(ContractError::InvalidFeeShareBps);
    }
    if total_fee == 0 {
        proof {
            assert(total_fee * treasury_share_bps == 0) by (nonlinear_arith)
                requires
                    total_fee == 0,
            ;
        }
        return Ok(FeeSplitAmounts { treasury_amount: 0, bounty_amount: 0 });
    }
    if treasury_share_bps == 0 {
        proof {
            assert(total_fee * treasury_share_bps == 0) by (nonlinear_arith)
                requires
                    treasury_share_bps == 0,
            ;
        }
        return Ok(FeeSplitAmounts { treasury_amount: 0, bounty_amount: total_fee });
    }
    if treasury_share_bps >= MAX_FEE_SHARE_BPS {
        return Ok(FeeSplitAmounts { treasury_amount: total_fee, bounty_amount: 0 });
    }
    match total_fee.checked_mul(treasury_share_bps as u128) {
        None => Err(generic_error("Fee split overflow")),
        Some(product) => {
            let treasury_amount = product / (MAX_FEE_SHARE_BPS as u128);
            proof {
                lemma_share_at_most(total_fee, treasury_share_bps);
            }
            Ok(FeeSplitAmounts { treasury_amount, bounty_amount: total_fee - treasury_amount })
        },
    }
}

/// A share of at most 100 % is at most the whole.
proof fn lemma_share_at_most(total: u128, bps: u32)
    requires
        bps <= MAX_FEE_SHARE_BPS,
    ensures
        0 <= share_of(total, bps) <= total,
{
    assert(0 <= total * bps <= total * 10_000) by (nonlinear_arith)
        requires
            0 <= bps <= 10_000,
            0 <= total,
    ;
}

/// The treasury fee share of a market, in basis points: its own, else the default, else
/// [`DEFAULT_TREASURY_FEE_SHARE_BPS`].
pub fn get_treasury_fee_share_bps(deps: &Deps, market_denom: &str) -> (r: u32)
    ensures
        r == ledger(*deps).treasury_share(market_denom@),
{
    match load_market_share(deps, market_denom) {
        Ok(Some(bps)) => bps,
        _ => match load_default_share(deps) {
            Ok(bps) => bps,
            Err(_) => DEFAULT_TREASURY_FEE_SHARE_BPS,
        },
    }
}

/// Credits a fee to the treasury and the bounty pool of a market, and returns its two parts.
///
/// # Errors
///
/// Those of [`split_protocol_fee`], and [`ContractError::Std`] if a balance is malformed or
/// would overflow 128 bits.
pub fn accrue_protocol_fee(deps: &mut DepsMut, market_denom: &str, total_fee: u128) -> (r: Result<
    FeeSplitAmounts,
    ContractError,
>)
    ensures
        outcome(r) == ledger_mut(*old(deps)).accrue(market_denom@, total_fee).reply,
        ledger_mut(*final(deps)) == ledger_mut(*old(deps)).accrue(market_denom@, total_fee).ledger,
        refusals_mut(*final(deps)) == refusals_mut(*old(deps)),
{
    if total_fee == 0 {
        return Ok(FeeSplitAmounts { treasury_amount: 0, bounty_amount: 0 });
    }
    let treasury_share_bps = get_treasury_fee_share_bps(&reading(deps), market_denom);
    let parts = split_protocol_fee(total_fee, treasury_share_bps)?;
    if parts.treasury_amount != 0 {
        let balance = match from_chain(load_treasury(&reading(deps), market_denom))? {
            Some(balance) => balance,
            None => 0,
        };
        match balance.checked_add(parts.treasury_amount) {
            None => return Err(generic_error("Treasury balance overflow")),
            Some(updated) => from_chain(save_treasury(deps, market_denom, updated))?,
        }
    }
    if parts.bounty_amount != 0 {
        let balance = match from_chain(load_bounty(&reading(deps), market_denom))? {
            Some(balance) => balance,
            None => 0,
        };
        match balance.checked_add(parts.bounty_amount) {
            None => return Err(generic_error("Bounty balance overflow")),
            Some(updated) => from_chain(save_bounty(deps, market_denom, updated))?,
        }
    }
    Ok(parts)
}

/// Whether crediting `amount` to a balance that was read as `found` succeeds.
fn room_for(found: StdResult<Option<u128>>, amount: u128) -> (r: bool)
    ensures
        r == (amount == 0 || match found {
            Ok(Some(balance)) => balance + amount <= u128::MAX,
            Ok(None) => true,
            Err(_) => false,
        }),
{
    if amount == 0 {
        return true;
    }
    match found {
        Ok(Some(balance)) => balance.checked_add(amount).is_some(),
        Ok(None) => true,
        Err(_) => false,
    }
}

/// Whether [`accrue_protocol_fee`] would succeed.
pub(crate) fn can_accrue(deps: &Deps, market_denom: &str, total_fee: u128) -> (r: bool)
    ensures
        r == (ledger(*deps).accrue(market_denom@, total_fee).reply is Ok),
{
    if total_fee == 0 {
        return true;
    }
    match split_protocol_fee(total_fee, get_treasury_fee_share_bps(deps, market_denom)) {
        Err(_) => false,
        Ok(parts) => room_for(load_treasury(deps, market_denom), parts.treasury_amount)
            && room_for(load_bounty(deps, market_denom), parts.bounty_amount),
    }
}

/// Returns the configuration if `sender` is the owner.
///
/// # Errors
///
/// [`ContractError::Unauthorized`] if it is not.
pub fn assert_owner(deps: &Deps, sender: &str) -> (r: Result<Config, ContractError>)
    ensures
        match (r, ledger(*deps).owner_check(sender@)) {
            (Ok(config), Ok(_)) => config.owner@ == sender@,
            (Err(e), Err(fault)) => e@ == fault,
            _ => false,
        },
{
    let config = from_chain(load_config(deps))?;
    if !same_text(sender, config.owner.as_str()) {
        return Err(ContractError::Unauthorized);
    }
    Ok(config)
}

/// Debits `amount` from the treasury of a market and returns it. Sending the funds is up to the
/// caller.
///
/// # Errors
///
/// - [`ContractError::Unauthorized`] if `sender` is not the owner.
/// - [`ContractError::InvalidAmount`] if `amount` is zero.
/// - [`ContractError::InsufficientTreasuryBalance`] if the treasury holds less.
pub fn withdraw_treasury(
    deps: &mut DepsMut,
    sender: &str,
    market_denom: &str,
    amount: u128,
) -> (r: Result<u128, ContractError>)
    ensures
        outcome(r) == ledger_mut(*old(deps)).debit_treasury(sender@, market_denom@, amount).reply,
        ledger_mut(*final(deps)) == ledger_mut(*old(deps)).debit_treasury(
            sender@,
            market_denom@,
            amount,
        ).ledger,
        refusals_mut(*final(deps)) == refusals_mut(*old(deps)),
{
    assert_owner(&reading(deps), sender)?;
    if amount == 0 {
        return Err(ContractError::InvalidAmount);
    }
    let balance = match from_chain(load_treasury(&reading(deps), market_denom))? {
        Some(balance) => balance,
        None => 0,
    };
    if amount > balance {
        return Err(ContractError::InsufficientTreasuryBalance);
    }
    from_chain(save_treasury(deps, market_denom, balance - amount))?;
    Ok(amount)
}

/// Debits `amount` from the bounty pool of a market and returns it. Sending the funds is up to
/// the caller.
///
/// # Errors
///
/// - [`ContractError::Unauthorized`] if `sender` is not the owner.
/// - [`ContractError::InvalidAmount`] if `amount` is zero.
/// - [`ContractError::InsufficientBountyBalance`] if the bounty pool holds less.
pub fn withdraw_bounty(
    deps: &mut DepsMut,
    sender: &str,
    market_denom: &str,
    amount: u128,
) -> (r: Result<u128, ContractError>)
    ensures
        outcome(r) == ledger_mut(*old(deps)).debit_bounty(sender@, market_denom@, amount).reply,
        ledger_mut(*final(deps)) == ledger_mut(*old(deps)).debit_bounty(
            sender@,
            market_denom@,
            amount,
        ).ledger,
        refusals_mut(*final(deps)) == refusals_mut(*old(deps)),
{
    assert_owner(&reading(deps), sender)?;
    if amount == 0 {
        return Err(ContractError::InvalidAmount);
    }
    let balance = match from_chain(load_bounty(&reading(deps), market_denom))? {
        Some(balance) => balance,
        None => 0,
    };
    if amount > balance {
        return Err(ContractError::InsufficientBountyBalance);
    }
    from_chain(save_bounty(deps, market_denom, balance - amount))?;
    Ok(amount)
}

} // verus!
