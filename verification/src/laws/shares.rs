//! How a fee is shared between treasury and bounty pool, and when the pools can be credited and
//! debited, for every state.
use cosmwasm_std::StdError;
use vstd::prelude::*;

use crate::error::{ErrorView, StdFailureView};
use crate::fees::{split, FeeSplitAmounts};
use crate::ledger::{Entry, Ledger};

verus! {

/// Whether `bps` is the treasury share of a market: its own where it has one that decodes, else
/// the default where there is one that decodes, else everything.
pub open spec fn is_share(state: Ledger, denom: Seq<char>, bps: u32) -> bool {
    match (state.market_shares.get(denom), state.default_share) {
        (Some(Entry::Value(own)), _) => bps == own,
        (_, Ok(default)) => bps == default,
        (_, Err(_)) => bps == 10_000,
    }
}

/// Whether `amount` can be added to a balance. Nothing is read for an amount of zero.
pub open spec fn has_room(slot: Option<Entry<u128>>, amount: u128) -> bool {
    amount == 0 || match slot {
        None => true,
        Some(Entry::Value(balance)) => balance + amount <= u128::MAX,
        Some(Entry::Malformed(_)) => false,
    }
}

/// Whether `after` is a balance with `amount` added. Nothing is written for an amount of zero.
pub open spec fn is_credited(
    before: Option<Entry<u128>>,
    after: Option<Entry<u128>>,
    amount: u128,
) -> bool {
    if amount == 0 {
        after == before
    } else {
        after matches Some(Entry::Value(balance)) && match before {
            None => balance == amount,
            Some(Entry::Value(had)) => balance == had + amount,
            Some(Entry::Malformed(_)) => false,
        }
    }
}

/// The share of a market is its own where it has one, whatever the default; else the default;
/// else everything. So a change of the default changes no market with a share of its own.
pub proof fn a_share_of_its_own_comes_first(
    state: Ledger,
    other: Ledger,
    denom: Seq<char>,
    own: u32,
    default: u32,
)
    ensures
        state.market_shares.get(denom) == Some(Entry::Value(own)) ==> state.treasury_share(denom)
            == own,
        state.market_shares.get(denom) is None && state.default_share == Ok::<u32, StdError>(
            default,
        ) ==> state.treasury_share(denom) == default,
        state.market_shares.get(denom) is None && state.default_share is Err
            ==> state.treasury_share(denom) == 10_000,
        (state.market_shares.get(denom) matches Some(Entry::Malformed(_))) ==> (
        state.default_share matches Ok(bps) ==> state.treasury_share(denom) == bps) && (
        state.default_share is Err ==> state.treasury_share(denom) == 10_000),
        (state.market_shares.get(denom) matches Some(Entry::Value(_))) && other.market_shares.get(
            denom,
        ) == state.market_shares.get(denom) ==> other.treasury_share(denom)
            == state.treasury_share(denom),
        is_share(state, denom, state.treasury_share(denom)),
{
}

/// Where a market has a share of its own, a fee that is accrued to it is split the same way under
/// every default share.
pub proof fn the_default_share_does_not_touch_other_shares(
    state: Ledger,
    denom: Seq<char>,
    fee: u128,
    default_share: Result<u32, StdError>,
)
    requires
        state.market_shares.get(denom) matches Some(Entry::Value(_)),
    ensures
        ({
            let changed = Ledger { default_share, ..state };
            &&& changed.accrue(denom, fee).reply == state.accrue(denom, fee).reply
            &&& changed.accrue(denom, fee).ledger.treasury == state.accrue(
                denom,
                fee,
            ).ledger.treasury
            &&& changed.accrue(denom, fee).ledger.bounty == state.accrue(denom, fee).ledger.bounty
        }),
{
}

/// A fee that is accrued to a market credits its treasury with its share of the fee rounded down,
/// and its bounty pool with the rest: by the share of the market where it has one, else by the
/// default, else everything to the treasury. Nothing else changes.
pub proof fn an_accrual_follows_the_share(state: Ledger, denom: Seq<char>, fee: u128, share: u32)
    requires
        is_share(state, denom, share),
    ensures
        ({
            let step = state.accrue(denom, fee);
            let after = step.ledger;
            let to_treasury = after.treasury_of(denom) - state.treasury_of(denom);
            let to_bounty = after.bounty_of(denom) - state.bounty_of(denom);
            step.reply matches Ok(parts) ==> {
                &&& parts.treasury_amount == to_treasury
                &&& parts.bounty_amount == to_bounty
                &&& to_treasury + to_bounty == fee
                &&& fee > 0 ==> to_treasury * 10_000 <= fee * share < (to_treasury + 1) * 10_000
                &&& is_credited(
                    state.treasury.get(denom),
                    after.treasury.get(denom),
                    parts.treasury_amount,
                )
                &&& is_credited(
                    state.bounty.get(denom),
                    after.bounty.get(denom),
                    parts.bounty_amount,
                )
                &&& fee == 0 ==> after == state
                &&& forall|other: Seq<char>|
                    other != denom ==> #[trigger] after.treasury.get(other) == state.treasury.get(
                        other,
                    )
                &&& forall|other: Seq<char>|
                    other != denom ==> #[trigger] after.bounty.get(other) == state.bounty.get(other)
                &&& parts.treasury_amount == 0 ==> after.treasury == state.treasury
                &&& parts.bounty_amount == 0 ==> after.bounty == state.bounty
                &&& after == Ledger { treasury: after.treasury, bounty: after.bounty, ..state }
            }
        }),
{
    if share <= 10_000 {
        lemma_share(fee, share);
    }
}

/// A fee that is accrued to a market with a share of its own is split by that share, whatever the
/// default is.
pub proof fn a_market_is_split_by_its_own_share(
    state: Ledger,
    denom: Seq<char>,
    fee: u128,
    bps: u32,
)
    requires
        state.market_shares.get(denom) == Some(Entry::Value(bps)),
        state.accrue(denom, fee).reply is Ok,
    ensures
        ({
            let after = state.accrue(denom, fee).ledger;
            let t = after.treasury_of(denom) - state.treasury_of(denom);
            let b = after.bounty_of(denom) - state.bounty_of(denom);
            &&& t + b == fee
            &&& fee > 0 ==> t * 10_000 <= fee * bps < (t + 1) * 10_000
        }),
{
    an_accrual_follows_the_share(state, denom, fee, bps);
}

/// A fee that is accrued to a market without a share of its own is split by the default, and goes
/// to the treasury as a whole where there is no default either.
pub proof fn other_markets_are_split_by_the_default(
    state: Ledger,
    denom: Seq<char>,
    fee: u128,
    bps: u32,
)
    requires
        state.market_shares.get(denom) is None,
        state.default_share == Ok::<u32, StdError>(bps) || (state.default_share is Err && bps
            == 10_000),
        state.accrue(denom, fee).reply is Ok,
    ensures
        ({
            let after = state.accrue(denom, fee).ledger;
            let t = after.treasury_of(denom) - state.treasury_of(denom);
            let b = after.bounty_of(denom) - state.bounty_of(denom);
            &&& t + b == fee
            &&& fee > 0 ==> t * 10_000 <= fee * bps < (t + 1) * 10_000
        }),
{
    an_accrual_follows_the_share(state, denom, fee, bps);
}

proof fn lemma_share(fee: u128, share: u32)
    requires
        share <= 10_000,
    ensures
        0 <= fee * share <= fee * 10_000,
        0 <= fee * share / 10_000 <= fee,
        (fee * share / 10_000) * 10_000 <= fee * share < (fee * share / 10_000 + 1) * 10_000,
        share == 0 ==> fee * share == 0,
{
    assert(0 <= fee * share <= fee * 10_000) by (nonlinear_arith)
        requires
            0 <= share <= 10_000,
            0 <= fee,
    ;
    if share == 0 {
        assert(fee * share == 0) by (nonlinear_arith)
            requires
                share == 0,
        ;
    }
}

/// A fee is split exactly if the share is at most 100 %, and, for a share that is neither nothing
/// nor everything, its product with the fee fits in 128 bits. Each refusal has its own error.
pub proof fn a_split_is_by_the_share(total: u128, bps: u32)
    ensures
        bps > 10_000 ==> split(total, bps) == Err::<FeeSplitAmounts, _>(
            ErrorView::InvalidFeeShareBps,
        ),
        0 < bps < 10_000 && total * bps > u128::MAX ==> split(total, bps) == Err::<
            FeeSplitAmounts,
            _,
        >(ErrorView::Std(StdFailureView::GenericErr("Fee split overflow"@))),
        bps == 0 || bps == 10_000 || (bps < 10_000 && total * bps <= u128::MAX) ==> (split(
            total,
            bps,
        ) matches Ok(parts) && {
            &&& parts.treasury_amount * 10_000 <= total * bps
            &&& total * bps < (parts.treasury_amount + 1) * 10_000
            &&& parts.treasury_amount + parts.bounty_amount == total
        }),
{
    if bps <= 10_000 {
        lemma_share(total, bps);
    }
}

/// Whether a fee is accrued, with `part` the treasury's part of it: exactly if the fee can be
/// split and both pools have room for their parts. The treasury is credited first; what was
/// credited to it stays where the bounty pool turns out to have no room, and otherwise a refusal
/// changes nothing.
pub proof fn an_accrual_needs_room_in_both_pools(
    state: Ledger,
    denom: Seq<char>,
    fee: u128,
    share: u32,
    part: u128,
)
    requires
        fee > 0,
        is_share(state, denom, share),
        share <= 10_000 ==> part * 10_000 <= fee * share < (part + 1) * 10_000,
        share > 10_000 ==> part == 0,
    ensures
        ({
            let step = state.accrue(denom, fee);
            let rest = (fee - part) as u128;
            let splits = share == 0 || share == 10_000 || (share < 10_000 && fee * share
                <= u128::MAX);
            let credits = splits && has_room(state.treasury.get(denom), part);
            &&& step.reply is Ok <==> credits && has_room(state.bounty.get(denom), rest)
            &&& share > 10_000 ==> step.reply == Err::<FeeSplitAmounts, _>(
                ErrorView::InvalidFeeShareBps,
            )
            &&& share < 10_000 && !splits ==> step.reply == Err::<FeeSplitAmounts, _>(
                ErrorView::Std(StdFailureView::GenericErr("Fee split overflow"@)),
            )
            &&& splits && !credits ==> match state.treasury.get(denom) {
                Some(Entry::Malformed(e)) => step.reply == Err::<FeeSplitAmounts, _>(
                    ErrorView::Std(StdFailureView::Backend(e)),
                ),
                _ => step.reply == Err::<FeeSplitAmounts, _>(
                    ErrorView::Std(StdFailureView::GenericErr("Treasury balance overflow"@)),
                ),
            }
            &&& credits && !has_room(state.bounty.get(denom), rest) ==> match state.bounty.get(
                denom,
            ) {
                Some(Entry::Malformed(e)) => step.reply == Err::<FeeSplitAmounts, _>(
                    ErrorView::Std(StdFailureView::Backend(e)),
                ),
                _ => step.reply == Err::<FeeSplitAmounts, _>(
                    ErrorView::Std(StdFailureView::GenericErr("Bounty balance overflow"@)),
                ),
            }
            &&& step.reply is Err && !credits ==> step.ledger == state
            &&& step.reply is Err && credits ==> {
                &&& is_credited(
                    state.treasury.get(denom),
                    step.ledger.treasury.get(denom),
                    part,
                )
                &&& forall|other: Seq<char>|
                    other != denom ==> #[trigger] step.ledger.treasury.get(other)
                        == state.treasury.get(other)
                &&& step.ledger == Ledger { treasury: step.ledger.treasury, ..state }
            }
        }),
{
    if share <= 10_000 {
        lemma_share(fee, share);
        assert(part == fee * share / 10_000);
    }
}

/// The two pools of a market hold what is stored for them, and nothing where no balance is stored.
pub proof fn pools_hold_what_is_stored(state: Ledger, denom: Seq<char>, balance: u128)
    ensures
        state.treasury.get(denom) == Some(Entry::Value(balance)) ==> state.treasury_of(denom)
            == balance,
        state.treasury.get(denom) is None ==> state.treasury_of(denom) == 0,
        state.bounty.get(denom) == Some(Entry::Value(balance)) ==> state.bounty_of(denom)
            == balance,
        state.bounty.get(denom) is None ==> state.bounty_of(denom) == 0,
{
}

/// Whether a pool gives out `amount`, and why it does not: only to the owner, only an amount above
/// zero, only from a balance that decodes, and no more than the balance. Of several reasons the
/// first is reported.
pub open spec fn gives_out(
    config: Result<Seq<char>, StdError>,
    slot: Option<Entry<u128>>,
    sender: Seq<char>,
    amount: u128,
    reply: Result<u128, ErrorView>,
    shortfall: ErrorView,
) -> bool {
    let asked = config == Ok::<Seq<char>, StdError>(sender) && amount > 0;
    &&& (config matches Err(e) ==> reply == Err::<u128, _>(
        ErrorView::Std(StdFailureView::Backend(e)),
    ))
    &&& (config matches Ok(owner) ==> {
        &&& owner != sender ==> reply == Err::<u128, _>(ErrorView::Unauthorized)
        &&& owner == sender && amount == 0 ==> reply == Err::<u128, _>(ErrorView::InvalidAmount)
    })
    &&& asked ==> match slot {
        Some(Entry::Malformed(e)) => reply == Err::<u128, _>(
            ErrorView::Std(StdFailureView::Backend(e)),
        ),
        None => reply == Err::<u128, _>(shortfall),
        Some(Entry::Value(balance)) => reply == if amount <= balance {
            Ok(amount)
        } else {
            Err(shortfall)
        },
    }
}

/// A withdrawal from the treasury of a market succeeds exactly if the owner asks for an amount
/// above zero and at most the balance. The balance that is left is stored, also where it is zero,
/// and nothing else changes. A refusal changes nothing.
pub proof fn a_treasury_gives_out_what_it_holds(
    state: Ledger,
    sender: Seq<char>,
    denom: Seq<char>,
    amount: u128,
)
    ensures
        ({
            let step = state.debit_treasury(sender, denom, amount);
            let after = step.ledger;
            &&& gives_out(
                state.config,
                state.treasury.get(denom),
                sender,
                amount,
                step.reply,
                ErrorView::InsufficientTreasuryBalance,
            )
            &&& step.reply is Err ==> after == state
            &&& step.reply is Ok ==> {
                &&& state.treasury.get(denom) matches Some(Entry::Value(had))
                    && after.treasury.get(denom) matches Some(Entry::Value(left)) && left + amount
                    == had
                &&& forall|other: Seq<char>|
                    other != denom ==> #[trigger] after.treasury.get(other) == state.treasury.get(
                        other,
                    )
                &&& after == Ledger { treasury: after.treasury, ..state }
            }
        }),
{
}

/// A withdrawal from the bounty pool of a market succeeds exactly if the owner asks for an amount
/// above zero and at most the balance. The balance that is left is stored, also where it is zero,
/// and nothing else changes. A refusal changes nothing.
pub proof fn a_bounty_pool_gives_out_what_it_holds(
    state: Ledger,
    sender: Seq<char>,
    denom: Seq<char>,
    amount: u128,
)
    ensures
        ({
            let step = state.debit_bounty(sender, denom, amount);
            let after = step.ledger;
            &&& gives_out(
                state.config,
                state.bounty.get(denom),
                sender,
                amount,
                step.reply,
                ErrorView::InsufficientBountyBalance,
            )
            &&& step.reply is Err ==> after == state
            &&& step.reply is Ok ==> {
                &&& state.bounty.get(denom) matches Some(Entry::Value(had)) && after.bounty.get(
                    denom,
                ) matches Some(Entry::Value(left)) && left + amount == had
                &&& forall|other: Seq<char>|
                    other != denom ==> #[trigger] after.bounty.get(other) == state.bounty.get(other)
                &&& after == Ledger { bounty: after.bounty, ..state }
            }
        }),
{
}

} // verus!
