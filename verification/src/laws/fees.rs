//! Fees are split, credited and debited without loss, and markets do not touch one another.
use cosmwasm_std::StdError;
use vstd::prelude::*;

use crate::error::ErrorView;
use crate::fees::{credited, share_of, split, Balances, FeeSplitAmounts, MAX_FEE_SHARE_BPS};
use crate::ledger::{value_or, Ledger};

verus! {

impl Ledger {
    /// The treasury balance of a market.
    pub open spec fn treasury_of(self, denom: Seq<char>) -> u128 {
        value_or(self.treasury.get(denom), 0)
    }

    /// The bounty balance of a market.
    pub open spec fn bounty_of(self, denom: Seq<char>) -> u128 {
        value_or(self.bounty.get(denom), 0)
    }

    /// Whether `other` holds the same but for the fees of the market `denom`.
    pub open spec fn same_but_fees_of(self, other: Ledger, denom: Seq<char>) -> bool {
        &&& other == Ledger { treasury: other.treasury, bounty: other.bounty, ..self }
        &&& same_but(self.treasury, other.treasury, denom)
        &&& same_but(self.bounty, other.bounty, denom)
    }
}

impl Ledger {
    /// Whether accruing a fee credits its treasury part and then finds that its bounty part cannot
    /// be credited.
    pub open spec fn half_accrues(self, denom: Seq<char>, fee: u128) -> bool {
        split(fee, self.treasury_share(denom)) matches Ok(parts) && {
            &&& parts.treasury_amount > 0
            &&& credited(
                self.treasury,
                denom,
                parts.treasury_amount,
                "Treasury balance overflow"@,
            ) is Ok
            &&& credited(
                self.bounty,
                denom,
                parts.bounty_amount,
                "Bounty balance overflow"@,
            ) is Err
        }
    }
}

/// Whether two tables of balances agree but for one market.
pub open spec fn same_but(before: Balances, after: Balances, denom: Seq<char>) -> bool {
    forall|other: Seq<char>| other != denom ==> before.get(other) == #[trigger] after.get(other)
}

/// A share of at most 100 % splits a fee without loss: the two parts add up to it, and the part of
/// the treasury is its share rounded down. The bounty pool so receives what rounding leaves over,
/// which is less than one unit more than its own share.
pub proof fn a_split_loses_nothing(total: u128, bps: u32)
    requires
        bps <= MAX_FEE_SHARE_BPS,
    ensures
        split(total, bps) matches Ok(parts) ==> {
            &&& parts.treasury_amount + parts.bounty_amount == total
            &&& parts.treasury_amount * 10_000 <= total * bps
            &&& total * bps < (parts.treasury_amount + 1) * 10_000
            &&& parts.bounty_amount * 10_000 < total * (10_000 - bps) + 10_000
        },
{
    assert(0 <= total * bps <= total * 10_000) by (nonlinear_arith)
        requires
            0 <= bps <= 10_000,
            0 <= total,
    ;
    assert(total * (10_000 - bps) == total * 10_000 - total * bps) by (nonlinear_arith);
    assert(0 <= share_of(total, bps) <= total);
}

/// A split is refused for a share above 100 %, and otherwise only where the product of a partial
/// share with the fee does not fit in 128 bits.
pub proof fn a_split_succeeds(total: u128, bps: u32)
    ensures
        split(total, bps) is Ok <==> bps <= MAX_FEE_SHARE_BPS && (bps == 0 || bps
            == MAX_FEE_SHARE_BPS || total * bps <= u128::MAX),
        bps > MAX_FEE_SHARE_BPS ==> split(total, bps) == Err::<FeeSplitAmounts, _>(
            ErrorView::InvalidFeeShareBps,
        ),
{
}

/// A share of nothing and a share of everything send the whole fee to one side.
pub proof fn extreme_shares_do_not_divide(total: u128)
    ensures
        split(total, 0) == Ok::<_, ErrorView>(
            FeeSplitAmounts { treasury_amount: 0, bounty_amount: total },
        ),
        split(total, MAX_FEE_SHARE_BPS) == Ok::<_, ErrorView>(
            FeeSplitAmounts { treasury_amount: total, bounty_amount: 0 },
        ),
{
    assert(total * 0 == 0) by (nonlinear_arith);
}

/// Accruing a fee credits exactly the two parts of the split to the two pools of the market. The
/// pools together grow by the fee, and nothing else changes.
pub proof fn an_accrual_credits_the_fee(state: Ledger, denom: Seq<char>, fee: u128)
    ensures
        ({
            let step = state.accrue(denom, fee);
            step.reply matches Ok(parts) ==> {
                &&& split(fee, state.treasury_share(denom)) == Ok::<_, ErrorView>(parts) || fee == 0
                &&& parts.treasury_amount + parts.bounty_amount == fee
                &&& step.ledger.treasury_of(denom) == state.treasury_of(denom)
                    + parts.treasury_amount
                &&& step.ledger.bounty_of(denom) == state.bounty_of(denom) + parts.bounty_amount
                &&& state.same_but_fees_of(step.ledger, denom)
            }
        }),
{
    if fee != 0 && state.treasury_share(denom) <= MAX_FEE_SHARE_BPS {
        a_split_loses_nothing(fee, state.treasury_share(denom));
    }
    assert(state.accrue(denom, fee).ledger =~= (Ledger {
        treasury: state.accrue(denom, fee).ledger.treasury,
        bounty: state.accrue(denom, fee).ledger.bounty,
        ..state
    }));
}

/// A refused accrual leaves the bounty pools as they are, and the treasuries too unless it was
/// the bounty part that could not be credited.
pub proof fn a_refused_accrual_credits_no_bounty(state: Ledger, denom: Seq<char>, fee: u128)
    requires
        state.accrue(denom, fee).reply is Err,
    ensures
        state.accrue(denom, fee).ledger.bounty == state.bounty,
        state.same_but_fees_of(state.accrue(denom, fee).ledger, denom),
        state.accrue(denom, fee).ledger == state <==> !state.half_accrues(denom, fee),
{
    let after = state.accrue(denom, fee).ledger;
    if fee != 0 && state.treasury_share(denom) <= MAX_FEE_SHARE_BPS {
        a_split_loses_nothing(fee, state.treasury_share(denom));
    }
    if state.half_accrues(denom, fee) {
        assert(after.treasury_of(denom) > state.treasury_of(denom));
    }
}

/// A withdrawal from the treasury takes exactly the amount out of the treasury of its market, and
/// nothing else changes.
pub proof fn a_treasury_withdrawal_debits_the_amount(
    state: Ledger,
    sender: Seq<char>,
    denom: Seq<char>,
    amount: u128,
)
    ensures
        ({
            let step = state.debit_treasury(sender, denom, amount);
            &&& step.reply matches Ok(taken) ==> {
                &&& taken == amount
                &&& 0 < amount <= state.treasury_of(denom)
                &&& step.ledger.treasury_of(denom) == state.treasury_of(denom) - amount
                &&& step.ledger.bounty == state.bounty
                &&& state.same_but_fees_of(step.ledger, denom)
            }
            &&& step.reply is Err ==> step.ledger == state
        }),
{
}

/// A withdrawal from the bounty pool takes exactly the amount out of the bounty pool of its
/// market, and nothing else changes.
pub proof fn a_bounty_withdrawal_debits_the_amount(
    state: Ledger,
    sender: Seq<char>,
    denom: Seq<char>,
    amount: u128,
)
    ensures
        ({
            let step = state.debit_bounty(sender, denom, amount);
            &&& step.reply matches Ok(taken) ==> {
                &&& taken == amount
                &&& 0 < amount <= state.bounty_of(denom)
                &&& step.ledger.bounty_of(denom) == state.bounty_of(denom) - amount
                &&& step.ledger.treasury == state.treasury
                &&& state.same_but_fees_of(step.ledger, denom)
            }
            &&& step.reply is Err ==> step.ledger == state
        }),
{
}

/// Only the owner withdraws: anyone else is refused as unauthorized, and nothing changes.
pub proof fn only_the_owner_withdraws_fees(
    state: Ledger,
    owner: Seq<char>,
    sender: Seq<char>,
    denom: Seq<char>,
    amount: u128,
)
    requires
        state.config == Ok::<Seq<char>, StdError>(owner),
        sender != owner,
    ensures
        state.debit_treasury(sender, denom, amount) == state.refuses::<u128>(
            ErrorView::Unauthorized,
        ),
        state.debit_bounty(sender, denom, amount) == state.refuses::<u128>(
            ErrorView::Unauthorized,
        ),
{
}

/// What an accrual credited, the owner can withdraw: the pools then hold what they held before.
pub proof fn accrued_fees_can_be_withdrawn(
    state: Ledger,
    owner: Seq<char>,
    denom: Seq<char>,
    fee: u128,
)
    requires
        state.config == Ok::<Seq<char>, StdError>(owner),
        state.accrue(denom, fee).reply is Ok,
    ensures
        ({
            let accrued = state.accrue(denom, fee);
            let parts = accrued.reply->Ok_0;
            let debited = accrued.ledger.debit_treasury(owner, denom, parts.treasury_amount);
            let emptied = accrued.ledger.debit_bounty(owner, denom, parts.bounty_amount);
            &&& parts.treasury_amount > 0 ==> debited.reply is Ok && debited.ledger.treasury_of(
                denom,
            ) == state.treasury_of(denom)
            &&& parts.bounty_amount > 0 ==> emptied.reply is Ok && emptied.ledger.bounty_of(denom)
                == state.bounty_of(denom)
        }),
{
    an_accrual_credits_the_fee(state, denom, fee);
}

} // verus!
