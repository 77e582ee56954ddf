//! Collateral is neither lost nor invented, borrowers and tokens do not touch one another, and the
//! allowlist governs what can be deposited.
use vstd::prelude::*;

use crate::chain::Attributes;
use crate::collateral::{Holding, MAX_RISK_WEIGHT_BPS};
use crate::error::ErrorView;
use crate::laws::order::{in_order, sorting_orders_and_keeps, texts_are_totally_ordered};
use crate::ledger::{Entry, Ledger};
use crate::state::DEFAULT_COLLATERAL_RISK_WEIGHT_BPS;
use crate::text::{text_before, without};

verus! {

/// Whether a balance, if one is kept, is above zero.
pub open spec fn above_zero(slot: Option<Entry<u128>>) -> bool {
    match slot {
        None => true,
        Some(Entry::Value(amount)) => amount > 0,
        Some(Entry::Malformed(_)) => false,
    }
}

/// Whether the risk weight of `denom`, if one is kept, is at most 100 % and `denom` is listed.
pub open spec fn weight_sound(
    slot: Option<Entry<u32>>,
    listed: Seq<Seq<char>>,
    denom: Seq<char>,
) -> bool {
    match slot {
        None => true,
        Some(Entry::Value(bps)) => bps <= MAX_RISK_WEIGHT_BPS && listed.contains(denom),
        Some(Entry::Malformed(_)) => false,
    }
}

impl Ledger {
    /// Whether the list of each borrower's tokens names exactly the tokens with a balance, each
    /// once, and no balance of zero is kept.
    pub open spec fn collateral_indexed(self) -> bool {
        &&& forall|b: Seq<char>| !(#[trigger] self.tokens.get(b) matches Some(Entry::Malformed(_)))
        &&& forall|b: Seq<char>| (#[trigger] self.deposited(b)).no_duplicates()
        &&& forall|b: Seq<char>, d: Seq<char>|
            above_zero(#[trigger] self.balances.get((b, d)))
        &&& forall|b: Seq<char>, d: Seq<char>|
            #![trigger self.deposited(b).contains(d)]
            #![trigger self.balances.get((b, d))]
            self.deposited(b).contains(d) <==> self.balances.get((b, d)) is Some
    }

    /// Whether the allowlist names no token twice, and risk weights are at most 100 % and only
    /// kept for tokens on the allowlist.
    pub open spec fn allowlist_sound(self) -> bool {
        &&& !(self.allowlist matches Some(Entry::Malformed(_)))
        &&& self.listed().no_duplicates()
        &&& forall|d: Seq<char>| weight_sound(#[trigger] self.weights.get(d), self.listed(), d)
    }

    /// Whether `other` holds the same but for the collateral of `borrower`.
    pub open spec fn same_but_collateral_of(self, other: Ledger, borrower: Seq<char>) -> bool {
        &&& other == Ledger { balances: other.balances, tokens: other.tokens, ..self }
        &&& forall|b: Seq<char>|
            b != borrower ==> self.tokens.get(b) == #[trigger] other.tokens.get(b)
        &&& forall|b: Seq<char>, d: Seq<char>|
            b != borrower ==> self.balances.get((b, d)) == #[trigger] other.balances.get((b, d))
    }

    /// The sum of the balances of `holdings`, before risk weighting.
    pub open spec fn raw_sum(holdings: Seq<Holding>) -> int
        decreases holdings.len(),
    {
        if holdings.len() == 0 {
            0
        } else {
            Ledger::raw_sum(holdings.drop_last()) + holdings.last().1
        }
    }
}

proof fn lemma_without(list: Seq<Seq<char>>, unwanted: Seq<char>)
    ensures
        forall|t: Seq<char>| #[trigger]
            without(list, unwanted).contains(t) <==> list.contains(t) && t != unwanted,
        list.no_duplicates() ==> without(list, unwanted).no_duplicates(),
        !list.contains(unwanted) ==> without(list, unwanted) == list,
        !list.contains(unwanted) ==> without(list.push(unwanted), unwanted) == list,
    decreases list.len(),
{
    reveal(Seq::filter);
    let kept = without(list, unwanted);
    if list.len() > 0 {
        let shorter = list.drop_last();
        let fewer = without(shorter, unwanted);
        lemma_without(shorter, unwanted);
        assert(list =~= shorter.push(list.last()));
        assert forall|t: Seq<char>| #[trigger] kept.contains(t) <==> list.contains(t) && t
            != unwanted by {
            assert(fewer.contains(t) <==> shorter.contains(t) && t != unwanted);
            lemma_push_contains(shorter, list.last(), t);
            lemma_push_contains(fewer, list.last(), t);
        }
        if list.no_duplicates() {
            assert forall|i: int, j: int| 0 <= i < shorter.len() && 0 <= j < shorter.len() && i
                != j implies shorter[i] != shorter[j] by {
                assert(shorter[i] == list[i] && shorter[j] == list[j]);
            }
            assert(!shorter.contains(list.last()));
            assert(!fewer.contains(list.last()));
            assert(kept.no_duplicates());
        }
        if !list.contains(unwanted) {
            assert(list[list.len() - 1] != unwanted);
            assert forall|t: Seq<char>| shorter.contains(t) implies list.contains(t) by {
                lemma_push_contains(shorter, list.last(), t);
            }
            assert(kept =~= list);
        }
    }
    if !list.contains(unwanted) {
        assert(list.push(unwanted).drop_last() =~= list);
    }
}

proof fn lemma_push_contains(list: Seq<Seq<char>>, last: Seq<char>, t: Seq<char>)
    ensures
        list.push(last).contains(t) <==> list.contains(t) || t == last,
{
    let longer = list.push(last);
    if list.contains(t) {
        let i = list.index_of(t);
        assert(longer[i] == t);
    }
    if t == last {
        assert(longer[list.len() as int] == t);
    }
    if longer.contains(t) {
        let i = longer.index_of(t);
        if i < list.len() {
            assert(list[i] == t);
        }
    }
}

/// A deposit adds its amount to the balance of its token and borrower. The other balances of the
/// borrower, and everything of other borrowers, stay as they are.
pub proof fn a_deposit_adds_to_one_balance(
    state: Ledger,
    borrower: Seq<char>,
    denom: Seq<char>,
    amount: u128,
)
    ensures
        ({
            let step = state.deposit(borrower, denom, amount);
            &&& state.same_but_collateral_of(step.ledger, borrower)
            &&& forall|d: Seq<char>|
                d != denom ==> #[trigger] step.ledger.balances.get((borrower, d))
                    == state.balances.get((borrower, d))
            &&& step.reply is Ok ==> amount > 0 && state.listed().contains(denom)
                && step.ledger.balance(borrower, denom) == state.balance(borrower, denom) + amount
        }),
{
}

/// A withdrawal takes its amount off the balance of its token and borrower. The other balances of
/// the borrower, and everything of other borrowers, stay as they are.
pub proof fn a_withdrawal_takes_from_one_balance(
    state: Ledger,
    borrower: Seq<char>,
    denom: Seq<char>,
    amount: u128,
)
    ensures
        ({
            let step = state.withdraw(borrower, denom, amount);
            &&& state.same_but_collateral_of(step.ledger, borrower)
            &&& forall|d: Seq<char>|
                d != denom ==> #[trigger] step.ledger.balances.get((borrower, d))
                    == state.balances.get((borrower, d))
            &&& step.reply is Ok ==> 0 < amount <= state.balance(borrower, denom)
                && step.ledger.balance(borrower, denom) == state.balance(borrower, denom) - amount
        }),
{
}

/// Deposits keep the list of tokens in step with the balances.
pub proof fn deposits_keep_the_index(
    state: Ledger,
    borrower: Seq<char>,
    denom: Seq<char>,
    amount: u128,
)
    requires
        state.collateral_indexed(),
    ensures
        state.deposit(borrower, denom, amount).ledger.collateral_indexed(),
{
    let after = state.deposit(borrower, denom, amount).ledger;
    let list = state.deposited(borrower);
    refused_transfers_change_nothing(state, borrower, denom, amount);
    if state.deposit(borrower, denom, amount).reply is Ok {
        assert forall|b: Seq<char>| !(#[trigger] after.tokens.get(b) matches Some(
            Entry::Malformed(_),
        )) by {
            assert(!(state.tokens.get(b) matches Some(Entry::Malformed(_))));
        }
        assert forall|b: Seq<char>, d: Seq<char>| above_zero(
            #[trigger] after.balances.get((b, d)),
        ) by {
            assert(above_zero(state.balances.get((b, d))));
        }
        assert forall|b: Seq<char>| (#[trigger] after.deposited(b)).no_duplicates() by {
            assert(state.deposited(b).no_duplicates());
            if b == borrower && !list.contains(denom) {
                assert(after.deposited(b) =~= list.push(denom));
            }
        }
        assert forall|b: Seq<char>, d: Seq<char>|
            #![trigger after.deposited(b).contains(d)]
            #![trigger after.balances.get((b, d))]
            after.deposited(b).contains(d) <==> after.balances.get((b, d)) is Some by {
            assert(state.deposited(b).contains(d) <==> state.balances.get((b, d)) is Some);
            lemma_push_contains(list, denom, d);
        }
    }
}

/// Withdrawals keep the list of tokens in step with the balances.
pub proof fn withdrawals_keep_the_index(
    state: Ledger,
    borrower: Seq<char>,
    denom: Seq<char>,
    amount: u128,
)
    requires
        state.collateral_indexed(),
    ensures
        state.withdraw(borrower, denom, amount).ledger.collateral_indexed(),
{
    let after = state.withdraw(borrower, denom, amount).ledger;
    let list = state.deposited(borrower);
    lemma_without(list, denom);
    assert(list.no_duplicates());
    refused_transfers_change_nothing(state, borrower, denom, amount);
    if state.withdraw(borrower, denom, amount).reply is Ok {
        assert forall|b: Seq<char>| !(#[trigger] after.tokens.get(b) matches Some(
            Entry::Malformed(_),
        )) by {
            assert(!(state.tokens.get(b) matches Some(Entry::Malformed(_))));
        }
        assert forall|b: Seq<char>, d: Seq<char>| above_zero(
            #[trigger] after.balances.get((b, d)),
        ) by {
            assert(above_zero(state.balances.get((b, d))));
        }
        assert forall|b: Seq<char>| (#[trigger] after.deposited(b)).no_duplicates() by {
            assert(state.deposited(b).no_duplicates());
        }
        assert forall|b: Seq<char>, d: Seq<char>|
            #![trigger after.deposited(b).contains(d)]
            #![trigger after.balances.get((b, d))]
            after.deposited(b).contains(d) <==> after.balances.get((b, d)) is Some by {
            assert(state.deposited(b).contains(d) <==> state.balances.get((b, d)) is Some);
            assert(without(list, denom).contains(d) <==> list.contains(d) && d != denom);
        }
    }
}

/// A refused deposit or withdrawal changes nothing.
pub proof fn refused_transfers_change_nothing(
    state: Ledger,
    borrower: Seq<char>,
    denom: Seq<char>,
    amount: u128,
)
    requires
        state.collateral_indexed(),
    ensures
        state.deposit(borrower, denom, amount).reply is Err ==> state.deposit(
            borrower,
            denom,
            amount,
        ).ledger == state,
        state.withdraw(borrower, denom, amount).reply is Err ==> state.withdraw(
            borrower,
            denom,
            amount,
        ).ledger == state,
{
    assert(!(state.tokens.get(borrower) matches Some(Entry::Malformed(_))));
}

/// A deposit succeeds exactly for an amount above zero of a token on the allowlist, where the
/// balance does not overflow.
pub proof fn a_deposit_succeeds(
    state: Ledger,
    borrower: Seq<char>,
    denom: Seq<char>,
    amount: u128,
)
    requires
        state.collateral_indexed(),
    ensures
        state.deposit(borrower, denom, amount).reply is Ok <==> amount > 0
            && state.listed().contains(denom) && state.balance(borrower, denom) + amount
            <= u128::MAX,
{
    assert(!(state.tokens.get(borrower) matches Some(Entry::Malformed(_))));
    assert(!(state.balances.get((borrower, denom)) matches Some(Entry::Malformed(_))));
}

/// A withdrawal succeeds exactly for an amount above zero and at most the balance, whether or not
/// the token is on the allowlist.
pub proof fn a_withdrawal_succeeds(
    state: Ledger,
    borrower: Seq<char>,
    denom: Seq<char>,
    amount: u128,
)
    requires
        state.collateral_indexed(),
    ensures
        state.withdraw(borrower, denom, amount).reply is Ok <==> 0 < amount <= state.balance(
            borrower,
            denom,
        ),
{
    assert(!(state.tokens.get(borrower) matches Some(Entry::Malformed(_))));
    assert(!(state.balances.get((borrower, denom)) matches Some(Entry::Malformed(_))));
}

/// What was deposited can be withdrawn, and withdrawing it undoes the deposit: all balances and
/// the tokens on record are as before.
pub proof fn a_withdrawal_undoes_a_deposit(
    state: Ledger,
    borrower: Seq<char>,
    denom: Seq<char>,
    amount: u128,
)
    requires
        state.collateral_indexed(),
        state.deposit(borrower, denom, amount).reply is Ok,
    ensures
        ({
            let deposited = state.deposit(borrower, denom, amount).ledger;
            let step = deposited.withdraw(borrower, denom, amount);
            &&& step.reply is Ok
            &&& step.ledger.balances == state.balances
            &&& forall|b: Seq<char>| #[trigger] step.ledger.deposited(b) == state.deposited(b)
        }),
{
    let deposited = state.deposit(borrower, denom, amount).ledger;
    let step = deposited.withdraw(borrower, denom, amount);
    let list = state.deposited(borrower);
    assert(!(state.tokens.get(borrower) matches Some(Entry::Malformed(_))));
    assert(list.contains(denom) <==> state.balances.get((borrower, denom)) is Some);
    assert(above_zero(state.balances.get((borrower, denom))));
    lemma_without(list, denom);
    assert(step.ledger.balances =~= state.balances);
}

/// Two deposits of a token come to the same as one deposit of both amounts.
pub proof fn deposits_accumulate(
    state: Ledger,
    borrower: Seq<char>,
    denom: Seq<char>,
    first: u128,
    second: u128,
)
    requires
        first > 0,
        second > 0,
        first + second <= u128::MAX,
        state.deposit(borrower, denom, (first + second) as u128).reply is Ok,
    ensures
        state.deposit(borrower, denom, first).reply is Ok,
        state.deposit(borrower, denom, first).ledger.deposit(borrower, denom, second).reply is Ok,
        state.deposit(borrower, denom, first).ledger.deposit(borrower, denom, second).ledger
            == state.deposit(borrower, denom, (first + second) as u128).ledger,
{
    let once = state.deposit(borrower, denom, first).ledger;
    let twice = once.deposit(borrower, denom, second).ledger;
    let both = state.deposit(borrower, denom, (first + second) as u128).ledger;
    lemma_push_contains(state.deposited(borrower), denom, denom);
    assert(twice.balances =~= both.balances);
    assert(twice.tokens =~= both.tokens);
    assert(twice =~= both);
}

/// The holdings of a borrower come in the order of their tokens.
pub proof fn holdings_are_sorted(state: Ledger, borrower: Seq<char>)
    ensures
        in_order(state.holdings(borrower)),
{
    sorting_orders_and_keeps(state.holdings_in(borrower, state.deposited(borrower)));
}

proof fn lemma_holdings_in(state: Ledger, borrower: Seq<char>, denoms: Seq<Seq<char>>)
    requires
        denoms.no_duplicates(),
    ensures
        state.holdings_in(borrower, denoms).no_duplicates(),
        forall|h: Holding| #[trigger]
            state.holdings_in(borrower, denoms).contains(h) <==> denoms.contains(h.0) && h.1
                == state.balance(borrower, h.0) && h.1 != 0,
    decreases denoms.len(),
{
    reveal(Seq::filter);
    let pair = |denom: Seq<char>| (denom, state.balance(borrower, denom));
    let all = state.holdings_in(borrower, denoms);
    if denoms.len() == 0 {
        assert(denoms.map_values(pair) =~= Seq::<Holding>::empty());
    } else {
        let shorter = denoms.drop_last();
        let fewer = state.holdings_in(borrower, shorter);
        let last = (denoms.last(), state.balance(borrower, denoms.last()));
        assert forall|i: int, j: int| 0 <= i < shorter.len() && 0 <= j < shorter.len() && i
            != j implies shorter[i] != shorter[j] by {
            assert(shorter[i] == denoms[i] && shorter[j] == denoms[j]);
        }
        lemma_holdings_in(state, borrower, shorter);
        assert(denoms.map_values(pair).drop_last() =~= shorter.map_values(pair));
        assert(denoms.map_values(pair).last() == last);
        assert(all == if last.1 != 0 {
            fewer.push(last)
        } else {
            fewer
        });
        assert(denoms =~= shorter.push(denoms.last()));
        assert(!shorter.contains(denoms.last()));
        assert(!fewer.contains(last));
        assert forall|h: Holding| #[trigger] all.contains(h) <==> denoms.contains(h.0) && h.1
            == state.balance(borrower, h.0) && h.1 != 0 by {
            lemma_push_contains(shorter, denoms.last(), h.0);
            assert(fewer.contains(h) <==> shorter.contains(h.0) && h.1 == state.balance(
                borrower,
                h.0,
            ) && h.1 != 0);
            assert(fewer.push(last).contains(h) <==> fewer.contains(h) || h == last) by {
                if fewer.contains(h) {
                    assert(fewer.push(last)[fewer.index_of(h)] == h);
                }
                if h == last {
                    assert(fewer.push(last)[fewer.len() as int] == h);
                }
                if fewer.push(last).contains(h) {
                    let i = fewer.push(last).index_of(h);
                    if i < fewer.len() {
                        assert(fewer[i] == h);
                    }
                }
            }
        }
        assert(all.no_duplicates());
    }
}

/// The holdings of a borrower are complete: a token is among them exactly if its balance is above
/// zero, with that balance, once. They come in strictly ascending order.
pub proof fn holdings_are_complete(state: Ledger, borrower: Seq<char>)
    requires
        state.collateral_indexed(),
    ensures
        forall|d: Seq<char>, amount: u128| #[trigger]
            state.holdings(borrower).contains((d, amount)) <==> amount > 0 && amount
                == state.balance(borrower, d),
        forall|i: int, j: int|
            0 <= i < j < state.holdings(borrower).len() ==> text_before(
                (#[trigger] state.holdings(borrower)[i]).0,
                (#[trigger] state.holdings(borrower)[j]).0,
            ),
{
    broadcast use vstd::seq_lib::group_to_multiset_ensures;

    let denoms = state.deposited(borrower);
    let unsorted = state.holdings_in(borrower, denoms);
    let holdings = state.holdings(borrower);
    assert(denoms.no_duplicates());
    lemma_holdings_in(state, borrower, denoms);
    sorting_orders_and_keeps(unsorted);
    assert forall|d: Seq<char>, amount: u128| #[trigger] holdings.contains(
        (d, amount),
    ) <==> amount > 0 && amount == state.balance(borrower, d) by {
        let h = (d, amount);
        assert(holdings.contains(h) <==> holdings.to_multiset().contains(h));
        assert(unsorted.contains(h) <==> unsorted.to_multiset().contains(h));
        assert(denoms.contains(d) <==> state.balances.get((borrower, d)) is Some);
    }
    unsorted.lemma_multiset_has_no_duplicates();
    holdings.lemma_multiset_has_no_duplicates_conv();
    assert forall|i: int, j: int| 0 <= i < j < holdings.len() implies text_before(
        (#[trigger] holdings[i]).0,
        (#[trigger] holdings[j]).0,
    ) by {
        assert(holdings.contains(holdings[i]));
        assert(holdings.contains(holdings[j]));
        assert(holdings.contains((holdings[i].0, holdings[i].1)));
        assert(holdings.contains((holdings[j].0, holdings[j].1)));
        assert(holdings[i] != holdings[j]);
        assert(holdings[i].0 != holdings[j].0);
        texts_are_totally_ordered(holdings[i].0, holdings[j].0, holdings[j].0);
    }
}

proof fn lemma_same_sums(one: Ledger, other: Ledger, holdings: Seq<Holding>)
    requires
        one.weights == other.weights,
    ensures
        one.weighed_sum(holdings) == other.weighed_sum(holdings),
    decreases holdings.len(),
{
    if holdings.len() > 0 {
        lemma_same_sums(one, other, holdings.drop_last());
    }
}

proof fn lemma_same_holdings(one: Ledger, other: Ledger, borrower: Seq<char>)
    requires
        one.weights == other.weights,
        one.tokens.get(borrower) == other.tokens.get(borrower),
        forall|d: Seq<char>|
            one.balances.get((borrower, d)) == #[trigger] other.balances.get((borrower, d)),
    ensures
        one.holdings(borrower) == other.holdings(borrower),
        one.weighted_total(borrower) == other.weighted_total(borrower),
{
    let denoms = one.deposited(borrower);
    assert(denoms.map_values(|d: Seq<char>| (d, one.balance(borrower, d))) =~= denoms.map_values(
        |d: Seq<char>| (d, other.balance(borrower, d)),
    ));
    let holdings = one.holdings(borrower);
    lemma_same_sums(one, other, holdings);
    assert forall|i: int| 0 <= i < holdings.len() implies #[trigger] one.weighed(holdings[i])
        == other.weighed(holdings[i]) by {}
    assert((exists|i: int|
        0 <= i < holdings.len() && #[trigger] one.weighed(holdings[i]) > u128::MAX) <==> (exists|
        i: int,
    |
        0 <= i < holdings.len() && #[trigger] other.weighed(holdings[i]) > u128::MAX)) by {
        if exists|i: int|
            0 <= i < holdings.len() && #[trigger] one.weighed(holdings[i]) > u128::MAX {
            let i = choose|i: int|
                0 <= i < holdings.len() && #[trigger] one.weighed(holdings[i]) > u128::MAX;
            assert(other.weighed(holdings[i]) > u128::MAX);
        }
        if exists|i: int|
            0 <= i < holdings.len() && #[trigger] other.weighed(holdings[i]) > u128::MAX {
            let i = choose|i: int|
                0 <= i < holdings.len() && #[trigger] other.weighed(holdings[i]) > u128::MAX;
            assert(one.weighed(holdings[i]) > u128::MAX);
        }
    }
}

/// Deposits and withdrawals of one borrower leave the holdings and the risk-weighted total of
/// every other borrower as they are.
pub proof fn borrowers_are_isolated(
    state: Ledger,
    borrower: Seq<char>,
    other: Seq<char>,
    denom: Seq<char>,
    amount: u128,
)
    requires
        other != borrower,
    ensures
        ({
            let deposited = state.deposit(borrower, denom, amount).ledger;
            let withdrawn = state.withdraw(borrower, denom, amount).ledger;
            &&& deposited.holdings(other) == state.holdings(other)
            &&& deposited.weighted_total(other) == state.weighted_total(other)
            &&& withdrawn.holdings(other) == state.holdings(other)
            &&& withdrawn.weighted_total(other) == state.weighted_total(other)
        }),
{
    a_deposit_adds_to_one_balance(state, borrower, denom, amount);
    a_withdrawal_takes_from_one_balance(state, borrower, denom, amount);
    lemma_same_holdings(state.deposit(borrower, denom, amount).ledger, state, other);
    lemma_same_holdings(state.withdraw(borrower, denom, amount).ledger, state, other);
}

/// A borrower without deposits has a risk-weighted total of zero.
pub proof fn no_deposits_weigh_nothing(state: Ledger, borrower: Seq<char>)
    requires
        state.deposited(borrower).len() == 0,
    ensures
        state.holdings(borrower).len() == 0,
        state.weighted_total(borrower) == Ok::<u128, ErrorView>(0),
{
    reveal(Seq::filter);
    assert(state.deposited(borrower).map_values(
        |d: Seq<char>| (d, state.balance(borrower, d)),
    ) =~= Seq::<Holding>::empty());
}

proof fn lemma_sums(state: Ledger, holdings: Seq<Holding>)
    requires
        state.allowlist_sound(),
    ensures
        0 <= state.weighed_sum(holdings) <= Ledger::raw_sum(holdings),
        (forall|i: int|
            0 <= i < holdings.len() ==> state.weight((#[trigger] holdings[i]).0)
                == DEFAULT_COLLATERAL_RISK_WEIGHT_BPS) ==> state.weighed_sum(holdings)
            == Ledger::raw_sum(holdings),
    decreases holdings.len(),
{
    if holdings.len() > 0 {
        let shorter = holdings.drop_last();
        let last = holdings.last();
        lemma_sums(state, shorter);
        assert(state.weight(last.0) <= 10_000);
        assert(0 <= last.1 * state.weight(last.0) <= last.1 * 10_000) by (nonlinear_arith)
            requires
                0 <= state.weight(last.0) <= 10_000,
                0 <= last.1,
        ;
        if forall|i: int|
            0 <= i < holdings.len() ==> state.weight((#[trigger] holdings[i]).0)
                == DEFAULT_COLLATERAL_RISK_WEIGHT_BPS {
            assert forall|i: int| 0 <= i < shorter.len() implies state.weight(
                (#[trigger] shorter[i]).0,
            ) == DEFAULT_COLLATERAL_RISK_WEIGHT_BPS by {
                assert(shorter[i] == holdings[i]);
            }
            assert(holdings[holdings.len() - 1] == last);
            assert(state.weighed(last) == last.1 * 10_000) by {
                assert(state.weight(last.0) == 10_000);
            }
        }
    }
}

/// Risk weighting never adds value: the risk-weighted total is at most the sum of the balances,
/// and it is that sum where every token has the default weight.
pub proof fn risk_weights_never_add_value(state: Ledger, borrower: Seq<char>)
    requires
        state.allowlist_sound(),
    ensures
        state.weighted_total(borrower) matches Ok(total) ==> {
            &&& total <= Ledger::raw_sum(state.holdings(borrower))
            &&& (forall|i: int|
                0 <= i < state.holdings(borrower).len() ==> state.weight(
                    (#[trigger] state.holdings(borrower)[i]).0,
                ) == DEFAULT_COLLATERAL_RISK_WEIGHT_BPS) ==> total == Ledger::raw_sum(
                state.holdings(borrower),
            )
        },
{
    lemma_sums(state, state.holdings(borrower));
}

/// A token with a weight of zero contributes nothing to the risk-weighted total.
pub proof fn a_zero_weight_contributes_nothing(
    state: Ledger,
    holdings: Seq<Holding>,
    holding: Holding,
)
    requires
        state.weight(holding.0) == 0,
    ensures
        state.weighed_sum(holdings.push(holding)) == state.weighed_sum(holdings),
{
    assert(holding.1 * state.weight(holding.0) == 0) by (nonlinear_arith)
        requires
            state.weight(holding.0) == 0,
    ;
    assert(holdings.push(holding).drop_last() =~= holdings);
}

/// Adding a token, removing one and setting a risk weight keep the allowlist sound, and leave
/// balances and everything else as they are. Where one of them is refused, nothing changes.
pub proof fn the_allowlist_stays_sound(state: Ledger, denom: Seq<char>, weight_bps: u32)
    requires
        state.allowlist_sound(),
    ensures
        ({
            let added = state.add_token(denom, weight_bps);
            let removed = state.remove_token(denom);
            let weighted = state.set_weight(denom, weight_bps);
            &&& added.ledger.allowlist_sound()
            &&& removed.ledger.allowlist_sound()
            &&& weighted.ledger.allowlist_sound()
            &&& added.ledger == Ledger {
                allowlist: added.ledger.allowlist,
                weights: added.ledger.weights,
                ..state
            }
            &&& removed.ledger == Ledger {
                allowlist: removed.ledger.allowlist,
                weights: removed.ledger.weights,
                ..state
            }
            &&& weighted.ledger == Ledger { weights: weighted.ledger.weights, ..state }
            &&& added.reply is Err ==> added.ledger == state
            &&& removed.reply is Err ==> removed.ledger == state
            &&& weighted.reply is Err ==> weighted.ledger == state
        }),
{
    let list = state.listed();
    lemma_without(list, denom);
    let added = state.add_token(denom, weight_bps);
    let removed = state.remove_token(denom);
    let weighted = state.set_weight(denom, weight_bps);
    if added.reply is Ok {
        assert forall|d: Seq<char>| weight_sound(
            #[trigger] added.ledger.weights.get(d),
            added.ledger.listed(),
            d,
        ) by {
            assert(weight_sound(state.weights.get(d), list, d));
            lemma_push_contains(list, denom, d);
        }
    }
    if removed.reply is Ok {
        assert forall|d: Seq<char>| weight_sound(
            #[trigger] removed.ledger.weights.get(d),
            removed.ledger.listed(),
            d,
        ) by {
            assert(weight_sound(state.weights.get(d), list, d));
            assert(without(list, denom).contains(d) <==> list.contains(d) && d != denom);
        }
    }
    if weighted.reply is Ok {
        assert forall|d: Seq<char>| weight_sound(
            #[trigger] weighted.ledger.weights.get(d),
            weighted.ledger.listed(),
            d,
        ) by {
            assert(weight_sound(state.weights.get(d), list, d));
        }
    }
}

/// A token that was added is on the allowlist, last, with the weight it was given. The weights of
/// other tokens stay as they are.
pub proof fn an_added_token_is_listed_with_its_weight(
    state: Ledger,
    denom: Seq<char>,
    weight_bps: u32,
)
    requires
        state.allowlist_sound(),
        state.add_token(denom, weight_bps).reply is Ok,
    ensures
        ({
            let after = state.add_token(denom, weight_bps).ledger;
            &&& after.listed() == state.listed().push(denom)
            &&& after.listed().contains(denom)
            &&& after.weight(denom) == weight_bps
            &&& forall|d: Seq<char>| d != denom ==> #[trigger] after.weight(d) == state.weight(d)
        }),
{
    lemma_push_contains(state.listed(), denom, denom);
    assert(weight_sound(state.weights.get(denom), state.listed(), denom));
}

/// A risk weight that was set is the weight of its token, and of no other.
pub proof fn a_weight_that_was_set_applies(state: Ledger, denom: Seq<char>, weight_bps: u32)
    requires
        state.set_weight(denom, weight_bps).reply is Ok,
    ensures
        ({
            let after = state.set_weight(denom, weight_bps).ledger;
            &&& after.weight(denom) == weight_bps
            &&& forall|d: Seq<char>| d != denom ==> #[trigger] after.weight(d) == state.weight(d)
        }),
{
}

/// A token that was removed takes no deposits any more and has the default weight again. What is
/// deposited of it stays, and can be withdrawn as before.
pub proof fn a_removed_token_takes_no_deposits(
    state: Ledger,
    borrower: Seq<char>,
    denom: Seq<char>,
    amount: u128,
)
    requires
        state.remove_token(denom).reply is Ok,
        amount > 0,
    ensures
        ({
            let after = state.remove_token(denom).ledger;
            &&& !after.listed().contains(denom)
            &&& after.weight(denom) == DEFAULT_COLLATERAL_RISK_WEIGHT_BPS
            &&& after.deposit(borrower, denom, amount) == after.refuses::<Attributes>(
                ErrorView::CollateralTokenNotAllowed,
            )
            &&& after.balance(borrower, denom) == state.balance(borrower, denom)
            &&& after.withdraw(borrower, denom, amount).reply == state.withdraw(
                borrower,
                denom,
                amount,
            ).reply
        }),
{
    lemma_without(state.listed(), denom);
    assert(!without(state.listed(), denom).contains(denom));
}

/// Removing a token that was just added undoes the addition.
pub proof fn removing_undoes_adding(state: Ledger, denom: Seq<char>, weight_bps: u32)
    requires
        state.allowlist_sound(),
        state.add_token(denom, weight_bps).reply is Ok,
    ensures
        ({
            let added = state.add_token(denom, weight_bps).ledger;
            let step = added.remove_token(denom);
            &&& step.reply is Ok
            &&& step.ledger.listed() == state.listed()
            &&& step.ledger.weights == state.weights
        }),
{
    let added = state.add_token(denom, weight_bps).ledger;
    lemma_push_contains(state.listed(), denom, denom);
    lemma_without(state.listed(), denom);
    assert(weight_sound(state.weights.get(denom), state.listed(), denom));
    assert(added.remove_token(denom).ledger.weights =~= state.weights);
}

/// Where there is no allowlist, or an empty one, no deposit is accepted.
pub proof fn an_empty_allowlist_accepts_nothing(
    state: Ledger,
    borrower: Seq<char>,
    denom: Seq<char>,
    amount: u128,
)
    requires
        state.listed().len() == 0,
    ensures
        state.deposit(borrower, denom, amount).reply is Err,
        state.deposit(borrower, denom, amount).ledger == state,
{
}

} // verus!
