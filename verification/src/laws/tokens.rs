//! What deposits, withdrawals and changes of the allowlist come to, and what collateral weighs,
//! for every state.
use cosmwasm_std::StdError;
use vstd::prelude::*;

use crate::chain::Attributes;
use crate::collateral::{inserted, sorted, Holding};
use crate::error::{ErrorView, StdFailureView};
use crate::laws::collateral::holdings_are_complete;
use crate::laws::order::{in_order, sorting_orders_and_keeps};
use crate::laws::shares::{has_room, is_credited};
use crate::ledger::{Entry, Ledger, Refusals};
use crate::text::{amount_of, decimal, text_before, without};

verus! {

/// Whether `denom` is on the stored allowlist.
pub open spec fn on_allowlist(state: Ledger, denom: Seq<char>) -> bool {
    state.allowlist matches Some(Entry::Value(list)) && list.contains(denom)
}

/// Whether `bps` is the risk weight of a token: the stored one where there is one that decodes,
/// else 100 %.
pub open spec fn is_weight(state: Ledger, denom: Seq<char>, bps: u32) -> bool {
    match state.weights.get(denom) {
        Some(Entry::Value(own)) => bps == own,
        _ => bps == 10_000,
    }
}

/// What is read of collateral is what is stored. Where nothing is stored or it does not decode, a
/// balance is zero, a risk weight is 100 %, and a list of tokens is empty.
pub proof fn missing_entries_have_defaults(
    state: Ledger,
    borrower: Seq<char>,
    denom: Seq<char>,
)
    ensures
        match state.balances.get((borrower, denom)) {
            Some(Entry::Value(balance)) => state.balance(borrower, denom) == balance,
            _ => state.balance(borrower, denom) == 0,
        },
        is_weight(state, denom, state.weight(denom)),
        match state.tokens.get(borrower) {
            Some(Entry::Value(list)) => state.deposited(borrower) == list,
            _ => state.deposited(borrower).len() == 0,
        },
        match state.allowlist {
            Some(Entry::Value(list)) => state.listed() == list,
            _ => state.listed().len() == 0,
        },
        state.listed().contains(denom) <==> on_allowlist(state, denom),
{
}

/// A list without a text is made by leaving out every occurrence of it and keeping the others in
/// their order.
pub proof fn leaving_out_keeps_the_others(
    list: Seq<Seq<char>>,
    last: Seq<char>,
    unwanted: Seq<char>,
)
    ensures
        without(Seq::empty(), unwanted).len() == 0,
        last == unwanted ==> without(list.push(last), unwanted) == without(list, unwanted),
        last != unwanted ==> without(list.push(last), unwanted) == without(list, unwanted).push(
            last,
        ),
{
    reveal(Seq::filter);
    assert(list.push(last).drop_last() =~= list);
}

/// A deposit succeeds exactly for an amount above zero of a token on the allowlist, where the
/// balance decodes and does not overflow, and the list of the borrower's tokens decodes. The
/// amount is added to the balance of the borrower in the token; a token that was not on the list
/// joins its end; and nothing else changes. The reply names the borrower, the token and the
/// amount.
pub proof fn a_deposit_is_recorded_as_requested(
    state: Ledger,
    borrower: Seq<char>,
    denom: Seq<char>,
    amount: u128,
)
    ensures
        ({
            let step = state.deposit(borrower, denom, amount);
            let after = step.ledger;
            let slot = state.balances.get((borrower, denom));
            let accepted = amount > 0 && on_allowlist(state, denom);
            &&& step.reply is Ok <==> {
                &&& accepted
                &&& has_room(slot, amount)
                &&& !(state.tokens.get(borrower) matches Some(Entry::Malformed(_)))
            }
            &&& accepted && has_room(slot, amount) ==> {
                &&& is_credited(slot, after.balances.get((borrower, denom)), amount)
                &&& forall|b: Seq<char>, d: Seq<char>|
                    (b, d) != (borrower, denom) ==> #[trigger] after.balances.get((b, d))
                        == state.balances.get((b, d))
                &&& match state.tokens.get(borrower) {
                    Some(Entry::Value(list)) => after.tokens.get(borrower) == if list.contains(
                        denom,
                    ) {
                        Some(Entry::Value(list))
                    } else {
                        Some(Entry::Value(list.push(denom)))
                    },
                    None => after.tokens.get(borrower) == Some(Entry::Value(seq![denom])),
                    _ => after.tokens == state.tokens,
                }
                &&& forall|b: Seq<char>|
                    b != borrower ==> #[trigger] after.tokens.get(b) == state.tokens.get(b)
                &&& after == Ledger { balances: after.balances, tokens: after.tokens, ..state }
            }
            &&& !(accepted && has_room(slot, amount)) ==> after == state
            &&& step.reply matches Ok(reply) ==> reply == seq![
                ("action"@, "deposit_collateral"@),
                ("borrower"@, borrower),
                ("denom"@, denom),
                ("amount"@, decimal(amount as nat)),
            ]
        }),
{
    assert(Seq::<Seq<char>>::empty().push(denom) =~= seq![denom]);
}

/// Why a deposit is refused: the amount is zero, the token is not on the allowlist, the balance
/// does not decode or would overflow, or the list of the borrower's tokens does not decode. Of
/// several reasons the first is reported.
pub proof fn a_deposit_is_refused_for_the_first_reason(
    state: Ledger,
    borrower: Seq<char>,
    denom: Seq<char>,
    amount: u128,
)
    ensures
        ({
            let reply = state.deposit(borrower, denom, amount).reply;
            let slot = state.balances.get((borrower, denom));
            let accepted = amount > 0 && on_allowlist(state, denom);
            &&& amount == 0 ==> reply == Err::<Attributes, _>(ErrorView::InvalidAmount)
            &&& amount > 0 && !accepted ==> reply == Err::<Attributes, _>(
                ErrorView::CollateralTokenNotAllowed,
            )
            &&& accepted ==> (slot matches Some(Entry::Malformed(e)) ==> reply == Err::<
                Attributes,
                _,
            >(ErrorView::Std(StdFailureView::Backend(e))))
            &&& accepted ==> (slot matches Some(Entry::Value(had)) ==> had + amount > u128::MAX
                ==> reply == Err::<Attributes, _>(ErrorView::Overflow))
            &&& accepted && has_room(slot, amount) ==> (state.tokens.get(borrower) matches Some(
                Entry::Malformed(e),
            ) ==> reply == Err::<Attributes, _>(ErrorView::Std(StdFailureView::Backend(e))))
        }),
{
}

/// A withdrawal succeeds exactly for an amount above zero and at most the balance, where the list
/// of the borrower's tokens decodes if the balance is used up. The amount is taken off the
/// balance of the borrower in the token, whether or not the token is on the allowlist; a balance
/// that is used up is not kept, and its token leaves the list; and nothing else changes. The reply
/// names the borrower, the token and the amount.
pub proof fn a_withdrawal_is_recorded_as_requested(
    state: Ledger,
    borrower: Seq<char>,
    denom: Seq<char>,
    amount: u128,
)
    ensures
        ({
            let step = state.withdraw(borrower, denom, amount);
            let after = step.ledger;
            let slot = state.balances.get((borrower, denom));
            &&& step.reply is Ok <==> amount > 0 && (slot matches Some(Entry::Value(had)) && {
                ||| amount < had
                ||| amount == had && !(state.tokens.get(borrower) matches Some(Entry::Malformed(_)))
            })
            &&& (slot matches Some(Entry::Value(had)) ==> 0 < amount <= had ==> {
                &&& amount < had ==> (after.balances.get((borrower, denom)) matches Some(
                    Entry::Value(left),
                ) && left + amount == had)
                &&& amount < had ==> after.tokens == state.tokens
                &&& amount == had ==> after.balances.get((borrower, denom)) is None
                &&& amount == had ==> match state.tokens.get(borrower) {
                    Some(Entry::Value(list)) => after.tokens.get(borrower) == Some(
                        Entry::Value(without(list, denom)),
                    ),
                    None => after.tokens.get(borrower) == Some(
                        Entry::Value(Seq::<Seq<char>>::empty()),
                    ),
                    _ => after.tokens == state.tokens,
                }
                &&& forall|b: Seq<char>, d: Seq<char>|
                    (b, d) != (borrower, denom) ==> #[trigger] after.balances.get((b, d))
                        == state.balances.get((b, d))
                &&& forall|b: Seq<char>|
                    b != borrower ==> #[trigger] after.tokens.get(b) == state.tokens.get(b)
                &&& after == Ledger { balances: after.balances, tokens: after.tokens, ..state }
            })
            &&& !(slot matches Some(Entry::Value(had)) && 0 < amount <= had) ==> after == state
            &&& step.reply matches Ok(reply) ==> reply == seq![
                ("action"@, "withdraw_collateral"@),
                ("borrower"@, borrower),
                ("denom"@, denom),
                ("amount"@, decimal(amount as nat)),
            ]
        }),
{
    reveal(Seq::filter);
    assert(without(Seq::empty(), denom) =~= Seq::<Seq<char>>::empty());
}

/// Why a withdrawal is refused: the amount is zero, the balance does not decode or is less, or the
/// list of the borrower's tokens does not decode where the balance is used up. Of several reasons
/// the first is reported.
pub proof fn a_withdrawal_is_refused_for_the_first_reason(
    state: Ledger,
    borrower: Seq<char>,
    denom: Seq<char>,
    amount: u128,
)
    ensures
        ({
            let reply = state.withdraw(borrower, denom, amount).reply;
            let slot = state.balances.get((borrower, denom));
            &&& amount == 0 ==> reply == Err::<Attributes, _>(ErrorView::InvalidAmount)
            &&& amount > 0 && slot is None ==> reply == Err::<Attributes, _>(
                ErrorView::InsufficientCollateralBalance,
            )
            &&& amount > 0 ==> (slot matches Some(Entry::Malformed(e)) ==> reply == Err::<
                Attributes,
                _,
            >(ErrorView::Std(StdFailureView::Backend(e))))
            &&& amount > 0 ==> (slot matches Some(Entry::Value(had)) ==> amount > had ==> reply
                == Err::<Attributes, _>(ErrorView::InsufficientCollateralBalance))
            &&& amount > 0 && slot == Some(Entry::Value(amount)) ==> (state.tokens.get(
                borrower,
            ) matches Some(Entry::Malformed(e)) ==> reply == Err::<Attributes, _>(
                ErrorView::Std(StdFailureView::Backend(e)),
            ))
        }),
{
}

/// A request to deposit or to withdraw is carried out with the amount that its text denotes, and
/// exactly if the owner asks, the chain accepts the borrower and the text is a number of at most
/// 128 bits. Otherwise nothing changes, and the first reason is reported.
pub proof fn transfers_are_for_the_owner(
    state: Ledger,
    refusals: Refusals,
    sender: Seq<char>,
    borrower: Seq<char>,
    denom: Seq<char>,
    amount: Seq<char>,
)
    ensures
        ({
            let deposited = state.deposit_collateral(refusals, sender, borrower, denom, amount);
            let withdrawn = state.withdraw_collateral(refusals, sender, borrower, denom, amount);
            let asked = state.transfer_amount(refusals, sender, borrower, amount);
            let owned = state.config == Ok::<Seq<char>, StdError>(sender);
            let known = owned && !refusals.contains_key(borrower);
            &&& known ==> (amount_of(amount) matches Some(value) ==> {
                &&& asked == Ok::<u128, ErrorView>(value)
                &&& deposited == state.deposit(borrower, denom, value)
                &&& withdrawn == state.withdraw(borrower, denom, value)
            })
            &&& (asked matches Err(e) ==> {
                &&& deposited.reply == Err::<Attributes, _>(e)
                &&& deposited.ledger == state
                &&& withdrawn.reply == Err::<Attributes, _>(e)
                &&& withdrawn.ledger == state
            })
            &&& (state.config matches Err(e) ==> asked == Err::<u128, _>(
                ErrorView::Std(StdFailureView::Backend(e)),
            ))
            &&& state.config is Ok && !owned ==> asked == Err::<u128, _>(ErrorView::Unauthorized)
            &&& owned && !known ==> asked == Err::<u128, _>(
                ErrorView::Std(StdFailureView::Backend(refusals[borrower])),
            )
            &&& known && amount_of(amount) is None ==> asked == Err::<u128, _>(
                ErrorView::Std(StdFailureView::ParseErr { target_type: "Uint128"@, msg: amount }),
            )
        }),
{
}

/// A token is added exactly if its weight is at most 100 %, the allowlist decodes or is missing,
/// and the token is not on it. It joins the end of the allowlist, its weight is stored where it is
/// not 100 %, and nothing else changes. The reply names the token and the weight.
pub proof fn a_token_is_added_as_requested(state: Ledger, denom: Seq<char>, weight_bps: u32)
    ensures
        ({
            let step = state.add_token(denom, weight_bps);
            let after = step.ledger;
            let in_range = weight_bps <= 10_000;
            &&& step.reply is Ok <==> {
                &&& in_range
                &&& !(state.allowlist matches Some(Entry::Malformed(_)))
                &&& !on_allowlist(state, denom)
            }
            &&& step.reply is Ok ==> {
                &&& match state.allowlist {
                    Some(Entry::Value(list)) => after.allowlist == Some(
                        Entry::Value(list.push(denom)),
                    ),
                    _ => after.allowlist == Some(Entry::Value(seq![denom])),
                }
                &&& weight_bps == 10_000 ==> after.weights == state.weights
                &&& weight_bps != 10_000 ==> after.weights.get(denom) == Some(
                    Entry::Value(weight_bps),
                )
                &&& forall|other: Seq<char>|
                    other != denom ==> #[trigger] after.weights.get(other) == state.weights.get(
                        other,
                    )
                &&& after == Ledger { allowlist: after.allowlist, weights: after.weights, ..state }
            }
            &&& step.reply matches Ok(reply) ==> reply == seq![
                ("action"@, "add_collateral_token"@),
                ("denom"@, denom),
                ("risk_weight_bps"@, decimal(weight_bps as nat)),
            ]
            &&& step.reply is Err ==> after == state
            &&& !in_range ==> step.reply == Err::<Attributes, _>(ErrorView::InvalidAmount)
            &&& in_range ==> (state.allowlist matches Some(Entry::Malformed(e)) ==> step.reply
                == Err::<Attributes, _>(ErrorView::Std(StdFailureView::Backend(e))))
            &&& in_range && on_allowlist(state, denom) ==> step.reply == Err::<Attributes, _>(
                ErrorView::AlreadySettled,
            )
        }),
{
    assert(Seq::<Seq<char>>::empty().push(denom) =~= seq![denom]);
}

/// A token is removed exactly if it is on the allowlist. It leaves the allowlist, no weight is
/// stored for it any more, and nothing else changes. The reply names the token.
pub proof fn a_token_is_removed_as_requested(state: Ledger, denom: Seq<char>)
    ensures
        ({
            let step = state.remove_token(denom);
            let after = step.ledger;
            &&& step.reply is Ok <==> on_allowlist(state, denom)
            &&& step.reply is Ok ==> {
                &&& state.allowlist matches Some(Entry::Value(list)) && after.allowlist == Some(
                    Entry::Value(without(list, denom)),
                )
                &&& after.weights.get(denom) is None
                &&& forall|other: Seq<char>|
                    other != denom ==> #[trigger] after.weights.get(other) == state.weights.get(
                        other,
                    )
                &&& after == Ledger { allowlist: after.allowlist, weights: after.weights, ..state }
            }
            &&& step.reply matches Ok(reply) ==> reply == seq![
                ("action"@, "remove_collateral_token"@),
                ("denom"@, denom),
            ]
            &&& step.reply is Err ==> after == state
            &&& match state.allowlist {
                Some(Entry::Malformed(e)) => step.reply == Err::<Attributes, _>(
                    ErrorView::Std(StdFailureView::Backend(e)),
                ),
                _ => !on_allowlist(state, denom) ==> step.reply == Err::<Attributes, _>(
                    ErrorView::CollateralTokenNotAllowed,
                ),
            }
        }),
{
}

/// A risk weight is set exactly if it is at most 100 % and its token is on the allowlist. It is
/// stored, also where it is 100 %, and nothing else changes. The reply names the token and the
/// weight.
pub proof fn a_weight_is_set_as_requested(state: Ledger, denom: Seq<char>, weight_bps: u32)
    ensures
        ({
            let step = state.set_weight(denom, weight_bps);
            let after = step.ledger;
            let in_range = weight_bps <= 10_000;
            &&& step.reply is Ok <==> in_range && on_allowlist(state, denom)
            &&& step.reply is Ok ==> {
                &&& after.weights.get(denom) == Some(Entry::Value(weight_bps))
                &&& forall|other: Seq<char>|
                    other != denom ==> #[trigger] after.weights.get(other) == state.weights.get(
                        other,
                    )
                &&& after == Ledger { weights: after.weights, ..state }
            }
            &&& step.reply matches Ok(reply) ==> reply == seq![
                ("action"@, "set_collateral_risk_weight"@),
                ("denom"@, denom),
                ("risk_weight_bps"@, decimal(weight_bps as nat)),
            ]
            &&& step.reply is Err ==> after == state
            &&& !in_range ==> step.reply == Err::<Attributes, _>(ErrorView::InvalidAmount)
            &&& in_range ==> match state.allowlist {
                Some(Entry::Malformed(e)) => step.reply == Err::<Attributes, _>(
                    ErrorView::Std(StdFailureView::Backend(e)),
                ),
                _ => !on_allowlist(state, denom) ==> step.reply == Err::<Attributes, _>(
                    ErrorView::CollateralTokenNotAllowed,
                ),
            }
        }),
{
}

/// Requests about the allowlist are carried out exactly if the owner makes them. Otherwise nothing
/// changes.
pub proof fn the_allowlist_is_for_the_owner(
    state: Ledger,
    sender: Seq<char>,
    denom: Seq<char>,
    weight_bps: u32,
)
    ensures
        ({
            let added = state.add_collateral_token(sender, denom, weight_bps);
            let removed = state.remove_collateral_token(sender, denom);
            let weighted = state.set_collateral_risk_weight(sender, denom, weight_bps);
            match state.config {
                Ok(owner) => if owner == sender {
                    &&& added == state.add_token(denom, weight_bps)
                    &&& removed == state.remove_token(denom)
                    &&& weighted == state.set_weight(denom, weight_bps)
                } else {
                    &&& added.reply == Err::<Attributes, _>(ErrorView::Unauthorized)
                    &&& removed.reply == Err::<Attributes, _>(ErrorView::Unauthorized)
                    &&& weighted.reply == Err::<Attributes, _>(ErrorView::Unauthorized)
                    &&& added.ledger == state
                    &&& removed.ledger == state
                    &&& weighted.ledger == state
                },
                Err(e) => {
                    let reply = Err::<Attributes, _>(ErrorView::Std(StdFailureView::Backend(e)));
                    &&& added.reply == reply
                    &&& removed.reply == reply
                    &&& weighted.reply == reply
                    &&& added.ledger == state
                    &&& removed.ledger == state
                    &&& weighted.ledger == state
                },
            }
        }),
{
}

/// The holdings of a borrower out of a list of tokens are those with a balance that decodes and is
/// above zero, in the order of the list.
pub proof fn holdings_have_their_balances(
    state: Ledger,
    borrower: Seq<char>,
    denoms: Seq<Seq<char>>,
    last: Seq<char>,
)
    ensures
        state.holdings_in(borrower, Seq::empty()).len() == 0,
        match state.balances.get((borrower, last)) {
            Some(Entry::Value(balance)) => state.holdings_in(borrower, denoms.push(last))
                == if balance > 0 {
                state.holdings_in(borrower, denoms).push((last, balance))
            } else {
                state.holdings_in(borrower, denoms)
            },
            _ => state.holdings_in(borrower, denoms.push(last)) == state.holdings_in(
                borrower,
                denoms,
            ),
        },
{
    reveal(Seq::filter);
    let pair = |denom: Seq<char>| (denom, state.balance(borrower, denom));
    assert(Seq::<Seq<char>>::empty().map_values(pair) =~= Seq::<Holding>::empty());
    assert(denoms.push(last).map_values(pair).drop_last() =~= denoms.map_values(pair));
    assert(denoms.push(last).map_values(pair).last() == (last, state.balance(borrower, last)));
}

/// The holdings of a borrower are those in the tokens on the borrower's list, put in the order of
/// the tokens.
pub proof fn holdings_are_the_listed_deposits(
    state: Ledger,
    borrower: Seq<char>,
    list: Seq<Seq<char>>,
)
    requires
        state.tokens.get(borrower) == Some(Entry::Value(list)) || (!(state.tokens.get(
            borrower,
        ) matches Some(Entry::Value(_))) && list == Seq::<Seq<char>>::empty()),
    ensures
        in_order(state.holdings(borrower)),
        state.holdings(borrower).to_multiset() == state.holdings_in(borrower, list).to_multiset(),
{
    sorting_orders_and_keeps(state.holdings_in(borrower, list));
}

/// Where the list of a borrower's tokens is in step with the balances, the holdings are exactly
/// the stored balances above zero, each token once, in strictly ascending order of the tokens.
pub proof fn holdings_are_the_stored_balances(state: Ledger, borrower: Seq<char>)
    requires
        state.collateral_indexed(),
    ensures
        forall|d: Seq<char>, amount: u128| #[trigger]
            state.holdings(borrower).contains((d, amount)) <==> amount > 0 && state.balances.get(
                (borrower, d),
            ) == Some(Entry::Value(amount)),
        forall|i: int, j: int|
            0 <= i < j < state.holdings(borrower).len() ==> text_before(
                (#[trigger] state.holdings(borrower)[i]).0,
                (#[trigger] state.holdings(borrower)[j]).0,
            ),
{
    holdings_are_complete(state, borrower);
    assert forall|d: Seq<char>, amount: u128| #[trigger]
        state.holdings(borrower).contains((d, amount)) <==> amount > 0 && state.balances.get(
            (borrower, d),
        ) == Some(Entry::Value(amount)) by {
        assert(state.holdings(borrower).contains((d, amount)) <==> amount > 0 && amount
            == state.balance(borrower, d));
    }
}

/// Whether `sums` are the running totals of the holdings at their risk weights: they start at
/// zero, and each holding adds its balance times its weight over 100 %, rounded down.
pub open spec fn are_running_totals(
    state: Ledger,
    holdings: Seq<Holding>,
    weights: Seq<u32>,
    sums: Seq<int>,
) -> bool {
    &&& weights.len() == holdings.len()
    &&& sums.len() == holdings.len() + 1
    &&& sums[0] == 0
    &&& forall|i: int|
        0 <= i < holdings.len() ==> is_weight(state, (#[trigger] holdings[i]).0, weights[i])
    &&& forall|i: int|
        0 <= i < holdings.len() ==> (sums[i + 1] - sums[i]) * 10_000 <= (
        #[trigger] holdings[i]).1 * weights[i] < (sums[i + 1] - sums[i] + 1) * 10_000
}

proof fn lemma_running_total(
    state: Ledger,
    holdings: Seq<Holding>,
    weights: Seq<u32>,
    sums: Seq<int>,
)
    requires
        are_running_totals(state, holdings, weights, sums),
    ensures
        state.weighed_sum(holdings) == sums.last(),
    decreases holdings.len(),
{
    if holdings.len() > 0 {
        let n = holdings.len() - 1;
        let shorter = holdings.drop_last();
        assert forall|i: int| 0 <= i < shorter.len() implies is_weight(
            state,
            (#[trigger] shorter[i]).0,
            weights.drop_last()[i],
        ) && (sums.drop_last()[i + 1] - sums.drop_last()[i]) * 10_000 <= shorter[i].1
            * weights.drop_last()[i] < (sums.drop_last()[i + 1] - sums.drop_last()[i] + 1)
            * 10_000 by {
            assert(shorter[i] == holdings[i]);
        }
        lemma_running_total(state, shorter, weights.drop_last(), sums.drop_last());
        assert(holdings[n] == holdings.last());
        assert(weights[n] == state.weight(holdings[n].0));
        assert(sums.drop_last().last() == sums[n]);
        let part = sums[n + 1] - sums[n];
        let product = holdings[n].1 * weights[n];
        assert(part == product / 10_000);
    }
}

/// The risk-weighted total is the sum over the holdings of balance times weight over 100 %, each
/// rounded down on its own, where no product and no sum exceeds 128 bits; otherwise it is refused
/// as an overflow.
pub proof fn each_holding_counts_at_its_weight(
    state: Ledger,
    borrower: Seq<char>,
    weights: Seq<u32>,
    sums: Seq<int>,
)
    requires
        are_running_totals(state, state.holdings(borrower), weights, sums),
    ensures
        ({
            let holdings = state.holdings(borrower);
            let fits = (forall|i: int|
                0 <= i < holdings.len() ==> (#[trigger] holdings[i]).1 * weights[i] <= u128::MAX)
                && sums.last() <= u128::MAX;
            match state.weighted_total(borrower) {
                Ok(total) => fits && total == sums.last(),
                Err(e) => !fits && e == ErrorView::Overflow,
            }
        }),
{
    let holdings = state.holdings(borrower);
    lemma_running_total(state, holdings, weights, sums);
    assert forall|i: int| 0 <= i < holdings.len() implies #[trigger] state.weighed(holdings[i])
        == holdings[i].1 * weights[i] by {
        assert(is_weight(state, holdings[i].0, weights[i]));
    }
    lemma_totals_not_negative(state, holdings, weights, sums, holdings.len() as int);
    if exists|i: int| 0 <= i < holdings.len() && #[trigger] state.weighed(holdings[i]) > u128::MAX {
        let i = choose|i: int|
            0 <= i < holdings.len() && #[trigger] state.weighed(holdings[i]) > u128::MAX;
        assert(holdings[i].1 * weights[i] > u128::MAX);
    } else {
        assert forall|i: int| 0 <= i < holdings.len() implies (#[trigger] holdings[i]).1
            * weights[i] <= u128::MAX by {
            assert(state.weighed(holdings[i]) == holdings[i].1 * weights[i]);
        }
    }
}

proof fn lemma_totals_not_negative(
    state: Ledger,
    holdings: Seq<Holding>,
    weights: Seq<u32>,
    sums: Seq<int>,
    n: int,
)
    requires
        are_running_totals(state, holdings, weights, sums),
        0 <= n <= holdings.len(),
    ensures
        0 <= sums[n],
    decreases n,
{
    if n > 0 {
        lemma_totals_not_negative(state, holdings, weights, sums, n - 1);
        assert(0 <= holdings[n - 1].1 * weights[n - 1]) by (nonlinear_arith)
            requires
                0 <= holdings[n - 1].1,
                0 <= weights[n - 1],
        ;
    }
}

/// A balance that stands alone counts at its weight: with `c` the risk-weighted total, `c` is the
/// balance times the weight over 100 %, rounded down.
pub proof fn a_single_balance_counts_at_its_weight(
    state: Ledger,
    borrower: Seq<char>,
    denom: Seq<char>,
    balance: u128,
    weight: u32,
)
    requires
        state.tokens.get(borrower) == Some(Entry::Value(seq![denom])),
        state.balances.get((borrower, denom)) == Some(Entry::Value(balance)),
        state.weights.get(denom) == Some(Entry::Value(weight)) || (state.weights.get(denom) is None
            && weight == 10_000),
    ensures
        balance * weight <= u128::MAX ==> (state.weighted_total(borrower) matches Ok(c) && c
            * 10_000 <= balance * weight < (c + 1) * 10_000),
        balance * weight > u128::MAX ==> state.weighted_total(borrower) == Err::<u128, _>(
            ErrorView::Overflow,
        ),
{
    let list = Seq::<Seq<char>>::empty();
    let held = state.holdings(borrower);
    assert(list.push(denom) =~= seq![denom]);
    holdings_have_their_balances(state, borrower, list, denom);
    assert(0 <= balance * weight) by (nonlinear_arith)
        requires
            0 <= balance,
            0 <= weight,
    ;
    if balance == 0 {
        assert(balance * weight == 0) by (nonlinear_arith)
            requires
                balance == 0,
        ;
        assert(held =~= Seq::<Holding>::empty());
        each_holding_counts_at_its_weight(state, borrower, Seq::empty(), seq![0]);
    } else {
        reveal_with_fuel(sorted, 2);
        let one = state.holdings_in(borrower, seq![denom]);
        assert(one =~= seq![(denom, balance)]);
        assert(one.drop_last() =~= Seq::<Holding>::empty());
        assert(held =~= seq![(denom, balance)]);
        let part = balance * weight / 10_000;
        each_holding_counts_at_its_weight(state, borrower, seq![weight], seq![0, part]);
        assert(held[0] == (denom, balance));
    }
}

proof fn lemma_sum_of_sorted(state: Ledger, holdings: Seq<Holding>)
    ensures
        state.weighed_sum(sorted(holdings)) == state.weighed_sum(holdings),
    decreases holdings.len(),
{
    if holdings.len() > 0 {
        lemma_sum_of_sorted(state, holdings.drop_last());
        lemma_sum_of_inserted(state, sorted(holdings.drop_last()), holdings.last());
    }
}

proof fn lemma_sum_of_inserted(state: Ledger, holdings: Seq<Holding>, added: Holding)
    ensures
        state.weighed_sum(inserted(holdings, added)) == state.weighed_sum(holdings)
            + state.weighed(added) / 10_000,
    decreases holdings.len(),
{
    if holdings.len() == 0 || !text_before(added.0, holdings.last().0) {
        assert(holdings.push(added).drop_last() =~= holdings);
    } else {
        let shorter = inserted(holdings.drop_last(), added);
        lemma_sum_of_inserted(state, holdings.drop_last(), added);
        assert(shorter.push(holdings.last()).drop_last() =~= shorter);
    }
}

/// What a token adds to the total of a borrower.
spec fn part_of(state: Ledger, borrower: Seq<char>, denom: Seq<char>) -> int {
    state.balance(borrower, denom) * state.weight(denom) / 10_000
}

/// The total of a borrower over a list of tokens.
spec fn total_over(state: Ledger, borrower: Seq<char>, denoms: Seq<Seq<char>>) -> int {
    state.weighed_sum(state.holdings_in(borrower, denoms))
}

proof fn lemma_total_over(
    state: Ledger,
    borrower: Seq<char>,
    denoms: Seq<Seq<char>>,
    last: Seq<char>,
)
    ensures
        total_over(state, borrower, denoms.push(last)) == total_over(state, borrower, denoms)
            + part_of(state, borrower, last),
{
    let before = state.holdings_in(borrower, denoms);
    let balance = state.balance(borrower, last);
    holdings_have_their_balances(state, borrower, denoms, last);
    if balance == 0 {
        assert(balance * state.weight(last) == 0) by (nonlinear_arith)
            requires
                balance == 0,
        ;
    } else {
        assert(before.push((last, balance)).drop_last() =~= before);
    }
}

proof fn lemma_one_balance_moves_the_total(
    state: Ledger,
    after: Ledger,
    borrower: Seq<char>,
    denoms: Seq<Seq<char>>,
    denom: Seq<char>,
)
    requires
        denoms.no_duplicates(),
        after.weights == state.weights,
        forall|d: Seq<char>|
            d != denom ==> #[trigger] after.balances.get((borrower, d)) == state.balances.get(
                (borrower, d),
            ),
    ensures
        total_over(after, borrower, denoms) - total_over(state, borrower, denoms)
            == if denoms.contains(denom) {
            part_of(after, borrower, denom) - part_of(state, borrower, denom)
        } else {
            0
        },
    decreases denoms.len(),
{
    if denoms.len() == 0 {
        assert(denoms =~= Seq::<Seq<char>>::empty());
        holdings_have_their_balances(state, borrower, denoms, denom);
        holdings_have_their_balances(after, borrower, denoms, denom);
    } else {
        let shorter = denoms.drop_last();
        let last = denoms.last();
        assert(denoms =~= shorter.push(last));
        assert forall|i: int, j: int| 0 <= i < shorter.len() && 0 <= j < shorter.len() && i
            != j implies shorter[i] != shorter[j] by {
            assert(shorter[i] == denoms[i] && shorter[j] == denoms[j]);
        }
        lemma_one_balance_moves_the_total(state, after, borrower, shorter, denom);
        lemma_total_over(state, borrower, shorter, last);
        lemma_total_over(after, borrower, shorter, last);
        if last == denom {
            assert(denoms[denoms.len() - 1] == denom);
            if shorter.contains(denom) {
                let i = shorter.index_of(denom);
                assert(denoms[i] == denoms[denoms.len() - 1]);
            }
        } else {
            assert(after.balances.get((borrower, last)) == state.balances.get((borrower, last)));
            if denoms.contains(denom) {
                let i = denoms.index_of(denom);
                assert(shorter[i] == denom);
            }
            if shorter.contains(denom) {
                let i = shorter.index_of(denom);
                assert(denoms[i] == denom);
            }
        }
    }
}

proof fn lemma_leaving_out_nothing(
    state: Ledger,
    borrower: Seq<char>,
    denoms: Seq<Seq<char>>,
    denom: Seq<char>,
)
    requires
        state.balance(borrower, denom) == 0,
    ensures
        total_over(state, borrower, without(denoms, denom)) == total_over(state, borrower, denoms),
    decreases denoms.len(),
{
    if denoms.len() == 0 {
        assert(denoms =~= Seq::<Seq<char>>::empty());
        leaving_out_keeps_the_others(denoms, denom, denom);
        assert(without(denoms, denom) =~= denoms);
    } else {
        let shorter = denoms.drop_last();
        assert(denoms =~= shorter.push(denoms.last()));
        lemma_leaving_out_nothing(state, borrower, shorter, denom);
        leaving_out_keeps_the_others(shorter, denoms.last(), denom);
        lemma_total_over(state, borrower, shorter, denoms.last());
        if denoms.last() == denom {
            assert(0 * state.weight(denom) == 0) by (nonlinear_arith);
        } else {
            lemma_total_over(state, borrower, without(shorter, denom), denoms.last());
        }
    }
}

proof fn lemma_totals(state: Ledger, borrower: Seq<char>)
    ensures
        state.weighted_total(borrower) matches Ok(total) ==> total == total_over(
            state,
            borrower,
            state.deposited(borrower),
        ),
{
    let holdings = state.holdings(borrower);
    lemma_sum_of_sorted(state, state.holdings_in(borrower, state.deposited(borrower)));
    lemma_sum_not_negative(state, holdings);
}

proof fn lemma_sum_not_negative(state: Ledger, holdings: Seq<Holding>)
    ensures
        0 <= state.weighed_sum(holdings),
    decreases holdings.len(),
{
    if holdings.len() > 0 {
        lemma_sum_not_negative(state, holdings.drop_last());
        assert(0 <= holdings.last().1 * state.weight(holdings.last().0)) by (nonlinear_arith)
            requires
                0 <= holdings.last().1,
                0 <= state.weight(holdings.last().0),
        ;
    }
}

/// A deposit raises the risk-weighted total of its borrower by the difference that it makes to the
/// part of its token: with `had` the balance before, `from` is `had` at the weight of the token,
/// and `to` is the balance after at that weight, each rounded down.
pub proof fn a_deposit_raises_the_total_by_its_weight(
    state: Ledger,
    borrower: Seq<char>,
    denom: Seq<char>,
    amount: u128,
    had: u128,
    weight: u32,
    from: int,
    to: int,
)
    requires
        state.collateral_indexed(),
        state.deposit(borrower, denom, amount).reply is Ok,
        state.balances.get((borrower, denom)) == Some(Entry::Value(had)) || (state.balances.get(
            (borrower, denom),
        ) is None && had == 0),
        state.weights.get(denom) == Some(Entry::Value(weight)) || (state.weights.get(denom) is None
            && weight == 10_000),
        from * 10_000 <= had * weight < (from + 1) * 10_000,
        to * 10_000 <= (had + amount) * weight < (to + 1) * 10_000,
    ensures
        ({
            let after = state.deposit(borrower, denom, amount).ledger;
            state.weighted_total(borrower) matches Ok(before) ==> after.weighted_total(
                borrower,
            ) matches Ok(total) ==> total == before + to - from
        }),
{
    let after = state.deposit(borrower, denom, amount).ledger;
    let list = state.deposited(borrower);
    a_deposit_is_recorded_as_requested(state, borrower, denom, amount);
    lemma_totals(state, borrower);
    lemma_totals(after, borrower);
    assert(list.no_duplicates());
    assert(list.contains(denom) <==> state.balances.get((borrower, denom)) is Some);
    assert(part_of(state, borrower, denom) == from);
    assert(part_of(after, borrower, denom) == to);
    lemma_one_balance_moves_the_total(state, after, borrower, list, denom);
    if !list.contains(denom) {
        lemma_total_over(after, borrower, list, denom);
        assert(had * weight == 0) by (nonlinear_arith)
            requires
                had == 0,
        ;
    }
}

/// A withdrawal lowers the risk-weighted total of its borrower by the difference that it makes to
/// the part of its token: `from` is the balance before at the weight of the token, and `to` is the
/// balance after at that weight, each rounded down.
pub proof fn a_withdrawal_lowers_the_total_by_its_weight(
    state: Ledger,
    borrower: Seq<char>,
    denom: Seq<char>,
    amount: u128,
    had: u128,
    weight: u32,
    from: int,
    to: int,
)
    requires
        state.collateral_indexed(),
        state.withdraw(borrower, denom, amount).reply is Ok,
        state.balances.get((borrower, denom)) == Some(Entry::Value(had)),
        state.weights.get(denom) == Some(Entry::Value(weight)) || (state.weights.get(denom) is None
            && weight == 10_000),
        from * 10_000 <= had * weight < (from + 1) * 10_000,
        to * 10_000 <= (had - amount) * weight < (to + 1) * 10_000,
    ensures
        ({
            let after = state.withdraw(borrower, denom, amount).ledger;
            state.weighted_total(borrower) matches Ok(before) ==> after.weighted_total(
                borrower,
            ) matches Ok(total) ==> total == before + to - from
        }),
{
    let after = state.withdraw(borrower, denom, amount).ledger;
    let list = state.deposited(borrower);
    a_withdrawal_is_recorded_as_requested(state, borrower, denom, amount);
    lemma_totals(state, borrower);
    lemma_totals(after, borrower);
    assert(list.no_duplicates());
    assert(list.contains(denom) <==> state.balances.get((borrower, denom)) is Some);
    assert(part_of(state, borrower, denom) == from);
    assert(part_of(after, borrower, denom) == to);
    lemma_one_balance_moves_the_total(state, after, borrower, list, denom);
    if amount == had {
        lemma_leaving_out_nothing(after, borrower, list, denom);
    }
}

/// Every holding counts on its own: the total over `holdings` and one more is the total over
/// `holdings` and the part of that one, its balance times its weight over 100 %, rounded down.
pub proof fn totals_add_up(state: Ledger, holdings: Seq<Holding>, holding: Holding, weight: u32)
    requires
        is_weight(state, holding.0, weight),
    ensures
        state.weighed_sum(Seq::empty()) == 0,
        ({
            let c = state.weighed_sum(holdings.push(holding)) - state.weighed_sum(holdings);
            c * 10_000 <= holding.1 * weight < (c + 1) * 10_000
        }),
{
    assert(holdings.push(holding).drop_last() =~= holdings);
}

} // verus!
