//! Collateral in several tokens: deposits, withdrawals, the allowlist and the risk weights.
use vstd::prelude::*;

use crate::chain::{replied, Attributes, Response};
use crate::error::{from_chain, outcome, ContractError, ErrorView};
use crate::ledger::{read, value_or, Entry, Ledger, Step};
use crate::state::DEFAULT_COLLATERAL_RISK_WEIGHT_BPS;
use crate::store::{
    refusals_mut, key_fits, ledger, ledger_mut, load_allowlist, load_balance, load_tokens,
    load_weight, reading, remove_balance, remove_weight, save_allowlist, save_balance, save_tokens,
    save_weight, Deps, DepsMut,
};
use crate::text::{
    comes_before, decimal, decimal_text, drop_text, holds_text, text_before, texts, without,
};

verus! {

/// A risk weight of 100 %, in basis points.
pub const MAX_RISK_WEIGHT_BPS: u32 = 10_000;

/// A token and its deposited balance.
pub type Holding = (Seq<char>, u128);

/// `holdings` with `added` put behind the last one that does not come after it.
pub open spec fn inserted(holdings: Seq<Holding>, added: Holding) -> Seq<Holding>
    decreases holdings.len(),
{
    if holdings.len() == 0 || !text_before(added.0, holdings.last().0) {
        holdings.push(added)
    } else {
        inserted(holdings.drop_last(), added).push(holdings.last())
    }
}

/// `holdings` in the order of their tokens. Holdings of one token keep their order.
pub open spec fn sorted(holdings: Seq<Holding>) -> Seq<Holding>
    decreases holdings.len(),
{
    if holdings.len() == 0 {
        holdings
    } else {
        inserted(sorted(holdings.drop_last()), holdings.last())
    }
}

/// Holdings with their tokens as sequences of characters.
pub open spec fn holdings_of(list: Seq<(String, u128)>) -> Seq<Holding> {
    list.map_values(|h: (String, u128)| (h.0@, h.1))
}

impl Ledger {
    /// The accepted collateral tokens.
    pub open spec fn listed(self) -> Seq<Seq<char>> {
        value_or(self.allowlist, Seq::empty())
    }

    /// The risk weight of a token, in basis points.
    pub open spec fn weight(self, denom: Seq<char>) -> u32 {
        value_or(self.weights.get(denom), DEFAULT_COLLATERAL_RISK_WEIGHT_BPS)
    }

    /// The deposited balance of a token.
    pub open spec fn balance(self, borrower: Seq<char>, denom: Seq<char>) -> u128 {
        value_or(self.balances.get((borrower, denom)), 0)
    }

    /// The tokens on record for a borrower.
    pub open spec fn deposited(self, borrower: Seq<char>) -> Seq<Seq<char>> {
        value_or(self.tokens.get(borrower), Seq::empty())
    }

    /// The holdings of a borrower in tokens out of `denoms`, without those that are zero.
    pub open spec fn holdings_in(
        self,
        borrower: Seq<char>,
        denoms: Seq<Seq<char>>,
    ) -> Seq<Holding> {
        denoms.map_values(|denom: Seq<char>| (denom, self.balance(borrower, denom))).filter(
            |h: Holding| h.1 != 0,
        )
    }

    /// The holdings of a borrower, in the order of their tokens.
    pub open spec fn holdings(self, borrower: Seq<char>) -> Seq<Holding> {
        sorted(self.holdings_in(borrower, self.deposited(borrower)))
    }

    /// A balance times its risk weight, before the division.
    pub open spec fn weighed(self, holding: Holding) -> int {
        holding.1 * self.weight(holding.0)
    }

    /// The sum of the balances of `holdings`, each at its risk weight and rounded down.
    pub open spec fn weighed_sum(self, holdings: Seq<Holding>) -> int
        decreases holdings.len(),
    {
        if holdings.len() == 0 {
            0
        } else {
            self.weighed_sum(holdings.drop_last()) + self.weighed(holdings.last()) / 10_000
        }
    }

    /// The risk-weighted collateral of a borrower. It is refused where a product or the sum does
    /// not fit in 128 bits.
    pub open spec fn weighted_total(self, borrower: Seq<char>) -> Result<u128, ErrorView> {
        let holdings = self.holdings(borrower);
        if (exists|i: int|
            0 <= i < holdings.len() && #[trigger] self.weighed(holdings[i]) > u128::MAX)
            || self.weighed_sum(holdings) > u128::MAX {
            Err(ErrorView::Overflow)
        } else {
            Ok(self.weighed_sum(holdings) as u128)
        }
    }

    /// Depositing `amount` of `denom` for `borrower`. A token that the borrower did not hold
    /// joins the end of the list of its tokens.
    pub open spec fn deposit(
        self,
        borrower: Seq<char>,
        denom: Seq<char>,
        amount: u128,
    ) -> Step<Attributes> {
        let balance = self.balance(borrower, denom);
        let deposited = self.deposited(borrower);
        let credited = Ledger {
            balances: self.balances.insert(
                (borrower, denom),
                Entry::Value((balance + amount) as u128),
            ),
            ..self
        };
        if amount == 0 {
            self.refuses(ErrorView::InvalidAmount)
        } else if !self.listed().contains(denom) {
            self.refuses(ErrorView::CollateralTokenNotAllowed)
        } else if read(self.balances.get((borrower, denom))) is Err {
            self.refuses(read(self.balances.get((borrower, denom)))->Err_0)
        } else if balance + amount > u128::MAX {
            self.refuses(ErrorView::Overflow)
        } else if read(self.tokens.get(borrower)) is Err {
            credited.refuses(read(self.tokens.get(borrower))->Err_0)
        } else {
            let tokens = if deposited.contains(denom) {
                self.tokens
            } else {
                self.tokens.insert(borrower, Entry::Value(deposited.push(denom)))
            };
            (Ledger { tokens, ..credited }).replies(
                seq![
                    ("action"@, "deposit_collateral"@),
                    ("borrower"@, borrower),
                    ("denom"@, denom),
                    ("amount"@, decimal(amount as nat)),
                ],
            )
        }
    }

    /// Withdrawing `amount` of `denom` for `borrower`. A balance that reaches zero is removed,
    /// and its token leaves the list of the borrower's tokens.
    pub open spec fn withdraw(
        self,
        borrower: Seq<char>,
        denom: Seq<char>,
        amount: u128,
    ) -> Step<Attributes> {
        let balance = self.balance(borrower, denom);
        let reply = seq![
            ("action"@, "withdraw_collateral"@),
            ("borrower"@, borrower),
            ("denom"@, denom),
            ("amount"@, decimal(amount as nat)),
        ];
        if amount == 0 {
            self.refuses(ErrorView::InvalidAmount)
        } else if read(self.balances.get((borrower, denom))) is Err {
            self.refuses(read(self.balances.get((borrower, denom)))->Err_0)
        } else if amount > balance {
            self.refuses(ErrorView::InsufficientCollateralBalance)
        } else if amount < balance {
            (Ledger {
                balances: self.balances.insert(
                    (borrower, denom),
                    Entry::Value((balance - amount) as u128),
                ),
                ..self
            }).replies(reply)
        } else {
            let cleared = Ledger { balances: self.balances.remove((borrower, denom)), ..self };
            if read(self.tokens.get(borrower)) is Err {
                cleared.refuses(read(self.tokens.get(borrower))->Err_0)
            } else {
                (Ledger {
                    tokens: self.tokens.insert(
                        borrower,
                        Entry::Value(without(self.deposited(borrower), denom)),
                    ),
                    ..cleared
                }).replies(reply)
            }
        }
    }

    /// Adding `denom` to the end of the allowlist. The default risk weight is not stored.
    pub open spec fn add_token(self, denom: Seq<char>, weight_bps: u32) -> Step<Attributes> {
        if weight_bps > MAX_RISK_WEIGHT_BPS {
            self.refuses(ErrorView::InvalidAmount)
        } else if read(self.allowlist) is Err {
            self.refuses(read(self.allowlist)->Err_0)
        } else if self.listed().contains(denom) {
            self.refuses(ErrorView::AlreadySettled)
        } else {
            (Ledger {
                allowlist: Some(Entry::Value(self.listed().push(denom))),
                weights: if weight_bps != DEFAULT_COLLATERAL_RISK_WEIGHT_BPS {
                    self.weights.insert(denom, Entry::Value(weight_bps))
                } else {
                    self.weights
                },
                ..self
            }).replies(
                seq![
                    ("action"@, "add_collateral_token"@),
                    ("denom"@, denom),
                    ("risk_weight_bps"@, decimal(weight_bps as nat)),
                ],
            )
        }
    }

    /// Removing `denom` from the allowlist, with its risk weight. Deposits stay.
    pub open spec fn remove_token(self, denom: Seq<char>) -> Step<Attributes> {
        if read(self.allowlist) is Err {
            self.refuses(read(self.allowlist)->Err_0)
        } else if !self.listed().contains(denom) {
            self.refuses(ErrorView::CollateralTokenNotAllowed)
        } else {
            (Ledger {
                allowlist: Some(Entry::Value(without(self.listed(), denom))),
                weights: self.weights.remove(denom),
                ..self
            }).replies(seq![("action"@, "remove_collateral_token"@), ("denom"@, denom)])
        }
    }

    /// Setting the risk weight of a token on the allowlist.
    pub open spec fn set_weight(self, denom: Seq<char>, weight_bps: u32) -> Step<Attributes> {
        if weight_bps > MAX_RISK_WEIGHT_BPS {
            self.refuses(ErrorView::InvalidAmount)
        } else if read(self.allowlist) is Err {
            self.refuses(read(self.allowlist)->Err_0)
        } else if !self.listed().contains(denom) {
            self.refuses(ErrorView::CollateralTokenNotAllowed)
        } else {
            (Ledger {
                weights: self.weights.insert(denom, Entry::Value(weight_bps)),
                ..self
            }).replies(
                seq![
                    ("action"@, "set_collateral_risk_weight"@),
                    ("denom"@, denom),
                    ("risk_weight_bps"@, decimal(weight_bps as nat)),
                ],
            )
        }
    }
}

/// Whether `denom` is on the collateral allowlist. Where there is no allowlist, no token is
/// allowed.
pub fn is_collateral_token_allowed(deps: &Deps, denom: &str) -> (r: bool)
    ensures
        r == ledger(*deps).listed().contains(denom@),
{
    match load_allowlist(deps) {
        Ok(Some(list)) => holds_text(&list, denom),
        _ => false,
    }
}

/// The risk weight of `denom` in basis points, or [`DEFAULT_COLLATERAL_RISK_WEIGHT_BPS`] if it
/// has none of its own.
pub fn collateral_risk_weight_bps(deps: &Deps, denom: &str) -> (r: u32)
    ensures
        r == ledger(*deps).weight(denom@),
{
    match load_weight(deps, denom) {
        Ok(Some(weight_bps)) => weight_bps,
        _ => DEFAULT_COLLATERAL_RISK_WEIGHT_BPS,
    }
}

/// Records a deposit of `amount` of `denom` for `borrower`. The transfer of the tokens is
/// settled elsewhere, and it is up to the caller that the sender is the owner.
///
/// # Errors
///
/// - [`ContractError::InvalidAmount`] if `amount` is zero.
/// - [`ContractError::CollateralTokenNotAllowed`] if `denom` is not on the allowlist.
/// - [`ContractError::Overflow`] if the balance would overflow 128 bits.
pub fn deposit_collateral(deps: &mut DepsMut, borrower: &str, denom: &str, amount: u128) -> (r:
    Result<Response, ContractError>)
    requires
        amount > 0 && ledger_mut(*old(deps)).listed().contains(denom@) ==> key_fits(borrower@),
    ensures
        replied(r) == ledger_mut(*old(deps)).deposit(borrower@, denom@, amount).reply,
        ledger_mut(*final(deps)) == ledger_mut(*old(deps)).deposit(
            borrower@,
            denom@,
            amount,
        ).ledger,
        refusals_mut(*final(deps)) == refusals_mut(*old(deps)),
{
    if amount == 0 {
        return Err(ContractError::InvalidAmount);
    }
    if !is_collateral_token_allowed(&reading(deps), denom) {
        return Err(ContractError::CollateralTokenNotAllowed);
    }
    let balance = match from_chain(load_balance(&reading(deps), borrower, denom))? {
        Some(balance) => balance,
        None => 0,
    };
    match balance.checked_add(amount) {
        None => return Err(ContractError::Overflow),
        Some(new_balance) => from_chain(save_balance(deps, borrower, denom, new_balance))?,
    }
    let mut tokens = match from_chain(load_tokens(&reading(deps), borrower))? {
        Some(tokens) => tokens,
        None => no_texts(),
    };
    if !holds_text(&tokens, denom) {
        let ghost before = texts(tokens@);
        tokens.push(denom.to_owned());
        proof {
            assert(texts(tokens@) =~= before.push(denom@));
        }
        from_chain(save_tokens(deps, borrower, &tokens))?;
    }
    Ok(collateral_moved("deposit_collateral", borrower, denom, amount))
}

/// An empty list.
fn no_texts() -> (r: Vec<String>)
    ensures
        texts(r@) == Seq::<Seq<char>>::empty(),
{
    let r: Vec<String> = Vec::new();
    proof {
        assert(texts(r@) =~= Seq::<Seq<char>>::empty());
    }
    r
}

/// The reply to a deposit or a withdrawal.
fn collateral_moved(action: &str, borrower: &str, denom: &str, amount: u128) -> (r: Response)
    ensures
        r@ == seq![
            ("action"@, action@),
            ("borrower"@, borrower@),
            ("denom"@, denom@),
            ("amount"@, decimal(amount as nat)),
        ],
{
    Response::new().add_attribute("action", action.to_owned()).add_attribute(
        "borrower",
        borrower.to_owned(),
    ).add_attribute("denom", denom.to_owned()).add_attribute("amount", decimal_text(amount))
}

/// Records a withdrawal of `amount` of `denom` for `borrower`. It is up to the caller that the
/// sender is the owner.
///
/// # Errors
///
/// - [`ContractError::InvalidAmount`] if `amount` is zero.
/// - [`ContractError::InsufficientCollateralBalance`] if the borrower has deposited less.
pub fn withdraw_collateral(deps: &mut DepsMut, borrower: &str, denom: &str, amount: u128) -> (r:
    Result<Response, ContractError>)
    requires
        amount > 0 ==> key_fits(borrower@),
    ensures
        replied(r) == ledger_mut(*old(deps)).withdraw(borrower@, denom@, amount).reply,
        ledger_mut(*final(deps)) == ledger_mut(*old(deps)).withdraw(
            borrower@,
            denom@,
            amount,
        ).ledger,
        refusals_mut(*final(deps)) == refusals_mut(*old(deps)),
{
    if amount == 0 {
        return Err(ContractError::InvalidAmount);
    }
    let balance = match from_chain(load_balance(&reading(deps), borrower, denom))? {
        Some(balance) => balance,
        None => return Err(ContractError::InsufficientCollateralBalance),
    };
    if amount > balance {
        return Err(ContractError::InsufficientCollateralBalance);
    }
    if amount == balance {
        remove_balance(deps, borrower, denom);
        let tokens = match from_chain(load_tokens(&reading(deps), borrower))? {
            Some(tokens) => tokens,
            None => no_texts(),
        };
        from_chain(save_tokens(deps, borrower, &drop_text(&tokens, denom)))?;
    } else {
        from_chain(save_balance(deps, borrower, denom, balance - amount))?;
    }
    Ok(collateral_moved("withdraw_collateral", borrower, denom, amount))
}

/// The deposited balance of `denom` for `borrower`, zero if there is none.
pub fn query_collateral_balance(deps: &Deps, borrower: &str, denom: &str) -> (r: u128)
    requires
        key_fits(borrower@),
    ensures
        r == ledger(*deps).balance(borrower@, denom@),
{
    match load_balance(deps, borrower, denom) {
        Ok(Some(balance)) => balance,
        _ => 0,
    }
}

/// Puts a holding where the order of tokens wants it.
fn insert_holding(holdings: &mut Vec<(String, u128)>, denom: String, balance: u128)
    ensures
        holdings_of(final(holdings)@) == inserted(holdings_of(old(holdings)@), (denom@, balance)),
{
    let ghost all = holdings_of(holdings@);
    let ghost added = (denom@, balance);
    let mut i: usize = holdings.len();
    proof {
        assert(all.take(i as int) =~= all);
        assert(inserted(all, added) =~= inserted(all, added) + all.skip(i as int));
    }
    while i > 0 && comes_before(denom.as_str(), holdings[i - 1].0.as_str())
        invariant
            i <= holdings.len(),
            all == holdings_of(holdings@),
            all == holdings_of(old(holdings)@),
            added == (denom@, balance),
            inserted(all, added) == inserted(all.take(i as int), added) + all.skip(i as int),
        decreases i,
    {
        i = i - 1;
        proof {
            assert(all.take(i + 1).drop_last() =~= all.take(i as int));
            assert(all.take(i + 1).last() == all[i as int]);
            assert(inserted(all.take(i as int), added).push(all[i as int]) + all.skip(i + 1)
                =~= inserted(all.take(i as int), added) + all.skip(i as int));
        }
    }
    proof {
        if i > 0 {
            assert(all.take(i as int).last() == all[i - 1]);
        }
        assert(all.take(i as int).push(added) + all.skip(i as int) =~= all.insert(
            i as int,
            added,
        ));
    }
    holdings.insert(i, (denom, balance));
    proof {
        assert(holdings_of(holdings@) =~= all.insert(i as int, added));
    }
}

/// The tokens that `borrower` holds with their balances, in the order of the tokens.
pub fn query_borrower_collateral(deps: &Deps, borrower: &str) -> (r: Vec<(String, u128)>)
    requires
        ledger(*deps).deposited(borrower@).len() > 0 ==> key_fits(borrower@),
    ensures
        holdings_of(r@) == ledger(*deps).holdings(borrower@),
{
    let ghost state = ledger(*deps);
    let tokens = match load_tokens(deps, borrower) {
        Ok(Some(tokens)) => tokens,
        _ => no_texts(),
    };
    let ghost denoms = texts(tokens@);
    let mut result: Vec<(String, u128)> = Vec::new();
    let mut i: usize = 0;
    proof {
        reveal(Seq::filter);
        assert(denoms.take(0).map_values(
            |denom: Seq<char>| (denom, state.balance(borrower@, denom)),
        ) =~= Seq::<Holding>::empty());
        assert(holdings_of(result@) =~= Seq::<Holding>::empty());
    }
    while i < tokens.len()
        invariant
            i <= tokens.len(),
            state == ledger(*deps),
            denoms == texts(tokens@),
            tokens.len() > 0 ==> key_fits(borrower@),
            holdings_of(result@) == sorted(state.holdings_in(borrower@, denoms.take(i as int))),
        decreases tokens.len() - i,
    {
        let balance = query_collateral_balance(deps, borrower, tokens[i].as_str());
        proof {
            reveal(Seq::filter);
            let pair = |denom: Seq<char>| (denom, state.balance(borrower@, denom));
            assert(denoms.take(i + 1).map_values(pair).drop_last() =~= denoms.take(
                i as int,
            ).map_values(pair));
            assert(denoms.take(i + 1).map_values(pair).last() == (tokens@[i as int]@, balance));
        }
        if balance != 0 {
            proof {
                let before = state.holdings_in(borrower@, denoms.take(i as int));
                let after = state.holdings_in(borrower@, denoms.take(i + 1));
                assert(after == before.push((tokens@[i as int]@, balance)));
                assert(after.drop_last() =~= before);
            }
            insert_holding(&mut result, tokens[i].clone(), balance);
        }
        i = i + 1;
    }
    proof {
        assert(denoms.take(i as int) =~= denoms);
    }
    result
}

/// The weighted sum of a part is at most that of the whole.
proof fn lemma_weighed_sum_grows(state: Ledger, holdings: Seq<Holding>, n: int)
    requires
        0 <= n <= holdings.len(),
    ensures
        0 <= state.weighed_sum(holdings.take(n)) <= state.weighed_sum(holdings),
    decreases holdings.len(),
{
    if n == holdings.len() {
        assert(holdings.take(n) =~= holdings);
        if n > 0 {
            lemma_weighed_sum_grows(state, holdings.drop_last(), n - 1);
            lemma_weighed_not_negative(state, holdings.last());
            assert(holdings.drop_last().take(n - 1) =~= holdings.drop_last());
        }
    } else {
        lemma_weighed_sum_grows(state, holdings.drop_last(), n);
        lemma_weighed_not_negative(state, holdings.last());
        assert(holdings.drop_last().take(n) =~= holdings.take(n));
    }
}

proof fn lemma_weighed_not_negative(state: Ledger, holding: Holding)
    ensures
        0 <= state.weighed(holding),
{
    assert(0 <= holding.1 * state.weight(holding.0)) by (nonlinear_arith)
        requires
            0 <= holding.1,
            0 <= state.weight(holding.0),
    ;
}

/// The sum over the tokens of `borrower` of balance times risk weight over 10_000, each rounded
/// down.
///
/// # Errors
///
/// [`ContractError::Overflow`] if a product or the sum does not fit in 128 bits.
pub fn weighted_collateral_total(deps: &Deps, borrower: &str) -> (r: Result<u128, ContractError>)
    requires
        ledger(*deps).deposited(borrower@).len() > 0 ==> key_fits(borrower@),
    ensures
        outcome(r) == ledger(*deps).weighted_total(borrower@),
{
    let ghost state = ledger(*deps);
    let collateral = query_borrower_collateral(deps, borrower);
    let ghost holdings = holdings_of(collateral@);
    let mut total: u128 = 0;
    let mut i: usize = 0;
    while i < collateral.len()
        invariant
            i <= collateral.len(),
            state == ledger(*deps),
            holdings == holdings_of(collateral@),
            holdings == state.holdings(borrower@),
            total == state.weighed_sum(holdings.take(i as int)),
            forall|j: int|
                0 <= j < i ==> #[trigger] state.weighed(holdings[j]) <= u128::MAX,
        decreases collateral.len() - i,
    {
        let weight = collateral_risk_weight_bps(deps, collateral[i].0.as_str());
        proof {
            assert(holdings[i as int] == (collateral@[i as int].0@, collateral@[i as int].1));
            assert(holdings.take(i + 1).drop_last() =~= holdings.take(i as int));
            assert(holdings.take(i + 1).last() == holdings[i as int]);
            lemma_weighed_sum_grows(state, holdings, i + 1);
            lemma_weighed_not_negative(state, holdings[i as int]);
        }
        match collateral[i].1.checked_mul(weight as u128) {
            None => return Err(ContractError::Overflow),
            Some(product) => match total.checked_add(product / 10_000) {
                None => return Err(ContractError::Overflow),
                Some(sum) => total = sum,
            },
        }
        i = i + 1;
    }
    proof {
        assert(holdings.take(i as int) =~= holdings);
    }
    Ok(total)
}

/// The accepted collateral tokens, none if there is no allowlist.
pub fn query_collateral_allowlist(deps: &Deps) -> (r: Vec<String>)
    ensures
        texts(r@) == ledger(*deps).listed(),
{
    match load_allowlist(deps) {
        Ok(Some(list)) => list,
        _ => no_texts(),
    }
}

/// Adds `denom` to the allowlist with a risk weight. It is up to the caller that the sender is
/// the owner.
///
/// # Errors
///
/// - [`ContractError::InvalidAmount`] if the weight is above 10_000.
/// - [`ContractError::AlreadySettled`] if `denom` is on the allowlist already.
pub fn add_collateral_token(deps: &mut DepsMut, denom: &str, risk_weight_bps: u32) -> (r: Result<
    Response,
    ContractError,
>)
    ensures
        replied(r) == ledger_mut(*old(deps)).add_token(denom@, risk_weight_bps).reply,
        ledger_mut(*final(deps)) == ledger_mut(*old(deps)).add_token(
            denom@,
            risk_weight_bps,
        ).ledger,
        refusals_mut(*final(deps)) == refusals_mut(*old(deps)),
{
    if risk_weight_bps > MAX_RISK_WEIGHT_BPS {
        return Err(ContractError::InvalidAmount);
    }
    let mut list = match from_chain(load_allowlist(&reading(deps)))? {
        Some(list) => list,
        None => no_texts(),
    };
    if holds_text(&list, denom) {
        return Err(ContractError::AlreadySettled);
    }
    let ghost before = texts(list@);
    list.push(denom.to_owned());
    proof {
        assert(texts(list@) =~= before.push(denom@));
    }
    from_chain(save_allowlist(deps, &list))?;
    if risk_weight_bps != DEFAULT_COLLATERAL_RISK_WEIGHT_BPS {
        from_chain(save_weight(deps, denom, risk_weight_bps))?;
    }
    Ok(weight_given("add_collateral_token", denom, risk_weight_bps))
}

/// The reply to a request that gives a token its risk weight.
fn weight_given(action: &str, denom: &str, risk_weight_bps: u32) -> (r: Response)
    ensures
        r@ == seq![
            ("action"@, action@),
            ("denom"@, denom@),
            ("risk_weight_bps"@, decimal(risk_weight_bps as nat)),
        ],
{
    Response::new().add_attribute("action", action.to_owned()).add_attribute(
        "denom",
        denom.to_owned(),
    ).add_attribute("risk_weight_bps", decimal_text(risk_weight_bps as u128))
}

/// Removes `denom` from the allowlist, with its risk weight. Deposits of it stay, new ones are
/// refused. It is up to the caller that the sender is the owner.
///
/// # Errors
///
/// [`ContractError::CollateralTokenNotAllowed`] if `denom` is not on the allowlist.
pub fn remove_collateral_token(deps: &mut DepsMut, denom: &str) -> (r: Result<
    Response,
    ContractError,
>)
    ensures
        replied(r) == ledger_mut(*old(deps)).remove_token(denom@).reply,
        ledger_mut(*final(deps)) == ledger_mut(*old(deps)).remove_token(denom@).ledger,
        refusals_mut(*final(deps)) == refusals_mut(*old(deps)),
{
    let list = match from_chain(load_allowlist(&reading(deps)))? {
        Some(list) => list,
        None => no_texts(),
    };
    if !holds_text(&list, denom) {
        return Err(ContractError::CollateralTokenNotAllowed);
    }
    from_chain(save_allowlist(deps, &drop_text(&list, denom)))?;
    remove_weight(deps, denom);
    let reply = Response::new().add_attribute(
        "action",
        "remove_collateral_token".to_owned(),
    ).add_attribute("denom", denom.to_owned());
    proof {
        assert(reply@ =~= seq![("action"@, "remove_collateral_token"@), ("denom"@, denom@)]);
    }
    Ok(reply)
}

/// Sets the risk weight of a token on the allowlist. It is up to the caller that the sender is
/// the owner.
///
/// # Errors
///
/// - [`ContractError::InvalidAmount`] if the weight is above 10_000.
/// - [`ContractError::CollateralTokenNotAllowed`] if `denom` is not on the allowlist.
pub fn set_collateral_risk_weight(deps: &mut DepsMut, denom: &str, risk_weight_bps: u32) -> (r:
    Result<Response, ContractError>)
    ensures
        replied(r) == ledger_mut(*old(deps)).set_weight(denom@, risk_weight_bps).reply,
        ledger_mut(*final(deps)) == ledger_mut(*old(deps)).set_weight(
            denom@,
            risk_weight_bps,
        ).ledger,
        refusals_mut(*final(deps)) == refusals_mut(*old(deps)),
{
    if risk_weight_bps > MAX_RISK_WEIGHT_BPS {
        return Err(ContractError::InvalidAmount);
    }
    let list = match from_chain(load_allowlist(&reading(deps)))? {
        Some(list) => list,
        None => no_texts(),
    };
    if !holds_text(&list, denom) {
        return Err(ContractError::CollateralTokenNotAllowed);
    }
    from_chain(save_weight(deps, denom, risk_weight_bps))?;
    Ok(weight_given("set_collateral_risk_weight", denom, risk_weight_bps))
}

} // verus!
