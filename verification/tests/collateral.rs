//! Collateral deposits, withdrawals, the allowlist and the risk weights.
use cosmwasm_std::testing::{mock_dependencies, MockApi, MockQuerier, MockStorage};
use cosmwasm_std::{Addr, OwnedDeps, Uint128};
use creditra_credit::collateral::{
    add_collateral_token, collateral_risk_weight_bps, deposit_collateral,
    is_collateral_token_allowed, query_borrower_collateral, query_collateral_allowlist,
    query_collateral_balance, remove_collateral_token, set_collateral_risk_weight,
    weighted_collateral_total, withdraw_collateral,
};
use creditra_credit::state::{
    BORROWER_COLLATERAL_TOKENS, COLLATERAL_BALANCES, COLLATERAL_RISK_WEIGHTS,
    COLLATERAL_TOKEN_ALLOWLIST, DEFAULT_COLLATERAL_RISK_WEIGHT_BPS,
};
use creditra_credit::store::{Deps, DepsMut};
use creditra_credit::ContractError;
use cw_storage_plus::{Item, Map as StorageMap};

type MockDeps = OwnedDeps<MockStorage, MockApi, MockQuerier>;

fn alice() -> &'static str {
    "alice"
}

fn bob() -> &'static str {
    "bob"
}

fn setup_allowlist(deps: &mut MockDeps, denoms: &[&str]) {
    let list: Vec<String> = denoms.iter().map(|d| d.to_string()).collect();
    Item::<Vec<String>>::new(COLLATERAL_TOKEN_ALLOWLIST)
        .save(deps.as_mut().storage, &list)
        .unwrap();
}

fn setup_deposit(deps: &mut MockDeps, borrower: &str, denom: &str, amount: u128) {
    setup_allowlist(deps, &[denom]);
    deposit_collateral(&mut DepsMut(deps.as_mut()), borrower, denom, amount).unwrap();
}

fn set_weight(deps: &mut MockDeps, denom: &str, weight_bps: u32) {
    StorageMap::<&str, u32>::new(COLLATERAL_RISK_WEIGHTS)
        .save(deps.as_mut().storage, denom, &weight_bps)
        .unwrap();
}

fn weight_of(deps: &MockDeps, denom: &str) -> Option<u32> {
    StorageMap::<&str, u32>::new(COLLATERAL_RISK_WEIGHTS)
        .may_load(deps.as_ref().storage, denom)
        .unwrap()
}

fn balance_of(deps: &MockDeps, borrower: &str, denom: &str) -> Option<u128> {
    StorageMap::<(&Addr, &str), Uint128>::new(COLLATERAL_BALANCES)
        .may_load(deps.as_ref().storage, (&Addr::unchecked(borrower), denom))
        .unwrap()
        .map(|balance| balance.u128())
}

fn tokens_of(deps: &MockDeps, borrower: &str) -> Option<Vec<String>> {
    StorageMap::<&Addr, Vec<String>>::new(BORROWER_COLLATERAL_TOKENS)
        .may_load(deps.as_ref().storage, &Addr::unchecked(borrower))
        .unwrap()
}

fn allowlist(deps: &MockDeps) -> Option<Vec<String>> {
    Item::<Vec<String>>::new(COLLATERAL_TOKEN_ALLOWLIST)
        .may_load(deps.as_ref().storage)
        .unwrap()
}

#[test]
fn returns_false_when_allowlist_is_empty() {
    let deps = mock_dependencies();
    assert!(!is_collateral_token_allowed(&Deps(deps.as_ref()), "uusd"));
}

#[test]
fn returns_false_when_allowlist_is_absent() {
    let deps = mock_dependencies();
    assert!(!is_collateral_token_allowed(&Deps(deps.as_ref()), "uusd"));
}

#[test]
fn returns_true_for_allowed_token() {
    let mut deps = mock_dependencies();
    setup_allowlist(&mut deps, &["uusd", "uatom"]);
    assert!(is_collateral_token_allowed(&Deps(deps.as_ref()), "uusd"));
    assert!(is_collateral_token_allowed(&Deps(deps.as_ref()), "uatom"));
}

#[test]
fn returns_false_for_unlisted_token() {
    let mut deps = mock_dependencies();
    setup_allowlist(&mut deps, &["uusd"]);
    assert!(!is_collateral_token_allowed(&Deps(deps.as_ref()), "uatom"));
}

#[test]
fn case_sensitive_matching() {
    let mut deps = mock_dependencies();
    setup_allowlist(&mut deps, &["uUSD"]);
    assert!(is_collateral_token_allowed(&Deps(deps.as_ref()), "uUSD"));
    assert!(!is_collateral_token_allowed(&Deps(deps.as_ref()), "uusd"));
}


#[test]
fn returns_default_when_not_configured() {
    let deps = mock_dependencies();
    assert_eq!(
        collateral_risk_weight_bps(&Deps(deps.as_ref()), "uusd"),
        DEFAULT_COLLATERAL_RISK_WEIGHT_BPS
    );
}

#[test]
fn returns_configured_value() {
    let mut deps = mock_dependencies();
    set_weight(&mut deps, "uatom", 7_500);
    assert_eq!(collateral_risk_weight_bps(&Deps(deps.as_ref()), "uatom"), 7_500);
    assert_eq!(
        collateral_risk_weight_bps(&Deps(deps.as_ref()), "uusd"),
        DEFAULT_COLLATERAL_RISK_WEIGHT_BPS
    );
}


#[test]
fn rejects_zero_amount() {
    let mut deps = mock_dependencies();
    setup_allowlist(&mut deps, &["uusd"]);
    let err = deposit_collateral(&mut DepsMut(deps.as_mut()), alice(), "uusd", 0)
        .unwrap_err();
    assert_eq!(err, ContractError::InvalidAmount);
}

#[test]
fn rejects_unallowed_token() {
    let mut deps = mock_dependencies();
    let err = deposit_collateral(
        &mut DepsMut(deps.as_mut()),
        alice(),
        "uusd",
        100,
    )
    .unwrap_err();
    assert_eq!(err, ContractError::CollateralTokenNotAllowed);
}

#[test]
fn records_deposit() {
    let mut deps = mock_dependencies();
    setup_allowlist(&mut deps, &["uusd"]);

    deposit_collateral(&mut DepsMut(deps.as_mut()), alice(), "uusd", 1000).unwrap();

    let balance = balance_of(&deps, alice(), "uusd")
        .unwrap();
    assert_eq!(balance, 1000);
}

#[test]
fn accumulates_multiple_deposits() {
    let mut deps = mock_dependencies();
    setup_allowlist(&mut deps, &["uusd"]);

    deposit_collateral(&mut DepsMut(deps.as_mut()), alice(), "uusd", 500).unwrap();
    deposit_collateral(&mut DepsMut(deps.as_mut()), alice(), "uusd", 300).unwrap();

    let balance = balance_of(&deps, alice(), "uusd")
        .unwrap();
    assert_eq!(balance, 800);
}

#[test]
fn tracks_borrower_tokens() {
    let mut deps = mock_dependencies();
    setup_allowlist(&mut deps, &["uusd", "uatom"]);

    deposit_collateral(&mut DepsMut(deps.as_mut()), alice(), "uusd", 500).unwrap();
    deposit_collateral(&mut DepsMut(deps.as_mut()), alice(), "uatom", 300).unwrap();

    let tokens = tokens_of(&deps, alice())
        .unwrap();
    assert_eq!(tokens.len(), 2);
    assert!(tokens.contains(&"uusd".to_string()));
    assert!(tokens.contains(&"uatom".to_string()));
}

#[test]
fn isolates_borrowers() {
    let mut deps = mock_dependencies();
    setup_allowlist(&mut deps, &["uusd"]);

    deposit_collateral(&mut DepsMut(deps.as_mut()), alice(), "uusd", 500).unwrap();

    let alice_balance = balance_of(&deps, alice(), "uusd")
        .unwrap();
    assert_eq!(alice_balance, 500);

    let bob_balance = balance_of(&deps, bob(), "uusd");
    assert!(bob_balance.is_none());
}

#[test]
fn response_has_correct_attributes() {
    let mut deps = mock_dependencies();
    setup_allowlist(&mut deps, &["uusd"]);

    let resp =
        deposit_collateral(&mut DepsMut(deps.as_mut()), alice(), "uusd", 100).unwrap();
    let attrs = resp.attributes;
    assert_eq!(attrs[0].value, "deposit_collateral");
    assert_eq!(attrs[1].value, "alice");
    assert_eq!(attrs[2].value, "uusd");
    assert_eq!(attrs[3].value, "100");
}

#[test]
fn does_not_duplicate_token_in_borrower_list() {
    let mut deps = mock_dependencies();
    setup_allowlist(&mut deps, &["uusd"]);

    deposit_collateral(&mut DepsMut(deps.as_mut()), alice(), "uusd", 100).unwrap();
    deposit_collateral(&mut DepsMut(deps.as_mut()), alice(), "uusd", 50).unwrap();

    let tokens = tokens_of(&deps, alice())
        .unwrap();
    assert_eq!(tokens.len(), 1);
}


#[test]
fn collateral_rejects_zero_amount() {
    let mut deps = mock_dependencies();
    let err = withdraw_collateral(&mut DepsMut(deps.as_mut()), alice(), "uusd", 0)
        .unwrap_err();
    assert_eq!(err, ContractError::InvalidAmount);
}

#[test]
fn rejects_insufficient_balance() {
    let mut deps = mock_dependencies();
    let err = withdraw_collateral(&mut DepsMut(deps.as_mut()), alice(), "uusd", 100)
        .unwrap_err();
    assert_eq!(err, ContractError::InsufficientCollateralBalance);
}

#[test]
fn withdraws_partial_amount() {
    let mut deps = mock_dependencies();
    setup_deposit(&mut deps, alice(), "uusd", 1000);

    withdraw_collateral(&mut DepsMut(deps.as_mut()), alice(), "uusd", 300).unwrap();

    let balance = balance_of(&deps, alice(), "uusd")
        .unwrap();
    assert_eq!(balance, 700);
}

#[test]
fn withdraws_full_amount_and_cleans_up() {
    let mut deps = mock_dependencies();
    setup_deposit(&mut deps, alice(), "uusd", 500);

    withdraw_collateral(&mut DepsMut(deps.as_mut()), alice(), "uusd", 500).unwrap();

    let balance = balance_of(&deps, alice(), "uusd");
    assert!(balance.is_none());

    let tokens = tokens_of(&deps, alice())
        .unwrap();
    assert!(!tokens.contains(&"uusd".to_string()));
}

#[test]
fn rejects_withdraw_exceeding_balance() {
    let mut deps = mock_dependencies();
    setup_deposit(&mut deps, alice(), "uusd", 100);

    let err = withdraw_collateral(&mut DepsMut(deps.as_mut()), alice(), "uusd", 101)
        .unwrap_err();
    assert_eq!(err, ContractError::InsufficientCollateralBalance);
}

#[test]
fn collateral_response_has_correct_attributes() {
    let mut deps = mock_dependencies();
    setup_deposit(&mut deps, alice(), "uusd", 500);

    let resp =
        withdraw_collateral(&mut DepsMut(deps.as_mut()), alice(), "uusd", 200).unwrap();
    let attrs = resp.attributes;
    assert_eq!(attrs[0].value, "withdraw_collateral");
    assert_eq!(attrs[1].value, "alice");
    assert_eq!(attrs[2].value, "uusd");
    assert_eq!(attrs[3].value, "200");
}

#[test]
fn preserves_other_tokens_when_one_is_depleted() {
    let mut deps = mock_dependencies();
    setup_allowlist(&mut deps, &["uusd", "uatom"]);

    deposit_collateral(&mut DepsMut(deps.as_mut()), alice(), "uusd", 100).unwrap();
    deposit_collateral(&mut DepsMut(deps.as_mut()), alice(), "uatom", 200).unwrap();

    withdraw_collateral(&mut DepsMut(deps.as_mut()), alice(), "uusd", 100).unwrap();

    let balance = balance_of(&deps, alice(), "uatom")
        .unwrap();
    assert_eq!(balance, 200);

    let tokens = tokens_of(&deps, alice())
        .unwrap();
    assert!(!tokens.contains(&"uusd".to_string()));
    assert!(tokens.contains(&"uatom".to_string()));
}


#[test]
fn returns_zero_for_missing_balance() {
    let deps = mock_dependencies();
    let balance = query_collateral_balance(&Deps(deps.as_ref()), alice(), "uusd");
    assert_eq!(balance, 0);
}

#[test]
fn returns_stored_balance() {
    let mut deps = mock_dependencies();
    setup_deposit(&mut deps, alice(), "uusd", 750);
    let balance = query_collateral_balance(&Deps(deps.as_ref()), alice(), "uusd");
    assert_eq!(balance, 750);
}

#[test]
fn returns_zero_for_different_borrower() {
    let mut deps = mock_dependencies();
    setup_deposit(&mut deps, alice(), "uusd", 750);
    let balance = query_collateral_balance(&Deps(deps.as_ref()), bob(), "uusd");
    assert_eq!(balance, 0);
}


#[test]
fn returns_empty_for_borrower_with_no_deposits() {
    let deps = mock_dependencies();
    let result = query_borrower_collateral(&Deps(deps.as_ref()), alice());
    assert!(result.is_empty());
}

#[test]
fn returns_all_tokens_sorted() {
    let mut deps = mock_dependencies();
    setup_allowlist(&mut deps, &["uatom", "uusd", "uosmo"]);

    deposit_collateral(&mut DepsMut(deps.as_mut()), alice(), "uosmo", 300).unwrap();
    deposit_collateral(&mut DepsMut(deps.as_mut()), alice(), "uusd", 500).unwrap();
    deposit_collateral(&mut DepsMut(deps.as_mut()), alice(), "uatom", 100).unwrap();

    let result = query_borrower_collateral(&Deps(deps.as_ref()), alice());
    assert_eq!(result.len(), 3);
    assert_eq!(result[0].0, "uatom");
    assert_eq!(result[0].1, 100);
    assert_eq!(result[1].0, "uosmo");
    assert_eq!(result[1].1, 300);
    assert_eq!(result[2].0, "uusd");
    assert_eq!(result[2].1, 500);
}

#[test]
fn collateral_isolates_borrowers() {
    let mut deps = mock_dependencies();
    setup_allowlist(&mut deps, &["uusd"]);

    deposit_collateral(&mut DepsMut(deps.as_mut()), alice(), "uusd", 500).unwrap();

    assert_eq!(query_borrower_collateral(&Deps(deps.as_ref()), alice()).len(), 1);
    assert!(query_borrower_collateral(&Deps(deps.as_ref()), bob()).is_empty());
}


#[test]
fn returns_zero_when_no_deposits() {
    let deps = mock_dependencies();
    let total = weighted_collateral_total(&Deps(deps.as_ref()), alice()).unwrap();
    assert_eq!(total, 0);
}

#[test]
fn returns_full_value_at_default_weight() {
    let mut deps = mock_dependencies();
    setup_allowlist(&mut deps, &["uusd"]);
    deposit_collateral(&mut DepsMut(deps.as_mut()), alice(), "uusd", 1000).unwrap();

    let total = weighted_collateral_total(&Deps(deps.as_ref()), alice()).unwrap();
    assert_eq!(total, 1000);
}

#[test]
fn applies_risk_weight_correctly() {
    let mut deps = mock_dependencies();
    setup_allowlist(&mut deps, &["uatom", "uusd"]);

    set_weight(&mut deps, "uatom", 5_000);

    deposit_collateral(&mut DepsMut(deps.as_mut()), alice(), "uatom", 200).unwrap();
    deposit_collateral(&mut DepsMut(deps.as_mut()), alice(), "uusd", 100).unwrap();

    // uatom: 200 * 5000 / 10000 = 100
    // uusd:  100 * 10000 / 10000 = 100
    // total: 200
    let total = weighted_collateral_total(&Deps(deps.as_ref()), alice()).unwrap();
    assert_eq!(total, 200);
}

#[test]
fn zero_weight_token_contributes_nothing() {
    let mut deps = mock_dependencies();
    setup_allowlist(&mut deps, &["uatom"]);

    set_weight(&mut deps, "uatom", 0);

    deposit_collateral(&mut DepsMut(deps.as_mut()), alice(), "uatom", 500).unwrap();

    let total = weighted_collateral_total(&Deps(deps.as_ref()), alice()).unwrap();
    assert_eq!(total, 0);
}


#[test]
fn adds_token_to_allowlist() {
    let mut deps = mock_dependencies();
    add_collateral_token(&mut DepsMut(deps.as_mut()), "uusd", 10_000).unwrap();

    let list = allowlist(&deps)
        .unwrap();
    assert!(list.contains(&"uusd".to_string()));
}

#[test]
fn rejects_duplicate_token() {
    let mut deps = mock_dependencies();
    add_collateral_token(&mut DepsMut(deps.as_mut()), "uusd", 10_000).unwrap();
    let err = add_collateral_token(&mut DepsMut(deps.as_mut()), "uusd", 10_000).unwrap_err();
    assert_eq!(err, ContractError::AlreadySettled);
}

#[test]
fn rejects_risk_weight_over_max() {
    let mut deps = mock_dependencies();
    let err =
        add_collateral_token(&mut DepsMut(deps.as_mut()), "uusd", 10_001).unwrap_err();
    assert_eq!(err, ContractError::InvalidAmount);
}

#[test]
fn stores_non_default_risk_weight() {
    let mut deps = mock_dependencies();
    add_collateral_token(&mut DepsMut(deps.as_mut()), "uatom", 7_500).unwrap();

    let weight = weight_of(&deps, "uatom")
        .unwrap();
    assert_eq!(weight, 7_500);
}

#[test]
fn does_not_store_default_risk_weight() {
    let mut deps = mock_dependencies();
    add_collateral_token(&mut DepsMut(deps.as_mut()), "uusd", 10_000).unwrap();

    let weight = weight_of(&deps, "uusd");
    assert!(weight.is_none());
}

#[test]
fn add_response_has_correct_attributes() {
    let mut deps = mock_dependencies();
    let resp = add_collateral_token(&mut DepsMut(deps.as_mut()), "uusd", 7_500).unwrap();
    let attrs = resp.attributes;
    assert_eq!(attrs[0].value, "add_collateral_token");
    assert_eq!(attrs[1].value, "uusd");
    assert_eq!(attrs[2].value, "7500");
}


#[test]
fn removes_token_from_allowlist() {
    let mut deps = mock_dependencies();
    add_collateral_token(&mut DepsMut(deps.as_mut()), "uusd", 10_000).unwrap();
    remove_collateral_token(&mut DepsMut(deps.as_mut()), "uusd").unwrap();

    let list = allowlist(&deps)
        .unwrap();
    assert!(!list.contains(&"uusd".to_string()));
}

#[test]
fn removes_risk_weight() {
    let mut deps = mock_dependencies();
    add_collateral_token(&mut DepsMut(deps.as_mut()), "uatom", 7_500).unwrap();
    remove_collateral_token(&mut DepsMut(deps.as_mut()), "uatom").unwrap();

    let weight = weight_of(&deps, "uatom");
    assert!(weight.is_none());
}

#[test]
fn rejects_removing_unlisted_token() {
    let mut deps = mock_dependencies();
    let err = remove_collateral_token(&mut DepsMut(deps.as_mut()), "uusd").unwrap_err();
    assert_eq!(err, ContractError::CollateralTokenNotAllowed);
}

#[test]
fn remove_response_has_correct_attributes() {
    let mut deps = mock_dependencies();
    add_collateral_token(&mut DepsMut(deps.as_mut()), "uusd", 10_000).unwrap();
    let resp = remove_collateral_token(&mut DepsMut(deps.as_mut()), "uusd").unwrap();
    let attrs = resp.attributes;
    assert_eq!(attrs[0].value, "remove_collateral_token");
    assert_eq!(attrs[1].value, "uusd");
}


#[test]
fn updates_risk_weight() {
    let mut deps = mock_dependencies();
    add_collateral_token(&mut DepsMut(deps.as_mut()), "uatom", 10_000).unwrap();
    set_collateral_risk_weight(&mut DepsMut(deps.as_mut()), "uatom", 5_000).unwrap();

    let weight = weight_of(&deps, "uatom")
        .unwrap();
    assert_eq!(weight, 5_000);
}

#[test]
fn rejects_unlisted_token() {
    let mut deps = mock_dependencies();
    let err = set_collateral_risk_weight(&mut DepsMut(deps.as_mut()), "uusd", 5_000).unwrap_err();
    assert_eq!(err, ContractError::CollateralTokenNotAllowed);
}

#[test]
fn rejects_weight_over_max() {
    let mut deps = mock_dependencies();
    add_collateral_token(&mut DepsMut(deps.as_mut()), "uusd", 10_000).unwrap();
    let err = set_collateral_risk_weight(&mut DepsMut(deps.as_mut()), "uusd", 10_001).unwrap_err();
    assert_eq!(err, ContractError::InvalidAmount);
}

#[test]
fn weight_response_has_correct_attributes() {
    let mut deps = mock_dependencies();
    add_collateral_token(&mut DepsMut(deps.as_mut()), "uatom", 10_000).unwrap();
    let resp = set_collateral_risk_weight(&mut DepsMut(deps.as_mut()), "uatom", 7_500).unwrap();
    let attrs = resp.attributes;
    assert_eq!(attrs[0].value, "set_collateral_risk_weight");
    assert_eq!(attrs[1].value, "uatom");
    assert_eq!(attrs[2].value, "7500");
}


#[test]
fn returns_empty_when_not_configured() {
    let deps = mock_dependencies();
    let list = query_collateral_allowlist(&Deps(deps.as_ref()));
    assert!(list.is_empty());
}

#[test]
fn returns_allowed_denoms() {
    let mut deps = mock_dependencies();
    add_collateral_token(&mut DepsMut(deps.as_mut()), "uusd", 10_000).unwrap();
    add_collateral_token(&mut DepsMut(deps.as_mut()), "uatom", 7_500).unwrap();

    let list = query_collateral_allowlist(&Deps(deps.as_ref()));
    assert_eq!(list.len(), 2);
    assert!(list.contains(&"uusd".to_string()));
    assert!(list.contains(&"uatom".to_string()));
}


#[test]
fn deposit_withdraw_multiple_tokens_flow() {
    let mut deps = mock_dependencies();
    setup_allowlist(&mut deps, &["uusd", "uatom", "uosmo"]);

    deposit_collateral(&mut DepsMut(deps.as_mut()), alice(), "uusd", 1000).unwrap();
    deposit_collateral(&mut DepsMut(deps.as_mut()), alice(), "uatom", 500).unwrap();

    assert_eq!(
        query_collateral_balance(&Deps(deps.as_ref()), alice(), "uusd"),
        1000
    );
    assert_eq!(
        query_collateral_balance(&Deps(deps.as_ref()), alice(), "uatom"),
        500
    );

    withdraw_collateral(&mut DepsMut(deps.as_mut()), alice(), "uusd", 600).unwrap();
    assert_eq!(
        query_collateral_balance(&Deps(deps.as_ref()), alice(), "uusd"),
        400
    );

    let portfolio = query_borrower_collateral(&Deps(deps.as_ref()), alice());
    assert_eq!(portfolio.len(), 2);
}

#[test]
fn allowlist_governs_what_can_be_deposited() {
    let mut deps = mock_dependencies();
    setup_allowlist(&mut deps, &["uusd"]);

    deposit_collateral(&mut DepsMut(deps.as_mut()), alice(), "uusd", 100).unwrap();
    let err = deposit_collateral(&mut DepsMut(deps.as_mut()), bob(), "uatom", 100)
        .unwrap_err();
    assert_eq!(err, ContractError::CollateralTokenNotAllowed);
}

#[test]
fn removing_token_prevents_new_deposits_but_preserves_existing() {
    let mut deps = mock_dependencies();
    setup_allowlist(&mut deps, &["uusd"]);

    deposit_collateral(&mut DepsMut(deps.as_mut()), alice(), "uusd", 500).unwrap();

    remove_collateral_token(&mut DepsMut(deps.as_mut()), "uusd").unwrap();

    let err = deposit_collateral(&mut DepsMut(deps.as_mut()), bob(), "uusd", 100)
        .unwrap_err();
    assert_eq!(err, ContractError::CollateralTokenNotAllowed);

    assert_eq!(
        query_collateral_balance(&Deps(deps.as_ref()), alice(), "uusd"),
        500
    );
}

#[test]
fn risk_weight_affects_weighted_total() {
    let mut deps = mock_dependencies();
    setup_allowlist(&mut deps, &["uatom"]);

    deposit_collateral(&mut DepsMut(deps.as_mut()), alice(), "uatom", 1000).unwrap();

    assert_eq!(
        weighted_collateral_total(&Deps(deps.as_ref()), alice()).unwrap(),
        1000
    );

    set_collateral_risk_weight(&mut DepsMut(deps.as_mut()), "uatom", 5_000).unwrap();

    assert_eq!(
        weighted_collateral_total(&Deps(deps.as_ref()), alice()).unwrap(),
        500
    );
}

#[test]
fn multiple_borrowers_independent() {
    let mut deps = mock_dependencies();
    setup_allowlist(&mut deps, &["uusd"]);

    deposit_collateral(&mut DepsMut(deps.as_mut()), alice(), "uusd", 300).unwrap();
    deposit_collateral(&mut DepsMut(deps.as_mut()), bob(), "uusd", 700).unwrap();

    assert_eq!(
        weighted_collateral_total(&Deps(deps.as_ref()), alice()).unwrap(),
        300
    );
    assert_eq!(
        weighted_collateral_total(&Deps(deps.as_ref()), bob()).unwrap(),
        700
    );
}
