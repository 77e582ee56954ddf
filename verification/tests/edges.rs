//! Amounts at the end of their range, orders of tokens, and entries that do not decode.
use cosmwasm_std::testing::{mock_dependencies, MockApi, MockQuerier, MockStorage};
use cosmwasm_std::{Addr, OwnedDeps, Uint128};
use creditra_credit::chain::{BlockInfo, Env, MessageInfo, Response};
use creditra_credit::collateral::{
    add_collateral_token, collateral_risk_weight_bps, deposit_collateral,
    is_collateral_token_allowed, query_borrower_collateral, query_collateral_allowlist,
    query_collateral_balance, remove_collateral_token, set_collateral_risk_weight,
    weighted_collateral_total, withdraw_collateral,
};
use creditra_credit::contract::{execute_deposit_collateral, instantiate, query, QueryAnswer};
use creditra_credit::error::StdFailure;
use creditra_credit::fees::{
    accrue_protocol_fee, assert_owner, get_treasury_fee_share_bps, split_protocol_fee,
    withdraw_treasury, DEFAULT_TREASURY_FEE_SHARE_BPS,
};
use creditra_credit::limits::{execute_within_limits, query_within_limits};
use creditra_credit::msg::{ExecuteMsg, InstantiateMsg, QueryMsg};
use creditra_credit::state::{
    Timestamp, BORROWER_COLLATERAL_TOKENS, COLLATERAL_BALANCES, COLLATERAL_TOKEN_ALLOWLIST, CONFIG,
    DEFAULT_FEE_SHARE_BPS, MARKET_FEE_SHARE_BPS, TREASURY_BALANCE,
};
use creditra_credit::store::{Deps, DepsMut};
use creditra_credit::text::{decimal_text, signed_decimal_text};
use creditra_credit::ContractError;
use cw_storage_plus::{Item, Map as StorageMap};

type MockDeps = OwnedDeps<MockStorage, MockApi, MockQuerier>;

fn env() -> Env {
    Env {
        block: BlockInfo {
            height: 1,
            time: Timestamp { nanos: 0 },
        },
    }
}

fn info(sender: &Addr) -> MessageInfo {
    MessageInfo {
        sender: sender.to_string(),
    }
}

fn set_up() -> (MockDeps, Addr) {
    let mut deps = mock_dependencies();
    let owner = deps.api.addr_make("owner");
    let msg = InstantiateMsg {
        owner: owner.to_string(),
    };
    instantiate(&mut DepsMut(deps.as_mut()), env(), info(&owner), msg, Ok(())).unwrap();
    (deps, owner)
}

fn deposit(
    deps: &mut MockDeps,
    borrower: &str,
    denom: &str,
    amount: u128,
) -> Result<Response, ContractError> {
    deposit_collateral(&mut DepsMut(deps.as_mut()), borrower, denom, amount)
}

fn list(deps: &mut MockDeps, denom: &str, weight_bps: u32) {
    add_collateral_token(&mut DepsMut(deps.as_mut()), denom, weight_bps).unwrap();
}

/// Puts JSON of another type under the key of a map entry.
fn garble<'a>(deps: &mut MockDeps, map: &'static str, key: &'a str) {
    StorageMap::<&'a str, bool>::new(map)
        .save(deps.as_mut().storage, key, &true)
        .unwrap();
}

fn is_backend(err: ContractError) -> bool {
    matches!(err, ContractError::Std(StdFailure::Backend(_)))
}

fn generic(msg: &str) -> ContractError {
    ContractError::Std(StdFailure::GenericErr {
        msg: msg.to_string(),
    })
}

#[test]
fn decimal_notation() {
    for n in [0, 9, 10, 11, 99, 100, 12_345, u128::MAX - 1, u128::MAX] {
        assert_eq!(decimal_text(n), n.to_string());
    }
    for i in [0, 7, -7, -10, i128::MAX, i128::MIN, i128::MIN + 1] {
        assert_eq!(signed_decimal_text(i), i.to_string());
    }
}

#[test]
fn a_split_whose_product_overflows_is_refused() {
    let fee = u128::MAX / 5_000 + 1;
    assert_eq!(split_protocol_fee(fee, 5_000).unwrap_err(), generic("Fee split overflow"));
    assert_eq!(split_protocol_fee(fee - 1, 5_000).unwrap().treasury_amount, (fee - 1) / 2);
    assert_eq!(split_protocol_fee(u128::MAX, 10_000).unwrap().treasury_amount, u128::MAX);
    assert_eq!(split_protocol_fee(u128::MAX, 0).unwrap().bounty_amount, u128::MAX);
    let err = split_protocol_fee(0, 10_001).unwrap_err();
    assert_eq!(err, ContractError::InvalidFeeShareBps);
}

#[test]
fn shares_that_do_not_decode_are_passed_over() {
    let (mut deps, _) = set_up();
    garble(&mut deps, MARKET_FEE_SHARE_BPS, "ucredit");
    let share = |deps: &MockDeps| get_treasury_fee_share_bps(&Deps(deps.as_ref()), "ucredit");
    assert_eq!(share(&deps), DEFAULT_TREASURY_FEE_SHARE_BPS);
    Item::<u32>::new(DEFAULT_FEE_SHARE_BPS)
        .save(deps.as_mut().storage, &1_234)
        .unwrap();
    assert_eq!(share(&deps), 1_234);
}

#[test]
fn balances_that_do_not_decode_are_reported() {
    let (mut deps, owner) = set_up();
    garble(&mut deps, TREASURY_BALANCE, "ucredit");
    let err = accrue_protocol_fee(&mut DepsMut(deps.as_mut()), "ucredit", 5).unwrap_err();
    assert!(is_backend(err));
    let err = withdraw_treasury(&mut DepsMut(deps.as_mut()), owner.as_str(), "ucredit", 5)
        .unwrap_err();
    assert!(is_backend(err));
}

#[test]
fn the_owner_is_recognised() {
    let (mut deps, owner) = set_up();
    let config = assert_owner(&Deps(deps.as_ref()), owner.as_str()).unwrap();
    assert_eq!(config.owner, owner.as_str());
    let err = assert_owner(&Deps(deps.as_ref()), "other").unwrap_err();
    assert_eq!(err, ContractError::Unauthorized);
    Item::<String>::new(CONFIG).remove(deps.as_mut().storage);
    assert!(is_backend(assert_owner(&Deps(deps.as_ref()), owner.as_str()).unwrap_err()));
}

#[test]
fn a_deposit_that_overflows_is_refused() {
    let (mut deps, _) = set_up();
    list(&mut deps, "uusd", 10_000);
    deposit(&mut deps, "alice", "uusd", u128::MAX - 1).unwrap();
    assert_eq!(deposit(&mut deps, "alice", "uusd", 2).unwrap_err(), ContractError::Overflow);
    deposit(&mut deps, "alice", "uusd", 1).unwrap();
    assert_eq!(
        query_collateral_balance(&Deps(deps.as_ref()), "alice", "uusd"),
        u128::MAX
    );
}

#[test]
fn a_weighted_total_that_overflows_is_refused() {
    let (mut deps, _) = set_up();
    let limit = u128::MAX / 10_000;
    list(&mut deps, "a", 10_000);
    deposit(&mut deps, "alice", "a", limit).unwrap();
    let total = |deps: &MockDeps| weighted_collateral_total(&Deps(deps.as_ref()), "alice");
    assert_eq!(total(&deps).unwrap(), limit);
    deposit(&mut deps, "alice", "a", 1).unwrap();
    assert_eq!(total(&deps).unwrap_err(), ContractError::Overflow);
    set_collateral_risk_weight(&mut DepsMut(deps.as_mut()), "a", 1).unwrap();
    assert_eq!(total(&deps).unwrap(), (limit + 1) / 10_000);
}

#[test]
fn weighted_balances_are_rounded_down_one_by_one() {
    let (mut deps, _) = set_up();
    list(&mut deps, "a", 5_000);
    list(&mut deps, "b", 5_000);
    deposit(&mut deps, "alice", "a", 3).unwrap();
    deposit(&mut deps, "alice", "b", 5).unwrap();
    assert_eq!(weighted_collateral_total(&Deps(deps.as_ref()), "alice").unwrap(), 3);
}

#[test]
fn tokens_are_ordered_by_their_bytes() {
    let (mut deps, _) = set_up();
    let denoms = ["b", "", "ab", "\u{e9}", "a", "Z", "aa", "\u{1F600}", "\u{ffff}"];
    for (i, denom) in denoms.iter().enumerate() {
        list(&mut deps, denom, 10_000);
        deposit(&mut deps, "alice", denom, i as u128 + 1).unwrap();
    }
    let held = query_borrower_collateral(&Deps(deps.as_ref()), "alice");
    let mut expected: Vec<(String, u128)> = denoms
        .iter()
        .enumerate()
        .map(|(i, denom)| (denom.to_string(), i as u128 + 1))
        .collect();
    expected.sort();
    assert_eq!(held, expected);
}

#[test]
fn zero_balances_and_repeated_tokens_are_handled() {
    let (mut deps, _) = set_up();
    let tokens = vec!["b".to_string(), "a".to_string(), "b".to_string(), "c".to_string()];
    StorageMap::<&Addr, Vec<String>>::new(BORROWER_COLLATERAL_TOKENS)
        .save(deps.as_mut().storage, &Addr::unchecked("alice"), &tokens)
        .unwrap();
    for (denom, amount) in [("a", 0), ("b", 7)] {
        StorageMap::<(&Addr, &str), Uint128>::new(COLLATERAL_BALANCES)
            .save(
                deps.as_mut().storage,
                (&Addr::unchecked("alice"), denom),
                &Uint128::new(amount),
            )
            .unwrap();
    }
    let held = query_borrower_collateral(&Deps(deps.as_ref()), "alice");
    assert_eq!(held, vec![("b".to_string(), 7), ("b".to_string(), 7)]);
    withdraw_collateral(&mut DepsMut(deps.as_mut()), "alice", "b", 7).unwrap();
    let left = StorageMap::<&Addr, Vec<String>>::new(BORROWER_COLLATERAL_TOKENS)
        .load(deps.as_ref().storage, &Addr::unchecked("alice"))
        .unwrap();
    assert_eq!(left, vec!["a".to_string(), "c".to_string()]);
}

#[test]
fn collateral_that_does_not_decode_is_reported() {
    let (mut deps, _) = set_up();
    list(&mut deps, "uusd", 10_000);
    garble(&mut deps, BORROWER_COLLATERAL_TOKENS, "alice");
    assert!(is_backend(deposit(&mut deps, "alice", "uusd", 5).unwrap_err()));
    assert!(query_borrower_collateral(&Deps(deps.as_ref()), "alice").is_empty());

    StorageMap::<(&Addr, &str), bool>::new(COLLATERAL_BALANCES)
        .save(deps.as_mut().storage, (&Addr::unchecked("bob"), "uusd"), &true)
        .unwrap();
    assert!(is_backend(deposit(&mut deps, "bob", "uusd", 5).unwrap_err()));
    let err =
        withdraw_collateral(&mut DepsMut(deps.as_mut()), "bob", "uusd", 5).unwrap_err();
    assert!(is_backend(err));
    assert_eq!(query_collateral_balance(&Deps(deps.as_ref()), "bob", "uusd"), 0);
}

#[test]
fn an_allowlist_that_does_not_decode_allows_nothing() {
    let (mut deps, _) = set_up();
    Item::<bool>::new(COLLATERAL_TOKEN_ALLOWLIST)
        .save(deps.as_mut().storage, &true)
        .unwrap();
    assert!(!is_collateral_token_allowed(&Deps(deps.as_ref()), "uusd"));
    assert!(query_collateral_allowlist(&Deps(deps.as_ref())).is_empty());
    let err = deposit(&mut deps, "alice", "uusd", 5).unwrap_err();
    assert_eq!(err, ContractError::CollateralTokenNotAllowed);
    let mut store = DepsMut(deps.as_mut());
    assert!(is_backend(add_collateral_token(&mut store, "uusd", 1).unwrap_err()));
    assert!(is_backend(remove_collateral_token(&mut store, "uusd").unwrap_err()));
    assert!(is_backend(set_collateral_risk_weight(&mut store, "uusd", 1).unwrap_err()));
    let err = set_collateral_risk_weight(&mut store, "uusd", 10_001).unwrap_err();
    assert_eq!(err, ContractError::InvalidAmount);
}

#[test]
fn requests_for_bad_addresses_and_amounts_are_refused() {
    let (mut deps, owner) = set_up();
    let borrower = deps.api.addr_make("borrower").to_string();
    let mut request = |borrower: &str, amount: &str| {
        execute_deposit_collateral(
            &mut DepsMut(deps.as_mut()),
            info(&owner),
            borrower.to_string(),
            "uusd".to_string(),
            amount.to_string(),
        )
        .unwrap_err()
    };
    assert!(is_backend(request("nobody", "x")));
    assert_eq!(
        request(&borrower, "x"),
        ContractError::Std(StdFailure::ParseErr {
            target_type: "Uint128".to_string(),
            msg: "x".to_string()
        })
    );
    assert_eq!(request(&borrower, "0"), ContractError::InvalidAmount);
    assert_eq!(request(&borrower, "1"), ContractError::CollateralTokenNotAllowed);
}

#[test]
fn queries_report_weights_and_refusals() {
    let (mut deps, _) = set_up();
    let borrower = deps.api.addr_make("borrower").to_string();
    list(&mut deps, "b", 2_500);
    list(&mut deps, "a", 10_000);
    deposit(&mut deps, &borrower, "b", 9).unwrap();
    deposit(&mut deps, &borrower, "a", 4).unwrap();
    assert_eq!(collateral_risk_weight_bps(&Deps(deps.as_ref()), "b"), 2_500);

    let ask = |deps: &MockDeps, borrower: &str, denom: Option<&str>| {
        let msg = QueryMsg::GetCollateralBalance {
            borrower: borrower.to_string(),
            denom: denom.map(|d| d.to_string()),
        };
        assert!(query_within_limits(&Deps(deps.as_ref()), &msg));
        query(&Deps(deps.as_ref()), env(), msg)
    };
    let report = |answer: QueryAnswer| match answer {
        QueryAnswer::CollateralBalance(resp) => (
            resp.entries
                .iter()
                .map(|e| (e.denom.clone(), e.amount, e.risk_weight_bps))
                .collect::<Vec<(String, u128, u32)>>(),
            resp.weighted_total,
        ),
        other => panic!("unexpected answer: {:?}", other),
    };
    let all = report(ask(&deps, &borrower, None).unwrap());
    assert_eq!(
        all,
        (vec![("a".to_string(), 4, 10_000), ("b".to_string(), 9, 2_500)], 6)
    );
    let one = report(ask(&deps, &borrower, Some("b")).unwrap());
    assert_eq!(one, (vec![("b".to_string(), 9, 2_500)], 6));
    let none = report(ask(&deps, &borrower, Some("c")).unwrap());
    assert_eq!(none, (vec![], 6));

    assert!(is_backend(ask(&deps, "nobody", None).unwrap_err()));
    deposit(&mut deps, &borrower, "a", u128::MAX / 10_000).unwrap();
    let err = ask(&deps, &borrower, Some("b")).unwrap_err();
    assert_eq!(err, ContractError::Overflow);
}

#[test]
fn ordinary_requests_are_within_the_limits() {
    let (deps, owner) = set_up();
    for msg in [
        ExecuteMsg::DepositCollateral {
            borrower: owner.to_string(),
            denom: "uusd".to_string(),
            amount: "5".to_string(),
        },
        ExecuteMsg::WithdrawCollateral {
            borrower: owner.to_string(),
            denom: "uusd".to_string(),
            amount: "5".to_string(),
        },
        ExecuteMsg::RemoveCollateralToken {
            denom: "uusd".to_string(),
        },
    ] {
        assert!(execute_within_limits(&Deps(deps.as_ref()), env(), &info(&owner), &msg));
    }
}
