//! Requests and queries, end to end.
use cosmwasm_std::testing::{mock_dependencies, mock_env, MockApi, MockQuerier, MockStorage};
use cosmwasm_std::{Addr, OwnedDeps};
use creditra_credit::chain::{BlockInfo, Env, MessageInfo, Response};
use creditra_credit::contract::{execute, instantiate, query, Delegated, QueryAnswer};
use creditra_credit::limits::{execute_within_limits, query_within_limits};
use creditra_credit::msg::{
    CollateralAllowlistResponse, CollateralBalanceResponse, ExecuteMsg, InstantiateMsg, QueryMsg,
};
use creditra_credit::penalties::{AprFeeConfig, FlatFeeConfig, LateFeeConfig};
use creditra_credit::state::Timestamp;
use creditra_credit::store::{Deps, DepsMut};
use creditra_credit::ContractError;

type MockDeps = OwnedDeps<MockStorage, MockApi, MockQuerier>;

fn creator(deps: &MockDeps) -> Addr {
    deps.api.addr_make("creator")
}

fn non_admin(deps: &MockDeps) -> Addr {
    deps.api.addr_make("non_admin")
}

fn admin(deps: &MockDeps) -> Addr {
    creator(deps)
}

fn borrower(deps: &MockDeps) -> Addr {
    deps.api.addr_make("borrower")
}

fn env() -> Env {
    let block = mock_env().block;
    Env {
        block: BlockInfo {
            height: block.height,
            time: Timestamp {
                nanos: block.time.nanos(),
            },
        },
    }
}

fn info(sender: &Addr) -> MessageInfo {
    MessageInfo {
        sender: sender.to_string(),
    }
}

fn setup(deps: &mut MockDeps) {
    let owner = creator(deps);
    let msg = InstantiateMsg {
        owner: owner.to_string(),
    };
    instantiate(&mut DepsMut(deps.as_mut()), env(), info(&owner), msg, Ok(())).unwrap();
}

fn run(deps: &mut MockDeps, sender: &Addr, msg: ExecuteMsg) -> Result<Response, ContractError> {
    let delegated = Delegated {
        quorum_price: Err(ContractError::OraclePriceInvalid),
        version_recorded: Ok(()),
    };
    assert!(execute_within_limits(&Deps(deps.as_ref()), env(), &info(sender), &msg));
    execute(&mut DepsMut(deps.as_mut()), env(), info(sender), msg, delegated)
}

fn ask(deps: &MockDeps, msg: QueryMsg) -> QueryAnswer {
    assert!(query_within_limits(&Deps(deps.as_ref()), &msg));
    query(&Deps(deps.as_ref()), env(), msg).unwrap()
}

fn query_late_fee_config(deps: &MockDeps) -> Option<LateFeeConfig> {
    match ask(deps, QueryMsg::GetLateFeeConfig {}) {
        QueryAnswer::LateFeeConfig(resp) => resp.config,
        other => panic!("unexpected answer: {:?}", other),
    }
}

fn set_late_fee_config(
    deps: &mut MockDeps,
    sender: &Addr,
    config: Option<LateFeeConfig>,
) -> Result<Response, ContractError> {
    run(deps, sender, ExecuteMsg::SetLateFeeConfig { config })
}

fn deposit_collateral(
    deps: &mut MockDeps,
    sender: &Addr,
    borrower: &str,
    denom: &str,
    amount: &str,
) -> Result<Response, ContractError> {
    let msg = ExecuteMsg::DepositCollateral {
        borrower: borrower.to_string(),
        denom: denom.to_string(),
        amount: amount.to_string(),
    };
    run(deps, sender, msg)
}

fn withdraw_collateral(
    deps: &mut MockDeps,
    sender: &Addr,
    borrower: &str,
    denom: &str,
    amount: &str,
) -> Result<Response, ContractError> {
    let msg = ExecuteMsg::WithdrawCollateral {
        borrower: borrower.to_string(),
        denom: denom.to_string(),
        amount: amount.to_string(),
    };
    run(deps, sender, msg)
}

fn add_collateral_token(
    deps: &mut MockDeps,
    sender: &Addr,
    denom: &str,
    risk_weight_bps: u32,
) -> Result<Response, ContractError> {
    let msg = ExecuteMsg::AddCollateralToken {
        denom: denom.to_string(),
        risk_weight_bps,
    };
    run(deps, sender, msg)
}

fn remove_collateral_token(
    deps: &mut MockDeps,
    sender: &Addr,
    denom: &str,
) -> Result<Response, ContractError> {
    let msg = ExecuteMsg::RemoveCollateralToken {
        denom: denom.to_string(),
    };
    run(deps, sender, msg)
}

fn set_collateral_risk_weight(
    deps: &mut MockDeps,
    sender: &Addr,
    denom: &str,
    risk_weight_bps: u32,
) -> Result<Response, ContractError> {
    let msg = ExecuteMsg::SetCollateralRiskWeight {
        denom: denom.to_string(),
        risk_weight_bps,
    };
    run(deps, sender, msg)
}

fn query_collateral_balance(
    deps: &MockDeps,
    borrower: &str,
    denom: Option<&str>,
) -> CollateralBalanceResponse {
    let msg = QueryMsg::GetCollateralBalance {
        borrower: borrower.to_string(),
        denom: denom.map(|d| d.to_string()),
    };
    match ask(deps, msg) {
        QueryAnswer::CollateralBalance(resp) => resp,
        other => panic!("unexpected answer: {:?}", other),
    }
}

fn query_collateral_allowlist(deps: &MockDeps) -> CollateralAllowlistResponse {
    match ask(deps, QueryMsg::GetCollateralAllowlist {}) {
        QueryAnswer::CollateralAllowlist(resp) => resp,
        other => panic!("unexpected answer: {:?}", other),
    }
}

#[test]
fn admin_can_set_flat_config() {
    let mut deps = mock_dependencies();
    setup(&mut deps);
    let admin = creator(&deps);

    let config = LateFeeConfig::Flat(FlatFeeConfig { amount: 100 });
    set_late_fee_config(&mut deps, &admin, Some(config.clone())).unwrap();

    let stored = query_late_fee_config(&deps);
    assert_eq!(stored, Some(config));
}

#[test]
fn admin_can_set_apr_config() {
    let mut deps = mock_dependencies();
    setup(&mut deps);
    let admin = creator(&deps);

    let config = LateFeeConfig::AprBased(AprFeeConfig { surcharge_bps: 500 });
    set_late_fee_config(&mut deps, &admin, Some(config.clone())).unwrap();

    let stored = query_late_fee_config(&deps);
    assert_eq!(stored, Some(config));
}

#[test]
fn admin_can_clear_config() {
    let mut deps = mock_dependencies();
    setup(&mut deps);
    let admin = creator(&deps);

    let config = LateFeeConfig::Flat(FlatFeeConfig { amount: 50 });
    set_late_fee_config(&mut deps, &admin, Some(config)).unwrap();
    assert!(query_late_fee_config(&deps).is_some());

    set_late_fee_config(&mut deps, &admin, None).unwrap();
    assert!(query_late_fee_config(&deps).is_none());
}

#[test]
fn non_admin_cannot_set_config() {
    let mut deps = mock_dependencies();
    setup(&mut deps);
    let unauth = non_admin(&deps);

    let config = LateFeeConfig::Flat(FlatFeeConfig { amount: 100 });
    let err = set_late_fee_config(&mut deps, &unauth, Some(config)).unwrap_err();
    assert_eq!(err, ContractError::Unauthorized);
}

#[test]
fn zero_flat_amount_rejected() {
    let mut deps = mock_dependencies();
    setup(&mut deps);
    let admin = creator(&deps);

    let config = LateFeeConfig::Flat(FlatFeeConfig { amount: 0 });
    let err = set_late_fee_config(&mut deps, &admin, Some(config)).unwrap_err();
    assert_eq!(err, ContractError::InvalidAmount);
}

#[test]
fn apr_surcharge_exceeds_max_rejected() {
    let mut deps = mock_dependencies();
    setup(&mut deps);
    let admin = creator(&deps);

    let config = LateFeeConfig::AprBased(AprFeeConfig { surcharge_bps: 10_001 });
    let err = set_late_fee_config(&mut deps, &admin, Some(config)).unwrap_err();
    assert_eq!(err, ContractError::RateTooHigh);
}

#[test]
fn max_apr_surcharge_accepted() {
    let mut deps = mock_dependencies();
    setup(&mut deps);
    let admin = creator(&deps);

    let config = LateFeeConfig::AprBased(AprFeeConfig { surcharge_bps: 10_000 });
    set_late_fee_config(&mut deps, &admin, Some(config.clone())).unwrap();

    let stored = query_late_fee_config(&deps);
    assert_eq!(stored, Some(config));
}

#[test]
fn clearing_config_when_already_clear_is_noop() {
    let mut deps = mock_dependencies();
    setup(&mut deps);
    let admin = creator(&deps);

    assert!(query_late_fee_config(&deps).is_none());
    set_late_fee_config(&mut deps, &admin, None).unwrap();
    assert!(query_late_fee_config(&deps).is_none());
}

#[test]
fn set_response_has_correct_attributes() {
    let mut deps = mock_dependencies();
    setup(&mut deps);
    let admin = creator(&deps);

    let config = LateFeeConfig::Flat(FlatFeeConfig { amount: 200 });
    let resp = set_late_fee_config(&mut deps, &admin, Some(config)).unwrap();
    assert_eq!(resp.attributes[0].key, "action");
    assert_eq!(resp.attributes[0].value, "set_late_fee_config");
    assert_eq!(resp.attributes[1].key, "has_config");
    assert_eq!(resp.attributes[1].value, "true");

    let resp = set_late_fee_config(&mut deps, &admin, None).unwrap();
    assert_eq!(resp.attributes[1].value, "false");
}

#[test]
fn query_default_is_none() {
    let mut deps = mock_dependencies();
    setup(&mut deps);

    assert!(query_late_fee_config(&deps).is_none());
}

#[test]
fn flat_config_survives_set_overwrite() {
    let mut deps = mock_dependencies();
    setup(&mut deps);
    let admin = creator(&deps);

    let flat = LateFeeConfig::Flat(FlatFeeConfig { amount: 100 });
    let apr = LateFeeConfig::AprBased(AprFeeConfig { surcharge_bps: 200 });

    set_late_fee_config(&mut deps, &admin, Some(flat)).unwrap();
    set_late_fee_config(&mut deps, &admin, Some(apr.clone())).unwrap();

    let stored = query_late_fee_config(&deps);
    assert_eq!(stored, Some(apr));
}

#[test]
fn deposit_collateral_requires_admin() {
    let mut deps = mock_dependencies();
    setup(&mut deps);
    let unauth = non_admin(&deps);
    let err = deposit_collateral(&mut deps, &unauth, "borrower", "uusd", "100")
        .unwrap_err();
    assert_eq!(err, ContractError::Unauthorized);
}

#[test]
fn withdraw_collateral_requires_admin() {
    let mut deps = mock_dependencies();
    setup(&mut deps);
    let unauth = non_admin(&deps);
    let err = withdraw_collateral(&mut deps, &unauth, "borrower", "uusd", "100")
        .unwrap_err();
    assert_eq!(err, ContractError::Unauthorized);
}

#[test]
fn add_collateral_token_requires_admin() {
    let mut deps = mock_dependencies();
    setup(&mut deps);
    let unauth = non_admin(&deps);
    let err = add_collateral_token(&mut deps, &unauth, "uusd", 10_000).unwrap_err();
    assert_eq!(err, ContractError::Unauthorized);
}

#[test]
fn remove_collateral_token_requires_admin() {
    let mut deps = mock_dependencies();
    setup(&mut deps);
    let unauth = non_admin(&deps);
    let err = remove_collateral_token(&mut deps, &unauth, "uusd").unwrap_err();
    assert_eq!(err, ContractError::Unauthorized);
}

#[test]
fn set_collateral_risk_weight_requires_admin() {
    let mut deps = mock_dependencies();
    setup(&mut deps);
    let unauth = non_admin(&deps);
    let err =
        set_collateral_risk_weight(&mut deps, &unauth, "uusd", 5_000).unwrap_err();
    assert_eq!(err, ContractError::Unauthorized);
}

#[test]
fn deposit_and_query_balance() {
    let mut deps = mock_dependencies();
    setup(&mut deps);
    let admin = admin(&deps);
    let borrower_addr = borrower(&deps);
    let borrower_str = borrower_addr.to_string();

    add_collateral_token(&mut deps, &admin, "uusd", 10_000).unwrap();

    deposit_collateral(&mut deps, &admin, &borrower_str, "uusd", "500").unwrap();

    let resp = query_collateral_balance(&deps, &borrower_str, Some("uusd"));
    assert_eq!(resp.borrower, borrower_str);
    assert_eq!(resp.entries.len(), 1);
    assert_eq!(resp.entries[0].denom, "uusd");
    assert_eq!(resp.entries[0].amount, 500);
    assert_eq!(resp.entries[0].risk_weight_bps, 10_000);
    assert_eq!(resp.weighted_total, 500);
}

#[test]
fn deposit_multiple_tokens_and_query_all() {
    let mut deps = mock_dependencies();
    setup(&mut deps);
    let admin = admin(&deps);
    let borrower_str = borrower(&deps).to_string();

    add_collateral_token(&mut deps, &admin, "uusd", 10_000).unwrap();
    add_collateral_token(&mut deps, &admin, "uatom", 5_000).unwrap();

    deposit_collateral(&mut deps, &admin, &borrower_str, "uusd", "1000").unwrap();
    deposit_collateral(&mut deps, &admin, &borrower_str, "uatom", "200").unwrap();

    let resp = query_collateral_balance(&deps, &borrower_str, None);
    assert_eq!(resp.entries.len(), 2);
    // weighted: 1000*10000/10000 + 200*5000/10000 = 1000 + 100 = 1100
    assert_eq!(resp.weighted_total, 1100);
}

#[test]
fn withdraw_after_deposit() {
    let mut deps = mock_dependencies();
    setup(&mut deps);
    let admin = admin(&deps);
    let borrower_str = borrower(&deps).to_string();

    add_collateral_token(&mut deps, &admin, "uusd", 10_000).unwrap();
    deposit_collateral(&mut deps, &admin, &borrower_str, "uusd", "500").unwrap();
    withdraw_collateral(&mut deps, &admin, &borrower_str, "uusd", "200").unwrap();

    let resp = query_collateral_balance(&deps, &borrower_str, Some("uusd"));
    assert_eq!(resp.entries[0].amount, 300);
}

#[test]
fn insufficient_balance_on_withdraw() {
    let mut deps = mock_dependencies();
    setup(&mut deps);
    let admin = admin(&deps);
    let borrower_str = borrower(&deps).to_string();

    add_collateral_token(&mut deps, &admin, "uusd", 10_000).unwrap();
    deposit_collateral(&mut deps, &admin, &borrower_str, "uusd", "100").unwrap();

    let err =
        withdraw_collateral(&mut deps, &admin, &borrower_str, "uusd", "200").unwrap_err();
    assert_eq!(err, ContractError::InsufficientCollateralBalance);
}

#[test]
fn invalid_amount_on_zero_deposit() {
    let mut deps = mock_dependencies();
    setup(&mut deps);
    let admin = admin(&deps);
    let borrower_str = borrower(&deps).to_string();

    add_collateral_token(&mut deps, &admin, "uusd", 10_000).unwrap();
    let err =
        deposit_collateral(&mut deps, &admin, &borrower_str, "uusd", "0").unwrap_err();
    assert_eq!(err, ContractError::InvalidAmount);
}

#[test]
fn add_and_remove_token() {
    let mut deps = mock_dependencies();
    setup(&mut deps);
    let admin = admin(&deps);

    add_collateral_token(&mut deps, &admin, "uusd", 10_000).unwrap();

    let list = query_collateral_allowlist(&deps);
    assert!(list.denoms.contains(&"uusd".to_string()));

    remove_collateral_token(&mut deps, &admin, "uusd").unwrap();

    let list2 = query_collateral_allowlist(&deps);
    assert!(!list2.denoms.contains(&"uusd".to_string()));
}

#[test]
fn deposit_rejected_for_unlisted_token() {
    let mut deps = mock_dependencies();
    setup(&mut deps);
    let admin = admin(&deps);
    let borrower_str = borrower(&deps).to_string();

    let err =
        deposit_collateral(&mut deps, &admin, &borrower_str, "uusd", "100").unwrap_err();
    assert_eq!(err, ContractError::CollateralTokenNotAllowed);
}

#[test]
fn deposit_zero_amount_rejected() {
    let mut deps = mock_dependencies();
    setup(&mut deps);
    let admin = admin(&deps);
    let borrower_str = borrower(&deps).to_string();

    add_collateral_token(&mut deps, &admin, "uusd", 10_000).unwrap();
    let err =
        deposit_collateral(&mut deps, &admin, &borrower_str, "uusd", "0").unwrap_err();
    assert_eq!(err, ContractError::InvalidAmount);
}

#[test]
fn withdraw_zero_amount_rejected() {
    let mut deps = mock_dependencies();
    setup(&mut deps);
    let admin = admin(&deps);
    let borrower_str = borrower(&deps).to_string();

    add_collateral_token(&mut deps, &admin, "uusd", 10_000).unwrap();
    deposit_collateral(&mut deps, &admin, &borrower_str, "uusd", "100").unwrap();
    let err =
        withdraw_collateral(&mut deps, &admin, &borrower_str, "uusd", "0").unwrap_err();
    assert_eq!(err, ContractError::InvalidAmount);
}

#[test]
fn add_existing_token_rejected() {
    let mut deps = mock_dependencies();
    setup(&mut deps);
    let admin = admin(&deps);

    add_collateral_token(&mut deps, &admin, "uusd", 10_000).unwrap();
    let err = add_collateral_token(&mut deps, &admin, "uusd", 10_000).unwrap_err();
    assert_eq!(err, ContractError::AlreadySettled);
}

#[test]
fn remove_unlisted_token_rejected() {
    let mut deps = mock_dependencies();
    setup(&mut deps);
    let admin = admin(&deps);

    let err = remove_collateral_token(&mut deps, &admin, "uusd").unwrap_err();
    assert_eq!(err, ContractError::CollateralTokenNotAllowed);
}

#[test]
fn risk_weight_exceeds_max_rejected() {
    let mut deps = mock_dependencies();
    setup(&mut deps);
    let admin = admin(&deps);

    let err = add_collateral_token(&mut deps, &admin, "uusd", 10_001).unwrap_err();
    assert_eq!(err, ContractError::InvalidAmount);
}

#[test]
fn borrower_collateral_independent_from_credit_line() {
    let mut deps = mock_dependencies();
    setup(&mut deps);
    let admin = admin(&deps);
    let borrower_str = borrower(&deps).to_string();

    add_collateral_token(&mut deps, &admin, "uusd", 10_000).unwrap();
    deposit_collateral(&mut deps, &admin, &borrower_str, "uusd", "300").unwrap();

    // No credit lines exist, but collateral should still be queryable
    let resp = query_collateral_balance(&deps, &borrower_str, Some("uusd"));
    assert_eq!(resp.entries.len(), 1);
    assert_eq!(resp.entries[0].amount, 300);
}

#[test]
fn multiple_borrowers_independent_collateral() {
    let mut deps = mock_dependencies();
    setup(&mut deps);
    let admin = admin(&deps);
    let b1 = deps.api.addr_make("borrower1").to_string();
    let b2 = deps.api.addr_make("borrower2").to_string();

    add_collateral_token(&mut deps, &admin, "uusd", 10_000).unwrap();
    deposit_collateral(&mut deps, &admin, &b1, "uusd", "500").unwrap();
    deposit_collateral(&mut deps, &admin, &b2, "uusd", "300").unwrap();

    let r1 = query_collateral_balance(&deps, &b1, Some("uusd"));
    assert_eq!(r1.entries[0].amount, 500);

    let r2 = query_collateral_balance(&deps, &b2, Some("uusd"));
    assert_eq!(r2.entries[0].amount, 300);
}
