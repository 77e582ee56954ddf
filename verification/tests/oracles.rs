//! Oracle configuration and prices, late fees, and the protocol version.
use cosmwasm_std::testing::{mock_dependencies, MockApi, MockQuerier, MockStorage};
use cosmwasm_std::{Addr, OwnedDeps, StdError};
use creditra_credit::chain::{BlockInfo, Env, MessageInfo, Response};
use creditra_credit::contract::{
    execute, execute_set_late_fee_config, execute_set_oracle_quorum_config,
    execute_submit_oracle_prices, execute_update_protocol_version, instantiate, oracle_submission,
    query, Delegated, QueryAnswer,
};
use creditra_credit::error::StdFailure;
use creditra_credit::msg::{
    ExecuteMsg, InstantiateMsg, LateFeeConfigResponse, OraclePriceResponse,
    OracleQuorumConfigResponse, QueryMsg,
};
use creditra_credit::penalties::{
    validate_late_fee_config, AprFeeConfig, FlatFeeConfig, LateFeeConfig,
};
use creditra_credit::state::{
    OracleQuorumConfig, Timestamp, LATE_FEE_CONFIG, MAX_ORACLE_FEEDS, ORACLE_PRICE_RECORD,
    ORACLE_QUORUM_CONFIG,
};
use creditra_credit::store::{Deps, DepsMut};
use creditra_credit::ContractError;

type MockDeps = OwnedDeps<MockStorage, MockApi, MockQuerier>;

fn env() -> Env {
    Env {
        block: BlockInfo {
            height: 1,
            time: Timestamp {
                nanos: 12_999_999_999,
            },
        },
    }
}

fn info(sender: &Addr) -> MessageInfo {
    MessageInfo {
        sender: sender.to_string(),
    }
}

fn owner(deps: &MockDeps) -> Addr {
    deps.api.addr_make("owner")
}

fn set_up() -> MockDeps {
    let mut deps = mock_dependencies();
    let owner = owner(&deps);
    let msg = InstantiateMsg {
        owner: owner.to_string(),
    };
    instantiate(&mut DepsMut(deps.as_mut()), env(), info(&owner), msg, Ok(())).unwrap();
    deps
}

fn configure(
    deps: &mut MockDeps,
    sender: &Addr,
    k: u32,
    deviation: u32,
    age: u64,
) -> Result<Response, ContractError> {
    execute_set_oracle_quorum_config(
        &mut DepsMut(deps.as_mut()),
        info(sender),
        k,
        deviation,
        age,
    )
}

fn submit(
    deps: &mut MockDeps,
    sender: &Addr,
    prices: Vec<i128>,
    resolved: Result<i128, ContractError>,
) -> Result<Response, ContractError> {
    execute_submit_oracle_prices(
        &mut DepsMut(deps.as_mut()),
        env(),
        info(sender),
        prices,
        resolved,
    )
}

fn ask(deps: &MockDeps, msg: QueryMsg) -> Result<QueryAnswer, ContractError> {
    query(&Deps(deps.as_ref()), env(), msg)
}

/// Puts bytes under a key that are no JSON.
fn garble(deps: &mut MockDeps, key: &str) {
    deps.as_mut().storage.set(key.as_bytes(), b"not json");
}

fn stored_bytes(deps: &MockDeps, key: &str) -> String {
    String::from_utf8(deps.as_ref().storage.get(key.as_bytes()).unwrap()).unwrap()
}

fn pairs(response: &Response) -> Vec<(&str, &str)> {
    response
        .attributes
        .iter()
        .map(|a| (a.key.as_str(), a.value.as_str()))
        .collect()
}

#[test]
fn the_quorum_configuration_is_read_back() {
    let mut deps = set_up();
    let owner = owner(&deps);
    assert_eq!(
        ask(&deps, QueryMsg::GetOracleQuorumConfig {}).unwrap(),
        QueryAnswer::OracleQuorumConfig(OracleQuorumConfigResponse { config: None })
    );
    let resp = configure(&mut deps, &owner, 3, 500, 60).unwrap();
    assert_eq!(
        pairs(&resp),
        vec![
            ("action", "set_oracle_quorum_config"),
            ("min_quorum_k", "3"),
            ("max_deviation_bps", "500"),
            ("max_age_seconds", "60"),
        ]
    );
    let config = OracleQuorumConfig {
        min_quorum_k: 3,
        max_deviation_bps: 500,
        max_age_seconds: 60,
    };
    assert_eq!(
        ask(&deps, QueryMsg::GetOracleQuorumConfig {}).unwrap(),
        QueryAnswer::OracleQuorumConfig(OracleQuorumConfigResponse {
            config: Some(config)
        })
    );
    assert_eq!(
        stored_bytes(&deps, ORACLE_QUORUM_CONFIG),
        "{\"min_quorum_k\":3,\"max_deviation_bps\":500,\"max_age_seconds\":60}"
    );
}

#[test]
fn the_quorum_configuration_has_bounds() {
    let mut deps = set_up();
    let owner = owner(&deps);
    let other = deps.api.addr_make("other");
    assert_eq!(
        configure(&mut deps, &other, 2, 0, 1).unwrap_err(),
        ContractError::Unauthorized
    );
    for (k, deviation, age) in [(1, 0, 1), (0, 0, 1), (2, 10_001, 1), (2, 0, 0)] {
        assert_eq!(
            configure(&mut deps, &owner, k, deviation, age).unwrap_err(),
            ContractError::InvalidAmount
        );
    }
    configure(&mut deps, &owner, 2, 10_000, 1).unwrap();
    configure(&mut deps, &owner, u32::MAX, 0, u64::MAX).unwrap();
}

#[test]
fn a_resolved_price_is_read_back() {
    let mut deps = set_up();
    let owner = owner(&deps);
    assert_eq!(
        ask(&deps, QueryMsg::GetOraclePrice {}).unwrap(),
        QueryAnswer::OraclePrice(OraclePriceResponse {
            price: None,
            timestamp: None
        })
    );
    configure(&mut deps, &owner, 2, 500, 60).unwrap();
    for price in [0, -17, i128::MIN, i128::MAX] {
        let resp = submit(&mut deps, &owner, vec![price, price], Ok(price)).unwrap();
        assert_eq!(
            pairs(&resp),
            vec![
                ("action", "submit_oracle_prices"),
                ("canonical_price", price.to_string().as_str()),
                ("min_quorum_k", "2"),
                ("timestamp", "12"),
            ]
        );
        assert_eq!(
            ask(&deps, QueryMsg::GetOraclePrice {}).unwrap(),
            QueryAnswer::OraclePrice(OraclePriceResponse {
                price: Some(price),
                timestamp: Some(12)
            })
        );
        assert_eq!(
            stored_bytes(&deps, ORACLE_PRICE_RECORD),
            format!("{{\"price\":{},\"timestamp\":12}}", price)
        );
    }
}

#[test]
fn price_submissions_are_refused_in_this_order() {
    let mut deps = set_up();
    let owner = owner(&deps);
    let other = deps.api.addr_make("other");
    let err = submit(&mut deps, &other, vec![1], Ok(1)).unwrap_err();
    assert_eq!(err, ContractError::Unauthorized);
    let err = submit(&mut deps, &owner, vec![1], Ok(1)).unwrap_err();
    assert_eq!(err, ContractError::OraclePriceInvalid);

    configure(&mut deps, &owner, 2, 500, 60).unwrap();
    let err = submit(&mut deps, &owner, vec![1; MAX_ORACLE_FEEDS + 1], Ok(1)).unwrap_err();
    assert_eq!(err, ContractError::OraclePriceInvalid);
    let err = submit(&mut deps, &owner, vec![1], Err(ContractError::RateTooHigh)).unwrap_err();
    assert_eq!(err, ContractError::RateTooHigh);
    assert!(deps.as_ref().storage.get(ORACLE_PRICE_RECORD.as_bytes()).is_none());

    submit(&mut deps, &owner, vec![1; MAX_ORACLE_FEEDS], Ok(1)).unwrap();
}

#[test]
fn a_submission_is_told_its_configuration() {
    let mut deps = set_up();
    let owner = owner(&deps);
    let other = deps.api.addr_make("other");
    configure(&mut deps, &owner, 2, 500, 60).unwrap();
    let config = oracle_submission(&Deps(deps.as_ref()), &info(&owner), &vec![1, 2]).unwrap();
    assert_eq!(config.min_quorum_k, 2);
    let err = oracle_submission(&Deps(deps.as_ref()), &info(&other), &vec![]).unwrap_err();
    assert_eq!(err, ContractError::Unauthorized);
}

#[test]
fn requests_use_the_delegated_answers() {
    let mut deps = set_up();
    let owner = owner(&deps);
    configure(&mut deps, &owner, 2, 500, 60).unwrap();
    let delegated = Delegated {
        quorum_price: Ok(5),
        version_recorded: Err(ContractError::Overflow),
    };
    let msg = ExecuteMsg::SubmitOraclePrices { prices: vec![5] };
    let resp = execute(&mut DepsMut(deps.as_mut()), env(), info(&owner), msg, delegated).unwrap();
    assert_eq!(resp.attributes[1].value, "5");

    let delegated = Delegated {
        quorum_price: Ok(5),
        version_recorded: Err(ContractError::Overflow),
    };
    let msg = ExecuteMsg::UpdateProtocolVersion { major: 1, minor: 2 };
    let err =
        execute(&mut DepsMut(deps.as_mut()), env(), info(&owner), msg, delegated).unwrap_err();
    assert_eq!(err, ContractError::Overflow);
}

#[test]
fn the_protocol_version_is_for_the_owner() {
    let mut deps = set_up();
    let owner = owner(&deps);
    let other = deps.api.addr_make("other");
    let resp =
        execute_update_protocol_version(&mut DepsMut(deps.as_mut()), info(&owner), 3, 14, Ok(()))
            .unwrap();
    assert_eq!(
        pairs(&resp),
        vec![("action", "update_protocol_version"), ("major", "3"), ("minor", "14")]
    );
    let err = execute_update_protocol_version(
        &mut DepsMut(deps.as_mut()),
        info(&other),
        3,
        14,
        Err(ContractError::Overflow),
    )
    .unwrap_err();
    assert_eq!(err, ContractError::Unauthorized);
}

#[test]
fn late_fees_are_stored_apart() {
    let mut deps = set_up();
    let owner = owner(&deps);
    let flat = LateFeeConfig::Flat(FlatFeeConfig { amount: u128::MAX });
    let apr = LateFeeConfig::AprBased(AprFeeConfig { surcharge_bps: 0 });
    let largest = format!("{{\"flat\":{{\"amount\":\"{}\"}}}}", u128::MAX);
    let none = "{\"apr_based\":{\"surcharge_bps\":0}}".to_string();
    for (config, stored) in [(flat, largest), (apr, none)] {
        validate_late_fee_config(&config).unwrap();
        execute_set_late_fee_config(&mut DepsMut(deps.as_mut()), info(&owner), Some(config))
            .unwrap();
        assert_eq!(
            ask(&deps, QueryMsg::GetLateFeeConfig {}).unwrap(),
            QueryAnswer::LateFeeConfig(LateFeeConfigResponse {
                config: Some(config)
            })
        );
        assert_eq!(stored_bytes(&deps, LATE_FEE_CONFIG), stored);
    }
}

#[test]
fn objects_of_another_shape_do_not_decode() {
    let mut deps = set_up();
    let shapes = [
        (LATE_FEE_CONFIG, "{}"),
        (LATE_FEE_CONFIG, "{\"flat\":{}}"),
        (LATE_FEE_CONFIG, "{\"flat\":{\"amount\":5}}"),
        (LATE_FEE_CONFIG, "{\"apr_based\":{\"surcharge_bps\":4294967296}}"),
        (
            LATE_FEE_CONFIG,
            "{\"flat\":{\"amount\":\"5\"},\"apr_based\":{\"surcharge_bps\":5}}",
        ),
        (LATE_FEE_CONFIG, "{\"flat\":{\"amount\":\"5\"},\"note\":1}"),
        (LATE_FEE_CONFIG, "{\"tiered\":{\"amount\":\"5\"}}"),
        (LATE_FEE_CONFIG, "\"flat\""),
        (ORACLE_PRICE_RECORD, "{\"price\":1}"),
        (ORACLE_PRICE_RECORD, "{\"timestamp\":1}"),
        (ORACLE_PRICE_RECORD, "{\"price\":1,\"timestamp\":-1}"),
        (
            ORACLE_QUORUM_CONFIG,
            "{\"min_quorum_k\":4294967296,\"max_deviation_bps\":1,\"max_age_seconds\":1}",
        ),
    ];
    for (key, json) in shapes {
        deps.as_mut().storage.set(key.as_bytes(), json.as_bytes());
        let msg = match key {
            LATE_FEE_CONFIG => QueryMsg::GetLateFeeConfig {},
            ORACLE_PRICE_RECORD => QueryMsg::GetOraclePrice {},
            _ => QueryMsg::GetOracleQuorumConfig {},
        };
        let err = ask(&deps, msg).unwrap_err();
        assert!(matches!(err, ContractError::Std(StdFailure::Backend(_))));
    }
}

#[test]
fn other_members_are_passed_over() {
    let mut deps = set_up();
    let price = format!(
        "{{\"note\":\"x\",\"timestamp\":7,\"ratio\":1.5,\"price\":{}}}",
        i128::MIN
    );
    let fee = "{\"flat\":{\"note\":[1],\"amount\":\"5\"}}";
    let storage = deps.as_mut().storage;
    storage.set(ORACLE_PRICE_RECORD.as_bytes(), price.as_bytes());
    storage.set(LATE_FEE_CONFIG.as_bytes(), fee.as_bytes());
    assert_eq!(
        ask(&deps, QueryMsg::GetOraclePrice {}).unwrap(),
        QueryAnswer::OraclePrice(OraclePriceResponse {
            price: Some(i128::MIN),
            timestamp: Some(7)
        })
    );
    assert_eq!(
        ask(&deps, QueryMsg::GetLateFeeConfig {}).unwrap(),
        QueryAnswer::LateFeeConfig(LateFeeConfigResponse {
            config: Some(LateFeeConfig::Flat(FlatFeeConfig { amount: 5 }))
        })
    );
}

#[test]
fn a_missing_owner_is_reported_with_its_key() {
    let mut deps = set_up();
    let owner = owner(&deps);
    deps.as_mut().storage.remove(b"config");
    let err = configure(&mut deps, &owner, 2, 0, 1).unwrap_err();
    let reported =
        StdError::not_found("type: creditra_credit::state::Config; key: [63, 6F, 6E, 66, 69, 67]");
    assert_eq!(err, ContractError::Std(StdFailure::Backend(reported)));
}

#[test]
fn errors_from_outside_come_back_unchanged() {
    let mut deps = set_up();
    let owner = owner(&deps);
    configure(&mut deps, &owner, 2, 500, 60).unwrap();
    let reported = || ContractError::Std(StdFailure::Backend(StdError::generic_err("feed down")));
    let err = submit(&mut deps, &owner, vec![1], Err(reported())).unwrap_err();
    assert_eq!(err, reported());
    let err = execute_update_protocol_version(
        &mut DepsMut(deps.as_mut()),
        info(&owner),
        1,
        0,
        Err(reported()),
    )
    .unwrap_err();
    assert_eq!(err, reported());
}

#[test]
fn entries_that_do_not_decode_are_reported() {
    let mut deps = set_up();
    let owner = owner(&deps);
    for key in [ORACLE_QUORUM_CONFIG, ORACLE_PRICE_RECORD, LATE_FEE_CONFIG] {
        garble(&mut deps, key);
    }
    for msg in [
        QueryMsg::GetOracleQuorumConfig {},
        QueryMsg::GetOraclePrice {},
        QueryMsg::GetLateFeeConfig {},
    ] {
        let err = ask(&deps, msg).unwrap_err();
        assert!(matches!(err, ContractError::Std(StdFailure::Backend(_))));
    }
    let err = submit(&mut deps, &owner, vec![1], Ok(1)).unwrap_err();
    assert!(matches!(err, ContractError::Std(StdFailure::Backend(_))));
    configure(&mut deps, &owner, 2, 0, 1).unwrap();
    assert!(ask(&deps, QueryMsg::GetOracleQuorumConfig {}).is_ok());
}

#[test]
fn reports_are_handed_back() {
    let deps = set_up();
    for msg in [
        QueryMsg::DrawAuditTrail {
            credit_line_id: 1,
            draw_id: None,
        },
        QueryMsg::ProofOfReserve {
            denom: Some("uusd".to_string()),
        },
        QueryMsg::BorrowerHealthFactor {
            borrower: "b".to_string(),
        },
    ] {
        assert_eq!(ask(&deps, msg.clone()).unwrap(), QueryAnswer::Report(msg));
    }
}
