//! What holds of the contract as a whole, on concrete values.
use cosmwasm_std::testing::{mock_dependencies, MockApi, MockQuerier, MockStorage};
use cosmwasm_std::{Addr, Order, OwnedDeps, Uint128};
use creditra_credit::chain::{BlockInfo, Env, MessageInfo, Response};
use creditra_credit::collateral::{
    add_collateral_token, collateral_risk_weight_bps, deposit_collateral,
    query_borrower_collateral, query_collateral_allowlist, query_collateral_balance,
    remove_collateral_token, set_collateral_risk_weight, weighted_collateral_total,
    withdraw_collateral,
};
use creditra_credit::contract::{execute, instantiate, Delegated};
use creditra_credit::fees::{
    accrue_protocol_fee, split_protocol_fee, withdraw_bounty, withdraw_treasury, PROTOCOL_FEE_BPS,
};
use creditra_credit::msg::{ExecuteMsg, InstantiateMsg};
use creditra_credit::state::{
    Timestamp, BOUNTY_BALANCE, MARKET_FEE_SHARE_BPS, TREASURY_BALANCE,
};
use creditra_credit::store::{Deps, DepsMut};
use creditra_credit::ContractError;
use cw_storage_plus::{Item, Map as StorageMap};

type MockDeps = OwnedDeps<MockStorage, MockApi, MockQuerier>;

fn env() -> Env {
    Env {
        block: BlockInfo {
            height: 9,
            time: Timestamp { nanos: 1 },
        },
    }
}

fn info(sender: &Addr) -> MessageInfo {
    MessageInfo {
        sender: sender.to_string(),
    }
}

fn set_up() -> (MockDeps, Addr) {
    let mut deps = mock_dependencies();
    let owner = deps.api.addr_make("owner");
    let msg = InstantiateMsg {
        owner: owner.to_string(),
    };
    instantiate(&mut DepsMut(deps.as_mut()), env(), info(&owner), msg, Ok(())).unwrap();
    (deps, owner)
}

fn run(deps: &mut MockDeps, sender: &Addr, msg: ExecuteMsg) -> Result<Response, ContractError> {
    let delegated = Delegated {
        quorum_price: Ok(1),
        version_recorded: Ok(()),
    };
    execute(&mut DepsMut(deps.as_mut()), env(), info(sender), msg, delegated)
}

/// Everything in the store.
fn dump(deps: &MockDeps) -> Vec<(Vec<u8>, Vec<u8>)> {
    deps.as_ref()
        .storage
        .range(None, None, Order::Ascending)
        .collect()
}

fn pools(deps: &MockDeps, denom: &str) -> (u128, u128) {
    let read = |pool: &'static str| {
        StorageMap::<&str, Uint128>::new(pool)
            .may_load(deps.as_ref().storage, denom)
            .unwrap()
            .map(|balance| balance.u128())
            .unwrap_or(0)
    };
    (read(TREASURY_BALANCE), read(BOUNTY_BALANCE))
}

fn set_share(deps: &mut MockDeps, denom: &str, bps: u32) {
    StorageMap::<&str, u32>::new(MARKET_FEE_SHARE_BPS)
        .save(deps.as_mut().storage, denom, &bps)
        .unwrap();
}

/// One request of each kind.
fn requests(borrower: &Addr) -> Vec<ExecuteMsg> {
    let borrower = borrower.to_string();
    vec![
        ExecuteMsg::CreateCreditLine {
            borrower: borrower.clone(),
            collateral_denom: "c".to_string(),
            collateral_amount: "1".to_string(),
            credit_denom: "d".to_string(),
            credit_amount: "1".to_string(),
        },
        ExecuteMsg::AddAuditMemo {
            credit_line_id: 0,
            draw_id: 0,
            memo: "m".to_string(),
        },
        ExecuteMsg::UpdateProtocolVersion { major: 1, minor: 1 },
        ExecuteMsg::SetOracleQuorumConfig {
            min_quorum_k: 2,
            max_deviation_bps: 1,
            max_age_seconds: 1,
        },
        ExecuteMsg::SubmitOraclePrices { prices: vec![1] },
        ExecuteMsg::SetLateFeeConfig { config: None },
        ExecuteMsg::DepositCollateral {
            borrower: borrower.clone(),
            denom: "uusd".to_string(),
            amount: "1".to_string(),
        },
        ExecuteMsg::WithdrawCollateral {
            borrower,
            denom: "uusd".to_string(),
            amount: "1".to_string(),
        },
        ExecuteMsg::AddCollateralToken {
            denom: "t".to_string(),
            risk_weight_bps: 1,
        },
        ExecuteMsg::RemoveCollateralToken {
            denom: "uusd".to_string(),
        },
        ExecuteMsg::SetCollateralRiskWeight {
            denom: "uusd".to_string(),
            risk_weight_bps: 1,
        },
    ]
}

#[test]
fn splits_lose_nothing() {
    for total in [0, 1, 2, 9, 10, 101, 9_999, 10_000, 10_001, u128::MAX / 10_000] {
        for bps in [0, 1, 3_333, 5_000, 9_999, 10_000] {
            let parts = split_protocol_fee(total, bps).unwrap();
            assert_eq!(parts.treasury_amount + parts.bounty_amount, total);
            assert_eq!(parts.treasury_amount, total * bps as u128 / 10_000);
        }
    }
}

#[test]
fn accruals_credit_the_fee_and_can_be_withdrawn() {
    let (mut deps, owner) = set_up();
    set_share(&mut deps, "a", 3_333);
    accrue_protocol_fee(&mut DepsMut(deps.as_mut()), "b", 77).unwrap();
    accrue_protocol_fee(&mut DepsMut(deps.as_mut()), "a", 100).unwrap();
    assert_eq!(pools(&deps, "a"), (33, 67));
    let parts = accrue_protocol_fee(&mut DepsMut(deps.as_mut()), "a", 10).unwrap();
    assert_eq!((parts.treasury_amount, parts.bounty_amount), (3, 7));
    assert_eq!(pools(&deps, "a"), (36, 74));
    assert_eq!(pools(&deps, "b"), (77, 0));

    withdraw_treasury(&mut DepsMut(deps.as_mut()), owner.as_str(), "a", 3).unwrap();
    withdraw_bounty(&mut DepsMut(deps.as_mut()), owner.as_str(), "a", 7).unwrap();
    assert_eq!(pools(&deps, "a"), (33, 67));
    assert_eq!(pools(&deps, "b"), (77, 0));
}

#[test]
fn a_withdrawal_undoes_a_deposit() {
    let (mut deps, _) = set_up();
    for denom in ["uusd", "uatom"] {
        add_collateral_token(&mut DepsMut(deps.as_mut()), denom, 10_000).unwrap();
    }
    deposit_collateral(&mut DepsMut(deps.as_mut()), "alice", "uatom", 5).unwrap();
    deposit_collateral(&mut DepsMut(deps.as_mut()), "bob", "uusd", 6).unwrap();
    let before = dump(&deps);
    for denom in ["uusd", "uatom"] {
        deposit_collateral(&mut DepsMut(deps.as_mut()), "alice", denom, 9).unwrap();
        withdraw_collateral(&mut DepsMut(deps.as_mut()), "alice", denom, 9).unwrap();
        assert_eq!(dump(&deps), before);
    }
}

#[test]
fn two_deposits_come_to_one() {
    let (mut once, _) = set_up();
    let (mut twice, _) = set_up();
    for deps in [&mut once, &mut twice] {
        add_collateral_token(&mut DepsMut(deps.as_mut()), "uusd", 5_000).unwrap();
    }
    deposit_collateral(&mut DepsMut(once.as_mut()), "alice", "uusd", 30).unwrap();
    deposit_collateral(&mut DepsMut(twice.as_mut()), "alice", "uusd", 10).unwrap();
    deposit_collateral(&mut DepsMut(twice.as_mut()), "alice", "uusd", 20).unwrap();
    assert_eq!(dump(&once), dump(&twice));
}

#[test]
fn holdings_match_the_balances() {
    let (mut deps, _) = set_up();
    for denom in ["c", "a", "b"] {
        add_collateral_token(&mut DepsMut(deps.as_mut()), denom, 10_000).unwrap();
    }
    let steps = [("c", 4, true), ("a", 2, true), ("b", 9, true), ("a", 2, false), ("c", 1, false)];
    for (denom, amount, is_deposit) in steps {
        let mut store = DepsMut(deps.as_mut());
        if is_deposit {
            deposit_collateral(&mut store, "alice", denom, amount).unwrap();
        } else {
            withdraw_collateral(&mut store, "alice", denom, amount).unwrap();
        }
    }
    let held = query_borrower_collateral(&Deps(deps.as_ref()), "alice");
    assert_eq!(held, vec![("b".to_string(), 9), ("c".to_string(), 3)]);
    assert_eq!(query_collateral_balance(&Deps(deps.as_ref()), "alice", "a"), 0);
}

#[test]
fn removing_undoes_adding_and_keeps_deposits() {
    let (mut deps, _) = set_up();
    add_collateral_token(&mut DepsMut(deps.as_mut()), "uusd", 10_000).unwrap();
    let before = dump(&deps);
    add_collateral_token(&mut DepsMut(deps.as_mut()), "uatom", 7_500).unwrap();
    assert_eq!(collateral_risk_weight_bps(&Deps(deps.as_ref()), "uatom"), 7_500);
    remove_collateral_token(&mut DepsMut(deps.as_mut()), "uatom").unwrap();
    assert_eq!(dump(&deps), before);

    deposit_collateral(&mut DepsMut(deps.as_mut()), "alice", "uusd", 8).unwrap();
    remove_collateral_token(&mut DepsMut(deps.as_mut()), "uusd").unwrap();
    let err =
        deposit_collateral(&mut DepsMut(deps.as_mut()), "alice", "uusd", 8).unwrap_err();
    assert_eq!(err, ContractError::CollateralTokenNotAllowed);
    withdraw_collateral(&mut DepsMut(deps.as_mut()), "alice", "uusd", 8).unwrap();
    assert!(query_collateral_allowlist(&Deps(deps.as_ref())).is_empty());
}

#[test]
fn risk_weights_never_add_value() {
    let (mut deps, _) = set_up();
    for (denom, weight) in [("a", 0), ("b", 1), ("c", 9_999), ("d", 10_000)] {
        add_collateral_token(&mut DepsMut(deps.as_mut()), denom, weight).unwrap();
        deposit_collateral(&mut DepsMut(deps.as_mut()), "alice", denom, 10_001).unwrap();
    }
    let total = weighted_collateral_total(&Deps(deps.as_ref()), "alice").unwrap();
    assert_eq!(total, 1 + 9_999 + 10_001);
    for denom in ["a", "b", "c"] {
        set_collateral_risk_weight(&mut DepsMut(deps.as_mut()), denom, 10_000).unwrap();
    }
    let total = weighted_collateral_total(&Deps(deps.as_ref()), "alice").unwrap();
    assert_eq!(total, 4 * 10_001);
}

#[test]
fn strangers_change_nothing() {
    let (mut deps, owner) = set_up();
    let stranger = deps.api.addr_make("stranger");
    let borrower = deps.api.addr_make("borrower");
    let token = ExecuteMsg::AddCollateralToken {
        denom: "uusd".to_string(),
        risk_weight_bps: 10_000,
    };
    run(&mut deps, &owner, token).unwrap();
    run(&mut deps, &owner, requests(&borrower).remove(0)).unwrap();
    let draw = ExecuteMsg::CreateDraw {
        credit_line_id: 0,
        amount: "3".to_string(),
        denom: "d".to_string(),
    };
    run(&mut deps, &borrower, draw.clone()).unwrap();
    let before = dump(&deps);
    let mut refused = requests(&borrower);
    refused.push(draw);
    refused.push(ExecuteMsg::RepayDraw {
        credit_line_id: 0,
        draw_id: 0,
    });
    for msg in refused {
        assert_eq!(run(&mut deps, &stranger, msg).unwrap_err(), ContractError::Unauthorized);
        assert_eq!(dump(&deps), before);
    }
}

#[test]
fn refusals_change_nothing() {
    let (mut deps, owner) = set_up();
    let before = dump(&deps);
    for msg in [
        ExecuteMsg::AddAuditMemo {
            credit_line_id: 0,
            draw_id: 0,
            memo: String::new(),
        },
        ExecuteMsg::SubmitOraclePrices { prices: vec![] },
        ExecuteMsg::DepositCollateral {
            borrower: owner.to_string(),
            denom: "x".to_string(),
            amount: "1".to_string(),
        },
        ExecuteMsg::WithdrawCollateral {
            borrower: owner.to_string(),
            denom: "x".to_string(),
            amount: "1".to_string(),
        },
        ExecuteMsg::RemoveCollateralToken {
            denom: "x".to_string(),
        },
    ] {
        assert!(run(&mut deps, &owner, msg).is_err());
        assert_eq!(dump(&deps), before);
    }
}

#[test]
fn records_are_kept_and_repayments_credit_the_fee() {
    let (mut deps, owner) = set_up();
    let borrower = deps.api.addr_make("borrower");
    Item::<u32>::new(PROTOCOL_FEE_BPS)
        .save(deps.as_mut().storage, &1_000)
        .unwrap();
    set_share(&mut deps, "d", 2_500);
    run(&mut deps, &owner, requests(&borrower).remove(0)).unwrap();
    for amount in ["105", "7"] {
        let draw = ExecuteMsg::CreateDraw {
            credit_line_id: 0,
            amount: amount.to_string(),
            denom: "d".to_string(),
        };
        run(&mut deps, &borrower, draw).unwrap();
    }
    let before = dump(&deps);
    let repay = ExecuteMsg::RepayDraw {
        credit_line_id: 0,
        draw_id: 0,
    };
    run(&mut deps, &borrower, repay.clone()).unwrap();
    assert_eq!(pools(&deps, "d"), (2, 8));
    let after = dump(&deps);
    let changed = before.iter().filter(|entry| !after.contains(entry)).count();
    // The draw and the number of its audit entries.
    assert_eq!(changed, 2);
    // One audit entry and two pools.
    assert_eq!(after.len(), before.len() + 3);

    run(&mut deps, &borrower, repay).unwrap();
    assert_eq!(pools(&deps, "d"), (4, 16));
}

#[test]
fn collateral_and_records_do_not_touch() {
    let (mut deps, owner) = set_up();
    let borrower = deps.api.addr_make("borrower");
    run(
        &mut deps,
        &owner,
        ExecuteMsg::AddCollateralToken {
            denom: "uusd".to_string(),
            risk_weight_bps: 10_000,
        },
    )
    .unwrap();
    run(&mut deps, &owner, requests(&borrower).remove(0)).unwrap();
    let before = dump(&deps);
    for msg in requests(&borrower).drain(6..8) {
        run(&mut deps, &owner, msg).unwrap();
    }
    let after = dump(&deps);
    // Only the list of the borrower's tokens, now empty, was not there before.
    assert!(before.iter().all(|entry| after.contains(entry)));
    assert_eq!(after.len(), before.len() + 1);
}
