//! Credit lines, draws, repayments and audit trails.
use cosmwasm_std::testing::{mock_dependencies, mock_env, MockApi, MockQuerier, MockStorage};
use cosmwasm_std::{Addr, Api, OwnedDeps, StdError, Uint128};
use creditra_credit::chain::{BlockInfo, Env, MessageInfo, Response};
use creditra_credit::contract::{
    execute_add_audit_memo, execute_create_credit_line, execute_create_draw, execute_repay_draw,
    instantiate, migrate, Delegated,
};
use creditra_credit::error::StdFailure;
use creditra_credit::fees::PROTOCOL_FEE_BPS;
use creditra_credit::limits::{execute_within_limits, try_execute};
use creditra_credit::msg::{ExecuteMsg, InstantiateMsg, MigrateMsg};
use creditra_credit::records;
use creditra_credit::state::{
    CreditLine, Draw, DrawAction, DrawAuditEntry, DrawAuditEvent, Timestamp, BORROWER_TO_ID,
    BOUNTY_BALANCE, CREDIT_LINES, CREDIT_LINE_COUNT, DRAWS, DRAW_AUDIT, DRAW_AUDIT_COUNT,
    DRAW_COUNT, MARKET_FEE_SHARE_BPS, TREASURY_BALANCE,
};
use creditra_credit::store::{Deps, DepsMut};
use creditra_credit::ContractError;
use cw_storage_plus::{Item, Map as StorageMap};

type MockDeps = OwnedDeps<MockStorage, MockApi, MockQuerier>;

fn env() -> Env {
    Env {
        block: BlockInfo {
            height: 77,
            time: Timestamp {
                nanos: 5_000_000_001,
            },
        },
    }
}

fn info(sender: &Addr) -> MessageInfo {
    MessageInfo {
        sender: sender.to_string(),
    }
}

fn owner(deps: &MockDeps) -> Addr {
    deps.api.addr_make("owner")
}

fn borrower(deps: &MockDeps) -> Addr {
    deps.api.addr_make("borrower")
}

fn set_up() -> MockDeps {
    let mut deps = mock_dependencies();
    let owner = owner(&deps);
    let msg = InstantiateMsg {
        owner: owner.to_string(),
    };
    instantiate(&mut DepsMut(deps.as_mut()), env(), info(&owner), msg, Ok(())).unwrap();
    deps
}

fn open_line(
    deps: &mut MockDeps,
    sender: &Addr,
    borrower: &str,
    collateral_amount: &str,
    credit_amount: &str,
) -> Result<Response, ContractError> {
    execute_create_credit_line(
        &mut DepsMut(deps.as_mut()),
        env(),
        info(sender),
        borrower.to_string(),
        "ucollateral".to_string(),
        collateral_amount.to_string(),
        "ucredit".to_string(),
        credit_amount.to_string(),
    )
}

fn draw(
    deps: &mut MockDeps,
    sender: &Addr,
    line_id: u64,
    amount: &str,
) -> Result<Response, ContractError> {
    execute_create_draw(
        &mut DepsMut(deps.as_mut()),
        env(),
        info(sender),
        line_id,
        amount.to_string(),
        "ucredit".to_string(),
    )
}

fn repay(
    deps: &mut MockDeps,
    sender: &Addr,
    line_id: u64,
    draw_id: u64,
) -> Result<Response, ContractError> {
    execute_repay_draw(&mut DepsMut(deps.as_mut()), env(), info(sender), line_id, draw_id)
}

/// A contract with one credit line and one draw of `amount`.
fn with_draw(amount: &str) -> MockDeps {
    let mut deps = set_up();
    let owner = owner(&deps);
    let borrower = borrower(&deps);
    open_line(&mut deps, &owner, borrower.as_str(), "1000", "500").unwrap();
    draw(&mut deps, &borrower, 0, amount).unwrap();
    deps
}

fn stored_line(deps: &MockDeps, id: u64) -> Option<CreditLine> {
    records::credit_line(&Deps(deps.as_ref()), id).unwrap()
}

fn stored_draw(deps: &MockDeps, line_id: u64, draw_id: u64) -> Option<Draw> {
    records::draw(&Deps(deps.as_ref()), line_id, draw_id).unwrap()
}

fn stored_entry(deps: &MockDeps, line_id: u64, draw_id: u64, seq: u64) -> Option<DrawAuditEntry> {
    records::audit_entry(&Deps(deps.as_ref()), line_id, draw_id, seq).unwrap()
}

fn stored_bytes(deps: &MockDeps, key: &[u8]) -> String {
    String::from_utf8(deps.as_ref().storage.get(key).unwrap()).unwrap()
}

fn audit_count(deps: &MockDeps, line_id: u64, draw_id: u64) -> Option<u64> {
    records::audit_count(&Deps(deps.as_ref()), line_id, draw_id).unwrap()
}

fn pool(deps: &MockDeps, pool: &'static str) -> Option<u128> {
    StorageMap::<&str, Uint128>::new(pool)
        .may_load(deps.as_ref().storage, "ucredit")
        .unwrap()
        .map(|balance| balance.u128())
}

fn set_pool(deps: &mut MockDeps, pool: &'static str, balance: u128) {
    StorageMap::<&str, Uint128>::new(pool)
        .save(deps.as_mut().storage, "ucredit", &Uint128::new(balance))
        .unwrap();
}

fn set_protocol_fee(deps: &mut MockDeps, bps: u32) {
    Item::<u32>::new(PROTOCOL_FEE_BPS)
        .save(deps.as_mut().storage, &bps)
        .unwrap();
}

fn set_share(deps: &mut MockDeps, bps: u32) {
    StorageMap::<&str, u32>::new(MARKET_FEE_SHARE_BPS)
        .save(deps.as_mut().storage, "ucredit", &bps)
        .unwrap();
}

fn pairs(response: &Response) -> Vec<(&str, &str)> {
    response
        .attributes
        .iter()
        .map(|a| (a.key.as_str(), a.value.as_str()))
        .collect()
}

fn not_an_amount(text: &str) -> ContractError {
    ContractError::Std(StdFailure::ParseErr {
        target_type: "Uint128".to_string(),
        msg: text.to_string(),
    })
}

#[test]
fn setting_up_stores_owner_and_counter() {
    let deps = set_up();
    let count = Item::<u64>::new(CREDIT_LINE_COUNT)
        .load(deps.as_ref().storage)
        .unwrap();
    assert_eq!(count, 0);
    let expected = format!("{{\"owner\":\"{}\"}}", owner(&deps));
    assert_eq!(stored_bytes(&deps, b"config"), expected);
}

#[test]
fn setting_up_refuses_a_bad_owner() {
    let mut deps = mock_dependencies();
    let sender = owner(&deps);
    let msg = InstantiateMsg {
        owner: "nobody".to_string(),
    };
    let err = instantiate(&mut DepsMut(deps.as_mut()), env(), info(&sender), msg, Ok(()))
        .unwrap_err();
    let reported = deps.api.addr_validate("nobody").unwrap_err();
    assert_eq!(err, ContractError::Std(StdFailure::Backend(reported)));
    assert!(deps.as_ref().storage.get(b"config").is_none());
}

#[test]
fn setting_up_reports_an_unrecorded_version() {
    let mut deps = mock_dependencies();
    let sender = owner(&deps);
    let msg = InstantiateMsg {
        owner: sender.to_string(),
    };
    let recorded = Err(ContractError::Overflow);
    let err = instantiate(&mut DepsMut(deps.as_mut()), env(), info(&sender), msg, recorded)
        .unwrap_err();
    assert_eq!(err, ContractError::Overflow);
}

#[test]
fn credit_lines_are_numbered_and_mapped() {
    let mut deps = set_up();
    let owner = owner(&deps);
    let first = borrower(&deps);
    let second = deps.api.addr_make("second");

    let resp = open_line(&mut deps, &owner, first.as_str(), "1000", "500").unwrap();
    assert_eq!(
        pairs(&resp),
        vec![("action", "create_credit_line"), ("credit_line_id", "0")]
    );
    let resp = open_line(&mut deps, &owner, second.as_str(), "7", "+12").unwrap();
    assert_eq!(resp.attributes[1].value, "1");

    assert_eq!(
        stored_line(&deps, 0).unwrap(),
        CreditLine {
            id: 0,
            borrower: first.to_string(),
            collateral_denom: "ucollateral".to_string(),
            collateral_amount: 1000,
            credit_denom: "ucredit".to_string(),
            credit_amount: 500,
            active: true,
        }
    );
    assert_eq!(stored_line(&deps, 1).unwrap().credit_amount, 12);
    assert!(stored_line(&deps, 2).is_none());

    let line_of = |deps: &MockDeps, borrower: &Addr| {
        records::credit_line_of(&Deps(deps.as_ref()), borrower.as_str()).unwrap()
    };
    assert_eq!(line_of(&deps, &first), Some(0));
    assert_eq!(line_of(&deps, &second), Some(1));
    assert_eq!(line_of(&deps, &owner), None);

    open_line(&mut deps, &owner, first.as_str(), "1", "1").unwrap();
    assert_eq!(line_of(&deps, &first), Some(2));
    let stored = StorageMap::<Addr, u64>::new(BORROWER_TO_ID);
    assert_eq!(stored.load(deps.as_ref().storage, first).unwrap(), 2);
}

#[test]
fn only_the_owner_opens_credit_lines() {
    let mut deps = set_up();
    let borrower = borrower(&deps);
    let err = open_line(&mut deps, &borrower, borrower.as_str(), "1000", "500").unwrap_err();
    assert_eq!(err, ContractError::Unauthorized);
    assert!(stored_line(&deps, 0).is_none());
}

#[test]
fn credit_lines_need_an_address_and_amounts() {
    let mut deps = set_up();
    let owner = owner(&deps);
    let borrower = borrower(&deps);
    let err = open_line(&mut deps, &owner, "nobody", "1000", "500").unwrap_err();
    assert!(matches!(err, ContractError::Std(StdFailure::Backend(_))));
    for text in ["", "+", "-1", "1.5", "1e3", " 1", "0x10", "++1"] {
        let err = open_line(&mut deps, &owner, borrower.as_str(), text, "500").unwrap_err();
        assert_eq!(err, not_an_amount(text));
        let err = open_line(&mut deps, &owner, borrower.as_str(), "1000", text).unwrap_err();
        assert_eq!(err, not_an_amount(text));
    }
    let too_large = "340282366920938463463374607431768211456";
    let err = open_line(&mut deps, &owner, borrower.as_str(), too_large, "?").unwrap_err();
    assert_eq!(err, not_an_amount(too_large));
    assert!(stored_line(&deps, 0).is_none());

    let largest = u128::MAX.to_string();
    open_line(&mut deps, &owner, borrower.as_str(), &largest, "007").unwrap();
    assert_eq!(stored_line(&deps, 0).unwrap().collateral_amount, u128::MAX);
    assert_eq!(stored_line(&deps, 0).unwrap().credit_amount, 7);
}

#[test]
fn a_draw_is_recorded_with_its_first_audit_entry() {
    let deps = with_draw("100");
    let borrower = borrower(&deps);
    let time = Timestamp {
        nanos: 5_000_000_001,
    };
    assert_eq!(
        stored_draw(&deps, 0, 0).unwrap(),
        Draw {
            id: 0,
            credit_line_id: 0,
            amount: 100,
            denom: "ucredit".to_string(),
            drawn_at: time,
            drawn_by: borrower.to_string(),
            repaid: false,
        }
    );
    assert_eq!(
        stored_entry(&deps, 0, 0, 0).unwrap(),
        DrawAuditEntry {
            seq: 0,
            draw_id: 0,
            credit_line_id: 0,
            action: DrawAction::DrawCreated,
            timestamp: time,
            block_height: 77,
            by: borrower.to_string(),
            memo: String::new(),
        }
    );
    assert!(stored_entry(&deps, 0, 0, 1).is_none());
    assert_eq!(audit_count(&deps, 0, 0), Some(1));
    let count = |line_id: u64| records::draw_count(&Deps(deps.as_ref()), line_id).unwrap();
    assert_eq!((count(0), count(1)), (Some(1), None));
}

#[test]
fn draws_are_numbered_per_credit_line() {
    let mut deps = with_draw("100");
    let owner = owner(&deps);
    let borrower = borrower(&deps);
    open_line(&mut deps, &owner, borrower.as_str(), "1", "1").unwrap();
    let resp = draw(&mut deps, &borrower, 0, "5").unwrap();
    assert_eq!(
        pairs(&resp),
        vec![("action", "create_draw"), ("credit_line_id", "0"), ("draw_id", "1")]
    );
    let resp = draw(&mut deps, &borrower, 1, "6").unwrap();
    assert_eq!(resp.attributes[2].value, "0");
    assert_eq!(stored_draw(&deps, 0, 1).unwrap().amount, 5);
    assert_eq!(stored_draw(&deps, 1, 0).unwrap().amount, 6);
    assert_eq!(stored_draw(&deps, 1, 0).unwrap().credit_line_id, 1);
}

#[test]
fn draws_are_refused_in_this_order() {
    let mut deps = with_draw("100");
    let owner = owner(&deps);
    let borrower = borrower(&deps);
    let err = draw(&mut deps, &owner, 9, "x").unwrap_err();
    assert_eq!(err, ContractError::CreditLineNotFound(9));
    let err = draw(&mut deps, &owner, 0, "x").unwrap_err();
    assert_eq!(err, ContractError::Unauthorized);
    let err = draw(&mut deps, &borrower, 0, "x").unwrap_err();
    assert_eq!(err, not_an_amount("x"));
    assert!(stored_draw(&deps, 0, 1).is_none());
}

#[test]
fn a_repayment_without_fee_marks_the_draw() {
    let mut deps = with_draw("100");
    let borrower = borrower(&deps);
    let resp = repay(&mut deps, &borrower, 0, 0).unwrap();
    assert_eq!(
        pairs(&resp),
        vec![("action", "repay_draw"), ("credit_line_id", "0"), ("draw_id", "0")]
    );
    assert!(stored_draw(&deps, 0, 0).unwrap().repaid);
    let entry = stored_entry(&deps, 0, 0, 1).unwrap();
    assert_eq!((entry.seq, entry.action, entry.memo.as_str()), (1, DrawAction::Repaid, ""));
    assert_eq!(audit_count(&deps, 0, 0), Some(2));
    assert_eq!(pool(&deps, TREASURY_BALANCE), None);
}

#[test]
fn a_repayment_skims_the_protocol_fee() {
    let mut deps = with_draw("1039");
    let borrower = borrower(&deps);
    set_protocol_fee(&mut deps, 250);
    set_share(&mut deps, 3_000);
    let resp = repay(&mut deps, &borrower, 0, 0).unwrap();
    // 1039 * 250 / 10000 = 25.975
    assert_eq!(
        pairs(&resp)[3],
        ("protocol_fee_skimmed", "25")
    );
    assert_eq!(pool(&deps, TREASURY_BALANCE), Some(7));
    assert_eq!(pool(&deps, BOUNTY_BALANCE), Some(18));
}

#[test]
fn a_fee_below_one_unit_is_not_skimmed() {
    let mut deps = with_draw("39");
    let borrower = borrower(&deps);
    set_protocol_fee(&mut deps, 250);
    let resp = repay(&mut deps, &borrower, 0, 0).unwrap();
    assert_eq!(resp.attributes.len(), 3);
    assert_eq!(pool(&deps, TREASURY_BALANCE), None);
}

#[test]
fn the_fee_product_may_exceed_128_bits() {
    let largest = u128::MAX.to_string();
    let mut deps = with_draw(&largest);
    let borrower = borrower(&deps);
    set_protocol_fee(&mut deps, 10_000);
    let resp = repay(&mut deps, &borrower, 0, 0).unwrap();
    assert_eq!(resp.attributes[3].value, largest);
    assert_eq!(pool(&deps, TREASURY_BALANCE), Some(u128::MAX));
}

#[test]
fn repayments_are_refused_in_this_order() {
    let mut deps = with_draw("100");
    let owner = owner(&deps);
    let err = repay(&mut deps, &owner, 4, 5).unwrap_err();
    assert_eq!(err, ContractError::DrawNotFound(5, 4));
    let err = repay(&mut deps, &owner, 0, 0).unwrap_err();
    assert_eq!(err, ContractError::Unauthorized);
    assert!(!stored_draw(&deps, 0, 0).unwrap().repaid);
    assert_eq!(audit_count(&deps, 0, 0), Some(1));
}

#[test]
fn a_repayment_without_room_in_the_pools_is_refused() {
    let mut deps = with_draw("100");
    let borrower = borrower(&deps);
    set_protocol_fee(&mut deps, 10_000);
    set_share(&mut deps, 5_000);
    set_pool(&mut deps, BOUNTY_BALANCE, u128::MAX);
    let err = repay(&mut deps, &borrower, 0, 0).unwrap_err();
    assert_eq!(
        err,
        ContractError::Std(StdFailure::GenericErr {
            msg: "Bounty balance overflow".to_string()
        })
    );
    assert!(!stored_draw(&deps, 0, 0).unwrap().repaid);
    assert_eq!(pool(&deps, TREASURY_BALANCE), Some(50));
    assert_eq!(pool(&deps, BOUNTY_BALANCE), Some(u128::MAX));

    set_pool(&mut deps, TREASURY_BALANCE, u128::MAX - 49);
    let err = repay(&mut deps, &borrower, 0, 0).unwrap_err();
    assert_eq!(
        err,
        ContractError::Std(StdFailure::GenericErr {
            msg: "Treasury balance overflow".to_string()
        })
    );
    assert_eq!(pool(&deps, TREASURY_BALANCE), Some(u128::MAX - 49));

    set_share(&mut deps, 10_001);
    let err = repay(&mut deps, &borrower, 0, 0).unwrap_err();
    assert_eq!(err, ContractError::InvalidFeeShareBps);
}

#[test]
fn memos_extend_the_audit_trail() {
    let mut deps = with_draw("100");
    let owner = owner(&deps);
    let borrower = borrower(&deps);
    let memo = "quote \" backslash \\ newline \n bell \u{7} snow \u{2603} \u{1F600}";
    let resp = execute_add_audit_memo(
        &mut DepsMut(deps.as_mut()),
        env(),
        info(&owner),
        0,
        0,
        memo.to_string(),
    )
    .unwrap();
    assert_eq!(
        pairs(&resp),
        vec![("action", "add_audit_memo"), ("credit_line_id", "0"), ("draw_id", "0")]
    );
    let entry = stored_entry(&deps, 0, 0, 1).unwrap();
    assert_eq!(entry.action, DrawAction::MemoAdded);
    assert_eq!(entry.by, owner.as_str());
    assert_eq!(entry.memo, memo);
    assert_eq!(stored_entry(&deps, 0, 0, 0).unwrap().action, DrawAction::DrawCreated);
    assert_eq!(audit_count(&deps, 0, 0), Some(2));

    let refused = |deps: &mut MockDeps, sender: &Addr, draw_id: u64| {
        execute_add_audit_memo(
            &mut DepsMut(deps.as_mut()),
            env(),
            info(sender),
            0,
            draw_id,
            String::new(),
        )
        .unwrap_err()
    };
    assert_eq!(refused(&mut deps, &borrower, 0), ContractError::Unauthorized);
    assert_eq!(refused(&mut deps, &owner, 3), ContractError::DrawNotFound(3, 0));
}

#[test]
fn texts_of_a_draw_survive_storage() {
    let mut deps = with_draw("100");
    let borrower = borrower(&deps);
    let denom = "ibc/\"\\\u{0}\u{1f}\u{e9}";
    execute_create_draw(
        &mut DepsMut(deps.as_mut()),
        env(),
        info(&borrower),
        0,
        "8".to_string(),
        denom.to_string(),
    )
    .unwrap();
    set_protocol_fee(&mut deps, 10_000);
    repay(&mut deps, &borrower, 0, 1).unwrap();
    let credited = StorageMap::<&str, Uint128>::new(TREASURY_BALANCE)
        .load(deps.as_ref().storage, denom)
        .unwrap();
    assert_eq!(credited, Uint128::new(8));
}

#[test]
fn full_counters_and_fees_are_outside_the_limits() {
    let mut deps = with_draw("100");
    let owner = owner(&deps);
    let borrower = borrower(&deps);
    let line = ExecuteMsg::CreateCreditLine {
        borrower: borrower.to_string(),
        collateral_denom: "a".to_string(),
        collateral_amount: "1".to_string(),
        credit_denom: "b".to_string(),
        credit_amount: "1".to_string(),
    };
    let draw = ExecuteMsg::CreateDraw {
        credit_line_id: 0,
        amount: "1".to_string(),
        denom: "ucredit".to_string(),
    };
    let repay = ExecuteMsg::RepayDraw {
        credit_line_id: 0,
        draw_id: 0,
    };
    let memo = ExecuteMsg::AddAuditMemo {
        credit_line_id: 0,
        draw_id: 0,
        memo: String::new(),
    };
    let fits = |deps: &MockDeps, sender: &Addr, msg: &ExecuteMsg| {
        execute_within_limits(&Deps(deps.as_ref()), env(), &info(sender), msg)
    };
    assert!(fits(&deps, &owner, &line));
    assert!(fits(&deps, &borrower, &draw));
    assert!(fits(&deps, &borrower, &repay));
    assert!(fits(&deps, &owner, &memo));

    set_protocol_fee(&mut deps, 0);
    Item::<u64>::new(CREDIT_LINE_COUNT)
        .save(deps.as_mut().storage, &u64::MAX)
        .unwrap();
    StorageMap::<u64, u64>::new(DRAW_COUNT)
        .save(deps.as_mut().storage, 0, &u64::MAX)
        .unwrap();
    StorageMap::<(u64, u64), u64>::new(DRAW_AUDIT_COUNT)
        .save(deps.as_mut().storage, (0, 0), &u64::MAX)
        .unwrap();
    assert!(!fits(&deps, &owner, &line));
    assert!(!fits(&deps, &borrower, &draw));
    assert!(!fits(&deps, &borrower, &repay));
    assert!(!fits(&deps, &owner, &memo));
    assert!(fits(&deps, &borrower, &line));
    assert!(fits(&deps, &owner, &draw));
    assert!(fits(&deps, &owner, &repay));
    assert!(fits(&deps, &borrower, &memo));
}

#[test]
fn a_fee_above_128_bits_is_outside_the_limits() {
    let largest = u128::MAX.to_string();
    let mut deps = with_draw(&largest);
    let borrower = borrower(&deps);
    let msg = ExecuteMsg::RepayDraw {
        credit_line_id: 0,
        draw_id: 0,
    };
    let cases = [
        (0, true),
        (9_999, true),
        (10_000, true),
        (10_001, false),
        (u32::MAX, false),
    ];
    for (bps, fits) in cases {
        set_protocol_fee(&mut deps, bps);
        assert_eq!(
            execute_within_limits(&Deps(deps.as_ref()), env(), &info(&borrower), &msg),
            fits
        );
    }
}

#[test]
fn moving_to_this_version_changes_nothing() {
    let mut deps = with_draw("100");
    let before = stored_draw(&deps, 0, 0);
    let resp = migrate(&mut DepsMut(deps.as_mut()), env(), MigrateMsg {}).unwrap();
    assert!(resp.attributes.is_empty());
    assert_eq!(stored_draw(&deps, 0, 0), before);
}

#[test]
fn audit_entries_become_events() {
    let time = Timestamp {
        nanos: mock_env().block.time.nanos(),
    };
    let entry = DrawAuditEntry {
        seq: 3,
        draw_id: 4,
        credit_line_id: 5,
        action: DrawAction::Liquidated,
        timestamp: time,
        block_height: 6,
        by: "keeper".to_string(),
        memo: "late".to_string(),
    };
    assert_eq!(entry.action.as_word(), "liquidated");
    assert_eq!(
        entry.into_event(),
        DrawAuditEvent {
            seq: 3,
            action: DrawAction::Liquidated,
            timestamp: time,
            block_height: 6,
            by: "keeper".to_string(),
            memo: "late".to_string(),
        }
    );
}

#[test]
fn records_are_stored_as_objects() {
    let mut deps = with_draw("100");
    let owner = owner(&deps);
    let borrower = borrower(&deps);
    execute_add_audit_memo(
        &mut DepsMut(deps.as_mut()),
        env(),
        info(&owner),
        0,
        0,
        "a \"memo\"".to_string(),
    )
    .unwrap();
    let line = StorageMap::<u64, String>::new(CREDIT_LINES).key(0);
    assert_eq!(
        stored_bytes(&deps, &line),
        format!(
            "{{\"id\":0,\"borrower\":\"{}\",\"collateral_denom\":\"ucollateral\",\
             \"collateral_amount\":\"1000\",\"credit_denom\":\"ucredit\",\
             \"credit_amount\":\"500\",\"active\":true}}",
            borrower
        )
    );
    let draw = StorageMap::<(u64, u64), String>::new(DRAWS).key((0, 0));
    assert_eq!(
        stored_bytes(&deps, &draw),
        format!(
            "{{\"id\":0,\"credit_line_id\":0,\"amount\":\"100\",\"denom\":\"ucredit\",\
             \"drawn_at\":\"5000000001\",\"drawn_by\":\"{}\",\"repaid\":false}}",
            borrower
        )
    );
    let entry = StorageMap::<(u64, u64, u64), String>::new(DRAW_AUDIT).key((0, 0, 1));
    assert_eq!(
        stored_bytes(&deps, &entry),
        format!(
            "{{\"seq\":1,\"draw_id\":0,\"credit_line_id\":0,\"action\":\"memo_added\",\
             \"timestamp\":\"5000000001\",\"block_height\":77,\"by\":\"{}\",\
             \"memo\":\"a \\\"memo\\\"\"}}",
            owner
        )
    );
}

#[test]
fn records_that_do_not_decode_are_reported() {
    let mut deps = with_draw("100");
    let borrower = borrower(&deps);
    let put = |deps: &mut MockDeps, key: &[u8], json: &str| {
        deps.as_mut().storage.set(key, json.as_bytes())
    };
    let line = StorageMap::<u64, String>::new(CREDIT_LINES).key(0).to_vec();
    let drawn = StorageMap::<(u64, u64), String>::new(DRAWS).key((0, 0)).to_vec();
    let entry = StorageMap::<(u64, u64, u64), String>::new(DRAW_AUDIT)
        .key((0, 0, 0))
        .to_vec();
    for json in ["not json", "5", "[]", "{}", "{\"id\":0}", "{\"id\":\"0\"}"] {
        put(&mut deps, &line, json);
        put(&mut deps, &drawn, json);
        put(&mut deps, &entry, json);
        let reader = Deps(deps.as_ref());
        let line_error = records::credit_line(&reader, 0).unwrap_err();
        let draw_error = records::draw(&reader, 0, 0).unwrap_err();
        assert!(matches!(line_error, ContractError::Std(StdFailure::Backend(_))));
        assert!(matches!(draw_error, ContractError::Std(StdFailure::Backend(_))));
        assert!(records::audit_entry(&reader, 0, 0, 0).is_err());
        assert_eq!(draw(&mut deps, &borrower, 0, "1").unwrap_err(), line_error);
        assert_eq!(repay(&mut deps, &borrower, 0, 0).unwrap_err(), draw_error);
    }
    let unknown = "{\"seq\":0,\"draw_id\":0,\"credit_line_id\":0,\"action\":\"forgiven\",\
                   \"timestamp\":\"1\",\"block_height\":1,\"by\":\"b\",\"memo\":\"\"}";
    put(&mut deps, &entry, unknown);
    let err = records::audit_entry(&Deps(deps.as_ref()), 0, 0, 0).unwrap_err();
    let reported = StdError::parse_err("creditra_credit::state::DrawAuditEntry", "forgiven");
    assert_eq!(err, ContractError::Std(StdFailure::Backend(reported)));
    let known = unknown.replace("forgiven", "liquidated");
    put(&mut deps, &entry, &known);
    let found = stored_entry(&deps, 0, 0, 0).unwrap();
    assert_eq!(found.action, DrawAction::Liquidated);
}

#[test]
fn requests_outside_the_limits_are_not_tried() {
    let mut deps = with_draw("100");
    let borrower = borrower(&deps);
    let repayment = ExecuteMsg::RepayDraw {
        credit_line_id: 0,
        draw_id: 0,
    };
    let attempt = |deps: &mut MockDeps| {
        let delegated = Delegated {
            quorum_price: Ok(1),
            version_recorded: Ok(()),
        };
        let mut store = DepsMut(deps.as_mut());
        try_execute(&mut store, env(), info(&borrower), repayment.clone(), delegated)
    };
    let counts = StorageMap::<(u64, u64), u64>::new(DRAW_AUDIT_COUNT);
    counts.save(deps.as_mut().storage, (0, 0), &u64::MAX).unwrap();
    assert!(attempt(&mut deps).is_none());
    assert!(!stored_draw(&deps, 0, 0).unwrap().repaid);
    counts.save(deps.as_mut().storage, (0, 0), &1).unwrap();
    assert!(attempt(&mut deps).unwrap().is_ok());
    assert!(stored_draw(&deps, 0, 0).unwrap().repaid);
}

#[test]
fn members_without_a_field_are_passed_over() {
    let mut deps = with_draw("100");
    let key = StorageMap::<u64, String>::new(CREDIT_LINES).key(0).to_vec();
    let before = stored_line(&deps, 0);
    let json = stored_bytes(&deps, &key);
    let longer = json.replace("\"id\":0", "\"note\":{\"by\":[\"x\",null]},\"id\":0");
    assert_ne!(json, longer);
    deps.as_mut().storage.set(&key, longer.as_bytes());
    assert_eq!(stored_line(&deps, 0), before);
}
