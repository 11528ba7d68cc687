use std::str::FromStr;

use openpit_ffi::account_adjustment::{AccountAdjustmentOperation, PositionMode};
use openpit_ffi::engine::OpenPitEngineBuildError;
use openpit_ffi::python::{
    convert_reject, format_engine_build_error, parse_order_size_limit_barriers,
    parse_policy_reject, parse_position_effect, parse_position_mode, parse_position_side,
    parse_rate_limit_barriers, parse_rounding_strategy, parse_side, position_effect_name,
    position_mode_name, position_side_name, python_callback_reject, python_policy_outcome,
    reject_text_error_message,
    rounding_strategy_name, side_name, CompareOp, PositionEffect, PositionSide, PyAccountId,
    PyLeverage, PyOrderSizeLimit, RoundingStrategy, Side, python_adjustment_operation,
    PyBalanceFields, PyOperationFields, PyPositionFields,
};
use openpit_ffi::reject::{OpenPitRejectCode, OpenPitRejectScope, RejectRecord, RejectTextError};
use rust_decimal::Decimal;

fn fnv1a(text: &str) -> u64 {
    let mut hash: u64 = 0xcbf29ce484222325;
    for byte in text.bytes() {
        hash ^= u64::from(byte);
        hash = hash.wrapping_mul(0x100000001b3);
    }
    hash
}

fn bits(value: &str) -> [u8; 16] {
    Decimal::from_str(value).expect("decimal").serialize()
}

fn limit(quantity: &str, notional: &str) -> PyOrderSizeLimit {
    PyOrderSizeLimit {
        max_quantity: quantity.to_string(),
        max_notional: notional.to_string(),
    }
}

#[test]
fn sides_parse_ignoring_case_and_white_space() {
    assert_eq!(parse_side("buy"), Ok(Side::Buy));
    assert_eq!(parse_side("  SELL\t"), Ok(Side::Sell));
    assert_eq!(
        parse_side(" Hold "),
        Err("invalid side \"hold\"; expected 'buy' or 'sell'".to_string())
    );
    assert_eq!(side_name(Side::Buy), "buy");
    assert_eq!(side_name(Side::Sell), "sell");
}

#[test]
fn position_names_round_trip() {
    for side in [PositionSide::Long, PositionSide::Short] {
        assert_eq!(parse_position_side(position_side_name(side)), Ok(side));
    }
    for effect in [PositionEffect::Open, PositionEffect::Close] {
        assert_eq!(parse_position_effect(position_effect_name(effect)), Ok(effect));
    }
    for mode in [PositionMode::Netting, PositionMode::Hedged] {
        assert_eq!(parse_position_mode(position_mode_name(mode)), Ok(mode));
    }
    assert_eq!(parse_position_side("LONG"), Ok(PositionSide::Long));
    assert_eq!(
        parse_position_side("flat"),
        Err("invalid position side \"flat\"; expected 'long' or 'short'".to_string())
    );
    assert_eq!(
        parse_position_effect("reduce"),
        Err("invalid position effect \"reduce\"; expected 'open' or 'close'".to_string())
    );
    assert_eq!(
        parse_position_mode(""),
        Err("invalid position mode \"\"; expected 'netting' or 'hedged'".to_string())
    );
}

#[test]
fn rounding_strategy_names_round_trip() {
    for strategy in [
        RoundingStrategy::MidpointNearestEven,
        RoundingStrategy::MidpointAwayFromZero,
        RoundingStrategy::Up,
        RoundingStrategy::Down,
    ] {
        assert_eq!(parse_rounding_strategy(rounding_strategy_name(strategy)), Ok(strategy));
    }
    assert_eq!(rounding_strategy_name(RoundingStrategy::MidpointNearestEven), "MidpointNearestEven");
    assert_eq!(parse_rounding_strategy(" up "), Ok(RoundingStrategy::Up));
    assert_eq!(
        parse_rounding_strategy("Nearest\"x"),
        Err("invalid rounding strategy \"nearest\\\"x\"; expected 'MidpointNearestEven', 'MidpointAwayFromZero', 'Up', or 'Down'".to_string())
    );
}

#[test]
fn account_id_from_text_is_fnv1a() {
    let id = PyAccountId::from_str("trading-account-1").expect("account id");
    assert_eq!(id.value(), fnv1a("trading-account-1"));
    assert_eq!(PyAccountId::from_str("a").expect("a").value(), 0xaf63dc4c8601ec8c);
    assert_eq!(
        PyAccountId::from_str("   "),
        Err("account id string must not be empty".to_string())
    );
    assert_eq!(
        PyAccountId::from_str(""),
        Err("account id string must not be empty".to_string())
    );
    assert_eq!(PyAccountId::from_u64(99224416).value(), 99224416);
}

#[test]
fn account_ids_compare_only_for_equality() {
    let a = PyAccountId::from_u64(7);
    let b = PyAccountId::from_u64(7);
    let c = PyAccountId::from_u64(8);
    assert_eq!(a.rich_compare(Some(&b), CompareOp::Eq), Some(true));
    assert_eq!(a.rich_compare(Some(&c), CompareOp::Eq), Some(false));
    assert_eq!(a.rich_compare(Some(&c), CompareOp::Ne), Some(true));
    assert_eq!(a.rich_compare(Some(&c), CompareOp::Lt), None);
    assert_eq!(a.rich_compare(None, CompareOp::Eq), None);
}

#[test]
fn leverage_from_int_checks_range_and_overflow() {
    assert_eq!(PyLeverage::from_int(1).expect("1x").raw(), 10);
    assert_eq!(PyLeverage::from_int(3000).expect("3000x").raw(), 30000);
    assert_eq!(PyLeverage::from_int(0), Err("invalid leverage value".to_string()));
    assert_eq!(PyLeverage::from_int(3001), Err("invalid leverage value".to_string()));
    assert_eq!(PyLeverage::from_int(-1), Err("invalid leverage value".to_string()));
    assert_eq!(PyLeverage::from_int(70000), Err("invalid leverage value".to_string()));
    assert_eq!(
        PyLeverage::from_int(6554),
        Err("arithmetic overflow in Leverage".to_string())
    );
}

#[test]
fn callback_failure_becomes_system_unavailable_reject() {
    let reject = python_callback_reject("StartPolicy");
    assert_eq!(reject.policy, "StartPolicy");
    assert_eq!(reject.code, OpenPitRejectCode::SystemUnavailable);
    assert_eq!(reject.scope, OpenPitRejectScope::Order);
    assert_eq!(reject.reason, "python policy callback failed");
    assert_eq!(reject.details, "python policy callback raised an exception");
    assert_eq!(reject.user_data, 0);
}

#[test]
fn policy_reject_reads_code_and_scope() {
    let reject = parse_policy_reject(
        "MainPolicy",
        "RiskLimitExceeded",
        "limit".to_string(),
        "details".to_string(),
        " Account ",
        42,
    )
    .expect("valid reject");
    assert_eq!(reject.code, OpenPitRejectCode::RiskLimitExceeded);
    assert_eq!(reject.scope, OpenPitRejectScope::Account);
    assert_eq!(reject.policy, "MainPolicy");
    assert_eq!(reject.user_data, 42);

    assert_eq!(
        parse_policy_reject("p", "Nope", String::new(), String::new(), "order", 0),
        Err("unsupported reject code \"Nope\"".to_string())
    );
    assert_eq!(
        parse_policy_reject("p", "Custom", String::new(), String::new(), "order", 0),
        Err("unsupported reject code \"Custom\"".to_string())
    );
    assert_eq!(
        parse_policy_reject("p", "Other", String::new(), String::new(), "venue", 0),
        Err("reject.scope must be either 'order' or 'account'".to_string())
    );
    assert_eq!(
        reject_text_error_message(RejectTextError::UnsupportedCode, "x"),
        "unsupported reject code \"x\""
    );
}

#[test]
fn converted_reject_and_its_repr() {
    let record = RejectRecord {
        policy: "policy".to_string(),
        reason: "reason".to_string(),
        details: "details".to_string(),
        user_data: 5,
        code: OpenPitRejectCode::AccountBlocked,
        scope: OpenPitRejectScope::Order,
    };
    let reject = convert_reject(&record);
    assert_eq!(reject.code, "AccountBlocked");
    assert_eq!(reject.scope, "order");
    assert_eq!(reject.user_data, 5);
    assert_eq!(
        reject.repr(),
        "Reject(code=\"AccountBlocked\", reason=\"reason\", details=\"details\", policy=\"policy\", scope=\"order\", user_data=5)"
    );
}

#[test]
fn engine_build_error_texts() {
    let by_name = OpenPitEngineBuildError::duplicate_policy_name("dup".to_string());
    assert_eq!(
        format_engine_build_error(&by_name),
        "duplicate policy name in engine configuration: dup"
    );
    let by_group = OpenPitEngineBuildError::duplicate_policy_group_id(12);
    assert_eq!(
        format_engine_build_error(&by_group),
        "duplicate non-default policy_group_id: 12"
    );
}

#[test]
fn rate_limit_tuples_become_barriers() {
    let parsed = parse_rate_limit_barriers(
        Some((1000, 60_000_000_000)),
        vec![("USD".to_string(), 500, 1_000_000_000)],
        vec![(42, 200, 100)],
        vec![(42, "EUR".to_string(), 100, 10)],
    )
    .expect("valid barriers");
    let broker = parsed.broker.expect("broker");
    assert_eq!(broker.max_orders, 1000);
    assert_eq!(broker.window_nanoseconds, 60_000_000_000);
    assert_eq!(parsed.asset[0].settlement_asset, "USD");
    assert_eq!(parsed.asset[0].max_orders, 500);
    assert_eq!(parsed.account[0].account_id, 42);
    assert_eq!(parsed.account[0].max_orders, 200);
    assert_eq!(parsed.account_asset[0].settlement_asset, "EUR");
    assert_eq!(parsed.account_asset[0].window_nanoseconds, 10);

    let refused = parse_rate_limit_barriers(None, vec![], vec![], vec![(1, " ".to_string(), 1, 1)]);
    assert_eq!(refused.err(), Some("asset must not be empty".to_string()));
    let none = parse_rate_limit_barriers(None, vec![], vec![], vec![]).expect("empty");
    assert!(none.broker.is_none());
}

#[test]
fn order_size_limits_read_from_text() {
    let broker = limit("100", "10000");
    let (b, assets, accounts) = parse_order_size_limit_barriers(
        Some(&broker),
        vec![(limit("5.5", "1000"), "USD".to_string())],
        vec![(limit("1", "2"), 9, "EUR".to_string())],
    )
    .expect("valid limits");
    let b = b.expect("broker");
    assert_eq!(b.max_quantity, bits("100"));
    assert_eq!(b.max_notional, bits("10000"));
    assert_eq!(assets[0].limit.max_quantity, bits("5.5"));
    assert_eq!(assets[0].settlement_asset, "USD");
    assert_eq!(accounts[0].account_id, 9);
    assert_eq!(accounts[0].limit.max_notional, bits("2"));

    assert_eq!(
        parse_order_size_limit_barriers(Some(&limit("-1", "10")), vec![], vec![]).err(),
        Some("value must be non-negative for Quantity".to_string())
    );
    assert_eq!(
        parse_order_size_limit_barriers(Some(&limit("1", "abc")), vec![], vec![]).err(),
        Some("invalid format for Volume: 'abc'".to_string())
    );
    assert_eq!(
        parse_order_size_limit_barriers(
            None,
            vec![(limit("1", "1"), "".to_string())],
            vec![(limit("x", "1"), 1, "USD".to_string())]
        )
        .err(),
        Some("asset must not be empty".to_string())
    );
    assert_eq!(
        parse_order_size_limit_barriers(None, vec![], vec![(limit("x", "1"), 1, "USD".to_string())])
            .err(),
        Some("invalid format for Quantity: 'x'".to_string())
    );
}

#[test]
fn python_hook_answers_decide_the_outcome() {
    let failed = python_policy_outcome("StartPolicy", None).err().expect("callback failure");
    assert_eq!(failed, vec![python_callback_reject("StartPolicy")]);
    assert_eq!(python_policy_outcome("StartPolicy", Some(vec![])), Ok(()));
    let reject = parse_policy_reject(
        "MainPolicy",
        "Other",
        "r".to_string(),
        "d".to_string(),
        "order",
        0,
    )
    .expect("reject");
    assert_eq!(
        python_policy_outcome("MainPolicy", Some(vec![reject.clone()])),
        Err(vec![reject])
    );
}

fn position_fields() -> PyPositionFields {
    PyPositionFields {
        underlying_asset: Some("BTC".to_string()),
        settlement_asset: Some("USDT".to_string()),
        collateral_asset: Some("USDT".to_string()),
        average_entry_price: Some(Decimal::from_str("61000.5").unwrap().serialize()),
        mode: Some(PositionMode::Hedged),
        leverage: Some(50),
    }
}

#[test]
fn python_adjustment_operation_reports_first_missing_field() {
    assert_eq!(python_adjustment_operation(None), Ok(AccountAdjustmentOperation::Absent));
    let balance = python_adjustment_operation(Some(PyOperationFields::Balance(PyBalanceFields {
        asset: None,
        average_entry_price: None,
    })));
    assert_eq!(balance, Err("account adjustment balance operation requires asset".to_string()));
    let mut p = position_fields();
    p.settlement_asset = None;
    p.collateral_asset = None;
    assert_eq!(
        python_adjustment_operation(Some(PyOperationFields::Position(p))),
        Err("account adjustment position operation requires underlying_asset and settlement_asset".to_string())
    );
    let mut p = position_fields();
    p.collateral_asset = None;
    p.mode = None;
    assert_eq!(
        python_adjustment_operation(Some(PyOperationFields::Position(p))),
        Err("account adjustment position operation requires collateral_asset".to_string())
    );
    let mut p = position_fields();
    p.average_entry_price = None;
    assert_eq!(
        python_adjustment_operation(Some(PyOperationFields::Position(p))),
        Err("account adjustment position operation requires average_entry_price".to_string())
    );
    let mut p = position_fields();
    p.mode = None;
    assert_eq!(
        python_adjustment_operation(Some(PyOperationFields::Position(p))),
        Err("account adjustment position operation requires mode".to_string())
    );
    match python_adjustment_operation(Some(PyOperationFields::Position(position_fields()))) {
        Ok(AccountAdjustmentOperation::Position(op)) => {
            assert_eq!(op.instrument.underlying_asset, "BTC");
            assert_eq!(op.instrument.settlement_asset, "USDT");
            assert_eq!(op.collateral_asset, "USDT");
            assert_eq!(op.mode, PositionMode::Hedged);
            assert_eq!(op.leverage, Some(50));
        }
        other => panic!("unexpected {:?}", other),
    }
    match python_adjustment_operation(Some(PyOperationFields::Balance(PyBalanceFields {
        asset: Some("USD".to_string()),
        average_entry_price: None,
    }))) {
        Ok(AccountAdjustmentOperation::Balance(op)) => {
            assert_eq!(op.asset, "USD");
            assert_eq!(op.average_entry_price, None);
        }
        other => panic!("unexpected {:?}", other),
    }
}
