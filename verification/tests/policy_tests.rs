use std::str::FromStr;
use std::sync::Arc;

use openpit_ffi::engine::{BuilderPhase, OpenPitConfigureErrorKind};
use openpit_ffi::param::{
    OpenPitParamDecimal, OpenPitParamPnl, OpenPitParamPnlOptional, OpenPitParamQuantity,
    OpenPitParamVolume,
};
use openpit_ffi::policy::{
    account_adjustment_result, main_stage_result, post_trade_result, select_hook, HookCall,
    cstr_arg, import_reject_list_result, parse_configure_limit, parse_configure_optional_pnl, openpit_engine_builder_add_pre_trade_policy,
    openpit_pretrade_pre_trade_policy_get_name, parse_optional_pnl, parse_order_size_account_asset_barriers,
    parse_order_size_asset_barriers, parse_order_size_broker_barrier, parse_policy_name,
    parse_pnl_account_barrier_updates, parse_pnl_account_barriers, parse_pnl_broker_barriers,
    parse_rate_limit_account_asset_barriers, parse_rate_limit_asset_barriers,
    parse_settlement_asset, try_slice_arg, CustomPolicyIdentity,
    order_size_limit_barriers, pnl_bounds_killswitch_barriers, rate_limit_barriers,
    OpenPitPretradePoliciesRateLimitAccountBarrier, OpenPitPretradePoliciesRateLimitBrokerBarrier,
    OpenPitPretradePoliciesOrderSizeAccountAssetBarrier,
    OpenPitPretradePoliciesOrderSizeAssetBarrier, OpenPitPretradePoliciesOrderSizeBrokerBarrier,
    OpenPitPretradePoliciesOrderSizeLimit, OpenPitPretradePoliciesPnlBoundsAccountBarrier,
    OpenPitPretradePoliciesPnlBoundsAccountBarrierUpdate, OpenPitPretradePoliciesPnlBoundsBarrier,
    OpenPitPretradePoliciesRateLimitAccountAssetBarrier,
    OpenPitPretradePoliciesRateLimitAssetBarrier, PolicyHandle, PolicyNameError,
};
use openpit_ffi::reject::{OpenPitRejectCode, OpenPitRejectList, OpenPitRejectScope, RejectRecord};
use openpit_ffi::string::{BytePtr, OpenPitStringView};
use rust_decimal::Decimal;

fn string_view_to_string(view: OpenPitStringView) -> String {
    match view.ptr.bytes() {
        None => String::new(),
        Some(bytes) => std::str::from_utf8(&bytes[..view.len])
            .expect("utf8")
            .to_string(),
    }
}

fn decimal(value: &str) -> OpenPitParamDecimal {
    let d = Decimal::from_str(value).expect("decimal");
    OpenPitParamDecimal::from_parts(d.mantissa(), d.scale() as i32)
}

fn bits(value: &str) -> [u8; 16] {
    Decimal::from_str(value).expect("decimal").serialize()
}

fn pnl(value: &str) -> OpenPitParamPnlOptional {
    OpenPitParamPnlOptional {
        value: OpenPitParamPnl(decimal(value)),
        is_set: true,
    }
}

fn limit(quantity: &str, notional: &str) -> OpenPitPretradePoliciesOrderSizeLimit {
    OpenPitPretradePoliciesOrderSizeLimit {
        max_quantity: OpenPitParamQuantity(decimal(quantity)),
        max_notional: OpenPitParamVolume(decimal(notional)),
    }
}

#[test]
fn custom_policy_create_rejects_null_empty_and_invalid_name() {
    let null_name = CustomPolicyIdentity::from_view(OpenPitStringView::not_set(), 0);
    let error = null_name.err().expect("null name must fail");
    assert_eq!(error, PolicyNameError::Null);
    assert!(error.message().contains("policy name is null"));

    let empty_name = CustomPolicyIdentity::from_view(OpenPitStringView::from_utf8(""), 0);
    let error = empty_name.err().expect("empty name must fail");
    assert_eq!(error, PolicyNameError::Empty);
    assert!(error.message().contains("policy name is empty"));

    let invalid_utf8 = [0xff_u8, 0x00];
    let invalid_name = CustomPolicyIdentity::from_view(
        OpenPitStringView {
            ptr: BytePtr::to(&invalid_utf8),
            len: invalid_utf8.len(),
        },
        0,
    );
    let error = invalid_name.err().expect("invalid name must fail");
    assert_eq!(error, PolicyNameError::NotValidString);
    assert!(error.message().contains("policy name is not valid string"));
}

#[test]
fn custom_check_policy_keeps_caller_name() {
    let identity = CustomPolicyIdentity::from_view(OpenPitStringView::from_utf8("caller.check.start"), 0)
        .expect("name must be accepted");
    let handle = PolicyHandle::new(Arc::new(identity));
    assert_eq!(string_view_to_string(handle.get_name()), "caller.check.start");
}

#[test]
fn different_custom_names_do_not_collapse() {
    let a = CustomPolicyIdentity::from_view(OpenPitStringView::from_utf8("custom.a"), 0)
        .expect("name a");
    let b = CustomPolicyIdentity::from_view(OpenPitStringView::from_utf8("custom.b"), 0)
        .expect("name b");
    let handle_a = PolicyHandle::new(Arc::new(a));
    let handle_b = PolicyHandle::new(Arc::new(b));
    assert_eq!(string_view_to_string(handle_a.get_name()), "custom.a");
    assert_eq!(string_view_to_string(handle_b.get_name()), "custom.b");
    let shared = handle_a.share();
    drop(handle_a);
    assert_eq!(shared.name, "custom.a");
}

#[test]
fn identity_keeps_policy_group_id() {
    let identity = CustomPolicyIdentity::from_view(OpenPitStringView::from_utf8("grouped"), 9)
        .expect("name");
    assert_eq!(identity.policy_group_id, 9);
    assert_eq!(identity.name, "grouped");
}

#[test]
fn policy_name_reads_only_designated_bytes() {
    let bytes = b"abcdef";
    let name = parse_policy_name(OpenPitStringView {
        ptr: BytePtr::to(bytes),
        len: 2,
    });
    assert_eq!(name, Ok("ab".to_string()));
}

#[test]
fn cstr_arg_copies_valid_text_only() {
    assert_eq!(cstr_arg(OpenPitStringView::not_set()), None);
    assert_eq!(cstr_arg(OpenPitStringView::from_utf8("USD")), Some("USD".to_string()));
    let invalid = [0xc3_u8];
    assert_eq!(
        cstr_arg(OpenPitStringView {
            ptr: BytePtr::to(&invalid),
            len: 1
        }),
        None
    );
}

#[test]
fn settlement_asset_errors_name_the_entry() {
    assert_eq!(
        parse_settlement_asset(OpenPitStringView::not_set(), "asset", 0),
        Err("asset[0] settlement_asset is not set".to_string())
    );
    assert_eq!(
        parse_settlement_asset(OpenPitStringView::from_utf8("   "), "asset", 12),
        Err("asset[12] settlement_asset is invalid: asset must not be empty".to_string())
    );
    assert_eq!(
        parse_settlement_asset(OpenPitStringView::from_utf8("USD"), "asset", 3),
        Ok("USD".to_string())
    );
}

#[test]
fn optional_pnl_bound_parses_or_names_the_field() {
    assert_eq!(
        parse_optional_pnl(OpenPitParamPnlOptional::default(), "broker", 0, "lower_bound"),
        Ok(None)
    );
    assert_eq!(
        parse_optional_pnl(pnl("-500"), "broker", 0, "lower_bound"),
        Ok(Some(bits("-500")))
    );
    let bad = OpenPitParamPnlOptional {
        value: OpenPitParamPnl(OpenPitParamDecimal::from_parts(1, -1)),
        is_set: true,
    };
    assert_eq!(
        parse_optional_pnl(bad, "broker", 2, "upper_bound"),
        Err("broker[2] upper_bound is invalid: decimal scale must not be negative".to_string())
    );
}

#[test]
fn try_slice_arg_handles_null_and_length() {
    let items = [1u32, 2, 3];
    assert_eq!(try_slice_arg::<u32>(None, 0, "broker"), Ok(None));
    assert_eq!(
        try_slice_arg::<u32>(None, 1, "pnl_bounds_killswitch_policy broker"),
        Err("pnl_bounds_killswitch_policy broker is null".to_string())
    );
    assert_eq!(
        try_slice_arg::<u32>(None, 2, "pnl_bounds_killswitch_policy account"),
        Err("pnl_bounds_killswitch_policy account is null".to_string())
    );
    assert_eq!(try_slice_arg(Some(&items[..]), 2, "items"), Ok(Some(&items[..2])));
    assert_eq!(try_slice_arg(Some(&items[..]), 0, "items"), Ok(None));
}

#[test]
fn rate_limit_asset_barriers_parse_in_order() {
    let entries = [
        OpenPitPretradePoliciesRateLimitAssetBarrier {
            settlement_asset: OpenPitStringView::from_utf8("USD"),
            max_orders: 100,
            window_nanoseconds: 1_000_000_000,
        },
        OpenPitPretradePoliciesRateLimitAssetBarrier {
            settlement_asset: OpenPitStringView::from_utf8("EUR"),
            max_orders: 5,
            window_nanoseconds: 60_000_000_000,
        },
    ];
    let rules = parse_rate_limit_asset_barriers(&entries, "asset").expect("valid");
    assert_eq!(rules.len(), 2);
    assert_eq!(rules[0].settlement_asset, "USD");
    assert_eq!(rules[0].max_orders, 100);
    assert_eq!(rules[0].window_nanoseconds, 1_000_000_000);
    assert_eq!(rules[1].settlement_asset, "EUR");
    assert_eq!(rules[1].max_orders, 5);
}

#[test]
fn rate_limit_barrier_reports_first_bad_entry() {
    let entries = [
        OpenPitPretradePoliciesRateLimitAccountAssetBarrier {
            account_id: 42,
            settlement_asset: OpenPitStringView::from_utf8("USD"),
            max_orders: 200,
            window_nanoseconds: 100,
        },
        OpenPitPretradePoliciesRateLimitAccountAssetBarrier {
            account_id: 43,
            settlement_asset: OpenPitStringView::not_set(),
            max_orders: 200,
            window_nanoseconds: 100,
        },
        OpenPitPretradePoliciesRateLimitAccountAssetBarrier {
            account_id: 44,
            settlement_asset: OpenPitStringView::from_utf8(""),
            max_orders: 200,
            window_nanoseconds: 100,
        },
    ];
    assert_eq!(
        parse_rate_limit_account_asset_barriers(&entries, "account_asset"),
        Err("account_asset[1] settlement_asset is not set".to_string())
    );
    let ok = parse_rate_limit_account_asset_barriers(&entries[..1], "account_asset").expect("valid");
    assert_eq!(ok[0].account_id, 42);
    assert_eq!(ok[0].settlement_asset, "USD");
}

#[test]
fn order_size_limits_must_be_non_negative() {
    let broker = OpenPitPretradePoliciesOrderSizeBrokerBarrier {
        limit: limit("100", "10000"),
    };
    let rule = parse_order_size_broker_barrier(broker).expect("valid");
    assert_eq!(rule.max_quantity, bits("100"));
    assert_eq!(rule.max_notional, bits("10000"));

    let negative = OpenPitPretradePoliciesOrderSizeBrokerBarrier {
        limit: limit("-1", "10000"),
    };
    assert_eq!(
        parse_order_size_broker_barrier(negative),
        Err("broker max_quantity is invalid: value must not be negative".to_string())
    );
    let negative_notional = OpenPitPretradePoliciesOrderSizeBrokerBarrier {
        limit: limit("1", "-10"),
    };
    assert_eq!(
        parse_order_size_broker_barrier(negative_notional),
        Err("broker max_notional is invalid: value must not be negative".to_string())
    );
}

#[test]
fn order_size_asset_barriers_check_asset_then_limits() {
    let entries = [
        OpenPitPretradePoliciesOrderSizeAssetBarrier {
            limit: limit("100", "10000"),
            settlement_asset: OpenPitStringView::from_utf8("USD"),
        },
        OpenPitPretradePoliciesOrderSizeAssetBarrier {
            limit: limit("-5", "10000"),
            settlement_asset: OpenPitStringView::from_utf8("EUR"),
        },
    ];
    assert_eq!(
        parse_order_size_asset_barriers(&entries, "asset"),
        Err("asset[1] max_quantity is invalid: value must not be negative".to_string())
    );
    let rules = parse_order_size_asset_barriers(&entries[..1], "asset").expect("valid");
    assert_eq!(rules[0].settlement_asset, "USD");
    assert_eq!(rules[0].limit.max_quantity, bits("100"));

    let account_entries = [OpenPitPretradePoliciesOrderSizeAccountAssetBarrier {
        limit: limit("1", "2"),
        account_id: 9,
        settlement_asset: OpenPitStringView::from_utf8("USD"),
    }];
    let rules = parse_order_size_account_asset_barriers(&account_entries, "account_asset").expect("valid");
    assert_eq!(rules[0].account_id, 9);
    assert_eq!(rules[0].limit.max_notional, bits("2"));
}

#[test]
fn pnl_barriers_parse_bounds_and_initial_pnl() {
    let broker = [OpenPitPretradePoliciesPnlBoundsBarrier {
        settlement_asset: OpenPitStringView::from_utf8("USD"),
        lower_bound: pnl("-500"),
        upper_bound: OpenPitParamPnlOptional::default(),
    }];
    let rules = parse_pnl_broker_barriers(&broker, "broker").expect("valid");
    assert_eq!(rules[0].settlement_asset, "USD");
    assert_eq!(rules[0].lower_bound, Some(bits("-500")));
    assert_eq!(rules[0].upper_bound, None);

    let account = [OpenPitPretradePoliciesPnlBoundsAccountBarrier {
        account_id: 7,
        settlement_asset: OpenPitStringView::from_utf8("USD"),
        lower_bound: pnl("-100"),
        upper_bound: pnl("150"),
        initial_pnl: OpenPitParamPnl(decimal("10")),
    }];
    let rules = parse_pnl_account_barriers(&account, "account").expect("valid");
    assert_eq!(rules[0].account_id, 7);
    assert_eq!(rules[0].initial_pnl, bits("10"));
    assert_eq!(rules[0].bounds.upper_bound, Some(bits("150")));

    let bad_initial = [OpenPitPretradePoliciesPnlBoundsAccountBarrier {
        initial_pnl: OpenPitParamPnl(OpenPitParamDecimal::from_parts(1, 29)),
        ..account[0]
    }];
    assert_eq!(
        parse_pnl_account_barriers(&bad_initial, "account"),
        Err("account[0] initial_pnl is invalid: decimal scale must not exceed 28".to_string())
    );

    let updates = [OpenPitPretradePoliciesPnlBoundsAccountBarrierUpdate {
        account_id: 3,
        settlement_asset: OpenPitStringView::not_set(),
        lower_bound: OpenPitParamPnlOptional::default(),
        upper_bound: OpenPitParamPnlOptional::default(),
    }];
    assert_eq!(
        parse_pnl_account_barrier_updates(&updates, "account"),
        Err("account[0] settlement_asset is not set".to_string())
    );
}

#[test]
fn reject_list_result_accepts_none_and_empty() {
    assert_eq!(import_reject_list_result(None), Ok(()));
    assert_eq!(import_reject_list_result(Some(OpenPitRejectList::new(0))), Ok(()));
    let record = RejectRecord {
        policy: "policy".to_string(),
        reason: "reason".to_string(),
        details: "details".to_string(),
        user_data: 42,
        code: OpenPitRejectCode::Custom,
        scope: OpenPitRejectScope::Order,
    };
    let list = OpenPitRejectList::from_records(vec![record.clone()]);
    assert_eq!(import_reject_list_result(Some(list)), Err(vec![record]));
}

#[test]
fn dry_run_without_hook_delegates_to_normal_main_stage_hook() {
    assert_eq!(select_hook(true, false, true), HookCall::Normal);
    assert_eq!(select_hook(true, false, false), HookCall::Normal);
    assert_eq!(select_hook(false, false, true), HookCall::Accept);
}

#[test]
fn explicit_dry_run_hook_overrides_normal_main_stage_hook() {
    assert_eq!(select_hook(true, true, true), HookCall::DryRun);
    assert_eq!(select_hook(true, true, false), HookCall::Normal);
    assert_eq!(select_hook(false, true, false), HookCall::Accept);
}

#[test]
fn main_stage_outputs_decide_the_result() {
    let record = RejectRecord {
        policy: "p".to_string(),
        reason: "r".to_string(),
        details: "d".to_string(),
        user_data: 0,
        code: OpenPitRejectCode::Other,
        scope: OpenPitRejectScope::Order,
    };
    let rejected = main_stage_result::<u8, u8>(
        Some(OpenPitRejectList::from_records(vec![record.clone()])),
        vec![1],
        vec![],
    );
    assert_eq!(rejected, Err(vec![record.clone()]));
    assert_eq!(main_stage_result::<u8, u8>(None, vec![], vec![]), Ok(None));
    assert_eq!(
        main_stage_result::<u8, u8>(Some(OpenPitRejectList::new(0)), vec![7], vec![]),
        Ok(Some((vec![7], vec![])))
    );
    assert_eq!(
        account_adjustment_result(Some(OpenPitRejectList::from_records(vec![record.clone()])), vec![1u8]),
        Err(vec![record])
    );
    assert_eq!(account_adjustment_result(None, vec![1u8, 2]), Ok(vec![1, 2]));
    assert_eq!(post_trade_result::<u8, u8>(None, vec![]), None);
    assert_eq!(post_trade_result::<u8, u8>(Some(vec![3]), vec![]), Some((vec![3], vec![])));
    assert_eq!(post_trade_result::<u8, u8>(None, vec![4]), Some((vec![], vec![4])));
}

#[test]
fn add_policy_reports_null_builder() {
    let identity = CustomPolicyIdentity::from_view(OpenPitStringView::from_utf8("null.builder.check"), 0)
        .expect("name");
    let handle = PolicyHandle::new(Arc::new(identity));
    let result = openpit_engine_builder_add_pre_trade_policy(None, Some(&*handle));
    assert_eq!(result.err(), Some("engine builder is null".to_string()));
}

#[test]
fn add_policy_reports_null_policy() {
    let mut builder = BuilderPhase::Synced;
    let result = openpit_engine_builder_add_pre_trade_policy::<CustomPolicyIdentity>(Some(&mut builder), None);
    assert_eq!(result.err(), Some("policy is null".to_string()));
    assert_eq!(builder, BuilderPhase::Synced);
}

#[test]
fn added_policy_is_shared_and_builder_becomes_ready() {
    let identity = CustomPolicyIdentity::from_view(OpenPitStringView::from_utf8("caller.pretrade.add"), 3)
        .expect("name");
    let handle = PolicyHandle::new(Arc::new(identity));
    let mut builder = BuilderPhase::Synced;
    let shared = openpit_engine_builder_add_pre_trade_policy(Some(&mut builder), Some(&*handle))
        .expect("added");
    assert_eq!(shared.name, "caller.pretrade.add");
    assert_eq!(builder, BuilderPhase::Ready);
    assert_eq!(
        string_view_to_string(openpit_pretrade_pre_trade_policy_get_name(&handle)),
        "caller.pretrade.add"
    );
    builder = BuilderPhase::Consumed;
    assert_eq!(
        openpit_engine_builder_add_pre_trade_policy(Some(&mut builder), Some(&*handle)).err(),
        Some("engine builder is no longer available".to_string())
    );
}

#[test]
fn runtime_configuration_errors_are_validation_errors() {
    let rule = parse_configure_limit(limit("100", "10000"), "asset", 0).ok().expect("valid limit");
    assert_eq!(rule.max_quantity, bits("100"));
    let error = parse_configure_limit(limit("-1", "10000"), "asset", 2).err().expect("negative");
    assert_eq!(error.get_kind(), OpenPitConfigureErrorKind::Validation);
    assert_eq!(
        string_view_to_string(error.get_message()),
        "asset[2] max_quantity is invalid: value must not be negative"
    );
    assert_eq!(
        parse_configure_optional_pnl(OpenPitParamPnlOptional::default(), "broker", 0, "lower_bound")
            .ok(),
        Some(None)
    );
    let bad = OpenPitParamPnlOptional {
        value: OpenPitParamPnl(OpenPitParamDecimal::from_parts(1, 30)),
        is_set: true,
    };
    let error = parse_configure_optional_pnl(bad, "broker", 1, "upper_bound").err().expect("bad scale");
    assert_eq!(error.get_kind(), OpenPitConfigureErrorKind::Validation);
    assert_eq!(
        string_view_to_string(error.get_message()),
        "broker[1] upper_bound is invalid: decimal scale must not exceed 28"
    );
}

#[test]
fn add_builtin_pnl_bounds_killswitch_null_broker_with_positive_len_reports_error() {
    let res = pnl_bounds_killswitch_barriers(None, 1, None, 0);
    assert_eq!(
        res.err(),
        Some("pnl_bounds_killswitch_policy broker is null".to_string())
    );
}

#[test]
fn add_builtin_pnl_bounds_killswitch_null_account_with_positive_len_reports_error() {
    let res = pnl_bounds_killswitch_barriers(None, 0, None, 1);
    assert_eq!(
        res.err(),
        Some("pnl_bounds_killswitch_policy account is null".to_string())
    );
}

#[test]
fn pnl_bounds_killswitch_barriers_parse_broker_before_reading_account() {
    let broker = [OpenPitPretradePoliciesPnlBoundsBarrier {
        settlement_asset: OpenPitStringView::not_set(),
        lower_bound: pnl("-10000"),
        upper_bound: OpenPitParamPnlOptional::default(),
    }];
    // The broker entry is refused before the null account array is looked at.
    assert_eq!(
        pnl_bounds_killswitch_barriers(Some(&broker), 1, None, 1).err(),
        Some("broker[0] settlement_asset is not set".to_string())
    );
    let good = [OpenPitPretradePoliciesPnlBoundsBarrier {
        settlement_asset: OpenPitStringView::from_utf8("USD"),
        lower_bound: pnl("-10000"),
        upper_bound: OpenPitParamPnlOptional::default(),
    }];
    let account = [OpenPitPretradePoliciesPnlBoundsAccountBarrier {
        account_id: 7,
        settlement_asset: OpenPitStringView::from_utf8("EUR"),
        lower_bound: OpenPitParamPnlOptional::default(),
        upper_bound: pnl("500"),
        initial_pnl: OpenPitParamPnl(decimal("12.5")),
    }];
    let parsed = pnl_bounds_killswitch_barriers(Some(&good), 1, Some(&account), 1).expect("valid");
    assert_eq!(parsed.broker.len(), 1);
    assert_eq!(parsed.broker[0].settlement_asset, "USD");
    assert_eq!(parsed.broker[0].lower_bound, Some(bits("-10000")));
    assert_eq!(parsed.broker[0].upper_bound, None);
    assert_eq!(parsed.account.len(), 1);
    assert_eq!(parsed.account[0].account_id, 7);
    assert_eq!(parsed.account[0].bounds.settlement_asset, "EUR");
    assert_eq!(parsed.account[0].bounds.upper_bound, Some(bits("500")));
    assert_eq!(parsed.account[0].initial_pnl, bits("12.5"));
    let empty = pnl_bounds_killswitch_barriers(None, 0, None, 0).expect("empty arrays");
    assert!(empty.broker.is_empty() && empty.account.is_empty());
}

#[test]
fn rate_limit_barriers_read_all_arrays_before_parsing() {
    let bad_asset = [OpenPitPretradePoliciesRateLimitAssetBarrier {
        settlement_asset: OpenPitStringView::not_set(),
        max_orders: 1,
        window_nanoseconds: 1,
    }];
    // A null array is reported even when an earlier array holds a bad entry.
    assert_eq!(
        rate_limit_barriers(None, Some(&bad_asset), 1, None, 1, None, 0).err(),
        Some("rate_limit_policy account is null".to_string())
    );
    assert_eq!(
        rate_limit_barriers(None, None, 1, None, 0, None, 0).err(),
        Some("rate_limit_policy asset is null".to_string())
    );
    assert_eq!(
        rate_limit_barriers(None, None, 0, None, 0, None, 2).err(),
        Some("rate_limit_policy account_asset is null".to_string())
    );
    assert_eq!(
        rate_limit_barriers(None, Some(&bad_asset), 1, None, 0, None, 0).err(),
        Some("asset[0] settlement_asset is not set".to_string())
    );
    let broker = OpenPitPretradePoliciesRateLimitBrokerBarrier {
        max_orders: 10,
        window_nanoseconds: 1_000,
    };
    let account = [OpenPitPretradePoliciesRateLimitAccountBarrier {
        account_id: 99,
        max_orders: 3,
        window_nanoseconds: 2_000,
    }];
    let account_asset = [OpenPitPretradePoliciesRateLimitAccountAssetBarrier {
        account_id: 99,
        settlement_asset: OpenPitStringView::from_utf8("USD"),
        max_orders: 2,
        window_nanoseconds: 3_000,
    }];
    let parsed = rate_limit_barriers(Some(broker), None, 0, Some(&account), 1, Some(&account_asset), 1)
        .expect("valid");
    assert_eq!(parsed.broker, Some(broker));
    assert!(parsed.asset.is_empty());
    assert_eq!(parsed.account, vec![account[0]]);
    assert_eq!(parsed.account_asset.len(), 1);
    assert_eq!(parsed.account_asset[0].account_id, 99);
    assert_eq!(parsed.account_asset[0].settlement_asset, "USD");
    assert_eq!(parsed.account_asset[0].max_orders, 2);
    assert_eq!(parsed.account_asset[0].window_nanoseconds, 3_000);
}

#[test]
fn order_size_limit_barriers_check_broker_then_arrays() {
    let bad_broker = OpenPitPretradePoliciesOrderSizeBrokerBarrier {
        limit: limit("-1", "10"),
    };
    assert_eq!(
        order_size_limit_barriers(Some(bad_broker), None, 1, None, 0).err(),
        Some("order_size_limit_policy asset is null".to_string())
    );
    assert_eq!(
        order_size_limit_barriers(None, None, 0, None, 3).err(),
        Some("order_size_limit_policy account_asset is null".to_string())
    );
    let bad_asset = [OpenPitPretradePoliciesOrderSizeAssetBarrier {
        limit: limit("1", "-10"),
        settlement_asset: OpenPitStringView::from_utf8("USD"),
    }];
    let broker_error = order_size_limit_barriers(Some(bad_broker), Some(&bad_asset), 1, None, 0)
        .err()
        .expect("broker refused");
    assert!(broker_error.starts_with("broker max_quantity is invalid: "));
    let asset_error = order_size_limit_barriers(None, Some(&bad_asset), 1, None, 0)
        .err()
        .expect("asset refused");
    assert!(asset_error.starts_with("asset[0] max_notional is invalid: "));
    let broker = OpenPitPretradePoliciesOrderSizeBrokerBarrier {
        limit: limit("100", "10000"),
    };
    let account_asset = [OpenPitPretradePoliciesOrderSizeAccountAssetBarrier {
        limit: limit("5", "500"),
        account_id: 11,
        settlement_asset: OpenPitStringView::from_utf8("EUR"),
    }];
    let parsed = order_size_limit_barriers(Some(broker), None, 0, Some(&account_asset), 1).expect("valid");
    let broker_rule = parsed.broker.expect("broker limits");
    assert_eq!(broker_rule.max_quantity, bits("100"));
    assert_eq!(broker_rule.max_notional, bits("10000"));
    assert!(parsed.asset.is_empty());
    assert_eq!(parsed.account_asset.len(), 1);
    assert_eq!(parsed.account_asset[0].account_id, 11);
    assert_eq!(parsed.account_asset[0].settlement_asset, "EUR");
    assert_eq!(parsed.account_asset[0].limit.max_quantity, bits("5"));
}

#[test]
fn custom_pre_trade_policy_keeps_caller_name() {
    let identity = CustomPolicyIdentity::from_view(OpenPitStringView::from_utf8("caller.pretrade"), 0)
        .expect("name must be accepted");
    let handle = PolicyHandle::new(Arc::new(identity));
    let got = openpit_pretrade_pre_trade_policy_get_name(&*handle);
    assert_eq!(string_view_to_string(got), "caller.pretrade");
}
