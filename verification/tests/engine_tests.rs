use openpit_ffi::account_adjustment::{
    OpenPitAccountAdjustment, OpenPitAccountAdjustmentAmountOptional,
    OpenPitAccountAdjustmentBalanceOperationOptional, OpenPitAccountAdjustmentBoundsOptional,
    OpenPitAccountAdjustmentPositionOperation, OpenPitAccountAdjustmentPositionOperationOptional,
};
use openpit_ffi::engine::{
    account_adjustment_batch, account_block_group, account_group_request,
    openpit_pretrade_pre_trade_request_execute, pre_trade_status, OpenPitPretradeStatus, RequestPhase, import_account_adjustments, import_reason,
    invalid_sync_policy_error, openpit_create_engine_builder, openpit_engine_builder_build,
    AccountBlockFailure, AccountGroupFailure, AccountGroupRequestError,
    BuilderError,
    BuilderPhase, OpenPitAccountAdjustmentBatchError, OpenPitAccountBlockError,
    OpenPitAccountBlockErrorKind, OpenPitAccountGroupError, OpenPitConfigureError,
    OpenPitConfigureErrorKind, OpenPitEngineBuildError, OpenPitEngineBuildErrorCode,
    OpenPitSyncPolicy,
};
use openpit_ffi::instrument::OpenPitInstrument;
use openpit_ffi::param::{OpenPitParamPositionMode, OpenPitParamPriceOptional};
use openpit_ffi::reject::{OpenPitRejectCode, OpenPitRejectList, OpenPitRejectScope, RejectRecord};
use openpit_ffi::string::{BytePtr, OpenPitStringView};

fn string_view_to_string(view: OpenPitStringView) -> String {
    match view.ptr.bytes() {
        None => String::new(),
        Some(bytes) => std::str::from_utf8(&bytes[..view.len])
            .expect("utf8")
            .to_string(),
    }
}

#[test]
fn create_engine_builder_invalid_sync_policy_returns_null() {
    let result = OpenPitSyncPolicy::from_byte(99);
    assert_eq!(result, Err(99));
    let msg = invalid_sync_policy_error(99);
    assert!(
        msg.contains("invalid sync_policy byte 99"),
        "unexpected error message: {msg}"
    );
    assert_eq!(
        msg,
        "openpit_create_engine_builder: invalid sync_policy byte 99, expected 0..=2"
    );
}

#[test]
fn create_engine_builder_invalid_sync_policy_tolerates_null_out_error() {
    assert!(OpenPitSyncPolicy::from_byte(7).is_err());
}

#[test]
fn create_engine_builder_accepts_valid_sync_policies() {
    for (byte, expected) in [
        (0u8, OpenPitSyncPolicy::NoSync),
        (1u8, OpenPitSyncPolicy::Full),
        (2u8, OpenPitSyncPolicy::Account),
    ] {
        let policy = OpenPitSyncPolicy::from_byte(byte);
        assert!(policy.is_ok(), "byte={byte} produced null builder");
        assert_eq!(policy, Ok(expected), "byte={byte} produced unexpected error");
    }
}

#[test]
fn invalid_sync_policy_message_for_largest_byte() {
    assert_eq!(OpenPitSyncPolicy::from_byte(255), Err(255));
    assert_eq!(
        invalid_sync_policy_error(255),
        "openpit_create_engine_builder: invalid sync_policy byte 255, expected 0..=2"
    );
    assert_eq!(
        invalid_sync_policy_error(3),
        "openpit_create_engine_builder: invalid sync_policy byte 3, expected 0..=2"
    );
}

#[test]
fn engine_builder_build_reports_null_consumed_and_validation_errors() {
    let mut builder = BuilderPhase::Synced;
    assert_eq!(builder.add_policy(), Ok(()));
    assert_eq!(builder, BuilderPhase::Ready);
    assert_eq!(builder.start_build(), Ok(()));
    assert_eq!(builder, BuilderPhase::Consumed);
    assert_eq!(builder.start_build(), Err(BuilderError::AlreadyConsumed));
    assert_eq!(builder, BuilderPhase::Consumed);

    let build_error = OpenPitEngineBuildError::duplicate_policy_name("dup.start".to_string());
    assert_eq!(
        build_error.get_code(),
        OpenPitEngineBuildErrorCode::DuplicatePolicyName
    );
    assert_eq!(
        string_view_to_string(build_error.get_policy_name()),
        "dup.start"
    );
    assert_eq!(build_error.get_policy_group_id(), 0);
}

#[test]
fn add_policy_on_consumed_builder_returns_error() {
    let mut builder = BuilderPhase::Synced;
    assert_eq!(builder.add_policy(), Ok(()));
    assert_eq!(builder.start_build(), Ok(()));
    let refused = builder.add_policy();
    assert_eq!(refused, Err(BuilderError::NoLongerAvailable));
    assert_eq!(
        BuilderError::NoLongerAvailable.message(),
        "engine builder is no longer available"
    );
    assert_eq!(builder, BuilderPhase::Consumed);
}

#[test]
fn building_without_policies_is_refused_and_consumes() {
    let mut builder = BuilderPhase::Synced;
    assert_eq!(builder.start_build(), Err(BuilderError::NoPolicies));
    assert_eq!(builder, BuilderPhase::Consumed);
    assert_eq!(builder.add_policy(), Err(BuilderError::NoLongerAvailable));
    assert_eq!(BuilderError::NoPolicies.message(), "no policies registered");
    assert_eq!(
        BuilderError::AlreadyConsumed.message(),
        "engine builder already consumed"
    );
}

#[test]
fn build_error_other_variants_carry_their_payload() {
    let by_group = OpenPitEngineBuildError::duplicate_policy_group_id(7);
    assert_eq!(
        by_group.get_code(),
        OpenPitEngineBuildErrorCode::DuplicatePolicyGroupId
    );
    assert_eq!(by_group.get_policy_group_id(), 7);
    assert_eq!(string_view_to_string(by_group.get_policy_name()), "");

    let other = OpenPitEngineBuildError::other();
    assert_eq!(other.get_code(), OpenPitEngineBuildErrorCode::Other);
    assert_eq!(other.get_policy_group_id(), 0);
    assert_eq!(string_view_to_string(other.get_policy_name()), "");
}

#[test]
fn apply_account_adjustment_accepts_null_when_batch_is_empty() {
    let imported = account_adjustment_batch(None, 0).expect("empty batch imports");
    assert!(imported.is_empty());
    assert!(import_account_adjustments(&[]).expect("empty slice").is_empty());
}

#[test]
fn apply_account_adjustment_reports_import_error_for_incomplete_payload() {
    let invalid = OpenPitAccountAdjustment {
        balance_operation: OpenPitAccountAdjustmentBalanceOperationOptional::default(),
        position_operation: OpenPitAccountAdjustmentPositionOperationOptional {
            value: OpenPitAccountAdjustmentPositionOperation {
                instrument: OpenPitInstrument {
                    underlying_asset: OpenPitStringView::from_utf8("SPX"),
                    settlement_asset: OpenPitStringView::not_set(),
                },
                collateral_asset: OpenPitStringView::not_set(),
                average_entry_price: OpenPitParamPriceOptional::default(),
                leverage: 0,
                mode: OpenPitParamPositionMode::Hedged,
            },
            is_set: true,
        },
        amount: OpenPitAccountAdjustmentAmountOptional::default(),
        bounds: OpenPitAccountAdjustmentBoundsOptional::default(),
        user_data: 0,
    };
    let batch = [invalid];
    let error = account_adjustment_batch(Some(&batch[..]), batch.len()).expect_err("import must fail");
    assert!(error.contains("both underlying_asset and settlement_asset"));
}

#[test]
fn batch_error_keeps_index_and_rejects() {
    let mut rejects = OpenPitRejectList::new(1);
    rejects.push_record(RejectRecord {
        policy: "test_policy".to_string(),
        reason: "test_reason".to_string(),
        details: "test_details".to_string(),
        user_data: 5,
        code: OpenPitRejectCode::RiskLimitExceeded,
        scope: OpenPitRejectScope::Account,
    });
    let error = OpenPitAccountAdjustmentBatchError::new(3, rejects);
    assert_eq!(error.get_failed_adjustment_index(), 3);
    assert_eq!(error.get_rejects().len(), 1);
    let first = error.get_rejects().get(0).expect("reject present");
    assert_eq!(string_view_to_string(first.policy), "test_policy");
    assert_eq!(string_view_to_string(first.reason), "test_reason");
    assert_eq!(string_view_to_string(first.details), "test_details");
    assert_eq!(first.code, OpenPitRejectCode::RiskLimitExceeded);
    assert_eq!(first.scope, OpenPitRejectScope::Account);
    assert_eq!(first.user_data, 5);
}

#[test]
fn account_group_error_reports_current_group_when_set() {
    let error = OpenPitAccountGroupError::new(AccountGroupFailure::AlreadyRegistered {
        account: 7,
        current_group: 3,
    });
    assert_eq!(
        string_view_to_string(error.get_message()),
        "account is already registered in a different group"
    );
    assert_eq!(error.get_account(), 7);
    assert_eq!(error.get_current_group(), Some(3));

    let ungrouped = OpenPitAccountGroupError::new(AccountGroupFailure::NotInGroup {
        account: 8,
        requested_group: 2,
        current_group: None,
    });
    assert_eq!(ungrouped.get_current_group(), None);
    assert_eq!(ungrouped.get_account(), 8);
    assert_eq!(
        string_view_to_string(ungrouped.get_message()),
        "account is not in the requested group; it belongs to no group"
    );

    let elsewhere = OpenPitAccountGroupError::new(AccountGroupFailure::NotInGroup {
        account: 9,
        requested_group: 2,
        current_group: Some(5),
    });
    assert_eq!(elsewhere.get_current_group(), Some(5));
    assert_eq!(
        string_view_to_string(elsewhere.get_message()),
        "account is not in the requested group; it belongs to a different group"
    );

    let reserved = OpenPitAccountGroupError::new(AccountGroupFailure::ReservedGroup);
    assert_eq!(reserved.get_account(), 0);
    assert_eq!(reserved.get_current_group(), None);
    assert_eq!(
        string_view_to_string(reserved.get_message()),
        "the reserved default account group is not a valid target"
    );
}

#[test]
fn account_block_error_kinds_and_payloads() {
    let account = OpenPitAccountBlockError::new(AccountBlockFailure::AccountNotBlocked { account: 7 });
    assert_eq!(account.get_kind(), OpenPitAccountBlockErrorKind::AccountNotBlocked);
    assert_eq!(account.get_account(), Some(7));
    assert_eq!(account.get_group(), None);
    assert_eq!(string_view_to_string(account.get_message()), "account is not blocked");

    let group = OpenPitAccountBlockError::new(AccountBlockFailure::GroupNotBlocked { group: 4 });
    assert_eq!(group.get_kind(), OpenPitAccountBlockErrorKind::GroupNotBlocked);
    assert_eq!(group.get_account(), None);
    assert_eq!(group.get_group(), Some(4));
    assert_eq!(string_view_to_string(group.get_message()), "account group is not blocked");

    let reserved = OpenPitAccountBlockError::new(AccountBlockFailure::ReservedGroup);
    assert_eq!(reserved.get_kind(), OpenPitAccountBlockErrorKind::ReservedGroup);
    assert_eq!(reserved.get_account(), None);
    assert_eq!(reserved.get_group(), None);
}

#[test]
fn account_group_request_checks_accounts_then_group() {
    let accounts = [7u64, 8, 9];
    match account_group_request(None, 1, 1) {
        Err(AccountGroupRequestError::Argument(m)) => assert_eq!(m, "accounts is null"),
        _ => panic!("null accounts with a length must be refused"),
    }
    match account_group_request(None, 0, 0) {
        Err(AccountGroupRequestError::Group(e)) => {
            assert_eq!(
                string_view_to_string(e.get_message()),
                "the reserved default account group is not a valid target"
            );
            assert_eq!(e.get_current_group(), None);
        }
        _ => panic!("the default group must be refused"),
    }
    match account_group_request(Some(&accounts[..]), 2, 5) {
        Ok((ids, group)) => {
            assert_eq!(ids, vec![7, 8]);
            assert_eq!(group, 5);
        }
        _ => panic!("valid request"),
    }
    match account_group_request(None, 0, 1) {
        Ok((ids, group)) => {
            assert!(ids.is_empty());
            assert_eq!(group, 1);
        }
        _ => panic!("empty request"),
    }
}

#[test]
fn block_operations_refuse_the_default_group() {
    let refused = account_block_group(0).err().expect("reserved group");
    assert_eq!(refused.get_kind(), OpenPitAccountBlockErrorKind::ReservedGroup);
    assert_eq!(account_block_group(1).ok(), Some(1));
}

#[test]
fn configure_error_keeps_message_and_kind() {
    let error = OpenPitConfigureError::validation("window must be positive".to_string());
    assert_eq!(error.get_kind(), OpenPitConfigureErrorKind::Validation);
    assert_eq!(
        string_view_to_string(error.get_message()),
        "window must be positive"
    );
    let unknown = OpenPitConfigureError::new("NoSuchPolicy".to_string(), OpenPitConfigureErrorKind::Unknown);
    assert_eq!(unknown.get_kind(), OpenPitConfigureErrorKind::Unknown);
    assert_eq!(string_view_to_string(unknown.get_message()), "NoSuchPolicy");
}

#[test]
fn import_reason_handles_null_empty_and_invalid_bytes() {
    assert_eq!(import_reason(OpenPitStringView::not_set()), "");
    let bytes = b"reason";
    assert_eq!(
        import_reason(OpenPitStringView {
            ptr: BytePtr::to(bytes),
            len: 0
        }),
        ""
    );
    assert_eq!(import_reason(OpenPitStringView::from_utf8("reason")), "reason");
    let invalid = [b'r', 0xfe];
    assert_eq!(
        import_reason(OpenPitStringView {
            ptr: BytePtr::to(&invalid),
            len: invalid.len()
        }),
        "r\u{FFFD}"
    );
}

#[test]
fn c_builder_entry_points() {
    assert_eq!(openpit_create_engine_builder(1), Ok(OpenPitSyncPolicy::Full));
    assert_eq!(
        openpit_create_engine_builder(99),
        Err("openpit_create_engine_builder: invalid sync_policy byte 99, expected 0..=2".to_string())
    );
    assert_eq!(
        openpit_engine_builder_build(None),
        Err("engine builder is null".to_string())
    );
    let mut builder = BuilderPhase::Synced;
    assert_eq!(
        openpit_engine_builder_build(Some(&mut builder)),
        Err("no policies registered".to_string())
    );
    assert_eq!(
        openpit_engine_builder_build(Some(&mut builder)),
        Err("engine builder already consumed".to_string())
    );
    let mut ready = BuilderPhase::Ready;
    assert_eq!(openpit_engine_builder_build(Some(&mut ready)), Ok(()));
    assert_eq!(ready, BuilderPhase::Consumed);
}

#[test]
fn apply_account_adjustment_rejects_null_when_batch_is_non_empty() {
    let result = account_adjustment_batch(None, 1);
    assert_eq!(result.err(), Some("adjustments is null".to_string()));
}

#[test]
fn empty_adjustment_batch_accepts_null() {
    let result = account_adjustment_batch(None, 0).expect("empty batch");
    assert!(result.is_empty());
}

#[test]
fn request_executes_once() {
    assert_eq!(
        openpit_pretrade_pre_trade_request_execute(None),
        Err("request is null".to_string())
    );
    let mut request = RequestPhase::Pending;
    assert_eq!(openpit_pretrade_pre_trade_request_execute(Some(&mut request)), Ok(()));
    assert_eq!(request, RequestPhase::Consumed);
    assert_eq!(
        openpit_pretrade_pre_trade_request_execute(Some(&mut request)),
        Err("pre-trade request already consumed".to_string())
    );
    assert_eq!(pre_trade_status::<u8, u8>(&Ok(1)), OpenPitPretradeStatus::Passed);
    assert_eq!(pre_trade_status::<u8, u8>(&Err(1)), OpenPitPretradeStatus::Rejected);
}

#[test]
fn request_execute_covers_success_reject_and_consumed_paths() {
    let mut request = RequestPhase::Pending;
    // First execution goes ahead; a passing engine answer reports Passed.
    assert_eq!(openpit_pretrade_pre_trade_request_execute(Some(&mut request)), Ok(()));
    assert_eq!(pre_trade_status::<(), ()>(&Ok(())), OpenPitPretradeStatus::Passed);
    // Executing the consumed request again is an error.
    assert!(openpit_pretrade_pre_trade_request_execute(Some(&mut request)).is_err());
    assert_eq!(request, RequestPhase::Consumed);
    // A fresh request whose engine answer rejects reports Rejected.
    let mut reject_request = RequestPhase::Pending;
    assert_eq!(openpit_pretrade_pre_trade_request_execute(Some(&mut reject_request)), Ok(()));
    assert_eq!(pre_trade_status::<(), ()>(&Err(())), OpenPitPretradeStatus::Rejected);
}
