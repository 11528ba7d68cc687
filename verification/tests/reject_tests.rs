use openpit::pretrade::RejectCode;
use openpit_ffi::reject::{
    openpit_create_reject_list, openpit_reject_list_get, openpit_reject_list_len,
    openpit_reject_list_push,
    parse_reject_code, parse_reject_scope, OpenPitReject, OpenPitRejectCode, OpenPitRejectList,
    OpenPitRejectScope, RejectRecord, RejectTextError,
};
use openpit_ffi::string::OpenPitStringView;

fn string_view_to_string(view: OpenPitStringView) -> String {
    match view.ptr.bytes() {
        None => String::new(),
        Some(bytes) => std::str::from_utf8(&bytes[..view.len])
            .expect("utf8")
            .to_string(),
    }
}

fn all_codes() -> Vec<(OpenPitRejectCode, RejectCode)> {
    vec![
        (OpenPitRejectCode::MissingRequiredField, RejectCode::MissingRequiredField),
        (OpenPitRejectCode::InvalidFieldFormat, RejectCode::InvalidFieldFormat),
        (OpenPitRejectCode::InvalidFieldValue, RejectCode::InvalidFieldValue),
        (OpenPitRejectCode::UnsupportedOrderType, RejectCode::UnsupportedOrderType),
        (OpenPitRejectCode::UnsupportedTimeInForce, RejectCode::UnsupportedTimeInForce),
        (OpenPitRejectCode::UnsupportedOrderAttribute, RejectCode::UnsupportedOrderAttribute),
        (OpenPitRejectCode::DuplicateClientOrderId, RejectCode::DuplicateClientOrderId),
        (OpenPitRejectCode::TooLateToEnter, RejectCode::TooLateToEnter),
        (OpenPitRejectCode::ExchangeClosed, RejectCode::ExchangeClosed),
        (OpenPitRejectCode::UnknownInstrument, RejectCode::UnknownInstrument),
        (OpenPitRejectCode::UnknownAccount, RejectCode::UnknownAccount),
        (OpenPitRejectCode::UnknownVenue, RejectCode::UnknownVenue),
        (OpenPitRejectCode::UnknownClearingAccount, RejectCode::UnknownClearingAccount),
        (OpenPitRejectCode::UnknownCollateralAsset, RejectCode::UnknownCollateralAsset),
        (OpenPitRejectCode::InsufficientFunds, RejectCode::InsufficientFunds),
        (OpenPitRejectCode::InsufficientMargin, RejectCode::InsufficientMargin),
        (OpenPitRejectCode::InsufficientPosition, RejectCode::InsufficientPosition),
        (OpenPitRejectCode::CreditLimitExceeded, RejectCode::CreditLimitExceeded),
        (OpenPitRejectCode::RiskLimitExceeded, RejectCode::RiskLimitExceeded),
        (OpenPitRejectCode::OrderExceedsLimit, RejectCode::OrderExceedsLimit),
        (OpenPitRejectCode::OrderQtyExceedsLimit, RejectCode::OrderQtyExceedsLimit),
        (OpenPitRejectCode::OrderNotionalExceedsLimit, RejectCode::OrderNotionalExceedsLimit),
        (OpenPitRejectCode::PositionLimitExceeded, RejectCode::PositionLimitExceeded),
        (OpenPitRejectCode::ConcentrationLimitExceeded, RejectCode::ConcentrationLimitExceeded),
        (OpenPitRejectCode::LeverageLimitExceeded, RejectCode::LeverageLimitExceeded),
        (OpenPitRejectCode::RateLimitExceeded, RejectCode::RateLimitExceeded),
        (OpenPitRejectCode::PnlKillSwitchTriggered, RejectCode::PnlKillSwitchTriggered),
        (OpenPitRejectCode::AccountBlocked, RejectCode::AccountBlocked),
        (OpenPitRejectCode::AccountNotAuthorized, RejectCode::AccountNotAuthorized),
        (OpenPitRejectCode::ComplianceRestriction, RejectCode::ComplianceRestriction),
        (OpenPitRejectCode::InstrumentRestricted, RejectCode::InstrumentRestricted),
        (OpenPitRejectCode::JurisdictionRestriction, RejectCode::JurisdictionRestriction),
        (OpenPitRejectCode::WashTradePrevention, RejectCode::WashTradePrevention),
        (OpenPitRejectCode::SelfMatchPrevention, RejectCode::SelfMatchPrevention),
        (OpenPitRejectCode::ShortSaleRestriction, RejectCode::ShortSaleRestriction),
        (OpenPitRejectCode::RiskConfigurationMissing, RejectCode::RiskConfigurationMissing),
        (OpenPitRejectCode::ReferenceDataUnavailable, RejectCode::ReferenceDataUnavailable),
        (OpenPitRejectCode::OrderValueCalculationFailed, RejectCode::OrderValueCalculationFailed),
        (OpenPitRejectCode::SystemUnavailable, RejectCode::SystemUnavailable),
        (OpenPitRejectCode::Custom, RejectCode::Custom),
        (OpenPitRejectCode::Other, RejectCode::Other),
    ]
}

fn record(policy: &str, code: OpenPitRejectCode, scope: OpenPitRejectScope) -> RejectRecord {
    RejectRecord {
        policy: policy.to_string(),
        reason: "reason".to_string(),
        details: "details".to_string(),
        user_data: 0,
        code,
        scope,
    }
}

#[test]
fn export_reject_keeps_borrowed_views() {
    let reject = record("test_policy", OpenPitRejectCode::Other, OpenPitRejectScope::Order);
    let exported = OpenPitReject::from_reject(&reject);
    assert_eq!(string_view_to_string(exported.policy), "test_policy");
    assert_eq!(string_view_to_string(exported.reason), "reason");
    assert_eq!(string_view_to_string(exported.details), "details");
    assert_eq!(exported.user_data, 0);
}

#[test]
fn reject_list_push_len_get_roundtrip() {
    let mut list = OpenPitRejectList::new(1);
    let reject = OpenPitReject {
        policy: OpenPitStringView::from_utf8("policy"),
        reason: OpenPitStringView::from_utf8("reason"),
        details: OpenPitStringView::from_utf8("details"),
        user_data: 55,
        code: OpenPitRejectCode::Other,
        scope: OpenPitRejectScope::Order,
    };
    list.push(reject);
    assert_eq!(list.len(), 1);
    assert_eq!(list.records()[0].user_data, 55);
    let first = list.get(0).expect("first reject");
    assert_eq!(first.code, OpenPitRejectCode::Other);
    assert_eq!(first.user_data, 55);
    assert_eq!(string_view_to_string(first.policy), "policy");
    assert!(list.get(1).is_none());
}

#[test]
fn import_reject_copies_view_payload() {
    let view = OpenPitReject {
        policy: OpenPitStringView::from_utf8("policy"),
        reason: OpenPitStringView::from_utf8("reason"),
        details: OpenPitStringView::from_utf8("details"),
        user_data: 77,
        code: OpenPitRejectCode::RateLimitExceeded,
        scope: OpenPitRejectScope::Account,
    };
    let imported = view.to_reject();
    assert_eq!(imported.policy, "policy");
    assert_eq!(imported.reason, "reason");
    assert_eq!(imported.details, "details");
    assert_eq!(imported.user_data, 77);
    assert_eq!(imported.code, OpenPitRejectCode::RateLimitExceeded);
    assert_eq!(imported.scope, OpenPitRejectScope::Account);
}

#[test]
fn reject_code_roundtrip_covers_all_ffi_variants() {
    for (code, domain) in all_codes() {
        assert_eq!(OpenPitRejectCode::from_value(code.value()), code);
        assert_eq!(code.as_str(), domain.as_str());
    }
}

#[test]
fn reject_code_wire_values_are_stable() {
    assert_eq!(OpenPitRejectCode::MissingRequiredField.value(), 1);
    assert_eq!(OpenPitRejectCode::SystemUnavailable.value(), 39);
    assert_eq!(OpenPitRejectCode::Custom.value(), 254);
    assert_eq!(OpenPitRejectCode::Other.value(), 255);
    assert_eq!(OpenPitRejectCode::from_value(0), OpenPitRejectCode::Other);
    assert_eq!(OpenPitRejectCode::from_value(40), OpenPitRejectCode::Other);
    assert_eq!(OpenPitRejectCode::from_value(26), OpenPitRejectCode::RateLimitExceeded);
}

#[test]
fn reject_scope_wire_values_are_stable() {
    assert_eq!(OpenPitRejectScope::Order.value(), 1);
    assert_eq!(OpenPitRejectScope::Account.value(), 2);
    assert_eq!(OpenPitRejectScope::from_value(2), Some(OpenPitRejectScope::Account));
    assert_eq!(OpenPitRejectScope::from_value(0), None);
}

#[test]
fn parse_reject_code_accepts_every_name_but_custom() {
    for (code, domain) in all_codes() {
        let parsed = parse_reject_code(domain.as_str());
        if code == OpenPitRejectCode::Custom {
            assert_eq!(parsed, Err(RejectTextError::UnsupportedCode));
        } else {
            assert_eq!(parsed, Ok(code));
        }
    }
    assert_eq!(
        parse_reject_code("rateLimitExceeded"),
        Err(RejectTextError::UnsupportedCode)
    );
    assert_eq!(parse_reject_code(""), Err(RejectTextError::UnsupportedCode));
}

#[test]
fn parse_reject_scope_ignores_case_and_padding() {
    assert_eq!(parse_reject_scope(" Order\t"), Ok(OpenPitRejectScope::Order));
    assert_eq!(parse_reject_scope("ACCOUNT"), Ok(OpenPitRejectScope::Account));
    assert_eq!(parse_reject_scope("orders"), Err(RejectTextError::InvalidScope));
}

#[test]
fn reject_view_round_trip_restores_record() {
    let original = record("p", OpenPitRejectCode::AccountBlocked, OpenPitRejectScope::Account);
    let view = OpenPitReject::from_reject(&original);
    assert_eq!(view.to_reject(), original);
}

#[test]
fn c_reject_list_entry_points() {
    let mut list = openpit_create_reject_list(2);
    assert_eq!(openpit_reject_list_len(&list), 0);
    let policy = "policy".to_string();
    let reason = "reason".to_string();
    let details = "details".to_string();
    openpit_reject_list_push(
        &mut list,
        OpenPitReject {
            policy: OpenPitStringView::from_utf8(&policy),
            reason: OpenPitStringView::from_utf8(&reason),
            details: OpenPitStringView::from_utf8(&details),
            user_data: 55,
            code: OpenPitRejectCode::RateLimitExceeded,
            scope: OpenPitRejectScope::Account,
        },
    );
    assert_eq!(openpit_reject_list_len(&list), 1);
    let got = openpit_reject_list_get(&list, 0).expect("reject");
    assert_eq!(string_view_to_string(got.policy), "policy");
    assert_eq!(got.user_data, 55);
    assert!(openpit_reject_list_get(&list, 1).is_none());
}
