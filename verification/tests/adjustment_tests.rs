use std::str::FromStr;

use openpit_ffi::account_adjustment::{
    export_account_adjustment, import_account_adjustment, import_leverage, AccountAdjustment,
    AccountAdjustmentAmount, AccountAdjustmentBalanceOperation, AccountAdjustmentBounds,
    AccountAdjustmentOperation, AccountAdjustmentPositionOperation, AdjustmentAmount,
    OpenPitAccountAdjustment, OpenPitAccountAdjustmentAmount,
    OpenPitAccountAdjustmentAmountOptional, OpenPitAccountAdjustmentBalanceOperation,
    OpenPitAccountAdjustmentBalanceOperationOptional, OpenPitAccountAdjustmentBounds,
    OpenPitAccountAdjustmentBoundsOptional, OpenPitAccountAdjustmentPositionOperation,
    OpenPitAccountAdjustmentPositionOperationOptional, OpenPitParamAdjustmentAmount, PositionMode,
};
use openpit_ffi::instrument::{InstrumentAssets, OpenPitInstrument};
use openpit_ffi::param::{
    OpenPitParamAdjustmentAmountKind, OpenPitParamDecimal, OpenPitParamPositionMode,
    OpenPitParamPositionSize, OpenPitParamPositionSizeOptional, OpenPitParamPrice,
    OpenPitParamPriceOptional,
};
use openpit_ffi::string::{BytePtr, OpenPitStringView};
use rust_decimal::Decimal;

fn decimal(value: &str) -> OpenPitParamDecimal {
    let d = Decimal::from_str(value).expect("decimal");
    OpenPitParamDecimal::from_parts(d.mantissa(), d.scale() as i32)
}

fn bits(value: &str) -> [u8; 16] {
    Decimal::from_str(value).expect("decimal").serialize()
}

fn view(bytes: &[u8]) -> OpenPitStringView<'_> {
    OpenPitStringView {
        ptr: BytePtr::to(bytes),
        len: bytes.len(),
    }
}

fn size(value: &str) -> OpenPitParamPositionSizeOptional {
    OpenPitParamPositionSizeOptional {
        is_set: true,
        value: OpenPitParamPositionSize(decimal(value)),
    }
}

fn sample_balance_adjustment() -> OpenPitAccountAdjustment<'static> {
    OpenPitAccountAdjustment {
        balance_operation: OpenPitAccountAdjustmentBalanceOperationOptional {
            value: OpenPitAccountAdjustmentBalanceOperation {
                asset: view(b"USD"),
                average_entry_price: OpenPitParamPriceOptional {
                    value: OpenPitParamPrice(decimal("10")),
                    is_set: true,
                },
            },
            is_set: true,
        },
        position_operation: OpenPitAccountAdjustmentPositionOperationOptional::default(),
        amount: OpenPitAccountAdjustmentAmountOptional {
            is_set: true,
            value: OpenPitAccountAdjustmentAmount {
                total: OpenPitParamAdjustmentAmount {
                    value: OpenPitParamPositionSize(decimal("1")),
                    kind: OpenPitParamAdjustmentAmountKind::Delta,
                },
                reserved: OpenPitParamAdjustmentAmount {
                    value: OpenPitParamPositionSize(decimal("2")),
                    kind: OpenPitParamAdjustmentAmountKind::Absolute,
                },
                pending: OpenPitParamAdjustmentAmount::default(),
            },
        },
        bounds: OpenPitAccountAdjustmentBoundsOptional {
            is_set: true,
            value: OpenPitAccountAdjustmentBounds {
                total_upper: size("100"),
                total_lower: OpenPitParamPositionSizeOptional::default(),
                reserved_upper: OpenPitParamPositionSizeOptional::default(),
                reserved_lower: OpenPitParamPositionSizeOptional::default(),
                pending_upper: OpenPitParamPositionSizeOptional::default(),
                pending_lower: OpenPitParamPositionSizeOptional::default(),
            },
        },
        user_data: 0,
    }
}

#[test]
fn import_account_adjustment_accepts_balance_payload() {
    let imported = import_account_adjustment(&sample_balance_adjustment()).expect("import");
    assert_eq!(
        imported.operation,
        AccountAdjustmentOperation::Balance(AccountAdjustmentBalanceOperation {
            asset: "USD".to_string(),
            average_entry_price: Some(bits("10")),
        })
    );
    assert_eq!(
        imported.amount,
        Some(AccountAdjustmentAmount {
            total: Some(AdjustmentAmount::Delta(bits("1"))),
            reserved: Some(AdjustmentAmount::Absolute(bits("2"))),
            pending: None,
        })
    );
    assert_eq!(
        imported.bounds,
        Some(AccountAdjustmentBounds {
            total_upper: Some(bits("100")),
            total_lower: None,
            reserved_upper: None,
            reserved_lower: None,
            pending_upper: None,
            pending_lower: None,
        })
    );
}

fn position_payload(mode: OpenPitParamPositionMode) -> OpenPitAccountAdjustmentPositionOperationOptional<'static> {
    OpenPitAccountAdjustmentPositionOperationOptional {
        value: OpenPitAccountAdjustmentPositionOperation {
            instrument: OpenPitInstrument {
                underlying_asset: view(b"AAPL"),
                settlement_asset: view(b"USD"),
            },
            collateral_asset: view(b"USD"),
            average_entry_price: OpenPitParamPriceOptional {
                is_set: true,
                value: OpenPitParamPrice(decimal("1")),
            },
            leverage: 10,
            mode,
        },
        is_set: true,
    }
}

#[test]
fn import_account_adjustment_rejects_both_operations() {
    let mut input = sample_balance_adjustment();
    input.position_operation = position_payload(OpenPitParamPositionMode::Netting);
    let error = import_account_adjustment(&input).expect_err("must fail");
    assert!(error.contains("both balance and position operation"));
}

#[test]
fn import_account_adjustment_rejects_incomplete_position_payload() {
    let input = OpenPitAccountAdjustment {
        balance_operation: OpenPitAccountAdjustmentBalanceOperationOptional::default(),
        position_operation: OpenPitAccountAdjustmentPositionOperationOptional {
            value: OpenPitAccountAdjustmentPositionOperation {
                instrument: OpenPitInstrument::default(),
                collateral_asset: OpenPitStringView::not_set(),
                average_entry_price: OpenPitParamPriceOptional::default(),
                leverage: 10,
                mode: OpenPitParamPositionMode::Hedged,
            },
            is_set: true,
        },
        amount: OpenPitAccountAdjustmentAmountOptional::default(),
        bounds: OpenPitAccountAdjustmentBoundsOptional::default(),
        user_data: 0,
    };
    let error = import_account_adjustment(&input).expect_err("must fail");
    assert!(error.contains("position.instrument is not set"));
}

#[test]
fn export_account_adjustment_produces_operation_specific_group() {
    let domain = AccountAdjustment {
        operation: AccountAdjustmentOperation::Position(AccountAdjustmentPositionOperation {
            instrument: InstrumentAssets {
                underlying_asset: "SPX".to_string(),
                settlement_asset: "USD".to_string(),
            },
            collateral_asset: "EUR".to_string(),
            average_entry_price: bits("5"),
            mode: PositionMode::Hedged,
            leverage: None,
        }),
        amount: None,
        bounds: None,
        user_data: 0,
    };
    let exported = export_account_adjustment(&domain);
    assert_eq!(
        exported.balance_operation,
        OpenPitAccountAdjustmentBalanceOperationOptional::default()
    );
    assert!(exported.position_operation.is_set);
    assert_eq!(exported.position_operation.value.instrument.underlying_asset.len, 3);
    assert_eq!(exported.position_operation.value.instrument.settlement_asset.len, 3);
    assert_eq!(exported.position_operation.value.collateral_asset.len, 3);
    assert!(exported.position_operation.value.average_entry_price.is_set);
    assert_eq!(
        exported.position_operation.value.mode,
        OpenPitParamPositionMode::Hedged
    );
    assert_eq!(exported.position_operation.value.leverage, 0);
}

#[test]
fn import_export_account_adjustment_roundtrip() {
    let domain = AccountAdjustment {
        operation: AccountAdjustmentOperation::Absent,
        amount: Some(AccountAdjustmentAmount {
            total: Some(AdjustmentAmount::Absolute(bits("4"))),
            reserved: None,
            pending: Some(AdjustmentAmount::Delta(bits("1"))),
        }),
        bounds: Some(AccountAdjustmentBounds {
            total_upper: Some(bits("8")),
            total_lower: None,
            reserved_upper: None,
            reserved_lower: None,
            pending_upper: None,
            pending_lower: Some(bits("-2")),
        }),
        user_data: 0,
    };
    let exported = export_account_adjustment(&domain);
    let imported = import_account_adjustment(&exported).expect("import");
    assert_eq!(imported, domain);
}

#[test]
fn position_round_trip_keeps_leverage_and_mode() {
    let domain = AccountAdjustment {
        operation: AccountAdjustmentOperation::Position(AccountAdjustmentPositionOperation {
            instrument: InstrumentAssets {
                underlying_asset: "BTC".to_string(),
                settlement_asset: "USDT".to_string(),
            },
            collateral_asset: "USDT".to_string(),
            average_entry_price: bits("61000.5"),
            mode: PositionMode::Netting,
            leverage: Some(125),
        }),
        amount: None,
        bounds: None,
        user_data: 42,
    };
    let exported = export_account_adjustment(&domain);
    assert_eq!(exported.user_data, 42);
    assert_eq!(import_account_adjustment(&exported).expect("import"), domain);
}

#[test]
fn import_reports_missing_position_fields_in_order() {
    let mut input = OpenPitAccountAdjustment::default();
    input.position_operation = position_payload(OpenPitParamPositionMode::NotSet);
    assert_eq!(
        import_account_adjustment(&input).unwrap_err(),
        "account_adjustment.position.mode is not set"
    );
    input.position_operation.value.average_entry_price.is_set = false;
    assert_eq!(
        import_account_adjustment(&input).unwrap_err(),
        "account_adjustment.position.average_entry_price is not set"
    );
    input.position_operation.value.collateral_asset = OpenPitStringView::not_set();
    assert_eq!(
        import_account_adjustment(&input).unwrap_err(),
        "account_adjustment.position.collateral_asset is not set"
    );
}

#[test]
fn import_reports_unset_balance_asset_and_invalid_amount() {
    let mut input = sample_balance_adjustment();
    input.balance_operation.value.asset = OpenPitStringView::not_set();
    assert_eq!(
        import_account_adjustment(&input).unwrap_err(),
        "account_adjustment.balance.asset is not set"
    );
    let mut input = sample_balance_adjustment();
    input.amount.value.reserved.value.0.scale = -3;
    assert_eq!(
        import_account_adjustment(&input).unwrap_err(),
        "decimal scale must not be negative"
    );
}

#[test]
fn leverage_outside_range_is_dropped() {
    assert_eq!(import_leverage(0), None);
    assert_eq!(import_leverage(9), None);
    assert_eq!(import_leverage(10), Some(10));
    assert_eq!(import_leverage(30000), Some(30000));
    assert_eq!(import_leverage(30001), None);
}

#[test]
fn negative_zero_round_trips_by_value() {
    let mut negative_zero = [0u8; 16];
    negative_zero[2] = 2;
    negative_zero[3] = 0x80;
    let domain = AccountAdjustment {
        operation: AccountAdjustmentOperation::Absent,
        amount: Some(AccountAdjustmentAmount {
            total: Some(AdjustmentAmount::Delta(negative_zero)),
            reserved: None,
            pending: None,
        }),
        bounds: None,
        user_data: 0,
    };
    let exported = export_account_adjustment(&domain);
    let imported = import_account_adjustment(&exported).expect("import");
    let amount = imported.amount.expect("amount");
    match amount.total {
        Some(AdjustmentAmount::Delta(b)) => {
            let back = Decimal::deserialize(b);
            assert_eq!(back, Decimal::deserialize(negative_zero));
            assert_eq!(back.scale(), 2);
            assert_eq!(back.mantissa(), 0);
        }
        other => panic!("unexpected amount {:?}", other),
    }
}
