use std::str::FromStr;

use openpit_ffi::param::{OpenPitParamDecimal, OpenPitParamPrice, DecimalParamError};
use openpit_ffi::pre_trade_lock::{
    codec_failure_message, openpit_create_pretrade_pre_trade_lock,
    openpit_create_pretrade_pre_trade_lock_from_cbor, openpit_create_pretrade_pre_trade_lock_from_entries,
    openpit_create_pretrade_pre_trade_lock_from_json, openpit_create_pretrade_pre_trade_lock_from_msgpack,
    openpit_create_pretrade_pre_trade_lock_from_raw, openpit_pretrade_pre_trade_lock_clone,
    openpit_pretrade_pre_trade_lock_entries, openpit_pretrade_pre_trade_lock_entries_view,
    openpit_pretrade_pre_trade_lock_is_empty, openpit_pretrade_pre_trade_lock_len,
    openpit_pretrade_pre_trade_lock_merge, openpit_pretrade_pre_trade_lock_prices_of,
    openpit_pretrade_pre_trade_lock_prices_view, openpit_pretrade_pre_trade_lock_push,
    openpit_pretrade_pre_trade_lock_push_many, openpit_pretrade_pre_trade_lock_to_cbor,
    openpit_pretrade_pre_trade_lock_to_json, openpit_pretrade_pre_trade_lock_to_msgpack,
    openpit_pretrade_pre_trade_lock_to_raw, EntryError, OpenPitPretradePreTradeLock,
    OpenPitPretradePreTradeLockEntry, OpenPitPretradePreTradeLockPricesOf,
    OpenPitPretradePreTradeLockPricesStatus, OpenPitPretradePreTradeLockPricesView,
};
use openpit_ffi::raw_lock::{RawCursor, RawDecodeError};
use rust_decimal::Decimal;

fn price_of(value: &str) -> OpenPitParamPrice {
    let decimal = Decimal::from_str(value).expect("price must be valid");
    OpenPitParamPrice(OpenPitParamDecimal::from_parts(
        decimal.mantissa(),
        decimal.scale() as i32,
    ))
}

fn entry(group: u16, value: &str) -> OpenPitPretradePreTradeLockEntry {
    OpenPitPretradePreTradeLockEntry {
        policy_group_id: group,
        price: price_of(value),
    }
}

#[test]
fn create_destroy_roundtrip() {
    let lock = OpenPitPretradePreTradeLock::new();
    assert_eq!(lock.len(), 0);
    assert!(lock.is_empty());
}

#[test]
fn push_and_clone_preserve_state() {
    let mut lock = OpenPitPretradePreTradeLock::new();
    assert!(lock.push(0, price_of("185")).is_ok());
    assert!(lock.push(7, price_of("200")).is_ok());
    assert!(lock.push(7, price_of("201")).is_ok());
    assert_eq!(lock.len(), 3);

    let cloned = lock.duplicate();
    assert_eq!(cloned.len(), 3);
}

#[test]
fn prices_of_returns_explicit_status() {
    let mut lock = OpenPitPretradePreTradeLock::new();
    let first = price_of("200");
    let second = price_of("201");
    lock.push(7, first).unwrap();
    lock.push(7, second).unwrap();

    let result = lock.prices_of(7);
    assert_eq!(result.status(), OpenPitPretradePreTradeLockPricesStatus::List);
    match result {
        OpenPitPretradePreTradeLockPricesOf::List(list) => {
            let view = list.view_items();
            assert!(view.ptr.is_some());
            assert_eq!(view.len, 2);
            assert_eq!(list.as_slice(), &[first, second]);
        }
        other => panic!("unexpected {other:?}"),
    }

    let missing = lock.prices_of(99);
    assert_eq!(missing.status(), OpenPitPretradePreTradeLockPricesStatus::Empty);
}

#[test]
fn prices_of_returns_single_price_without_allocated_list() {
    let mut lock = OpenPitPretradePreTradeLock::new();
    let price = price_of("185");
    lock.push(0, price).unwrap();

    let result = lock.prices_of(0);
    assert_eq!(result.status(), OpenPitPretradePreTradeLockPricesStatus::One);
    match result {
        OpenPitPretradePreTradeLockPricesOf::One(p) => assert_eq!(p, price),
        other => panic!("unexpected {other:?}"),
    }
}

#[test]
fn raw_round_trip_via_ffi() {
    let mut lock = OpenPitPretradePreTradeLock::new();
    lock.push(0, price_of("185")).unwrap();
    lock.push(7, price_of("200")).unwrap();
    lock.push(7, price_of("201")).unwrap();

    let raw = lock.to_raw();
    assert!(!raw.is_empty());

    let restored = OpenPitPretradePreTradeLock::from_raw(&raw).expect("raw must decode");
    assert_eq!(restored.len(), 3);
    assert_eq!(restored.entries().as_slice(), lock.entries().as_slice());
}

#[test]
fn raw_empty_lock_decodes_to_empty() {
    let lock = OpenPitPretradePreTradeLock::new();
    let raw = lock.to_raw();
    assert_eq!(raw, vec![0, 0, 0, 0, 0, 0, 0, 0]);
    let restored = OpenPitPretradePreTradeLock::from_raw(&raw).expect("raw must decode");
    assert_eq!(restored.len(), 0);
}

#[test]
fn msgpack_round_trip_via_ffi() {
    let mut lock = OpenPitPretradePreTradeLock::new();
    lock.push(0, price_of("185")).unwrap();

    let bytes = lock.to_msgpack().expect("encode");
    assert!(!bytes.is_empty());

    let restored = OpenPitPretradePreTradeLock::from_msgpack(&bytes).expect("decode");
    assert_eq!(restored.len(), 1);
}

#[test]
fn raw_to_msgpack_cross_format_round_trip() {
    let mut lock = OpenPitPretradePreTradeLock::new();
    lock.push(0, price_of("185")).unwrap();
    lock.push(4, price_of("400")).unwrap();

    let msgpack = lock.to_msgpack().expect("encode");
    let restored = OpenPitPretradePreTradeLock::from_msgpack(&msgpack).expect("decode");

    let raw = restored.to_raw();
    let final_lock = OpenPitPretradePreTradeLock::from_raw(&raw).expect("raw decode");
    assert_eq!(final_lock.len(), 2);
}

#[test]
fn from_raw_rejects_truncated_input() {
    let result = OpenPitPretradePreTradeLock::from_raw(b"\x05\x00\x00\x00");
    assert_eq!(
        result.err(),
        Some(RawDecodeError::UnexpectedEnd {
            need: 16,
            offset: 4,
            total: 4
        })
    );
}

#[test]
fn raw_layout_of_mixed_lock_is_exact() {
    let mut lock = OpenPitPretradePreTradeLock::new();
    lock.push(0, price_of("185")).unwrap();
    lock.push(7, price_of("2.00")).unwrap();
    let raw = lock.to_raw();
    let mut expected = vec![1, 0, 0, 0];
    expected.extend_from_slice(&Decimal::from_str("185").unwrap().serialize());
    expected.extend_from_slice(&[1, 0, 0, 0, 7, 0, 1, 0, 0, 0]);
    expected.extend_from_slice(&Decimal::from_str("2.00").unwrap().serialize());
    assert_eq!(raw, expected);
}

#[test]
fn raw_decode_reports_trailing_bytes() {
    let result = OpenPitPretradePreTradeLock::from_raw(&[0, 0, 0, 0, 0, 0, 0, 0, 9, 9]);
    assert_eq!(result.err(), Some(RawDecodeError::TrailingBytes { remaining: 2 }));
}

#[test]
fn raw_decode_reports_missing_group_count() {
    let result = OpenPitPretradePreTradeLock::from_raw(&[0, 0, 0, 0, 1]);
    assert_eq!(
        result.err(),
        Some(RawDecodeError::UnexpectedEnd {
            need: 4,
            offset: 4,
            total: 5
        })
    );
}

#[test]
fn raw_decode_reports_missing_group_id_and_count() {
    let short_id = OpenPitPretradePreTradeLock::from_raw(&[0, 0, 0, 0, 1, 0, 0, 0, 7]);
    assert_eq!(
        short_id.err(),
        Some(RawDecodeError::UnexpectedEnd {
            need: 2,
            offset: 8,
            total: 9
        })
    );
    let short_count = OpenPitPretradePreTradeLock::from_raw(&[0, 0, 0, 0, 1, 0, 0, 0, 7, 0, 1]);
    assert_eq!(
        short_count.err(),
        Some(RawDecodeError::UnexpectedEnd {
            need: 4,
            offset: 10,
            total: 11
        })
    );
}

#[test]
fn raw_decode_merges_repeated_and_default_tagged_groups() {
    let price = Decimal::from_str("3").unwrap().serialize();
    let mut raw = vec![0, 0, 0, 0, 3, 0, 0, 0];
    for group in [5u8, 0, 5] {
        raw.extend_from_slice(&[group, 0, 1, 0, 0, 0]);
        raw.extend_from_slice(&price);
    }
    let lock = OpenPitPretradePreTradeLock::from_raw(&raw).expect("decode");
    assert_eq!(lock.len(), 3);
    let entries = lock.entries();
    let groups: Vec<u16> = entries.as_slice().iter().map(|e| e.policy_group_id).collect();
    assert_eq!(groups, vec![0, 5, 5]);
}

#[test]
fn raw_decode_canonicalizes_flag_bits() {
    let mut bits = Decimal::from_str("1.5").unwrap().serialize();
    bits[0] = 0xff;
    let mut raw = vec![1, 0, 0, 0];
    raw.extend_from_slice(&bits);
    raw.extend_from_slice(&[0, 0, 0, 0]);
    let lock = OpenPitPretradePreTradeLock::from_raw(&raw).expect("decode");
    match lock.prices_of(0) {
        OpenPitPretradePreTradeLockPricesOf::One(p) => assert_eq!(p, price_of("1.5")),
        other => panic!("unexpected {other:?}"),
    }
}

#[test]
fn entries_list_default_group_first_then_groups_in_first_use_order() {
    let mut lock = OpenPitPretradePreTradeLock::new();
    lock.push(3, price_of("300")).unwrap();
    lock.push(0, price_of("100")).unwrap();
    lock.push(5, price_of("500")).unwrap();
    lock.push(3, price_of("301")).unwrap();
    let entries = lock.entries();
    assert_eq!(
        entries.as_slice(),
        &[
            entry(0, "100"),
            entry(3, "300"),
            entry(3, "301"),
            entry(5, "500"),
        ]
    );
}

#[test]
fn push_many_appends_in_order_and_stops_on_invalid_price() {
    let mut lock = OpenPitPretradePreTradeLock::new();
    lock.push_many(&[entry(2, "1"), entry(0, "2"), entry(2, "3")]).unwrap();
    assert_eq!(lock.len(), 3);
    let bad = OpenPitPretradePreTradeLockEntry {
        policy_group_id: 1,
        price: OpenPitParamPrice(OpenPitParamDecimal {
            mantissa_lo: 1,
            mantissa_hi: 0,
            scale: 29,
        }),
    };
    let err = lock.push_many(&[entry(1, "4"), bad]).unwrap_err();
    assert_eq!(
        err,
        EntryError {
            index: 1,
            error: DecimalParamError::ScaleTooLarge
        }
    );
    assert_eq!(lock.len(), 3);
}

#[test]
fn from_entries_groups_records() {
    let lock =
        OpenPitPretradePreTradeLock::from_entries(&[entry(9, "1"), entry(0, "2"), entry(9, "3")])
            .unwrap();
    match lock.prices_of(9) {
        OpenPitPretradePreTradeLockPricesOf::List(list) => {
            assert_eq!(list.as_slice(), &[price_of("1"), price_of("3")])
        }
        other => panic!("unexpected {other:?}"),
    }
}

#[test]
fn push_refuses_negative_scale() {
    let mut lock = OpenPitPretradePreTradeLock::new();
    let price = OpenPitParamPrice(OpenPitParamDecimal {
        mantissa_lo: 1,
        mantissa_hi: 0,
        scale: -1,
    });
    assert_eq!(lock.push(0, price), Err(DecimalParamError::NegativeScale));
    assert!(lock.is_empty());
}

#[test]
fn merge_appends_every_record_of_source() {
    let mut dst = OpenPitPretradePreTradeLock::new();
    dst.push(0, price_of("1")).unwrap();
    dst.push(4, price_of("2")).unwrap();
    let mut src = OpenPitPretradePreTradeLock::new();
    src.push(4, price_of("3")).unwrap();
    src.push(6, price_of("4")).unwrap();
    src.push(0, price_of("5")).unwrap();
    dst.merge(&src);
    assert_eq!(dst.len(), 5);
    assert_eq!(src.len(), 3);
    assert_eq!(
        dst.entries().as_slice(),
        &[
            entry(0, "1"),
            entry(0, "5"),
            entry(4, "2"),
            entry(4, "3"),
            entry(6, "4"),
        ]
    );
}

#[test]
fn json_text_matches_documented_shape() {
    let mut lock = OpenPitPretradePreTradeLock::new();
    lock.push(0, price_of("185")).unwrap();
    lock.push(7, price_of("200")).unwrap();
    lock.push(7, price_of("201")).unwrap();
    let text = lock.to_json().expect("encode");
    assert_eq!(text, r#"[["185"],[7,"200","201"]]"#);
    let restored = OpenPitPretradePreTradeLock::from_json(text.as_bytes()).expect("decode");
    assert_eq!(restored.entries().as_slice(), lock.entries().as_slice());
}

#[test]
fn json_decode_reports_invalid_utf8_and_refusals() {
    assert!(matches!(
        OpenPitPretradePreTradeLock::from_json(&[0xff]),
        Err(openpit_ffi::pre_trade_lock::LockDecodeError::InvalidUtf8(_))
    ));
    assert!(matches!(
        OpenPitPretradePreTradeLock::from_json(b"[[], [0, \"1\"]]"),
        Err(openpit_ffi::pre_trade_lock::LockDecodeError::Refused(_))
    ));
}

#[test]
fn cbor_round_trip() {
    let mut lock = OpenPitPretradePreTradeLock::new();
    lock.push(0, price_of("185")).unwrap();
    let bytes = lock.to_cbor().expect("encode");
    assert_eq!(bytes, vec![0x81, 0x81, 0x63, 0x31, 0x38, 0x35]);
    let restored = OpenPitPretradePreTradeLock::from_cbor(&bytes).expect("decode");
    assert_eq!(restored.len(), 1);
}

#[test]
fn prices_view_is_unset_for_empty_slice() {
    let view = OpenPitPretradePreTradeLockPricesView::from_slice(&[]);
    assert!(view.ptr.is_none());
    assert_eq!(view.len, 0);
    assert_eq!(view, OpenPitPretradePreTradeLockPricesView::not_set());
}

#[test]
fn raw_cursor_reads_little_endian_fields() {
    let bytes = [0x34, 0x12, 0x78, 0x56, 0x34, 0x12, 0xaa];
    let mut cursor = RawCursor::new(&bytes);
    assert_eq!(cursor.read_u16(), Ok(0x1234));
    assert_eq!(cursor.read_u32(), Ok(0x1234_5678));
    assert_eq!(cursor.remaining(), 1);
    assert!(!cursor.is_empty());
    assert_eq!(
        cursor.take(2),
        Err(RawDecodeError::UnexpectedEnd {
            need: 2,
            offset: 6,
            total: 7
        })
    );
    assert_eq!(cursor.take(1), Ok(&[0xaa][..]));
    assert!(cursor.is_empty());
}

#[test]
fn clone_of_null_is_null() {
    assert!(openpit_pretrade_pre_trade_lock_clone(None).is_none());
    let lock = openpit_create_pretrade_pre_trade_lock();
    let cloned = openpit_pretrade_pre_trade_lock_clone(Some(&lock)).expect("clone");
    assert_eq!(openpit_pretrade_pre_trade_lock_len(&cloned), 0);
}

#[test]
fn lock_create_is_empty_handle() {
    let detached = openpit_create_pretrade_pre_trade_lock();
    assert_eq!(openpit_pretrade_pre_trade_lock_len(&detached), 0);
    assert!(openpit_pretrade_pre_trade_lock_is_empty(&detached));
}

#[test]
fn push_returns_error_on_null_lock() {
    let result = openpit_pretrade_pre_trade_lock_push(None, 0, OpenPitParamPrice::default());
    assert_eq!(result, Err("lock pointer must be non-null".to_string()));
}

#[test]
fn to_msgpack_returns_error_on_null_lock() {
    assert_eq!(
        openpit_pretrade_pre_trade_lock_to_msgpack(None),
        Err("lock pointer must be non-null".to_string())
    );
}

#[test]
fn from_raw_returns_error_on_null_input() {
    assert_eq!(
        openpit_create_pretrade_pre_trade_lock_from_raw(None).err(),
        Some("raw input pointer must be non-null".to_string())
    );
}

#[test]
fn from_msgpack_returns_error_on_null_input() {
    assert_eq!(
        openpit_create_pretrade_pre_trade_lock_from_msgpack(None).err(),
        Some("msgpack input pointer must be non-null".to_string())
    );
}

#[test]
fn c_entry_points_push_merge_and_query() {
    let mut lock = openpit_create_pretrade_pre_trade_lock();
    assert_eq!(
        openpit_pretrade_pre_trade_lock_push(Some(&mut lock), 7, price_of("200")),
        Ok(())
    );
    let bad = OpenPitParamPrice(OpenPitParamDecimal::from_parts(1, -1));
    assert_eq!(
        openpit_pretrade_pre_trade_lock_push(Some(&mut lock), 7, bad),
        Err("decimal scale must not be negative".to_string())
    );
    assert_eq!(openpit_pretrade_pre_trade_lock_len(&lock), 1);

    let entries = [entry(0, "185"), entry(7, "201")];
    assert_eq!(
        openpit_pretrade_pre_trade_lock_push_many(Some(&mut lock), None, 2),
        Err("entries pointer must be non-null".to_string())
    );
    assert_eq!(openpit_pretrade_pre_trade_lock_push_many(Some(&mut lock), None, 0), Ok(()));
    assert_eq!(
        openpit_pretrade_pre_trade_lock_push_many(Some(&mut lock), Some(&entries[..]), 2),
        Ok(())
    );
    assert_eq!(openpit_pretrade_pre_trade_lock_len(&lock), 3);

    let other = openpit_create_pretrade_pre_trade_lock_from_entries(Some(&entries[..]), 1)
        .expect("one entry");
    assert_eq!(openpit_pretrade_pre_trade_lock_len(&other), 1);
    assert_eq!(
        openpit_pretrade_pre_trade_lock_merge(None, Some(&other)),
        Err("destination lock pointer must be non-null".to_string())
    );
    assert_eq!(
        openpit_pretrade_pre_trade_lock_merge(Some(&mut lock), None),
        Err("source lock pointer must be non-null".to_string())
    );
    assert_eq!(openpit_pretrade_pre_trade_lock_merge(Some(&mut lock), Some(&other)), Ok(()));
    assert_eq!(openpit_pretrade_pre_trade_lock_len(&lock), 4);
    assert_eq!(openpit_pretrade_pre_trade_lock_len(&other), 1);

    assert_eq!(
        openpit_pretrade_pre_trade_lock_prices_of(None, 0, true, true).err(),
        Some("lock pointer must be non-null".to_string())
    );
    assert_eq!(
        openpit_pretrade_pre_trade_lock_prices_of(Some(&lock), 0, false, true).err(),
        Some("out_price pointer must be non-null".to_string())
    );
    assert_eq!(
        openpit_pretrade_pre_trade_lock_prices_of(Some(&lock), 0, true, false).err(),
        Some("out_prices pointer must be non-null".to_string())
    );
    match openpit_pretrade_pre_trade_lock_prices_of(Some(&lock), 7, true, true) {
        Ok(OpenPitPretradePreTradeLockPricesOf::List(list)) => {
            let view = openpit_pretrade_pre_trade_lock_prices_view(&list);
            assert_eq!(view.len, 2);
        }
        _ => panic!("group 7 holds two prices"),
    }
    let snapshot = openpit_pretrade_pre_trade_lock_entries(&lock);
    assert_eq!(openpit_pretrade_pre_trade_lock_entries_view(&snapshot).len, 4);
}

#[test]
fn c_entry_points_encode_and_decode() {
    let mut lock = openpit_create_pretrade_pre_trade_lock();
    openpit_pretrade_pre_trade_lock_push(Some(&mut lock), 0, price_of("185")).expect("push");
    let raw = openpit_pretrade_pre_trade_lock_to_raw(&lock);
    let back = openpit_create_pretrade_pre_trade_lock_from_raw(Some(&raw[..])).expect("raw");
    assert_eq!(openpit_pretrade_pre_trade_lock_len(&back), 1);
    assert_eq!(
        openpit_create_pretrade_pre_trade_lock_from_raw(Some(&b"\x05\x00\x00\x00"[..])).err(),
        Some("raw lock decode: unexpected end of input (need 16 bytes at offset 4, total 4)".to_string())
    );
    assert_eq!(
        openpit_create_pretrade_pre_trade_lock_from_raw(Some(&[0u8, 0, 0, 0, 0, 0, 0, 0, 9][..])).err(),
        Some("raw lock decode: 1 trailing bytes".to_string())
    );

    let json = openpit_pretrade_pre_trade_lock_to_json(Some(&lock)).expect("json");
    let from_json = openpit_create_pretrade_pre_trade_lock_from_json(Some(json.as_str().as_bytes()))
        .expect("json decode");
    assert_eq!(openpit_pretrade_pre_trade_lock_len(&from_json), 1);
    assert_eq!(
        openpit_create_pretrade_pre_trade_lock_from_json(None).err(),
        Some("json input pointer must be non-null".to_string())
    );
    let not_utf8 = openpit_create_pretrade_pre_trade_lock_from_json(Some(&[0xff_u8][..]))
        .err()
        .expect("invalid utf-8");
    assert!(not_utf8.starts_with("json input is not valid UTF-8: "));
    let refused = openpit_create_pretrade_pre_trade_lock_from_json(Some(&b"{"[..]))
        .err()
        .expect("refused");
    assert!(refused.starts_with("lock json decode failed: "));

    let msgpack = openpit_pretrade_pre_trade_lock_to_msgpack(Some(&lock)).expect("msgpack");
    let from_msgpack = openpit_create_pretrade_pre_trade_lock_from_msgpack(Some(&msgpack[..]))
        .expect("msgpack decode");
    assert_eq!(openpit_pretrade_pre_trade_lock_len(&from_msgpack), 1);
    let cbor = openpit_pretrade_pre_trade_lock_to_cbor(Some(&lock)).expect("cbor");
    let from_cbor = openpit_create_pretrade_pre_trade_lock_from_cbor(Some(&cbor[..])).expect("cbor decode");
    assert_eq!(openpit_pretrade_pre_trade_lock_len(&from_cbor), 1);
    assert_eq!(
        openpit_create_pretrade_pre_trade_lock_from_cbor(None).err(),
        Some("cbor input pointer must be non-null".to_string())
    );
    let bad_cbor = openpit_create_pretrade_pre_trade_lock_from_cbor(Some(&[0xff_u8][..]))
        .err()
        .expect("refused");
    assert!(bad_cbor.starts_with("lock cbor decode failed: "));
    assert_eq!(
        codec_failure_message("msgpack", "encode", "boom"),
        "lock msgpack encode failed: boom"
    );
}

fn entry_bits(lock: &OpenPitPretradePreTradeLock) -> Vec<(u16, [u8; 16])> {
    let raw = lock.to_raw();
    let mut out = Vec::new();
    let mut pos = 4usize;
    let groups = u32::from_le_bytes([raw[0], raw[1], raw[2], raw[3]]) as usize;
    for _ in 0..groups {
        let mut price = [0u8; 16];
        price.copy_from_slice(&raw[pos..pos + 16]);
        out.push((0, price));
        pos += 16;
    }
    let sections = u32::from_le_bytes([raw[pos], raw[pos + 1], raw[pos + 2], raw[pos + 3]]) as usize;
    pos += 4;
    for _ in 0..sections {
        let group = u16::from_le_bytes([raw[pos], raw[pos + 1]]);
        let count = u32::from_le_bytes([raw[pos + 2], raw[pos + 3], raw[pos + 4], raw[pos + 5]]) as usize;
        pos += 6;
        for _ in 0..count {
            let mut price = [0u8; 16];
            price.copy_from_slice(&raw[pos..pos + 16]);
            out.push((group, price));
            pos += 16;
        }
    }
    out
}

#[test]
fn serde_formats_read_back_groups_prices_and_scales() {
    let mut negative_zero = [0u8; 16];
    negative_zero[2] = 3;
    negative_zero[3] = 0x80;
    let mut raw = vec![2, 0, 0, 0];
    raw.extend_from_slice(&Decimal::from_str("1.50").unwrap().serialize());
    raw.extend_from_slice(&negative_zero);
    raw.extend_from_slice(&[1, 0, 0, 0, 9, 0, 1, 0, 0, 0]);
    raw.extend_from_slice(&Decimal::from_str("-7.0001").unwrap().serialize());
    let lock = OpenPitPretradePreTradeLock::from_raw(&raw).expect("decode");
    let original = entry_bits(&lock);
    let json = lock.to_json().expect("json");
    let from_json = OpenPitPretradePreTradeLock::from_json(json.as_bytes()).ok().expect("json decode");
    let msgpack = lock.to_msgpack().expect("msgpack");
    let from_msgpack = OpenPitPretradePreTradeLock::from_msgpack(&msgpack).expect("msgpack decode");
    let cbor = lock.to_cbor().expect("cbor");
    let from_cbor = OpenPitPretradePreTradeLock::from_cbor(&cbor).expect("cbor decode");
    for restored in [from_json, from_msgpack, from_cbor] {
        let back = entry_bits(&restored);
        assert_eq!(back.len(), original.len());
        for ((g0, p0), (g1, p1)) in original.iter().zip(back.iter()) {
            assert_eq!(g0, g1);
            let (a, b) = (Decimal::deserialize(*p0), Decimal::deserialize(*p1));
            assert_eq!(a, b);
            assert_eq!(a.scale(), b.scale());
            assert_eq!(a.mantissa(), b.mantissa());
        }
    }
}

#[test]
fn raw_decode_rescales_scales_above_28() {
    let mut over = [0u8; 16];
    over[2] = 29;
    over[4] = 15;
    let mut far = [0u8; 16];
    far[2] = 30;
    far[3] = 0x80;
    far[4..6].copy_from_slice(&1234u16.to_le_bytes());
    let mut raw = vec![2, 0, 0, 0];
    raw.extend_from_slice(&over);
    raw.extend_from_slice(&far);
    raw.extend_from_slice(&[0, 0, 0, 0]);
    let lock = OpenPitPretradePreTradeLock::from_raw(&raw).expect("decode");
    let back = entry_bits(&lock);
    assert_eq!(back[0].1, Decimal::from_i128_with_scale(2, 28).serialize());
    assert_eq!(back[1].1, Decimal::from_i128_with_scale(-13, 28).serialize());
}
