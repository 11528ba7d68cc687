use openpit_ffi::instrument::{import_instrument, parse_asset_view, parse_string_view, OpenPitInstrument};
use openpit_ffi::string::{BytePtr, OpenPitStringView};

fn view(bytes: &[u8]) -> OpenPitStringView<'_> {
    OpenPitStringView {
        ptr: BytePtr::to(bytes),
        len: bytes.len(),
    }
}

#[test]
fn import_instrument_accepts_complete_value() {
    let instrument = OpenPitInstrument {
        underlying_asset: view(b"SPX"),
        settlement_asset: view(b"USD"),
    };
    let imported = import_instrument(&instrument)
        .expect("instrument must parse")
        .expect("instrument must be present");
    assert_eq!(imported.underlying_asset, "SPX");
    assert_eq!(imported.settlement_asset, "USD");
}

#[test]
fn import_instrument_accepts_absent_value() {
    let instrument = OpenPitInstrument::default();
    assert_eq!(import_instrument(&instrument).expect("must parse"), None);
}

#[test]
fn import_instrument_rejects_partial_value() {
    let instrument = OpenPitInstrument {
        underlying_asset: view(b"SPX"),
        settlement_asset: OpenPitStringView::not_set(),
    };
    let err = import_instrument(&instrument).expect_err("partial instrument must fail");
    assert!(err.contains("both underlying_asset and settlement_asset"));
    assert_eq!(
        err,
        "instrument must provide both underlying_asset and settlement_asset or neither"
    );
}

#[test]
fn parse_asset_view_rejects_invalid_utf8() {
    let bytes = [0xff_u8, 0xfe_u8];
    let err = parse_asset_view(view(&bytes), "asset").expect_err("invalid utf-8 must fail");
    assert!(err.contains("not valid utf-8"));
    assert!(err.starts_with("asset is not valid utf-8: "));
}

#[test]
fn parse_asset_view_rejects_blank_code() {
    let err = parse_asset_view(view(b"  "), "asset").expect_err("blank code must fail");
    assert_eq!(err, "invalid asset: asset must not be empty");
}

#[test]
fn parse_string_view_rejects_null_pointer_with_length() {
    let bad = OpenPitStringView {
        ptr: BytePtr::null(),
        len: 3,
    };
    assert_eq!(
        parse_string_view(bad, "field"),
        Err("field pointer is null".to_string())
    );
    assert_eq!(parse_string_view(OpenPitStringView::not_set(), "field"), Ok(None));
    assert_eq!(parse_string_view(view(b"ok"), "field"), Ok(Some("ok")));
}

#[test]
fn import_instrument_reports_underlying_error_first() {
    let instrument = OpenPitInstrument {
        underlying_asset: view(b" "),
        settlement_asset: view(&[0xff]),
    };
    assert_eq!(
        import_instrument(&instrument).unwrap_err(),
        "invalid instrument.underlying_asset: asset must not be empty"
    );
}
