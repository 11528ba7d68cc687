//! Trading instruments as the C interface passes them: two borrowed asset
//! codes, both set or both unset.

use crate::string::OpenPitStringView;
use crate::text::{str_from_utf8, trimmed_text};
use openpit::param::Asset;
use vstd::prelude::*;
use vstd::string::StringExecFns;

verus! {

/// `Asset::new` of openpit, the asset taken back to its code: refuses a code
/// that is empty or only white space (`AssetError::Empty`, displayed as
/// "asset must not be empty"), otherwise keeps the code as given.
#[verifier::external_body]
pub(crate) fn asset_code(text: &str) -> (res: Option<String>)
    ensures
        res is Some <==> trimmed_text(text@).len() > 0,
        res matches Some(code) ==> code@ == text@,
{
    match Asset::new(text) {
        Ok(asset) => Some(asset.as_ref().to_owned()),
        Err(_) => None,
    }
}

/// Message of the error openpit gives to an empty asset code.
pub open spec fn empty_asset_message() -> Seq<char> {
    "asset must not be empty"@
}

/// The text of a borrowed string view: `None` when unset (null pointer, zero
/// length); refused when the pointer is null but a length is given, or when
/// the bytes are not UTF-8.
pub open spec fn spec_parse_string_view(value: OpenPitStringView) -> Option<Option<Seq<char>>> {
    if value.ptr.target() is None {
        if value.len == 0 {
            Some(None)
        } else {
            None
        }
    } else if vstd::utf8::valid_utf8(value.spec_bytes()) {
        Some(Some(vstd::utf8::decode_utf8(value.spec_bytes())))
    } else {
        None
    }
}

/// Whether `message` is the error a view that cannot be decoded is refused
/// with: `<field> pointer is null`, or `<field> is not valid utf-8: `
/// followed by the decoder's message.
pub open spec fn is_view_error(value: OpenPitStringView, field: Seq<char>, message: Seq<char>) -> bool {
    if value.ptr.target() is None {
        message == field + " pointer is null"@
    } else {
        (field + " is not valid utf-8: "@).is_prefix_of(message)
    }
}

/// The asset code a borrowed string view holds: `None` when unset;
/// refused (outer `None`) when the view cannot be decoded or the code is
/// empty or only white space.
pub open spec fn spec_asset_view(value: OpenPitStringView) -> Option<Option<Seq<char>>> {
    match spec_parse_string_view(value) {
        None => None,
        Some(None) => Some(None),
        Some(Some(text)) => if trimmed_text(text).len() > 0 {
            Some(Some(text))
        } else {
            None
        },
    }
}

/// Whether `message` is the error a refused asset view is refused with.
pub open spec fn is_asset_view_error(value: OpenPitStringView, field: Seq<char>, message: Seq<char>) -> bool {
    if spec_parse_string_view(value) is None {
        is_view_error(value, field, message)
    } else {
        message == "invalid "@ + field + ": "@ + empty_asset_message()
    }
}

/// Decodes a borrowed string view; `field` names it in error messages.
pub fn parse_string_view<'a>(value: OpenPitStringView<'a>, field: &str) -> (res: Result<
    Option<&'a str>,
    String,
>)
    requires
        value.readable(),
    ensures
        match res {
            Ok(Some(text)) => spec_parse_string_view(value) == Some(Some(text@)),
            Ok(None) => spec_parse_string_view(value) == Some(None::<Seq<char>>),
            Err(message) => spec_parse_string_view(value) is None && is_view_error(
                value,
                field@,
                message@,
            ),
        },
{
    let bytes = match value.ptr.bytes() {
        None => {
            if value.len == 0 {
                return Ok(None);
            }
            return Err(String::from_str(field).concat(" pointer is null"));
        },
        Some(bytes) => bytes,
    };
    let designated = vstd::slice::slice_subrange(bytes, 0, value.len);
    match str_from_utf8(designated) {
        Ok(text) => Ok(Some(text)),
        Err(detail) => {
            let message = String::from_str(field).concat(" is not valid utf-8: ");
            let ghost head = message@;
            let message = message.concat(detail.as_str());
            assert(message@.subrange(0, head.len() as int) =~= head);
            Err(message)
        },
    }
}

/// The asset code a borrowed string view holds: `None` when unset; refused
/// like `parse_string_view`, and when the code is empty or only white space.
pub fn parse_asset_view(value: OpenPitStringView, field: &str) -> (res: Result<Option<String>, String>)
    requires
        value.readable(),
    ensures
        match res {
            Ok(None) => spec_asset_view(value) == Some(None::<Seq<char>>),
            Ok(Some(code)) => spec_asset_view(value) == Some(Some(code@)),
            Err(message) => spec_asset_view(value) is None && is_asset_view_error(
                value,
                field@,
                message@,
            ),
        },
{
    let text = match parse_string_view(value, field) {
        Ok(Some(text)) => text,
        Ok(None) => return Ok(None),
        Err(message) => return Err(message),
    };
    match asset_code(text) {
        Some(code) => Ok(Some(code)),
        None => Err(
            String::from_str("invalid ").concat(field).concat(": ").concat("asset must not be empty"),
        ),
    }
}

/// Trading instrument view: two borrowed asset codes.
///
/// Both set: the instrument is present; both unset: absent; only one set:
/// invalid.
#[derive(Clone, Copy, Debug, PartialEq, Eq, Default)]
pub struct OpenPitInstrument<'a> {
    /// Traded asset, for example `AAPL` or `BTC`.
    pub underlying_asset: OpenPitStringView<'a>,
    /// Settlement asset, for example `USD`.
    pub settlement_asset: OpenPitStringView<'a>,
}

/// An instrument's two asset codes.
#[derive(Clone, Debug, PartialEq, Eq)]
pub struct InstrumentAssets {
    /// Traded asset code.
    pub underlying_asset: String,
    /// Settlement asset code.
    pub settlement_asset: String,
}

/// Message for an instrument with exactly one asset set.
pub open spec fn partial_instrument_message() -> Seq<char> {
    "instrument must provide both underlying_asset and settlement_asset or neither"@
}

/// The codes an instrument view holds: both, none, or refused (outer
/// `None`) for an invalid code or when only one code is set.
pub open spec fn spec_import_instrument(value: OpenPitInstrument) -> Option<
    Option<(Seq<char>, Seq<char>)>,
> {
    match (spec_asset_view(value.underlying_asset), spec_asset_view(value.settlement_asset)) {
        (Some(Some(u)), Some(Some(s))) => Some(Some((u, s))),
        (Some(None), Some(None)) => Some(None),
        _ => None,
    }
}

/// Whether `message` is the error an instrument view that does not import
/// gives: that of the first invalid code, or the partial-instrument error.
pub open spec fn is_instrument_error(value: OpenPitInstrument, message: Seq<char>) -> bool {
    if spec_asset_view(value.underlying_asset) is None {
        is_asset_view_error(value.underlying_asset, "instrument.underlying_asset"@, message)
    } else if spec_asset_view(value.settlement_asset) is None {
        is_asset_view_error(value.settlement_asset, "instrument.settlement_asset"@, message)
    } else {
        message == partial_instrument_message()
    }
}

/// The instrument a view holds: both codes, none, or an error for the first
/// invalid code or for a view with only one code set.
pub fn import_instrument(value: &OpenPitInstrument) -> (res: Result<Option<InstrumentAssets>, String>)
    requires
        value.underlying_asset.readable(),
        value.settlement_asset.readable(),
    ensures
        match res {
            Ok(Some(i)) => spec_import_instrument(*value) == Some(
                Some((i.underlying_asset@, i.settlement_asset@)),
            ),
            Ok(None) => spec_import_instrument(*value) == Some(None::<(Seq<char>, Seq<char>)>),
            Err(message) => spec_import_instrument(*value) is None && is_instrument_error(
                *value,
                message@,
            ),
        },
{
    let underlying = match parse_asset_view(value.underlying_asset, "instrument.underlying_asset") {
        Ok(v) => v,
        Err(e) => return Err(e),
    };
    let settlement = match parse_asset_view(value.settlement_asset, "instrument.settlement_asset") {
        Ok(v) => v,
        Err(e) => return Err(e),
    };
    match (underlying, settlement) {
        (Some(underlying_asset), Some(settlement_asset)) => Ok(
            Some(InstrumentAssets { underlying_asset, settlement_asset }),
        ),
        (None, None) => Ok(None),
        _ => Err(
            String::from_str(
                "instrument must provide both underlying_asset and settlement_asset or neither",
            ),
        ),
    }
}

} // verus!
