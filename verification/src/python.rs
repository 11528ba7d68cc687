//! Value rules of the Python binding: sides, position sides, position
//! effects, position modes and rounding strategies by name; account ids and
//! leverage from plain values; rate-limit barriers from tuples; the rejects a
//! Python policy returns; and the texts the binding reports.

use crate::account_adjustment::{
    AccountAdjustmentBalanceOperation, AccountAdjustmentOperation, AccountAdjustmentPositionOperation,
    PositionMode,
};
use crate::instrument::InstrumentAssets;
use crate::engine::{OpenPitEngineBuildError, OpenPitEngineBuildErrorCode};
use crate::instrument::{asset_code, empty_asset_message};
use crate::policy::{
    OpenPitPretradePoliciesRateLimitAccountBarrier, OpenPitPretradePoliciesRateLimitBrokerBarrier,
    ParsedRateLimitBarriers, RateLimitAccountAssetRule, RateLimitAssetRule,
};
use crate::reject::{
    parse_reject_code, parse_reject_scope, OpenPitRejectCode, OpenPitRejectScope, RejectRecord,
    RejectTextError,
};
use crate::param::{bits_mantissa, exact_decimal_parse};
use crate::policy::{OrderSizeAccountAssetRule, OrderSizeAssetRule, OrderSizeLimitRule};
use openpit::param::{AccountId, Leverage, Quantity, Volume};
use rust_decimal::Decimal;
use crate::text::{
    ascii_lowercase, decimal_string, decimal_text, is_white_space, str_eq, str_to_ascii_lowercase,
    str_trim, trimmed_text,
};
use vstd::prelude::*;
use vstd::string::{StringExecFns, StringSliceAdditionalSpecFns};

verus! {

/// Text that `format!("{:?}", ..)` writes for a string: the text quoted,
/// with the escapes of `str::escape_debug`.
pub uninterp spec fn debug_quoted(text: Seq<char>) -> Seq<char>;

/// `<str as Debug>::fmt`, through `format!`: the quoted, escaped text.
#[verifier::external_body]
pub(crate) fn str_debug(text: &str) -> (res: String)
    ensures
        res@ == debug_quoted(text@),
{
    format!("{:?}", text)
}

/// A name as the binding reads it: surrounding white space removed and
/// ASCII letters folded to lower case.
pub open spec fn name_key(text: Seq<char>) -> Seq<char> {
    ascii_lowercase(trimmed_text(text))
}

/// The key of a name (see `name_key`).
fn name_key_string(text: &str) -> (res: String)
    ensures
        res@ == name_key(text@),
{
    str_to_ascii_lowercase(str_trim(text))
}

/// Order side.
#[derive(Clone, Copy, Debug, PartialEq, Eq, Structural)]
pub enum Side {
    /// Buy.
    Buy,
    /// Sell.
    Sell,
}

/// Side of a position leg.
#[derive(Clone, Copy, Debug, PartialEq, Eq, Structural)]
pub enum PositionSide {
    /// Long leg.
    Long,
    /// Short leg.
    Short,
}

/// Whether a fill opens or closes a position.
#[derive(Clone, Copy, Debug, PartialEq, Eq, Structural)]
pub enum PositionEffect {
    /// Opens or increases a position.
    Open,
    /// Closes or reduces a position.
    Close,
}

/// Rounding strategy for decimal values.
#[derive(Clone, Copy, Debug, PartialEq, Eq, Structural)]
pub enum RoundingStrategy {
    /// Round half to nearest even.
    MidpointNearestEven,
    /// Round half away from zero.
    MidpointAwayFromZero,
    /// Round towards positive infinity.
    Up,
    /// Round towards negative infinity.
    Down,
}

/// The name of a side.
pub open spec fn spec_side_name(value: Side) -> Seq<char> {
    match value {
        Side::Buy => "buy"@,
        Side::Sell => "sell"@,
    }
}

/// The side a name key names.
pub open spec fn spec_parse_side(key: Seq<char>) -> Option<Side> {
    if key == "buy"@ {
        Some(Side::Buy)
    } else if key == "sell"@ {
        Some(Side::Sell)
    } else {
        None
    }
}

/// The name of a side.
pub fn side_name(value: Side) -> (res: &'static str)
    ensures
        res@ == spec_side_name(value),
        value == Side::Buy ==> res@ == "buy"@,
        value == Side::Sell ==> res@ == "sell"@,
{
    match value {
        Side::Buy => "buy",
        Side::Sell => "sell",
    }
}

/// The side a text names, ignoring surrounding white space and ASCII case.
pub fn parse_side(value: &str) -> (res: Result<Side, String>)
    ensures
        match res {
            Ok(side) => spec_parse_side(name_key(value@)) == Some(side),
            Err(m) => spec_parse_side(name_key(value@)) is None && m@ == "invalid side "@
                + debug_quoted(name_key(value@)) + "; expected 'buy' or 'sell'"@,
        },
        name_key(value@) == "buy"@ ==> res == Ok::<Side, String>(Side::Buy),
        name_key(value@) == "sell"@ ==> res == Ok::<Side, String>(Side::Sell),
        name_key(value@) != "buy"@ && name_key(value@) != "sell"@ ==> res is Err,
{
    let key = name_key_string(value);
    proof {
        lemma_side_texts(value@);
    }
    if str_eq(key.as_str(), "buy") {
        Ok(Side::Buy)
    } else if str_eq(key.as_str(), "sell") {
        Ok(Side::Sell)
    } else {
        Err(
            String::from_str("invalid side ").concat(str_debug(key.as_str()).as_str()).concat(
                "; expected 'buy' or 'sell'",
            ),
        )
    }
}

/// The name of a position side.
pub open spec fn spec_position_side_name(value: PositionSide) -> Seq<char> {
    match value {
        PositionSide::Long => "long"@,
        PositionSide::Short => "short"@,
    }
}

/// The position side a name key names.
pub open spec fn spec_parse_position_side(key: Seq<char>) -> Option<PositionSide> {
    if key == "long"@ {
        Some(PositionSide::Long)
    } else if key == "short"@ {
        Some(PositionSide::Short)
    } else {
        None
    }
}

/// The name of a position side.
pub fn position_side_name(value: PositionSide) -> (res: &'static str)
    ensures
        res@ == spec_position_side_name(value),
        value == PositionSide::Long ==> res@ == "long"@,
        value == PositionSide::Short ==> res@ == "short"@,
{
    match value {
        PositionSide::Long => "long",
        PositionSide::Short => "short",
    }
}

/// The position side a text names, ignoring surrounding white space and
/// ASCII case.
pub fn parse_position_side(value: &str) -> (res: Result<PositionSide, String>)
    ensures
        match res {
            Ok(side) => spec_parse_position_side(name_key(value@)) == Some(side),
            Err(m) => spec_parse_position_side(name_key(value@)) is None && m@
                == "invalid position side "@ + debug_quoted(name_key(value@))
                + "; expected 'long' or 'short'"@,
        },
        name_key(value@) == "long"@ ==> res == Ok::<PositionSide, String>(PositionSide::Long),
        name_key(value@) == "short"@ ==> res == Ok::<PositionSide, String>(PositionSide::Short),
        name_key(value@) != "long"@ && name_key(value@) != "short"@ ==> res is Err,
{
    let key = name_key_string(value);
    proof {
        lemma_position_side_texts(value@);
    }
    if str_eq(key.as_str(), "long") {
        Ok(PositionSide::Long)
    } else if str_eq(key.as_str(), "short") {
        Ok(PositionSide::Short)
    } else {
        Err(
            String::from_str("invalid position side ").concat(str_debug(key.as_str()).as_str()).concat(
                "; expected 'long' or 'short'",
            ),
        )
    }
}

/// The name of a position effect.
pub open spec fn spec_position_effect_name(value: PositionEffect) -> Seq<char> {
    match value {
        PositionEffect::Open => "open"@,
        PositionEffect::Close => "close"@,
    }
}

/// The position effect a name key names.
pub open spec fn spec_parse_position_effect(key: Seq<char>) -> Option<PositionEffect> {
    if key == "open"@ {
        Some(PositionEffect::Open)
    } else if key == "close"@ {
        Some(PositionEffect::Close)
    } else {
        None
    }
}

/// The name of a position effect.
pub fn position_effect_name(value: PositionEffect) -> (res: &'static str)
    ensures
        res@ == spec_position_effect_name(value),
        value == PositionEffect::Open ==> res@ == "open"@,
        value == PositionEffect::Close ==> res@ == "close"@,
{
    match value {
        PositionEffect::Open => "open",
        PositionEffect::Close => "close",
    }
}

/// The position effect a text names, ignoring surrounding white space and
/// ASCII case.
pub fn parse_position_effect(value: &str) -> (res: Result<PositionEffect, String>)
    ensures
        match res {
            Ok(effect) => spec_parse_position_effect(name_key(value@)) == Some(effect),
            Err(m) => spec_parse_position_effect(name_key(value@)) is None && m@
                == "invalid position effect "@ + debug_quoted(name_key(value@))
                + "; expected 'open' or 'close'"@,
        },
        name_key(value@) == "open"@ ==> res == Ok::<PositionEffect, String>(PositionEffect::Open),
        name_key(value@) == "close"@ ==> res == Ok::<PositionEffect, String>(PositionEffect::Close),
        name_key(value@) != "open"@ && name_key(value@) != "close"@ ==> res is Err,
{
    let key = name_key_string(value);
    proof {
        lemma_position_effect_texts(value@);
    }
    if str_eq(key.as_str(), "open") {
        Ok(PositionEffect::Open)
    } else if str_eq(key.as_str(), "close") {
        Ok(PositionEffect::Close)
    } else {
        Err(
            String::from_str("invalid position effect ").concat(
                str_debug(key.as_str()).as_str(),
            ).concat("; expected 'open' or 'close'"),
        )
    }
}

/// The name of a position mode.
pub open spec fn spec_position_mode_name(value: PositionMode) -> Seq<char> {
    match value {
        PositionMode::Netting => "netting"@,
        PositionMode::Hedged => "hedged"@,
    }
}

/// The position mode a name key names.
pub open spec fn spec_parse_position_mode(key: Seq<char>) -> Option<PositionMode> {
    if key == "netting"@ {
        Some(PositionMode::Netting)
    } else if key == "hedged"@ {
        Some(PositionMode::Hedged)
    } else {
        None
    }
}

/// The name of a position mode.
pub fn position_mode_name(value: PositionMode) -> (res: &'static str)
    ensures
        res@ == spec_position_mode_name(value),
        value == PositionMode::Netting ==> res@ == "netting"@,
        value == PositionMode::Hedged ==> res@ == "hedged"@,
{
    match value {
        PositionMode::Netting => "netting",
        PositionMode::Hedged => "hedged",
    }
}

/// The position mode a text names, ignoring surrounding white space and
/// ASCII case.
pub fn parse_position_mode(value: &str) -> (res: Result<PositionMode, String>)
    ensures
        match res {
            Ok(mode) => spec_parse_position_mode(name_key(value@)) == Some(mode),
            Err(m) => spec_parse_position_mode(name_key(value@)) is None && m@
                == "invalid position mode "@ + debug_quoted(name_key(value@))
                + "; expected 'netting' or 'hedged'"@,
        },
        name_key(value@) == "netting"@ ==> res == Ok::<PositionMode, String>(PositionMode::Netting),
        name_key(value@) == "hedged"@ ==> res == Ok::<PositionMode, String>(PositionMode::Hedged),
        name_key(value@) != "netting"@ && name_key(value@) != "hedged"@ ==> res is Err,
{
    let key = name_key_string(value);
    proof {
        lemma_position_mode_texts(value@);
    }
    if str_eq(key.as_str(), "netting") {
        Ok(PositionMode::Netting)
    } else if str_eq(key.as_str(), "hedged") {
        Ok(PositionMode::Hedged)
    } else {
        Err(
            String::from_str("invalid position mode ").concat(str_debug(key.as_str()).as_str()).concat(
                "; expected 'netting' or 'hedged'",
            ),
        )
    }
}

/// The name of a rounding strategy.
pub open spec fn spec_rounding_strategy_name(value: RoundingStrategy) -> Seq<char> {
    match value {
        RoundingStrategy::MidpointNearestEven => "MidpointNearestEven"@,
        RoundingStrategy::MidpointAwayFromZero => "MidpointAwayFromZero"@,
        RoundingStrategy::Up => "Up"@,
        RoundingStrategy::Down => "Down"@,
    }
}

/// The rounding strategy a name key names.
pub open spec fn spec_parse_rounding_strategy(key: Seq<char>) -> Option<RoundingStrategy> {
    if key == "midpointnearesteven"@ {
        Some(RoundingStrategy::MidpointNearestEven)
    } else if key == "midpointawayfromzero"@ {
        Some(RoundingStrategy::MidpointAwayFromZero)
    } else if key == "up"@ {
        Some(RoundingStrategy::Up)
    } else if key == "down"@ {
        Some(RoundingStrategy::Down)
    } else {
        None
    }
}

/// The name of a rounding strategy.
pub fn rounding_strategy_name(value: RoundingStrategy) -> (res: &'static str)
    ensures
        res@ == spec_rounding_strategy_name(value),
        value == RoundingStrategy::MidpointNearestEven ==> res@ == "MidpointNearestEven"@,
        value == RoundingStrategy::MidpointAwayFromZero ==> res@ == "MidpointAwayFromZero"@,
        value == RoundingStrategy::Up ==> res@ == "Up"@,
        value == RoundingStrategy::Down ==> res@ == "Down"@,
{
    match value {
        RoundingStrategy::MidpointNearestEven => "MidpointNearestEven",
        RoundingStrategy::MidpointAwayFromZero => "MidpointAwayFromZero",
        RoundingStrategy::Up => "Up",
        RoundingStrategy::Down => "Down",
    }
}

/// The rounding strategy a text names, ignoring surrounding white space and
/// ASCII case.
pub fn parse_rounding_strategy(value: &str) -> (res: Result<RoundingStrategy, String>)
    ensures
        match res {
            Ok(strategy) => spec_parse_rounding_strategy(name_key(value@)) == Some(strategy),
            Err(m) => spec_parse_rounding_strategy(name_key(value@)) is None && m@
                == "invalid rounding strategy "@ + debug_quoted(name_key(value@))
                + "; expected 'MidpointNearestEven', 'MidpointAwayFromZero', 'Up', or 'Down'"@,
        },
        name_key(value@) == "midpointnearesteven"@ ==> res == Ok::<RoundingStrategy, String>(RoundingStrategy::MidpointNearestEven),
        name_key(value@) == "midpointawayfromzero"@ ==> res == Ok::<RoundingStrategy, String>(RoundingStrategy::MidpointAwayFromZero),
        name_key(value@) == "up"@ ==> res == Ok::<RoundingStrategy, String>(RoundingStrategy::Up),
        name_key(value@) == "down"@ ==> res == Ok::<RoundingStrategy, String>(RoundingStrategy::Down),
        name_key(value@) != "midpointnearesteven"@ && name_key(value@) != "midpointawayfromzero"@ && name_key(value@) != "up"@ && name_key(value@) != "down"@ ==> res is Err,
{
    let key = name_key_string(value);
    proof {
        lemma_rounding_strategy_texts(value@);
    }
    if str_eq(key.as_str(), "midpointnearesteven") {
        Ok(RoundingStrategy::MidpointNearestEven)
    } else if str_eq(key.as_str(), "midpointawayfromzero") {
        Ok(RoundingStrategy::MidpointAwayFromZero)
    } else if str_eq(key.as_str(), "up") {
        Ok(RoundingStrategy::Up)
    } else if str_eq(key.as_str(), "down") {
        Ok(RoundingStrategy::Down)
    } else {
        Err(
            String::from_str("invalid rounding strategy ").concat(
                str_debug(key.as_str()).as_str(),
            ).concat("; expected 'MidpointNearestEven', 'MidpointAwayFromZero', 'Up', or 'Down'"),
        )
    }
}

/// The key of a name with no white space at its ends is its ASCII lower
/// case.
proof fn lemma_name_key_of_name(name: Seq<char>)
    requires
        name.len() > 0,
        !is_white_space(name[0]),
        !is_white_space(name.last()),
    ensures
        name_key(name) == ascii_lowercase(name),
{
}

/// A text without ASCII capitals is its own lower case.
proof fn lemma_lowercase_of_lower(text: Seq<char>)
    requires
        forall|i: int| 0 <= i < text.len() ==> !('A' <= #[trigger] text[i] <= 'Z'),
    ensures
        ascii_lowercase(text) == text,
{
    assert(ascii_lowercase(text) =~= text);
}

/// Law: reading a side's name gives the side back, and a key names a side
/// exactly when it is that side's name.
pub proof fn lemma_side_names(value: Side, key: Seq<char>)
    ensures
        spec_parse_side(name_key(spec_side_name(value))) == Some(value),
        spec_parse_side(key) == Some(value) <==> key == spec_side_name(value),
{
    reveal_strlit("buy");
    reveal_strlit("sell");
    let name = spec_side_name(value);
    lemma_name_key_of_name(name);
    lemma_lowercase_of_lower(name);
}

/// Law: reading a position side's name gives it back, and a key names a
/// position side exactly when it is that side's name.
pub proof fn lemma_position_side_names(value: PositionSide, key: Seq<char>)
    ensures
        spec_parse_position_side(name_key(spec_position_side_name(value))) == Some(value),
        spec_parse_position_side(key) == Some(value) <==> key == spec_position_side_name(value),
{
    reveal_strlit("long");
    reveal_strlit("short");
    let name = spec_position_side_name(value);
    lemma_name_key_of_name(name);
    lemma_lowercase_of_lower(name);
}

/// Law: reading a position effect's name gives it back, and a key names a
/// position effect exactly when it is that effect's name.
pub proof fn lemma_position_effect_names(value: PositionEffect, key: Seq<char>)
    ensures
        spec_parse_position_effect(name_key(spec_position_effect_name(value))) == Some(value),
        spec_parse_position_effect(key) == Some(value) <==> key == spec_position_effect_name(
            value,
        ),
{
    reveal_strlit("open");
    reveal_strlit("close");
    let name = spec_position_effect_name(value);
    lemma_name_key_of_name(name);
    lemma_lowercase_of_lower(name);
}

/// Law: reading a position mode's name gives it back, and a key names a
/// position mode exactly when it is that mode's name.
pub proof fn lemma_position_mode_names(value: PositionMode, key: Seq<char>)
    ensures
        spec_parse_position_mode(name_key(spec_position_mode_name(value))) == Some(value),
        spec_parse_position_mode(key) == Some(value) <==> key == spec_position_mode_name(value),
{
    reveal_strlit("netting");
    reveal_strlit("hedged");
    let name = spec_position_mode_name(value);
    lemma_name_key_of_name(name);
    lemma_lowercase_of_lower(name);
}

/// Law: reading a rounding strategy's name gives it back, and a key names a
/// strategy exactly when it is the lower case of that strategy's name.
pub proof fn lemma_rounding_strategy_names(value: RoundingStrategy, key: Seq<char>)
    ensures
        spec_parse_rounding_strategy(name_key(spec_rounding_strategy_name(value))) == Some(value),
        spec_parse_rounding_strategy(key) == Some(value) <==> key == ascii_lowercase(
            spec_rounding_strategy_name(value),
        ),
{
    reveal_strlit("MidpointNearestEven");
    reveal_strlit("MidpointAwayFromZero");
    reveal_strlit("Up");
    reveal_strlit("Down");
    reveal_strlit("midpointnearesteven");
    reveal_strlit("midpointawayfromzero");
    reveal_strlit("up");
    reveal_strlit("down");
    let name = spec_rounding_strategy_name(value);
    lemma_name_key_of_name(name);
    assert(ascii_lowercase("MidpointNearestEven"@) =~= "midpointnearesteven"@);
    assert(ascii_lowercase("MidpointAwayFromZero"@) =~= "midpointawayfromzero"@);
    assert(ascii_lowercase("Up"@) =~= "up"@);
    assert(ascii_lowercase("Down"@) =~= "down"@);
}

/// Law: the names of the sides are the texts listed here, and a text
/// names a side exactly when, trimmed and in lower case, it is the
/// lower-case text listed for it.
pub proof fn lemma_side_texts(text: Seq<char>)
    ensures
        spec_side_name(Side::Buy) == "buy"@,
        spec_side_name(Side::Sell) == "sell"@,
        name_key(text) == "buy"@ <==> spec_parse_side(name_key(text)) == Some(Side::Buy),
        name_key(text) == "sell"@ <==> spec_parse_side(name_key(text)) == Some(Side::Sell),
        spec_parse_side(name_key(text)) is None <==> name_key(text) != "buy"@ && name_key(text) != "sell"@,
{
    reveal_strlit("buy");
    reveal_strlit("sell");
    assert("buy"@.len() != "sell"@.len());
}

/// Law: the names of the position sides are the texts listed here, and a text
/// names a position side exactly when, trimmed and in lower case, it is the
/// lower-case text listed for it.
pub proof fn lemma_position_side_texts(text: Seq<char>)
    ensures
        spec_position_side_name(PositionSide::Long) == "long"@,
        spec_position_side_name(PositionSide::Short) == "short"@,
        name_key(text) == "long"@ <==> spec_parse_position_side(name_key(text)) == Some(PositionSide::Long),
        name_key(text) == "short"@ <==> spec_parse_position_side(name_key(text)) == Some(PositionSide::Short),
        spec_parse_position_side(name_key(text)) is None <==> name_key(text) != "long"@ && name_key(text) != "short"@,
{
    reveal_strlit("long");
    reveal_strlit("short");
    assert("long"@.len() != "short"@.len());
}

/// Law: the names of the position effects are the texts listed here, and a text
/// names a position effect exactly when, trimmed and in lower case, it is the
/// lower-case text listed for it.
pub proof fn lemma_position_effect_texts(text: Seq<char>)
    ensures
        spec_position_effect_name(PositionEffect::Open) == "open"@,
        spec_position_effect_name(PositionEffect::Close) == "close"@,
        name_key(text) == "open"@ <==> spec_parse_position_effect(name_key(text)) == Some(PositionEffect::Open),
        name_key(text) == "close"@ <==> spec_parse_position_effect(name_key(text)) == Some(PositionEffect::Close),
        spec_parse_position_effect(name_key(text)) is None <==> name_key(text) != "open"@ && name_key(text) != "close"@,
{
    reveal_strlit("open");
    reveal_strlit("close");
    assert("open"@.len() != "close"@.len());
}

/// Law: the names of the position modes are the texts listed here, and a text
/// names a position mode exactly when, trimmed and in lower case, it is the
/// lower-case text listed for it.
pub proof fn lemma_position_mode_texts(text: Seq<char>)
    ensures
        spec_position_mode_name(PositionMode::Netting) == "netting"@,
        spec_position_mode_name(PositionMode::Hedged) == "hedged"@,
        name_key(text) == "netting"@ <==> spec_parse_position_mode(name_key(text)) == Some(PositionMode::Netting),
        name_key(text) == "hedged"@ <==> spec_parse_position_mode(name_key(text)) == Some(PositionMode::Hedged),
        spec_parse_position_mode(name_key(text)) is None <==> name_key(text) != "netting"@ && name_key(text) != "hedged"@,
{
    reveal_strlit("netting");
    reveal_strlit("hedged");
    assert("netting"@.len() != "hedged"@.len());
}

/// Law: the names of the rounding strategys are the texts listed here, and a text
/// names a rounding strategy exactly when, trimmed and in lower case, it is the
/// lower-case text listed for it.
pub proof fn lemma_rounding_strategy_texts(text: Seq<char>)
    ensures
        spec_rounding_strategy_name(RoundingStrategy::MidpointNearestEven) == "MidpointNearestEven"@,
        spec_rounding_strategy_name(RoundingStrategy::MidpointAwayFromZero) == "MidpointAwayFromZero"@,
        spec_rounding_strategy_name(RoundingStrategy::Up) == "Up"@,
        spec_rounding_strategy_name(RoundingStrategy::Down) == "Down"@,
        name_key(text) == "midpointnearesteven"@ <==> spec_parse_rounding_strategy(name_key(text)) == Some(RoundingStrategy::MidpointNearestEven),
        name_key(text) == "midpointawayfromzero"@ <==> spec_parse_rounding_strategy(name_key(text)) == Some(RoundingStrategy::MidpointAwayFromZero),
        name_key(text) == "up"@ <==> spec_parse_rounding_strategy(name_key(text)) == Some(RoundingStrategy::Up),
        name_key(text) == "down"@ <==> spec_parse_rounding_strategy(name_key(text)) == Some(RoundingStrategy::Down),
        spec_parse_rounding_strategy(name_key(text)) is None <==> name_key(text) != "midpointnearesteven"@ && name_key(text) != "midpointawayfromzero"@ && name_key(text) != "up"@ && name_key(text) != "down"@,
{
    reveal_strlit("MidpointNearestEven");
    reveal_strlit("MidpointAwayFromZero");
    reveal_strlit("Up");
    reveal_strlit("Down");
    reveal_strlit("midpointnearesteven");
    reveal_strlit("midpointawayfromzero");
    reveal_strlit("up");
    reveal_strlit("down");
    assert("midpointnearesteven"@.len() != "midpointawayfromzero"@.len());
    assert("midpointnearesteven"@.len() != "up"@.len());
    assert("midpointnearesteven"@.len() != "down"@.len());
    assert("midpointawayfromzero"@.len() != "up"@.len());
    assert("midpointawayfromzero"@.len() != "down"@.len());
    assert("up"@.len() != "down"@.len());
}

/// One step of FNV-1a, 64 bits: the byte is XORed in, then the hash is
/// multiplied by the FNV prime, wrapping.
pub open spec fn fnv1a_step(hash: u64, byte: u8) -> u64 {
    (((hash ^ (byte as u64)) as nat * 1099511628211nat) % 0x1_0000_0000_0000_0000nat) as u64
}

/// FNV-1a, 64 bits, of a byte sequence, from the offset basis.
pub open spec fn fnv1a_64(bytes: Seq<u8>) -> u64
    decreases bytes.len(),
{
    if bytes.len() == 0 {
        14695981039346656037u64
    } else {
        fnv1a_step(fnv1a_64(bytes.drop_last()), bytes.last())
    }
}

/// `AccountId::from_str` of openpit, taken to its integer: a text that is
/// empty or only white space is refused (`AccountIdError::Empty`);
/// otherwise the id is the FNV-1a 64-bit hash of the text's UTF-8 bytes.
#[verifier::external_body]
fn account_id_from_str(text: &str) -> (res: Option<u64>)
    ensures
        res is None <==> trimmed_text(text@).len() == 0,
        res matches Some(id) ==> id == fnv1a_64(text.spec_bytes()),
{
    match AccountId::from_str(text) {
        Ok(id) => Some(id.as_u64()),
        Err(_) => None,
    }
}

/// How Python compares two objects.
#[derive(Clone, Copy, Debug, PartialEq, Eq, Structural)]
pub enum CompareOp {
    /// `<`
    Lt,
    /// `<=`
    Le,
    /// `==`
    Eq,
    /// `!=`
    Ne,
    /// `>`
    Gt,
    /// `>=`
    Ge,
}

/// An account identifier of the binding: a 64-bit integer, given directly
/// or hashed from a text.
#[derive(Clone, Copy, Debug, PartialEq, Eq, Structural)]
pub struct PyAccountId {
    value: u64,
}

impl PyAccountId {
    /// The identifier's integer.
    pub closed spec fn spec_value(self) -> u64 {
        self.value
    }

    /// The identifier with integer `value`, unhashed.
    pub fn from_u64(value: u64) -> (res: Self)
        ensures
            res.spec_value() == value,
    {
        PyAccountId { value }
    }

    /// The identifier hashed from a text with FNV-1a 64-bit; a text that is
    /// empty or only white space is refused.
    pub fn from_str(value: &str) -> (res: Result<Self, String>)
        ensures
            match res {
                Ok(id) => trimmed_text(value@).len() > 0 && id.spec_value() == fnv1a_64(
                    value.spec_bytes(),
                ),
                Err(m) => trimmed_text(value@).len() == 0 && m@
                    == "account id string must not be empty"@,
            },
    {
        match account_id_from_str(value) {
            Some(id) => Ok(PyAccountId { value: id }),
            None => Err(String::from_str("account id string must not be empty")),
        }
    }

    /// The identifier's integer.
    pub fn value(&self) -> (res: u64)
        ensures
            res == self.spec_value(),
    {
        self.value
    }

    /// Python's rich comparison: identifiers are equal when their integers
    /// are; only `==` and `!=` against another identifier are answered
    /// (`None` stands for `NotImplemented`).
    pub fn rich_compare(&self, other: Option<&PyAccountId>, op: CompareOp) -> (res: Option<bool>)
        ensures
            match other {
                Some(o) => match op {
                    CompareOp::Eq => res == Some(self.spec_value() == o.spec_value()),
                    CompareOp::Ne => res == Some(self.spec_value() != o.spec_value()),
                    _ => res is None,
                },
                None => res is None,
            },
    {
        match other {
            None => None,
            Some(o) => match op {
                CompareOp::Eq => Some(self.value == o.value),
                CompareOp::Ne => Some(self.value != o.value),
                _ => None,
            },
        }
    }
}

/// `Leverage::from_u16` of openpit, taken to its raw value (scale 10): a
/// multiplier whose raw value does not fit `u16` gives
/// `Error::Overflow { param: Leverage }`, one outside `1..=3000` gives
/// `Error::InvalidLeverage`; the error is passed on as its display text.
#[verifier::external_body]
fn leverage_from_u16(multiplier: u16) -> (res: Result<u16, String>)
    ensures
        match res {
            Ok(raw) => 1 <= multiplier <= 3000 && raw == multiplier * 10,
            Err(m) => if multiplier * 10 > u16::MAX {
                m@ == "arithmetic overflow in Leverage"@
            } else {
                !(1 <= multiplier <= 3000) && m@ == "invalid leverage value"@
            },
        },
{
    match Leverage::from_u16(multiplier) {
        Ok(leverage) => Ok(leverage.raw()),
        Err(error) => Err(error.to_string()),
    }
}

/// A leverage multiplier of the binding, held as its fixed-point raw value
/// (scale 10).
#[derive(Clone, Copy, Debug, PartialEq, Eq, Structural)]
pub struct PyLeverage {
    raw: u16,
}

/// The message for a leverage multiplier the binding refuses.
pub open spec fn leverage_int_error(multiplier: int) -> Seq<char> {
    if multiplier < 0 || multiplier > u16::MAX {
        "invalid leverage value"@
    } else if multiplier * 10 > u16::MAX {
        "arithmetic overflow in Leverage"@
    } else {
        "invalid leverage value"@
    }
}

impl PyLeverage {
    /// The fixed-point raw value (scale 10).
    pub closed spec fn spec_raw(self) -> u16 {
        self.raw
    }

    /// Leverage of a whole multiplier within `1..=3000`.
    pub fn from_int(multiplier: i64) -> (res: Result<Self, String>)
        ensures
            match res {
                Ok(leverage) => 1 <= multiplier <= 3000 && leverage.spec_raw() == multiplier * 10,
                Err(m) => !(1 <= multiplier <= 3000) && m@ == leverage_int_error(multiplier as int),
            },
    {
        if multiplier < 0 || multiplier > 65535 {
            return Err(String::from_str("invalid leverage value"));
        }
        let narrow: u16 = multiplier as u16;
        match leverage_from_u16(narrow) {
            Ok(raw) => Ok(PyLeverage { raw }),
            Err(m) => Err(m),
        }
    }

    /// The fixed-point raw value (scale 10).
    pub fn raw(&self) -> (res: u16)
        ensures
            res == self.spec_raw(),
    {
        self.raw
    }
}

/// The reject a policy gets when its Python callback raised.
pub fn python_callback_reject(policy_name: &str) -> (res: RejectRecord)
    ensures
        res.policy@ == policy_name@,
        res.scope == OpenPitRejectScope::Order,
        res.code == OpenPitRejectCode::SystemUnavailable,
        res.reason@ == "python policy callback failed"@,
        res.details@ == "python policy callback raised an exception"@,
        res.user_data == 0,
{
    RejectRecord {
        policy: String::from_str(policy_name),
        reason: String::from_str("python policy callback failed"),
        details: String::from_str("python policy callback raised an exception"),
        user_data: 0,
        code: OpenPitRejectCode::SystemUnavailable,
        scope: OpenPitRejectScope::Order,
    }
}

/// Whether `r` is the reject a policy named `policy_name` gets when its
/// Python callback raised.
pub open spec fn is_callback_reject(r: RejectRecord, policy_name: Seq<char>) -> bool {
    &&& r.policy@ == policy_name
    &&& r.scope == OpenPitRejectScope::Order
    &&& r.code == OpenPitRejectCode::SystemUnavailable
    &&& r.reason@ == "python policy callback failed"@
    &&& r.details@ == "python policy callback raised an exception"@
    &&& r.user_data == 0
}

/// What a Python policy hook's answer means for the engine: a hook that
/// raised, or whose answer could not be read (`None`), rejects with the
/// callback reject; otherwise the hook passes when it returned no rejects
/// and rejects with them when it did.
pub fn python_policy_outcome(policy_name: &str, answer: Option<Vec<RejectRecord>>) -> (res: Result<
    (),
    Vec<RejectRecord>,
>)
    ensures
        match answer {
            None => res matches Err(rejects) && rejects@.len() == 1 && is_callback_reject(
                rejects@[0],
                policy_name@,
            ),
            Some(rejects) => if rejects@.len() == 0 {
                res is Ok
            } else {
                res matches Err(out) && out@ == rejects@
            },
        },
{
    match answer {
        None => {
            let mut rejects: Vec<RejectRecord> = Vec::new();
            rejects.push(python_callback_reject(policy_name));
            Err(rejects)
        },
        Some(rejects) => {
            if rejects.len() == 0 {
                Ok(())
            } else {
                Err(rejects)
            }
        },
    }
}

/// The message of a refused reject code or scope text.
pub open spec fn reject_text_message(error: RejectTextError, value: Seq<char>) -> Seq<char> {
    match error {
        RejectTextError::UnsupportedCode => "unsupported reject code "@ + debug_quoted(value),
        RejectTextError::InvalidScope => "reject.scope must be either 'order' or 'account'"@,
    }
}

/// The message of a refused reject code or scope text `value`.
pub fn reject_text_error_message(error: RejectTextError, value: &str) -> (res: String)
    ensures
        res@ == reject_text_message(error, value@),
{
    match error {
        RejectTextError::UnsupportedCode => String::from_str("unsupported reject code ").concat(
            str_debug(value).as_str(),
        ),
        RejectTextError::InvalidScope => String::from_str(
            "reject.scope must be either 'order' or 'account'",
        ),
    }
}

/// The reject a Python policy returned, from its fields: the code must be
/// named exactly and the scope read as a name; the reject is tagged with
/// the policy's name and keeps the caller's token.
pub fn parse_policy_reject(
    policy_name: &str,
    code: &str,
    reason: String,
    details: String,
    scope: &str,
    user_data: u64,
) -> (res: Result<RejectRecord, String>)
    ensures
        match res {
            Ok(r) => {
                &&& r.code.spec_name() == code@
                &&& crate::reject::is_nameable(r.code)
                &&& r.scope == (if name_key(scope@) == "order"@ {
                    OpenPitRejectScope::Order
                } else {
                    OpenPitRejectScope::Account
                })
                &&& (name_key(scope@) == "order"@ || name_key(scope@) == "account"@)
                &&& r.policy@ == policy_name@
                &&& r.reason@ == reason@
                &&& r.details@ == details@
                &&& r.user_data == #[verifier::truncate] (user_data as usize)
            },
            Err(m) => if forall|c: OpenPitRejectCode|
                crate::reject::is_nameable(c) ==> code@ != #[trigger] c.spec_name() {
                m@ == reject_text_message(RejectTextError::UnsupportedCode, code@)
            } else {
                name_key(scope@) != "order"@ && name_key(scope@) != "account"@ && m@
                    == reject_text_message(RejectTextError::InvalidScope, scope@)
            },
        },
{
    let parsed_code = match parse_reject_code(code) {
        Ok(c) => c,
        Err(e) => return Err(reject_text_error_message(e, code)),
    };
    proof {
        reveal_strlit("order");
        reveal_strlit("account");
        assert("order"@.len() != "account"@.len());
    }
    let parsed_scope = match parse_reject_scope(scope) {
        Ok(s) => s,
        Err(e) => return Err(reject_text_error_message(e, scope)),
    };
    Ok(
        RejectRecord {
            policy: String::from_str(policy_name),
            reason,
            details,
            user_data: #[verifier::truncate] (user_data as usize),
            code: parsed_code,
            scope: parsed_scope,
        },
    )
}

/// A reject as the binding hands it to Python: every field as text but the
/// caller's token.
#[derive(Clone, Debug, PartialEq, Eq)]
pub struct PyReject {
    /// The code's name.
    pub code: String,
    /// Human-readable reason.
    pub reason: String,
    /// Case-specific details.
    pub details: String,
    /// Name of the policy that rejected.
    pub policy: String,
    /// `order` or `account`.
    pub scope: String,
    /// Caller-defined token.
    pub user_data: u64,
}

/// The name the binding gives a reject scope.
pub open spec fn spec_scope_name(scope: OpenPitRejectScope) -> Seq<char> {
    match scope {
        OpenPitRejectScope::Order => "order"@,
        OpenPitRejectScope::Account => "account"@,
    }
}

/// A reject as the binding hands it to Python.
pub fn convert_reject(reject: &RejectRecord) -> (res: PyReject)
    ensures
        res.code@ == reject.code.spec_name(),
        res.reason@ == reject.reason@,
        res.details@ == reject.details@,
        res.policy@ == reject.policy@,
        res.scope@ == spec_scope_name(reject.scope),
        res.user_data == reject.user_data as u64,
{
    let scope = match reject.scope {
        OpenPitRejectScope::Order => "order",
        OpenPitRejectScope::Account => "account",
    };
    PyReject {
        code: String::from_str(reject.code.as_str()),
        reason: reject.reason.clone(),
        details: reject.details.clone(),
        policy: reject.policy.clone(),
        scope: String::from_str(scope),
        user_data: reject.user_data as u64,
    }
}

impl PyReject {
    /// Python's `repr` of the reject.
    pub fn repr(&self) -> (res: String)
        ensures
            res@ == "Reject(code="@ + debug_quoted(self.code@) + ", reason="@ + debug_quoted(
                self.reason@,
            ) + ", details="@ + debug_quoted(self.details@) + ", policy="@ + debug_quoted(
                self.policy@,
            ) + ", scope="@ + debug_quoted(self.scope@) + ", user_data="@ + decimal_text(
                self.user_data as nat,
            ) + ")"@,
    {
        String::from_str("Reject(code=").concat(str_debug(self.code.as_str()).as_str()).concat(
            ", reason=",
        ).concat(str_debug(self.reason.as_str()).as_str()).concat(", details=").concat(
            str_debug(self.details.as_str()).as_str(),
        ).concat(", policy=").concat(str_debug(self.policy.as_str()).as_str()).concat(
            ", scope=",
        ).concat(str_debug(self.scope.as_str()).as_str()).concat(", user_data=").concat(
            decimal_string(self.user_data).as_str(),
        ).concat(")")
    }
}

/// The text the binding reports for a failed engine build, for the two
/// categories openpit reports.
pub fn format_engine_build_error(error: &OpenPitEngineBuildError) -> (res: String)
    requires
        error.spec_code() != OpenPitEngineBuildErrorCode::Other,
    ensures
        error.spec_code() == OpenPitEngineBuildErrorCode::DuplicatePolicyName ==> res@
            == "duplicate policy name in engine configuration: "@ + error.spec_policy_name(),
        error.spec_code() == OpenPitEngineBuildErrorCode::DuplicatePolicyGroupId ==> res@
            == "duplicate non-default policy_group_id: "@ + decimal_text(
            error.spec_policy_group_id() as nat,
        ),
{
    match error.get_code() {
        OpenPitEngineBuildErrorCode::DuplicatePolicyName => {
            let name = error.get_policy_name();
            String::from_str("duplicate policy name in engine configuration: ").concat(
                crate::text::import_string(name).as_str(),
            )
        },
        _ => String::from_str("duplicate non-default policy_group_id: ").concat(
            decimal_string(error.get_policy_group_id() as u64).as_str(),
        ),
    }
}

/// Whether an asset code is accepted: not empty and not only white space.
pub open spec fn asset_text_ok(text: Seq<char>) -> bool {
    trimmed_text(text).len() > 0
}

/// The asset barriers of `(settlement asset, max orders, window)` tuples, in
/// order; refused when an asset code is not accepted.
fn parse_asset_tuples(tuples: &Vec<(String, usize, u64)>) -> (res: Option<Vec<RateLimitAssetRule>>)
    ensures
        match res {
            Some(rules) => rules@.len() == tuples@.len() && forall|k: int|
                0 <= k < tuples@.len() ==> {
                    &&& asset_text_ok((#[trigger] tuples@[k]).0@)
                    &&& rules@[k].settlement_asset@ == tuples@[k].0@
                    &&& rules@[k].max_orders == tuples@[k].1
                    &&& rules@[k].window_nanoseconds == tuples@[k].2
                },
            None => exists|k: int| 0 <= k < tuples@.len() && !asset_text_ok((#[trigger] tuples@[k]).0@),
        },
{
    let mut rules: Vec<RateLimitAssetRule> = Vec::new();
    let mut i: usize = 0;
    while i < tuples.len()
        invariant
            i <= tuples@.len(),
            rules@.len() == i,
            forall|k: int|
                0 <= k < i ==> {
                    &&& asset_text_ok((#[trigger] tuples@[k]).0@)
                    &&& rules@[k].settlement_asset@ == tuples@[k].0@
                    &&& rules@[k].max_orders == tuples@[k].1
                    &&& rules@[k].window_nanoseconds == tuples@[k].2
                },
        decreases tuples@.len() - i,
    {
        let entry = &tuples[i];
        let code = match asset_code(entry.0.as_str()) {
            Some(code) => code,
            None => return None,
        };
        rules.push(RateLimitAssetRule { settlement_asset: code, max_orders: entry.1, window_nanoseconds: entry.2 });
        i = i + 1;
    }
    Some(rules)
}

/// The account-asset barriers of `(account, settlement asset, max orders,
/// window)` tuples, in order; refused when an asset code is not accepted.
fn parse_account_asset_tuples(tuples: &Vec<(u64, String, usize, u64)>) -> (res: Option<
    Vec<RateLimitAccountAssetRule>,
>)
    ensures
        match res {
            Some(rules) => rules@.len() == tuples@.len() && forall|k: int|
                0 <= k < tuples@.len() ==> {
                    &&& asset_text_ok((#[trigger] tuples@[k]).1@)
                    &&& rules@[k].account_id == tuples@[k].0
                    &&& rules@[k].settlement_asset@ == tuples@[k].1@
                    &&& rules@[k].max_orders == tuples@[k].2
                    &&& rules@[k].window_nanoseconds == tuples@[k].3
                },
            None => exists|k: int| 0 <= k < tuples@.len() && !asset_text_ok((#[trigger] tuples@[k]).1@),
        },
{
    let mut rules: Vec<RateLimitAccountAssetRule> = Vec::new();
    let mut i: usize = 0;
    while i < tuples.len()
        invariant
            i <= tuples@.len(),
            rules@.len() == i,
            forall|k: int|
                0 <= k < i ==> {
                    &&& asset_text_ok((#[trigger] tuples@[k]).1@)
                    &&& rules@[k].account_id == tuples@[k].0
                    &&& rules@[k].settlement_asset@ == tuples@[k].1@
                    &&& rules@[k].max_orders == tuples@[k].2
                    &&& rules@[k].window_nanoseconds == tuples@[k].3
                },
        decreases tuples@.len() - i,
    {
        let entry = &tuples[i];
        let code = match asset_code(entry.1.as_str()) {
            Some(code) => code,
            None => return None,
        };
        rules.push(
            RateLimitAccountAssetRule {
                account_id: entry.0,
                settlement_asset: code,
                max_orders: entry.2,
                window_nanoseconds: entry.3,
            },
        );
        i = i + 1;
    }
    Some(rules)
}

/// The account barriers of `(account, max orders, window)` tuples, in order.
fn account_tuples(tuples: &Vec<(u64, usize, u64)>) -> (res: Vec<
    OpenPitPretradePoliciesRateLimitAccountBarrier,
>)
    ensures
        res@.len() == tuples@.len(),
        forall|k: int|
            0 <= k < tuples@.len() ==> (#[trigger] res@[k]) == (OpenPitPretradePoliciesRateLimitAccountBarrier {
                account_id: tuples@[k].0,
                max_orders: tuples@[k].1,
                window_nanoseconds: tuples@[k].2,
            }),
{
    let mut out: Vec<OpenPitPretradePoliciesRateLimitAccountBarrier> = Vec::new();
    let mut i: usize = 0;
    while i < tuples.len()
        invariant
            i <= tuples@.len(),
            out@.len() == i,
            forall|k: int|
                0 <= k < i ==> (#[trigger] out@[k]) == (OpenPitPretradePoliciesRateLimitAccountBarrier {
                    account_id: tuples@[k].0,
                    max_orders: tuples@[k].1,
                    window_nanoseconds: tuples@[k].2,
                }),
        decreases tuples@.len() - i,
    {
        let entry = &tuples[i];
        out.push(
            OpenPitPretradePoliciesRateLimitAccountBarrier {
                account_id: entry.0,
                max_orders: entry.1,
                window_nanoseconds: entry.2,
            },
        );
        i = i + 1;
    }
    out
}

/// The rate-limit barriers the binding's tuples describe: the broker
/// `(max orders, window)`, the asset, account and account-asset tuples, each
/// taken in order. Refused, with openpit's message for an empty asset, when
/// an asset code is empty or only white space.
pub fn parse_rate_limit_barriers(
    broker: Option<(usize, u64)>,
    asset_barriers: Vec<(String, usize, u64)>,
    account_barriers: Vec<(u64, usize, u64)>,
    account_asset_barriers: Vec<(u64, String, usize, u64)>,
) -> (res: Result<ParsedRateLimitBarriers, String>)
    ensures
        match res {
            Ok(parsed) => {
                &&& match broker {
                    Some(b) => parsed.broker == Some(
                        OpenPitPretradePoliciesRateLimitBrokerBarrier { max_orders: b.0, window_nanoseconds: b.1 },
                    ),
                    None => parsed.broker is None,
                }
                &&& parsed.asset@.len() == asset_barriers@.len()
                &&& forall|k: int|
                    0 <= k < asset_barriers@.len() ==> {
                        &&& asset_text_ok((#[trigger] asset_barriers@[k]).0@)
                        &&& parsed.asset@[k].settlement_asset@ == asset_barriers@[k].0@
                        &&& parsed.asset@[k].max_orders == asset_barriers@[k].1
                        &&& parsed.asset@[k].window_nanoseconds == asset_barriers@[k].2
                    }
                &&& parsed.account@.len() == account_barriers@.len()
                &&& forall|k: int|
                    0 <= k < account_barriers@.len() ==> (#[trigger] parsed.account@[k]) == (
                    OpenPitPretradePoliciesRateLimitAccountBarrier {
                        account_id: account_barriers@[k].0,
                        max_orders: account_barriers@[k].1,
                        window_nanoseconds: account_barriers@[k].2,
                    })
                &&& parsed.account_asset@.len() == account_asset_barriers@.len()
                &&& forall|k: int|
                    0 <= k < account_asset_barriers@.len() ==> {
                        &&& asset_text_ok((#[trigger] account_asset_barriers@[k]).1@)
                        &&& parsed.account_asset@[k].account_id == account_asset_barriers@[k].0
                        &&& parsed.account_asset@[k].settlement_asset@
                            == account_asset_barriers@[k].1@
                        &&& parsed.account_asset@[k].max_orders == account_asset_barriers@[k].2
                        &&& parsed.account_asset@[k].window_nanoseconds
                            == account_asset_barriers@[k].3
                    }
            },
            Err(m) => m@ == empty_asset_message() && ((exists|k: int|
                0 <= k < asset_barriers@.len() && !asset_text_ok(
                    (#[trigger] asset_barriers@[k]).0@,
                )) || (exists|k: int|
                0 <= k < account_asset_barriers@.len() && !asset_text_ok(
                    (#[trigger] account_asset_barriers@[k]).1@,
                ))),
        },
{
    let broker_barrier = match broker {
        Some(b) => Some(
            OpenPitPretradePoliciesRateLimitBrokerBarrier { max_orders: b.0, window_nanoseconds: b.1 },
        ),
        None => None,
    };
    let asset = match parse_asset_tuples(&asset_barriers) {
        Some(rules) => rules,
        None => return Err(String::from_str("asset must not be empty")),
    };
    let account = account_tuples(&account_barriers);
    let account_asset = match parse_account_asset_tuples(&account_asset_barriers) {
        Some(rules) => rules,
        None => return Err(String::from_str("asset must not be empty")),
    };
    Ok(ParsedRateLimitBarriers { broker: broker_barrier, asset, account, account_asset })
}

/// The message a non-negative parameter of kind `kind` (as openpit names
/// it) read from `text` is refused with: `None` when it is accepted.
pub open spec fn non_negative_text_error(text: Seq<char>, kind: Seq<char>) -> Option<Seq<char>> {
    match exact_decimal_parse(text) {
        None => Some("invalid format for "@ + kind + ": '"@ + text + "'"@),
        Some(bits) => if bits_mantissa(bits) < 0 {
            Some("value must be non-negative for "@ + kind)
        } else {
            None
        },
    }
}

/// `Quantity::from_str` of openpit, taken to the decimal's serialized form:
/// the text is read by `Decimal::from_str_exact` (`Error::InvalidFormat`
/// when it is refused) and a value below zero gives `Error::Negative`; the
/// error is passed on as its display text.
#[verifier::external_body]
fn quantity_from_str(text: &str) -> (res: Result<[u8; 16], String>)
    ensures
        match res {
            Ok(bits) => non_negative_text_error(text@, "Quantity"@) is None && exact_decimal_parse(
                text@,
            ) == Some(bits@),
            Err(m) => non_negative_text_error(text@, "Quantity"@) == Some(m@),
        },
{
    match Quantity::from_str(text) {
        Ok(value) => Ok(value.to_decimal().serialize()),
        Err(error) => Err(error.to_string()),
    }
}

/// `Volume::from_str` of openpit, taken to the decimal's serialized form:
/// the text is read by `Decimal::from_str_exact` (`Error::InvalidFormat`
/// when it is refused) and a value below zero gives `Error::Negative`; the
/// error is passed on as its display text.
#[verifier::external_body]
fn volume_from_str(text: &str) -> (res: Result<[u8; 16], String>)
    ensures
        match res {
            Ok(bits) => non_negative_text_error(text@, "Volume"@) is None && exact_decimal_parse(
                text@,
            ) == Some(bits@),
            Err(m) => non_negative_text_error(text@, "Volume"@) == Some(m@),
        },
{
    match Volume::from_str(text) {
        Ok(value) => Ok(value.to_decimal().serialize()),
        Err(error) => Err(error.to_string()),
    }
}

/// Order-size limits as the binding holds them: the decimal texts of the
/// largest quantity and the largest notional of one order.
#[derive(Clone, Debug, PartialEq, Eq)]
pub struct PyOrderSizeLimit {
    /// Maximum quantity, as decimal text.
    pub max_quantity: String,
    /// Maximum notional, as decimal text.
    pub max_notional: String,
}

/// The message limits are refused with, if any: the quantity is read first.
pub open spec fn limit_text_error(l: PyOrderSizeLimit) -> Option<Seq<char>> {
    match non_negative_text_error(l.max_quantity@, "Quantity"@) {
        Some(m) => Some(m),
        None => non_negative_text_error(l.max_notional@, "Volume"@),
    }
}

/// Whether `r` holds what limits read as.
pub open spec fn limit_text_parsed(l: PyOrderSizeLimit, r: OrderSizeLimitRule) -> bool {
    exact_decimal_parse(l.max_quantity@) == Some(r.max_quantity@) && exact_decimal_parse(
        l.max_notional@,
    ) == Some(r.max_notional@)
}

/// The message an asset barrier is refused with, if any: the limits are
/// read before the asset.
pub open spec fn asset_limit_error(l: PyOrderSizeLimit, asset: Seq<char>) -> Option<Seq<char>> {
    match limit_text_error(l) {
        Some(m) => Some(m),
        None => if asset_text_ok(asset) {
            None
        } else {
            Some(empty_asset_message())
        },
    }
}

/// Reads order-size limits.
fn parse_limit_texts(l: &PyOrderSizeLimit) -> (res: Result<OrderSizeLimitRule, String>)
    ensures
        match res {
            Ok(r) => limit_text_error(*l) is None && limit_text_parsed(*l, r),
            Err(m) => limit_text_error(*l) == Some(m@),
        },
{
    let max_quantity = match quantity_from_str(l.max_quantity.as_str()) {
        Ok(bits) => bits,
        Err(m) => return Err(m),
    };
    let max_notional = match volume_from_str(l.max_notional.as_str()) {
        Ok(bits) => bits,
        Err(m) => return Err(m),
    };
    Ok(OrderSizeLimitRule { max_quantity, max_notional })
}

/// The order-size barriers the binding's arguments describe: an optional
/// broker limit, `(limit, settlement asset)` pairs and `(limit, account,
/// settlement asset)` triples, each read in order; the first refusal is
/// reported (broker first, then the asset pairs, then the triples).
pub fn parse_order_size_limit_barriers(
    broker: Option<&PyOrderSizeLimit>,
    asset_barriers: Vec<(PyOrderSizeLimit, String)>,
    account_asset_barriers: Vec<(PyOrderSizeLimit, u64, String)>,
) -> (res: Result<
    (Option<OrderSizeLimitRule>, Vec<OrderSizeAssetRule>, Vec<OrderSizeAccountAssetRule>),
    String,
>)
    ensures
        match res {
            Ok((b, assets, accounts)) => {
                &&& match broker {
                    Some(l) => limit_text_error(*l) is None && (b matches Some(r)
                        && limit_text_parsed(*l, r)),
                    None => b is None,
                }
                &&& assets@.len() == asset_barriers@.len()
                &&& forall|k: int|
                    0 <= k < asset_barriers@.len() ==> {
                        &&& asset_limit_error(
                            (#[trigger] asset_barriers@[k]).0,
                            asset_barriers@[k].1@,
                        ) is None
                        &&& limit_text_parsed(asset_barriers@[k].0, assets@[k].limit)
                        &&& assets@[k].settlement_asset@ == asset_barriers@[k].1@
                    }
                &&& accounts@.len() == account_asset_barriers@.len()
                &&& forall|k: int|
                    0 <= k < account_asset_barriers@.len() ==> {
                        &&& asset_limit_error(
                            (#[trigger] account_asset_barriers@[k]).0,
                            account_asset_barriers@[k].2@,
                        ) is None
                        &&& limit_text_parsed(account_asset_barriers@[k].0, accounts@[k].limit)
                        &&& accounts@[k].account_id == account_asset_barriers@[k].1
                        &&& accounts@[k].settlement_asset@ == account_asset_barriers@[k].2@
                    }
            },
            Err(m) => {
                ||| (broker matches Some(l) && limit_text_error(*l) == Some(m@))
                ||| {
                    &&& (broker matches Some(l) ==> limit_text_error(*l) is None)
                    &&& exists|i: int|
                        0 <= i < asset_barriers@.len() && asset_limit_error(
                            (#[trigger] asset_barriers@[i]).0,
                            asset_barriers@[i].1@,
                        ) == Some(m@) && forall|k: int|
                            0 <= k < i ==> asset_limit_error(
                                (#[trigger] asset_barriers@[k]).0,
                                asset_barriers@[k].1@,
                            ) is None
                }
                ||| {
                    &&& (broker matches Some(l) ==> limit_text_error(*l) is None)
                    &&& forall|k: int|
                        0 <= k < asset_barriers@.len() ==> asset_limit_error(
                            (#[trigger] asset_barriers@[k]).0,
                            asset_barriers@[k].1@,
                        ) is None
                    &&& exists|i: int|
                        0 <= i < account_asset_barriers@.len() && asset_limit_error(
                            (#[trigger] account_asset_barriers@[i]).0,
                            account_asset_barriers@[i].2@,
                        ) == Some(m@) && forall|k: int|
                            0 <= k < i ==> asset_limit_error(
                                (#[trigger] account_asset_barriers@[k]).0,
                                account_asset_barriers@[k].2@,
                            ) is None
                }
            },
        },
{
    let broker_rule = match broker {
        Some(l) => match parse_limit_texts(l) {
            Ok(r) => Some(r),
            Err(m) => return Err(m),
        },
        None => None,
    };
    let mut assets: Vec<OrderSizeAssetRule> = Vec::new();
    let mut i: usize = 0;
    while i < asset_barriers.len()
        invariant
            i <= asset_barriers@.len(),
            assets@.len() == i,
            broker matches Some(l) ==> limit_text_error(*l) is None,
            forall|k: int|
                0 <= k < i ==> {
                    &&& asset_limit_error(
                        (#[trigger] asset_barriers@[k]).0,
                        asset_barriers@[k].1@,
                    ) is None
                    &&& limit_text_parsed(asset_barriers@[k].0, assets@[k].limit)
                    &&& assets@[k].settlement_asset@ == asset_barriers@[k].1@
                },
        decreases asset_barriers@.len() - i,
    {
        let entry = &asset_barriers[i];
        let limit = match parse_limit_texts(&entry.0) {
            Ok(r) => r,
            Err(m) => return Err(m),
        };
        let settlement_asset = match asset_code(entry.1.as_str()) {
            Some(code) => code,
            None => return Err(String::from_str("asset must not be empty")),
        };
        assets.push(OrderSizeAssetRule { limit, settlement_asset });
        i = i + 1;
    }
    let mut accounts: Vec<OrderSizeAccountAssetRule> = Vec::new();
    let mut j: usize = 0;
    while j < account_asset_barriers.len()
        invariant
            j <= account_asset_barriers@.len(),
            accounts@.len() == j,
            broker matches Some(l) ==> limit_text_error(*l) is None,
            forall|k: int|
                0 <= k < asset_barriers@.len() ==> asset_limit_error(
                    (#[trigger] asset_barriers@[k]).0,
                    asset_barriers@[k].1@,
                ) is None,
            forall|k: int|
                0 <= k < j ==> {
                    &&& asset_limit_error(
                        (#[trigger] account_asset_barriers@[k]).0,
                        account_asset_barriers@[k].2@,
                    ) is None
                    &&& limit_text_parsed(account_asset_barriers@[k].0, accounts@[k].limit)
                    &&& accounts@[k].account_id == account_asset_barriers@[k].1
                    &&& accounts@[k].settlement_asset@ == account_asset_barriers@[k].2@
                },
        decreases account_asset_barriers@.len() - j,
    {
        let entry = &account_asset_barriers[j];
        let limit = match parse_limit_texts(&entry.0) {
            Ok(r) => r,
            Err(m) => return Err(m),
        };
        let settlement_asset = match asset_code(entry.2.as_str()) {
            Some(code) => code,
            None => return Err(String::from_str("asset must not be empty")),
        };
        accounts.push(OrderSizeAccountAssetRule { limit, account_id: entry.1, settlement_asset });
        j = j + 1;
    }
    Ok((broker_rule, assets, accounts))
}

/// The fields a Python balance operation carries, each possibly unset.
pub struct PyBalanceFields {
    /// Balance asset code.
    pub asset: Option<String>,
    /// Average entry price, serialized.
    pub average_entry_price: Option<[u8; 16]>,
}

/// The fields a Python position operation carries, each possibly unset.
pub struct PyPositionFields {
    /// Underlying asset code.
    pub underlying_asset: Option<String>,
    /// Settlement asset code.
    pub settlement_asset: Option<String>,
    /// Collateral asset code.
    pub collateral_asset: Option<String>,
    /// Average entry price, serialized.
    pub average_entry_price: Option<[u8; 16]>,
    /// Position mode.
    pub mode: Option<PositionMode>,
    /// Leverage, fixed point with scale 10.
    pub leverage: Option<u16>,
}

/// The operation a Python account adjustment carries.
pub enum PyOperationFields {
    /// A balance operation.
    Balance(PyBalanceFields),
    /// A position operation.
    Position(PyPositionFields),
}

/// The message for a position operation without both instrument assets.
pub open spec fn position_instrument_message() -> Seq<char> {
    "account adjustment position operation requires underlying_asset and settlement_asset"@
}

/// The operation of a Python account adjustment: none when absent; a
/// balance operation needs its asset; a position operation needs both
/// instrument assets, then its collateral asset, its average entry price and
/// its mode, the first missing one being reported.
pub fn python_adjustment_operation(operation: Option<PyOperationFields>) -> (res: Result<
    AccountAdjustmentOperation,
    String,
>)
    ensures
        operation is None ==> res == Ok::<AccountAdjustmentOperation, String>(AccountAdjustmentOperation::Absent),
        operation matches Some(PyOperationFields::Balance(b)) ==> match b.asset {
            Some(asset) => res matches Ok(AccountAdjustmentOperation::Balance(op)) && op.asset == asset
                && op.average_entry_price == b.average_entry_price,
            None => res matches Err(m) && m@ == "account adjustment balance operation requires asset"@,
        },
        operation matches Some(PyOperationFields::Position(p)) ==> if p.underlying_asset is None
            || p.settlement_asset is None {
            res matches Err(m) && m@ == position_instrument_message()
        } else if p.collateral_asset is None {
            res matches Err(m) && m@ == "account adjustment position operation requires collateral_asset"@
        } else if p.average_entry_price is None {
            res matches Err(m) && m@ == "account adjustment position operation requires average_entry_price"@
        } else if p.mode is None {
            res matches Err(m) && m@ == "account adjustment position operation requires mode"@
        } else {
            res matches Ok(AccountAdjustmentOperation::Position(op)) && Some(op.instrument.underlying_asset)
                == p.underlying_asset && Some(op.instrument.settlement_asset) == p.settlement_asset && Some(
                op.collateral_asset,
            ) == p.collateral_asset && Some(op.average_entry_price) == p.average_entry_price && Some(op.mode)
                == p.mode && op.leverage == p.leverage
        },
{
    match operation {
        None => Ok(AccountAdjustmentOperation::Absent),
        Some(PyOperationFields::Balance(b)) => match b.asset {
            Some(asset) => Ok(
                AccountAdjustmentOperation::Balance(
                    AccountAdjustmentBalanceOperation { asset, average_entry_price: b.average_entry_price },
                ),
            ),
            None => Err(String::from_str("account adjustment balance operation requires asset")),
        },
        Some(PyOperationFields::Position(p)) => {
            let (underlying_asset, settlement_asset) = match (p.underlying_asset, p.settlement_asset) {
                (Some(u), Some(s)) => (u, s),
                _ => return Err(
                    String::from_str(
                        "account adjustment position operation requires underlying_asset and settlement_asset",
                    ),
                ),
            };
            let collateral_asset = match p.collateral_asset {
                Some(c) => c,
                None => return Err(
                    String::from_str("account adjustment position operation requires collateral_asset"),
                ),
            };
            let average_entry_price = match p.average_entry_price {
                Some(price) => price,
                None => return Err(
                    String::from_str("account adjustment position operation requires average_entry_price"),
                ),
            };
            let mode = match p.mode {
                Some(mode) => mode,
                None => return Err(String::from_str("account adjustment position operation requires mode")),
            };
            Ok(
                AccountAdjustmentOperation::Position(
                    AccountAdjustmentPositionOperation {
                        instrument: InstrumentAssets { underlying_asset, settlement_asset },
                        collateral_asset,
                        average_entry_price,
                        mode,
                        leverage: p.leverage,
                    },
                ),
            )
        },
    }
}

/// Law: the names the binding gives reject scopes, and the messages of a
/// refused reject code or scope text.
pub proof fn lemma_reject_text_names(value: Seq<char>)
    ensures
        spec_scope_name(OpenPitRejectScope::Order) == "order"@,
        spec_scope_name(OpenPitRejectScope::Account) == "account"@,
        reject_text_message(RejectTextError::UnsupportedCode, value) == "unsupported reject code "@
            + debug_quoted(value),
        reject_text_message(RejectTextError::InvalidScope, value)
            == "reject.scope must be either 'order' or 'account'"@,
{
}

} // verus!
