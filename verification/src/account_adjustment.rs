//! Account adjustments: the caller-owned payload of the C interface, the
//! owned adjustment the engine applies, and the conversions between them.

use crate::instrument::{
    import_instrument, is_asset_view_error, is_instrument_error, parse_asset_view,
    spec_asset_view, spec_import_instrument, InstrumentAssets, OpenPitInstrument,
};
use crate::param::{
    bits_mantissa, bits_scale, is_decimal_bits, lemma_bits_value_round_trip, same_decimal,
    OpenPitParamAdjustmentAmountKind, OpenPitParamDecimal, OpenPitParamPositionMode,
    OpenPitParamPositionSize, OpenPitParamPositionSizeOptional, OpenPitParamPrice,
    OpenPitParamPriceOptional,
};
use crate::string::OpenPitStringView;
use crate::text::trimmed_text;
use openpit::param::Leverage;
use vstd::prelude::*;
use vstd::string::StringExecFns;

verus! {

/// `Leverage::from_raw` of openpit, taken back to its raw value: accepts a
/// fixed-point value (scale 10) within `10..=30000`.
#[verifier::external_body]
fn leverage_from_raw(raw: u16) -> (res: Option<u16>)
    ensures
        res is Some <==> 10 <= raw <= 30000,
        res matches Some(value) ==> value == raw,
{
    match Leverage::from_raw(raw) {
        Ok(leverage) => Some(leverage.raw()),
        Err(_) => None,
    }
}

/// One amount component inside an account adjustment: a signed value and
/// how it applies.
#[derive(Clone, Copy, Debug, PartialEq, Eq, Default, Structural)]
pub struct OpenPitParamAdjustmentAmount {
    /// Signed numeric value of the adjustment.
    pub value: OpenPitParamPositionSize,
    /// Interpretation mode for `value`.
    pub kind: OpenPitParamAdjustmentAmountKind,
}

/// Balance-operation payload for account adjustment.
#[derive(Clone, Copy, Debug, PartialEq, Eq, Default)]
pub struct OpenPitAccountAdjustmentBalanceOperation<'a> {
    /// Balance asset code.
    pub asset: OpenPitStringView<'a>,
    /// Optional average entry price.
    pub average_entry_price: OpenPitParamPriceOptional,
}

/// Position-operation payload for account adjustment.
#[derive(Clone, Copy, Debug, PartialEq, Eq, Default)]
pub struct OpenPitAccountAdjustmentPositionOperation<'a> {
    /// Position instrument.
    pub instrument: OpenPitInstrument<'a>,
    /// Position collateral asset.
    pub collateral_asset: OpenPitStringView<'a>,
    /// Position average entry price.
    pub average_entry_price: OpenPitParamPriceOptional,
    /// Leverage, fixed point with scale 10; 0 when not set.
    pub leverage: u16,
    /// Position mode.
    pub mode: OpenPitParamPositionMode,
}

/// Optional balance operation: `value` is meaningful only when `is_set`.
#[derive(Clone, Copy, Debug, PartialEq, Eq, Default)]
pub struct OpenPitAccountAdjustmentBalanceOperationOptional<'a> {
    /// The operation, when set.
    pub value: OpenPitAccountAdjustmentBalanceOperation<'a>,
    /// Whether the operation is set.
    pub is_set: bool,
}

/// Optional position operation: `value` is meaningful only when `is_set`.
#[derive(Clone, Copy, Debug, PartialEq, Eq, Default)]
pub struct OpenPitAccountAdjustmentPositionOperationOptional<'a> {
    /// The operation, when set.
    pub value: OpenPitAccountAdjustmentPositionOperation<'a>,
    /// Whether the operation is set.
    pub is_set: bool,
}

/// Amount-change group for account adjustment.
#[derive(Clone, Copy, Debug, PartialEq, Eq, Default, Structural)]
pub struct OpenPitAccountAdjustmentAmount {
    /// Requested total-balance change.
    pub total: OpenPitParamAdjustmentAmount,
    /// Requested reserved-balance change.
    pub reserved: OpenPitParamAdjustmentAmount,
    /// Requested pending-balance change.
    pub pending: OpenPitParamAdjustmentAmount,
}

/// Optional amount-change group.
#[derive(Clone, Copy, Debug, PartialEq, Eq, Default, Structural)]
pub struct OpenPitAccountAdjustmentAmountOptional {
    /// The group, when set.
    pub value: OpenPitAccountAdjustmentAmount,
    /// Whether the group is set.
    pub is_set: bool,
}

/// Bounds group for account adjustment.
#[derive(Clone, Copy, Debug, PartialEq, Eq, Default, Structural)]
pub struct OpenPitAccountAdjustmentBounds {
    /// Optional upper bound for total balance.
    pub total_upper: OpenPitParamPositionSizeOptional,
    /// Optional lower bound for total balance.
    pub total_lower: OpenPitParamPositionSizeOptional,
    /// Optional upper bound for reserved balance.
    pub reserved_upper: OpenPitParamPositionSizeOptional,
    /// Optional lower bound for reserved balance.
    pub reserved_lower: OpenPitParamPositionSizeOptional,
    /// Optional upper bound for pending balance.
    pub pending_upper: OpenPitParamPositionSizeOptional,
    /// Optional lower bound for pending balance.
    pub pending_lower: OpenPitParamPositionSizeOptional,
}

/// Optional bounds group.
#[derive(Clone, Copy, Debug, PartialEq, Eq, Default, Structural)]
pub struct OpenPitAccountAdjustmentBoundsOptional {
    /// The group, when set.
    pub value: OpenPitAccountAdjustmentBounds,
    /// Whether the group is set.
    pub is_set: bool,
}

/// Full caller-owned account-adjustment payload.
#[derive(Clone, Copy, Debug, PartialEq, Eq, Default)]
pub struct OpenPitAccountAdjustment<'a> {
    /// Optional balance-operation group.
    pub balance_operation: OpenPitAccountAdjustmentBalanceOperationOptional<'a>,
    /// Optional position-operation group.
    pub position_operation: OpenPitAccountAdjustmentPositionOperationOptional<'a>,
    /// Optional amount-change group.
    pub amount: OpenPitAccountAdjustmentAmountOptional,
    /// Optional bounds group.
    pub bounds: OpenPitAccountAdjustmentBoundsOptional,
    /// Opaque caller-defined token; 0 means not set. Never inspected.
    pub user_data: usize,
}

/// Result of applying an account-adjustment batch.
#[derive(Clone, Copy, Debug, PartialEq, Eq, Default, Structural)]
pub enum OpenPitAccountAdjustmentApplyStatus {
    /// The call failed before the batch could be evaluated.
    #[default]
    Error,
    /// The batch was accepted and applied.
    Applied,
    /// The batch was evaluated and rejected by policy or validation logic.
    Rejected,
}

/// An amount change and how it applies; the value in serialized form.
#[derive(Clone, Copy, Debug, PartialEq, Eq)]
pub enum AdjustmentAmount {
    /// Change the current state by the signed amount.
    Delta([u8; 16]),
    /// Set the current state to the signed amount.
    Absolute([u8; 16]),
}

/// Position accounting mode of a position operation.
#[derive(Clone, Copy, Debug, PartialEq, Eq, Structural)]
pub enum PositionMode {
    /// One net position per instrument.
    Netting,
    /// Independent long and short legs per instrument.
    Hedged,
}

/// Balance operation of an adjustment.
#[derive(Clone, Debug, PartialEq, Eq)]
pub struct AccountAdjustmentBalanceOperation {
    /// Balance asset code.
    pub asset: String,
    /// Average entry price, serialized.
    pub average_entry_price: Option<[u8; 16]>,
}

/// Position operation of an adjustment.
#[derive(Clone, Debug, PartialEq, Eq)]
pub struct AccountAdjustmentPositionOperation {
    /// Position instrument.
    pub instrument: InstrumentAssets,
    /// Position collateral asset code.
    pub collateral_asset: String,
    /// Average entry price, serialized.
    pub average_entry_price: [u8; 16],
    /// Position mode.
    pub mode: PositionMode,
    /// Leverage, fixed point with scale 10.
    pub leverage: Option<u16>,
}

/// The operation of an adjustment.
#[derive(Clone, Debug, PartialEq, Eq)]
pub enum AccountAdjustmentOperation {
    /// No operation.
    Absent,
    /// A balance operation.
    Balance(AccountAdjustmentBalanceOperation),
    /// A position operation.
    Position(AccountAdjustmentPositionOperation),
}

/// Amount changes of an adjustment.
#[derive(Clone, Copy, Debug, PartialEq, Eq)]
pub struct AccountAdjustmentAmount {
    /// Total-balance change.
    pub total: Option<AdjustmentAmount>,
    /// Reserved-balance change.
    pub reserved: Option<AdjustmentAmount>,
    /// Pending-balance change.
    pub pending: Option<AdjustmentAmount>,
}

/// Bounds of an adjustment, each serialized.
#[derive(Clone, Copy, Debug, PartialEq, Eq)]
pub struct AccountAdjustmentBounds {
    /// Upper bound for total balance.
    pub total_upper: Option<[u8; 16]>,
    /// Lower bound for total balance.
    pub total_lower: Option<[u8; 16]>,
    /// Upper bound for reserved balance.
    pub reserved_upper: Option<[u8; 16]>,
    /// Lower bound for reserved balance.
    pub reserved_lower: Option<[u8; 16]>,
    /// Upper bound for pending balance.
    pub pending_upper: Option<[u8; 16]>,
    /// Lower bound for pending balance.
    pub pending_lower: Option<[u8; 16]>,
}

/// An owned account adjustment with the caller's token.
#[derive(Clone, Debug, PartialEq, Eq)]
pub struct AccountAdjustment {
    /// The operation.
    pub operation: AccountAdjustmentOperation,
    /// Amount changes, when given.
    pub amount: Option<AccountAdjustmentAmount>,
    /// Bounds, when given.
    pub bounds: Option<AccountAdjustmentBounds>,
    /// Opaque caller-defined token; 0 means not set.
    pub user_data: usize,
}

// ---------------------------------------------------------------------------
// What importing accepts and yields.

/// Whether an optional serialized decimal holds what a boundary decimal
/// denotes (`None` when the boundary value is not set).
pub open spec fn decimal_imported(is_set: bool, d: OpenPitParamDecimal, r: Option<[u8; 16]>) -> bool {
    if is_set {
        r matches Some(b) && b@ == d.spec_bits()
    } else {
        r is None
    }
}

/// Whether an amount component imports.
pub open spec fn amount_value_ok(v: OpenPitParamAdjustmentAmount) -> bool {
    v.kind == OpenPitParamAdjustmentAmountKind::NotSet || v.value.0.is_valid()
}

/// Whether `r` is the import of an amount component.
pub open spec fn amount_value_imported(v: OpenPitParamAdjustmentAmount, r: Option<AdjustmentAmount>) -> bool {
    match v.kind {
        OpenPitParamAdjustmentAmountKind::NotSet => r is None,
        OpenPitParamAdjustmentAmountKind::Delta => r matches Some(AdjustmentAmount::Delta(b)) && b@
            == v.value.0.spec_bits(),
        OpenPitParamAdjustmentAmountKind::Absolute => r matches Some(AdjustmentAmount::Absolute(b))
            && b@ == v.value.0.spec_bits(),
    }
}

/// Whether a balance operation imports.
pub open spec fn balance_ok(v: OpenPitAccountAdjustmentBalanceOperationOptional) -> bool {
    !v.is_set || (spec_asset_view(v.value.asset) matches Some(Some(_)) && (
    !v.value.average_entry_price.is_set || v.value.average_entry_price.value.0.is_valid()))
}

/// Whether `message` is the error an unimportable balance operation gives.
pub open spec fn balance_error(v: OpenPitAccountAdjustmentBalanceOperationOptional, message: Seq<char>) -> bool {
    let asset = v.value.asset;
    if spec_asset_view(asset) is None {
        is_asset_view_error(asset, "account_adjustment.balance.asset"@, message)
    } else if spec_asset_view(asset) == Some(None::<Seq<char>>) {
        message == "account_adjustment.balance.asset is not set"@
    } else {
        message == v.value.average_entry_price.value.0.spec_error().spec_message()
    }
}

/// Whether `r` is the import of a balance operation.
pub open spec fn balance_imported(
    v: OpenPitAccountAdjustmentBalanceOperationOptional,
    r: Option<AccountAdjustmentBalanceOperation>,
) -> bool {
    if v.is_set {
        r matches Some(op) && spec_asset_view(v.value.asset) == Some(Some(op.asset@))
            && decimal_imported(
            v.value.average_entry_price.is_set,
            v.value.average_entry_price.value.0,
            op.average_entry_price,
        )
    } else {
        r is None
    }
}

/// The position mode a boundary mode gives, if any.
pub open spec fn mode_imported(m: OpenPitParamPositionMode) -> Option<PositionMode> {
    match m {
        OpenPitParamPositionMode::NotSet => None,
        OpenPitParamPositionMode::Netting => Some(PositionMode::Netting),
        OpenPitParamPositionMode::Hedged => Some(PositionMode::Hedged),
    }
}

/// The leverage a boundary raw value gives: none when out of range.
pub open spec fn leverage_imported(raw: u16) -> Option<u16> {
    if 10 <= raw <= 30000 {
        Some(raw)
    } else {
        None
    }
}

/// Whether a position operation imports.
pub open spec fn position_ok(v: OpenPitAccountAdjustmentPositionOperationOptional) -> bool {
    let op = v.value;
    !v.is_set || (spec_import_instrument(op.instrument) matches Some(Some(_))
        && spec_asset_view(op.collateral_asset) matches Some(Some(_))
        && op.average_entry_price.is_set && op.average_entry_price.value.0.is_valid() && op.mode
        != OpenPitParamPositionMode::NotSet)
}

/// Whether `message` is the error an unimportable position operation gives.
pub open spec fn position_error(v: OpenPitAccountAdjustmentPositionOperationOptional, message: Seq<char>) -> bool {
    let op = v.value;
    if spec_import_instrument(op.instrument) is None {
        is_instrument_error(op.instrument, message)
    } else if spec_import_instrument(op.instrument) == Some(None::<(Seq<char>, Seq<char>)>) {
        message == "account_adjustment.position.instrument is not set"@
    } else if spec_asset_view(op.collateral_asset) is None {
        is_asset_view_error(op.collateral_asset, "account_adjustment.position.collateral_asset"@, message)
    } else if spec_asset_view(op.collateral_asset) == Some(None::<Seq<char>>) {
        message == "account_adjustment.position.collateral_asset is not set"@
    } else if !op.average_entry_price.is_set {
        message == "account_adjustment.position.average_entry_price is not set"@
    } else if !op.average_entry_price.value.0.is_valid() {
        message == op.average_entry_price.value.0.spec_error().spec_message()
    } else {
        message == "account_adjustment.position.mode is not set"@
    }
}

/// Whether `r` is the import of a position operation.
pub open spec fn position_imported(
    v: OpenPitAccountAdjustmentPositionOperationOptional,
    r: Option<AccountAdjustmentPositionOperation>,
) -> bool {
    let op = v.value;
    if v.is_set {
        r matches Some(p) && spec_import_instrument(op.instrument) == Some(
            Some((p.instrument.underlying_asset@, p.instrument.settlement_asset@)),
        ) && spec_asset_view(op.collateral_asset) == Some(Some(p.collateral_asset@))
            && p.average_entry_price@ == op.average_entry_price.value.0.spec_bits() && Some(p.mode)
            == mode_imported(op.mode) && p.leverage == leverage_imported(op.leverage)
    } else {
        r is None
    }
}

/// Whether an amount group imports.
pub open spec fn amount_ok(v: OpenPitAccountAdjustmentAmountOptional) -> bool {
    !v.is_set || (amount_value_ok(v.value.total) && amount_value_ok(v.value.reserved)
        && amount_value_ok(v.value.pending))
}

/// The error an unimportable amount group gives: the first invalid value's.
pub open spec fn amount_error(v: OpenPitAccountAdjustmentAmountOptional) -> Seq<char> {
    if !amount_value_ok(v.value.total) {
        v.value.total.value.0.spec_error().spec_message()
    } else if !amount_value_ok(v.value.reserved) {
        v.value.reserved.value.0.spec_error().spec_message()
    } else {
        v.value.pending.value.0.spec_error().spec_message()
    }
}

/// Whether `r` is the import of an amount group.
pub open spec fn amount_imported(v: OpenPitAccountAdjustmentAmountOptional, r: Option<AccountAdjustmentAmount>) -> bool {
    if v.is_set {
        r matches Some(a) && amount_value_imported(v.value.total, a.total) && amount_value_imported(
            v.value.reserved,
            a.reserved,
        ) && amount_value_imported(v.value.pending, a.pending)
    } else {
        r is None
    }
}

/// Whether an optional bound imports.
pub open spec fn bound_ok(v: OpenPitParamPositionSizeOptional) -> bool {
    !v.is_set || v.value.0.is_valid()
}

/// Whether a bounds group imports.
pub open spec fn bounds_ok(v: OpenPitAccountAdjustmentBoundsOptional) -> bool {
    let b = v.value;
    !v.is_set || (bound_ok(b.total_upper) && bound_ok(b.total_lower) && bound_ok(b.reserved_upper)
        && bound_ok(b.reserved_lower) && bound_ok(b.pending_upper) && bound_ok(b.pending_lower))
}

/// The error an unimportable bounds group gives: the first invalid bound's.
pub open spec fn bounds_error(v: OpenPitAccountAdjustmentBoundsOptional) -> Seq<char> {
    let b = v.value;
    let first = if !bound_ok(b.total_upper) {
        b.total_upper
    } else if !bound_ok(b.total_lower) {
        b.total_lower
    } else if !bound_ok(b.reserved_upper) {
        b.reserved_upper
    } else if !bound_ok(b.reserved_lower) {
        b.reserved_lower
    } else if !bound_ok(b.pending_upper) {
        b.pending_upper
    } else {
        b.pending_lower
    };
    first.value.0.spec_error().spec_message()
}

/// Whether `r` is the import of a bounds group.
pub open spec fn bounds_imported(v: OpenPitAccountAdjustmentBoundsOptional, r: Option<AccountAdjustmentBounds>) -> bool {
    let b = v.value;
    if v.is_set {
        r matches Some(x) && decimal_imported(b.total_upper.is_set, b.total_upper.value.0, x.total_upper)
            && decimal_imported(b.total_lower.is_set, b.total_lower.value.0, x.total_lower)
            && decimal_imported(b.reserved_upper.is_set, b.reserved_upper.value.0, x.reserved_upper)
            && decimal_imported(b.reserved_lower.is_set, b.reserved_lower.value.0, x.reserved_lower)
            && decimal_imported(b.pending_upper.is_set, b.pending_upper.value.0, x.pending_upper)
            && decimal_imported(b.pending_lower.is_set, b.pending_lower.value.0, x.pending_lower)
    } else {
        r is None
    }
}

/// Whether a payload imports: every group imports and at most one
/// operation is set.
pub open spec fn adjustment_ok(v: OpenPitAccountAdjustment) -> bool {
    &&& balance_ok(v.balance_operation)
    &&& position_ok(v.position_operation)
    &&& !(v.balance_operation.is_set && v.position_operation.is_set)
    &&& amount_ok(v.amount)
    &&& bounds_ok(v.bounds)
}

/// Whether `message` is the error an unimportable payload gives: that of the
/// first check that fails.
pub open spec fn adjustment_error(v: OpenPitAccountAdjustment, message: Seq<char>) -> bool {
    if !balance_ok(v.balance_operation) {
        balance_error(v.balance_operation, message)
    } else if !position_ok(v.position_operation) {
        position_error(v.position_operation, message)
    } else if v.balance_operation.is_set && v.position_operation.is_set {
        message == "account_adjustment has both balance and position operation"@
    } else if !amount_ok(v.amount) {
        message == amount_error(v.amount)
    } else {
        message == bounds_error(v.bounds)
    }
}

/// Whether `op` is the import of a payload's operation groups.
pub open spec fn operation_imported(v: OpenPitAccountAdjustment, op: AccountAdjustmentOperation) -> bool {
    match op {
        AccountAdjustmentOperation::Absent => !v.balance_operation.is_set
            && !v.position_operation.is_set,
        AccountAdjustmentOperation::Balance(x) => balance_imported(v.balance_operation, Some(x))
            && !v.position_operation.is_set,
        AccountAdjustmentOperation::Position(x) => position_imported(v.position_operation, Some(x))
            && !v.balance_operation.is_set,
    }
}

/// Whether `a` is the import of a payload.
pub open spec fn adjustment_imported(v: OpenPitAccountAdjustment, a: AccountAdjustment) -> bool {
    &&& operation_imported(v, a.operation)
    &&& amount_imported(v.amount, a.amount)
    &&& bounds_imported(v.bounds, a.bounds)
    &&& a.user_data == v.user_data
}

// ---------------------------------------------------------------------------
// Importing.

/// The serialized decimal a boundary decimal denotes, or the message for
/// why it denotes none.
fn import_decimal(d: OpenPitParamDecimal) -> (res: Result<[u8; 16], String>)
    ensures
        match res {
            Ok(b) => d.is_valid() && b@ == d.spec_bits(),
            Err(m) => !d.is_valid() && m@ == d.spec_error().spec_message(),
        },
{
    match d.to_bits() {
        Ok(b) => Ok(b),
        Err(e) => Err(String::from_str(e.message())),
    }
}

/// Imports one amount component.
fn import_adjustment_amount(v: OpenPitParamAdjustmentAmount) -> (res: Result<
    Option<AdjustmentAmount>,
    String,
>)
    ensures
        match res {
            Ok(r) => amount_value_ok(v) && amount_value_imported(v, r),
            Err(m) => !amount_value_ok(v) && m@ == v.value.0.spec_error().spec_message(),
        },
{
    match v.kind {
        OpenPitParamAdjustmentAmountKind::NotSet => Ok(None),
        OpenPitParamAdjustmentAmountKind::Delta => match import_decimal(v.value.0) {
            Ok(b) => Ok(Some(AdjustmentAmount::Delta(b))),
            Err(m) => Err(m),
        },
        OpenPitParamAdjustmentAmountKind::Absolute => match import_decimal(v.value.0) {
            Ok(b) => Ok(Some(AdjustmentAmount::Absolute(b))),
            Err(m) => Err(m),
        },
    }
}

/// Imports an optional price or size.
fn import_optional_decimal(is_set: bool, d: OpenPitParamDecimal) -> (res: Result<
    Option<[u8; 16]>,
    String,
>)
    ensures
        match res {
            Ok(r) => (!is_set || d.is_valid()) && decimal_imported(is_set, d, r),
            Err(m) => is_set && !d.is_valid() && m@ == d.spec_error().spec_message(),
        },
{
    if !is_set {
        return Ok(None);
    }
    match import_decimal(d) {
        Ok(b) => Ok(Some(b)),
        Err(m) => Err(m),
    }
}

/// Imports a balance operation.
pub fn import_balance_operation(v: OpenPitAccountAdjustmentBalanceOperationOptional) -> (res: Result<
    Option<AccountAdjustmentBalanceOperation>,
    String,
>)
    requires
        v.value.asset.readable(),
    ensures
        match res {
            Ok(r) => balance_ok(v) && balance_imported(v, r),
            Err(m) => !balance_ok(v) && balance_error(v, m@),
        },
{
    if !v.is_set {
        return Ok(None);
    }
    let asset = match parse_asset_view(v.value.asset, "account_adjustment.balance.asset") {
        Ok(Some(asset)) => asset,
        Ok(None) => return Err(String::from_str("account_adjustment.balance.asset is not set")),
        Err(m) => return Err(m),
    };
    let price = v.value.average_entry_price;
    let average_entry_price = match import_optional_decimal(price.is_set, price.value.0) {
        Ok(p) => p,
        Err(m) => return Err(m),
    };
    Ok(Some(AccountAdjustmentBalanceOperation { asset, average_entry_price }))
}

/// The leverage a raw boundary value gives.
pub fn import_leverage(raw: u16) -> (res: Option<u16>)
    ensures
        res == leverage_imported(raw),
{
    leverage_from_raw(raw)
}

/// Imports a position operation.
pub fn import_position_operation(v: OpenPitAccountAdjustmentPositionOperationOptional) -> (res: Result<
    Option<AccountAdjustmentPositionOperation>,
    String,
>)
    requires
        v.value.instrument.underlying_asset.readable(),
        v.value.instrument.settlement_asset.readable(),
        v.value.collateral_asset.readable(),
    ensures
        match res {
            Ok(r) => position_ok(v) && position_imported(v, r),
            Err(m) => !position_ok(v) && position_error(v, m@),
        },
{
    if !v.is_set {
        return Ok(None);
    }
    let op = v.value;
    let instrument = match import_instrument(&op.instrument) {
        Ok(Some(i)) => i,
        Ok(None) => return Err(String::from_str("account_adjustment.position.instrument is not set")),
        Err(m) => return Err(m),
    };
    let collateral_asset = match parse_asset_view(
        op.collateral_asset,
        "account_adjustment.position.collateral_asset",
    ) {
        Ok(Some(asset)) => asset,
        Ok(None) => return Err(
            String::from_str("account_adjustment.position.collateral_asset is not set"),
        ),
        Err(m) => return Err(m),
    };
    if !op.average_entry_price.is_set {
        return Err(String::from_str("account_adjustment.position.average_entry_price is not set"));
    }
    let average_entry_price = match import_decimal(op.average_entry_price.value.0) {
        Ok(b) => b,
        Err(m) => return Err(m),
    };
    let mode = match op.mode {
        OpenPitParamPositionMode::NotSet => return Err(
            String::from_str("account_adjustment.position.mode is not set"),
        ),
        OpenPitParamPositionMode::Netting => PositionMode::Netting,
        OpenPitParamPositionMode::Hedged => PositionMode::Hedged,
    };
    Ok(
        Some(
            AccountAdjustmentPositionOperation {
                instrument,
                collateral_asset,
                average_entry_price,
                mode,
                leverage: import_leverage(op.leverage),
            },
        ),
    )
}

/// Imports an amount group.
pub fn import_amount(v: OpenPitAccountAdjustmentAmountOptional) -> (res: Result<
    Option<AccountAdjustmentAmount>,
    String,
>)
    ensures
        match res {
            Ok(r) => amount_ok(v) && amount_imported(v, r),
            Err(m) => !amount_ok(v) && m@ == amount_error(v),
        },
{
    if !v.is_set {
        return Ok(None);
    }
    let total = match import_adjustment_amount(v.value.total) {
        Ok(a) => a,
        Err(m) => return Err(m),
    };
    let reserved = match import_adjustment_amount(v.value.reserved) {
        Ok(a) => a,
        Err(m) => return Err(m),
    };
    let pending = match import_adjustment_amount(v.value.pending) {
        Ok(a) => a,
        Err(m) => return Err(m),
    };
    Ok(Some(AccountAdjustmentAmount { total, reserved, pending }))
}

/// Imports one optional bound.
pub fn import_bound(v: OpenPitParamPositionSizeOptional) -> (res: Result<Option<[u8; 16]>, String>)
    ensures
        match res {
            Ok(r) => bound_ok(v) && decimal_imported(v.is_set, v.value.0, r),
            Err(m) => !bound_ok(v) && m@ == v.value.0.spec_error().spec_message(),
        },
{
    import_optional_decimal(v.is_set, v.value.0)
}

/// Imports a bounds group.
pub fn import_bounds(v: OpenPitAccountAdjustmentBoundsOptional) -> (res: Result<
    Option<AccountAdjustmentBounds>,
    String,
>)
    ensures
        match res {
            Ok(r) => bounds_ok(v) && bounds_imported(v, r),
            Err(m) => !bounds_ok(v) && m@ == bounds_error(v),
        },
{
    if !v.is_set {
        return Ok(None);
    }
    let b = v.value;
    let total_upper = match import_bound(b.total_upper) {
        Ok(x) => x,
        Err(m) => return Err(m),
    };
    let total_lower = match import_bound(b.total_lower) {
        Ok(x) => x,
        Err(m) => return Err(m),
    };
    let reserved_upper = match import_bound(b.reserved_upper) {
        Ok(x) => x,
        Err(m) => return Err(m),
    };
    let reserved_lower = match import_bound(b.reserved_lower) {
        Ok(x) => x,
        Err(m) => return Err(m),
    };
    let pending_upper = match import_bound(b.pending_upper) {
        Ok(x) => x,
        Err(m) => return Err(m),
    };
    let pending_lower = match import_bound(b.pending_lower) {
        Ok(x) => x,
        Err(m) => return Err(m),
    };
    Ok(
        Some(
            AccountAdjustmentBounds {
                total_upper,
                total_lower,
                reserved_upper,
                reserved_lower,
                pending_upper,
                pending_lower,
            },
        ),
    )
}

/// Whether every view of a payload can be read.
pub open spec fn adjustment_readable(v: OpenPitAccountAdjustment) -> bool {
    &&& v.balance_operation.value.asset.readable()
    &&& v.position_operation.value.instrument.underlying_asset.readable()
    &&& v.position_operation.value.instrument.settlement_asset.readable()
    &&& v.position_operation.value.collateral_asset.readable()
}

/// Imports a caller-owned payload into an owned adjustment; the error of the
/// first check that fails otherwise.
pub fn import_account_adjustment(value: &OpenPitAccountAdjustment) -> (res: Result<
    AccountAdjustment,
    String,
>)
    requires
        adjustment_readable(*value),
    ensures
        match res {
            Ok(a) => adjustment_ok(*value) && adjustment_imported(*value, a),
            Err(m) => !adjustment_ok(*value) && adjustment_error(*value, m@),
        },
{
    let balance_operation = match import_balance_operation(value.balance_operation) {
        Ok(b) => b,
        Err(m) => return Err(m),
    };
    let position_operation = match import_position_operation(value.position_operation) {
        Ok(p) => p,
        Err(m) => return Err(m),
    };
    let operation = match (balance_operation, position_operation) {
        (Some(balance), None) => AccountAdjustmentOperation::Balance(balance),
        (None, Some(position)) => AccountAdjustmentOperation::Position(position),
        (None, None) => AccountAdjustmentOperation::Absent,
        (Some(_), Some(_)) => {
            return Err(String::from_str("account_adjustment has both balance and position operation"));
        },
    };
    let amount = match import_amount(value.amount) {
        Ok(a) => a,
        Err(m) => return Err(m),
    };
    let bounds = match import_bounds(value.bounds) {
        Ok(b) => b,
        Err(m) => return Err(m),
    };
    Ok(AccountAdjustment { operation, amount, bounds, user_data: value.user_data })
}

// ---------------------------------------------------------------------------
// Exporting.

/// Whether a boundary decimal carries a serialized decimal's value.
pub open spec fn decimal_exported(b: [u8; 16], d: OpenPitParamDecimal) -> bool {
    d.spec_mantissa() == bits_mantissa(b@) && d.scale == bits_scale(b@)
}

/// Whether a boundary decimal is the zero filler of an unset value.
pub open spec fn is_zero_decimal(d: OpenPitParamDecimal) -> bool {
    d.mantissa_lo == 0 && d.mantissa_hi == 0 && d.scale == 0
}

/// Whether a view borrows exactly the bytes of a string.
pub open spec fn text_exported(s: String, v: OpenPitStringView) -> bool {
    &&& v.ptr.target() is Some
    &&& v.readable()
    &&& v.spec_bytes() == vstd::utf8::encode_utf8(s@)
}

/// Whether a view is unset.
pub open spec fn is_unset_view(v: OpenPitStringView) -> bool {
    v.ptr.target() is None && v.len == 0
}

/// Whether an optional boundary decimal carries an optional serialized one.
pub open spec fn optional_exported(r: Option<[u8; 16]>, is_set: bool, d: OpenPitParamDecimal) -> bool {
    match r {
        Some(b) => is_set && decimal_exported(b, d),
        None => !is_set && is_zero_decimal(d),
    }
}

/// Whether a boundary amount component carries an amount change.
pub open spec fn amount_value_exported(r: Option<AdjustmentAmount>, v: OpenPitParamAdjustmentAmount) -> bool {
    match r {
        Some(AdjustmentAmount::Delta(b)) => v.kind == OpenPitParamAdjustmentAmountKind::Delta
            && decimal_exported(b, v.value.0),
        Some(AdjustmentAmount::Absolute(b)) => v.kind == OpenPitParamAdjustmentAmountKind::Absolute
            && decimal_exported(b, v.value.0),
        None => v.kind == OpenPitParamAdjustmentAmountKind::NotSet && is_zero_decimal(v.value.0),
    }
}

/// Whether a boundary balance operation carries a balance operation.
pub open spec fn balance_exported(op: AccountAdjustmentBalanceOperation, v: OpenPitAccountAdjustmentBalanceOperation) -> bool {
    text_exported(op.asset, v.asset) && optional_exported(
        op.average_entry_price,
        v.average_entry_price.is_set,
        v.average_entry_price.value.0,
    )
}

/// The boundary mode of a position mode.
pub open spec fn mode_exported(m: PositionMode) -> OpenPitParamPositionMode {
    match m {
        PositionMode::Netting => OpenPitParamPositionMode::Netting,
        PositionMode::Hedged => OpenPitParamPositionMode::Hedged,
    }
}

/// Whether a boundary position operation carries a position operation.
pub open spec fn position_exported(op: AccountAdjustmentPositionOperation, v: OpenPitAccountAdjustmentPositionOperation) -> bool {
    &&& text_exported(op.instrument.underlying_asset, v.instrument.underlying_asset)
    &&& text_exported(op.instrument.settlement_asset, v.instrument.settlement_asset)
    &&& text_exported(op.collateral_asset, v.collateral_asset)
    &&& v.average_entry_price.is_set
    &&& decimal_exported(op.average_entry_price, v.average_entry_price.value.0)
    &&& v.mode == mode_exported(op.mode)
    &&& v.leverage == match op.leverage {
        Some(raw) => raw,
        None => 0,
    }
}

/// Whether a boundary balance operation is the filler of an absent one.
pub open spec fn balance_unset(v: OpenPitAccountAdjustmentBalanceOperationOptional) -> bool {
    !v.is_set && is_unset_view(v.value.asset) && !v.value.average_entry_price.is_set
        && is_zero_decimal(v.value.average_entry_price.value.0)
}

/// Whether a boundary position operation is the filler of an absent one.
pub open spec fn position_unset(v: OpenPitAccountAdjustmentPositionOperationOptional) -> bool {
    &&& !v.is_set
    &&& is_unset_view(v.value.instrument.underlying_asset)
    &&& is_unset_view(v.value.instrument.settlement_asset)
    &&& is_unset_view(v.value.collateral_asset)
    &&& !v.value.average_entry_price.is_set
    &&& is_zero_decimal(v.value.average_entry_price.value.0)
    &&& v.value.leverage == 0
    &&& v.value.mode == OpenPitParamPositionMode::NotSet
}

/// Whether a boundary amount group carries an optional amount change group.
pub open spec fn amount_exported(r: Option<AccountAdjustmentAmount>, v: OpenPitAccountAdjustmentAmountOptional) -> bool {
    v.is_set == r is Some && amount_value_exported(
        match r {
            Some(a) => a.total,
            None => None,
        },
        v.value.total,
    ) && amount_value_exported(
        match r {
            Some(a) => a.reserved,
            None => None,
        },
        v.value.reserved,
    ) && amount_value_exported(
        match r {
            Some(a) => a.pending,
            None => None,
        },
        v.value.pending,
    )
}

/// Whether a boundary bounds group carries an optional bounds group.
pub open spec fn bounds_exported(r: Option<AccountAdjustmentBounds>, v: OpenPitAccountAdjustmentBoundsOptional) -> bool {
    let b = v.value;
    &&& v.is_set == r is Some
    &&& match r {
        Some(x) => {
            &&& optional_exported(x.total_upper, b.total_upper.is_set, b.total_upper.value.0)
            &&& optional_exported(x.total_lower, b.total_lower.is_set, b.total_lower.value.0)
            &&& optional_exported(x.reserved_upper, b.reserved_upper.is_set, b.reserved_upper.value.0)
            &&& optional_exported(x.reserved_lower, b.reserved_lower.is_set, b.reserved_lower.value.0)
            &&& optional_exported(x.pending_upper, b.pending_upper.is_set, b.pending_upper.value.0)
            &&& optional_exported(x.pending_lower, b.pending_lower.is_set, b.pending_lower.value.0)
        },
        None => {
            &&& optional_exported(None, b.total_upper.is_set, b.total_upper.value.0)
            &&& optional_exported(None, b.total_lower.is_set, b.total_lower.value.0)
            &&& optional_exported(None, b.reserved_upper.is_set, b.reserved_upper.value.0)
            &&& optional_exported(None, b.reserved_lower.is_set, b.reserved_lower.value.0)
            &&& optional_exported(None, b.pending_upper.is_set, b.pending_upper.value.0)
            &&& optional_exported(None, b.pending_lower.is_set, b.pending_lower.value.0)
        },
    }
}

/// Whether a payload carries an adjustment.
pub open spec fn adjustment_exported(a: AccountAdjustment, v: OpenPitAccountAdjustment) -> bool {
    &&& match a.operation {
        AccountAdjustmentOperation::Absent => balance_unset(v.balance_operation) && position_unset(
            v.position_operation,
        ),
        AccountAdjustmentOperation::Balance(op) => v.balance_operation.is_set && balance_exported(
            op,
            v.balance_operation.value,
        ) && position_unset(v.position_operation),
        AccountAdjustmentOperation::Position(op) => v.position_operation.is_set
            && position_exported(op, v.position_operation.value) && balance_unset(
            v.balance_operation,
        ),
    }
    &&& amount_exported(a.amount, v.amount)
    &&& bounds_exported(a.bounds, v.bounds)
    &&& v.user_data == a.user_data
}

/// Whether an optional serialized decimal is a decimal value.
pub open spec fn optional_is_decimal(r: Option<[u8; 16]>) -> bool {
    r matches Some(b) ==> is_decimal_bits(b@)
}

/// Whether an amount change holds a decimal value.
pub open spec fn amount_value_is_decimal(r: Option<AdjustmentAmount>) -> bool {
    match r {
        Some(AdjustmentAmount::Delta(b)) => is_decimal_bits(b@),
        Some(AdjustmentAmount::Absolute(b)) => is_decimal_bits(b@),
        None => true,
    }
}

/// Whether every value of an adjustment is a serialized decimal value.
pub open spec fn adjustment_decimals(a: AccountAdjustment) -> bool {
    &&& match a.operation {
        AccountAdjustmentOperation::Absent => true,
        AccountAdjustmentOperation::Balance(op) => optional_is_decimal(op.average_entry_price),
        AccountAdjustmentOperation::Position(op) => is_decimal_bits(op.average_entry_price@),
    }
    &&& a.amount matches Some(x) ==> amount_value_is_decimal(x.total) && amount_value_is_decimal(
        x.reserved,
    ) && amount_value_is_decimal(x.pending)
    &&& a.bounds matches Some(x) ==> optional_is_decimal(x.total_upper) && optional_is_decimal(
        x.total_lower,
    ) && optional_is_decimal(x.reserved_upper) && optional_is_decimal(x.reserved_lower)
        && optional_is_decimal(x.pending_upper) && optional_is_decimal(x.pending_lower)
}

/// The boundary decimal of a serialized decimal.
fn export_decimal(b: [u8; 16]) -> (res: OpenPitParamDecimal)
    requires
        is_decimal_bits(b@),
    ensures
        decimal_exported(b, res),
{
    OpenPitParamDecimal::from_bits(b)
}

/// The zero filler of an unset decimal.
fn zero_decimal() -> (res: OpenPitParamDecimal)
    ensures
        is_zero_decimal(res),
{
    OpenPitParamDecimal { mantissa_lo: 0, mantissa_hi: 0, scale: 0 }
}

/// Exports an optional price.
fn export_optional_price(r: Option<[u8; 16]>) -> (res: OpenPitParamPriceOptional)
    requires
        optional_is_decimal(r),
    ensures
        optional_exported(r, res.is_set, res.value.0),
{
    match r {
        Some(b) => OpenPitParamPriceOptional { value: OpenPitParamPrice(export_decimal(b)), is_set: true },
        None => OpenPitParamPriceOptional { value: OpenPitParamPrice(zero_decimal()), is_set: false },
    }
}

/// Exports an optional bound.
pub fn export_bound(r: Option<[u8; 16]>) -> (res: OpenPitParamPositionSizeOptional)
    requires
        optional_is_decimal(r),
    ensures
        optional_exported(r, res.is_set, res.value.0),
{
    match r {
        Some(b) => OpenPitParamPositionSizeOptional {
            value: OpenPitParamPositionSize(export_decimal(b)),
            is_set: true,
        },
        None => OpenPitParamPositionSizeOptional {
            value: OpenPitParamPositionSize(zero_decimal()),
            is_set: false,
        },
    }
}

/// Exports one amount change.
pub fn export_adjustment_amount(r: Option<AdjustmentAmount>) -> (res: OpenPitParamAdjustmentAmount)
    requires
        amount_value_is_decimal(r),
    ensures
        amount_value_exported(r, res),
{
    match r {
        Some(AdjustmentAmount::Delta(b)) => OpenPitParamAdjustmentAmount {
            value: OpenPitParamPositionSize(export_decimal(b)),
            kind: OpenPitParamAdjustmentAmountKind::Delta,
        },
        Some(AdjustmentAmount::Absolute(b)) => OpenPitParamAdjustmentAmount {
            value: OpenPitParamPositionSize(export_decimal(b)),
            kind: OpenPitParamAdjustmentAmountKind::Absolute,
        },
        None => OpenPitParamAdjustmentAmount {
            value: OpenPitParamPositionSize(zero_decimal()),
            kind: OpenPitParamAdjustmentAmountKind::NotSet,
        },
    }
}

/// A view of a string's bytes.
fn export_text(s: &String) -> (res: OpenPitStringView<'_>)
    ensures
        text_exported(*s, res),
{
    OpenPitStringView::from_utf8(s.as_str())
}

/// Exports a balance operation.
pub fn export_balance_operation(op: &AccountAdjustmentBalanceOperation) -> (res: OpenPitAccountAdjustmentBalanceOperation<'_>)
    requires
        optional_is_decimal(op.average_entry_price),
    ensures
        balance_exported(*op, res),
{
    OpenPitAccountAdjustmentBalanceOperation {
        asset: export_text(&op.asset),
        average_entry_price: export_optional_price(op.average_entry_price),
    }
}

/// Exports a position operation.
pub fn export_position_operation(op: &AccountAdjustmentPositionOperation) -> (res: OpenPitAccountAdjustmentPositionOperation<'_>)
    requires
        is_decimal_bits(op.average_entry_price@),
    ensures
        position_exported(*op, res),
{
    OpenPitAccountAdjustmentPositionOperation {
        instrument: OpenPitInstrument {
            underlying_asset: export_text(&op.instrument.underlying_asset),
            settlement_asset: export_text(&op.instrument.settlement_asset),
        },
        collateral_asset: export_text(&op.collateral_asset),
        average_entry_price: OpenPitParamPriceOptional {
            value: OpenPitParamPrice(export_decimal(op.average_entry_price)),
            is_set: true,
        },
        leverage: match op.leverage {
            Some(raw) => raw,
            None => 0,
        },
        mode: match op.mode {
            PositionMode::Netting => OpenPitParamPositionMode::Netting,
            PositionMode::Hedged => OpenPitParamPositionMode::Hedged,
        },
    }
}

/// The filler of an absent balance operation.
fn unset_balance<'a>() -> (res: OpenPitAccountAdjustmentBalanceOperationOptional<'a>)
    ensures
        balance_unset(res),
{
    OpenPitAccountAdjustmentBalanceOperationOptional {
        value: OpenPitAccountAdjustmentBalanceOperation {
            asset: OpenPitStringView::not_set(),
            average_entry_price: export_optional_price(None),
        },
        is_set: false,
    }
}

/// The filler of an absent position operation.
fn unset_position<'a>() -> (res: OpenPitAccountAdjustmentPositionOperationOptional<'a>)
    ensures
        position_unset(res),
{
    OpenPitAccountAdjustmentPositionOperationOptional {
        value: OpenPitAccountAdjustmentPositionOperation {
            instrument: OpenPitInstrument {
                underlying_asset: OpenPitStringView::not_set(),
                settlement_asset: OpenPitStringView::not_set(),
            },
            collateral_asset: OpenPitStringView::not_set(),
            average_entry_price: export_optional_price(None),
            leverage: 0,
            mode: OpenPitParamPositionMode::NotSet,
        },
        is_set: false,
    }
}

/// Exports an optional amount group.
pub fn export_amount(r: &Option<AccountAdjustmentAmount>) -> (res: OpenPitAccountAdjustmentAmountOptional)
    requires
        r matches Some(x) ==> amount_value_is_decimal(x.total) && amount_value_is_decimal(
            x.reserved,
        ) && amount_value_is_decimal(x.pending),
    ensures
        amount_exported(*r, res),
{
    match r {
        Some(a) => OpenPitAccountAdjustmentAmountOptional {
            value: OpenPitAccountAdjustmentAmount {
                total: export_adjustment_amount(a.total),
                reserved: export_adjustment_amount(a.reserved),
                pending: export_adjustment_amount(a.pending),
            },
            is_set: true,
        },
        None => OpenPitAccountAdjustmentAmountOptional {
            value: OpenPitAccountAdjustmentAmount {
                total: export_adjustment_amount(None),
                reserved: export_adjustment_amount(None),
                pending: export_adjustment_amount(None),
            },
            is_set: false,
        },
    }
}

/// Exports an optional bounds group.
pub fn export_bounds(r: &Option<AccountAdjustmentBounds>) -> (res: OpenPitAccountAdjustmentBoundsOptional)
    requires
        r matches Some(x) ==> optional_is_decimal(x.total_upper) && optional_is_decimal(
            x.total_lower,
        ) && optional_is_decimal(x.reserved_upper) && optional_is_decimal(x.reserved_lower)
            && optional_is_decimal(x.pending_upper) && optional_is_decimal(x.pending_lower),
    ensures
        bounds_exported(*r, res),
{
    match r {
        Some(b) => OpenPitAccountAdjustmentBoundsOptional {
            value: OpenPitAccountAdjustmentBounds {
                total_upper: export_bound(b.total_upper),
                total_lower: export_bound(b.total_lower),
                reserved_upper: export_bound(b.reserved_upper),
                reserved_lower: export_bound(b.reserved_lower),
                pending_upper: export_bound(b.pending_upper),
                pending_lower: export_bound(b.pending_lower),
            },
            is_set: true,
        },
        None => OpenPitAccountAdjustmentBoundsOptional {
            value: OpenPitAccountAdjustmentBounds {
                total_upper: export_bound(None),
                total_lower: export_bound(None),
                reserved_upper: export_bound(None),
                reserved_lower: export_bound(None),
                pending_upper: export_bound(None),
                pending_lower: export_bound(None),
            },
            is_set: false,
        },
    }
}

/// Exports an adjustment as a payload whose views borrow its texts.
pub fn export_account_adjustment(a: &AccountAdjustment) -> (res: OpenPitAccountAdjustment<'_>)
    requires
        adjustment_decimals(*a),
    ensures
        adjustment_exported(*a, res),
{
    let (balance_operation, position_operation) = match &a.operation {
        AccountAdjustmentOperation::Balance(op) => (
            OpenPitAccountAdjustmentBalanceOperationOptional {
                value: export_balance_operation(op),
                is_set: true,
            },
            unset_position(),
        ),
        AccountAdjustmentOperation::Position(op) => (
            unset_balance(),
            OpenPitAccountAdjustmentPositionOperationOptional {
                value: export_position_operation(op),
                is_set: true,
            },
        ),
        AccountAdjustmentOperation::Absent => (unset_balance(), unset_position()),
    };
    OpenPitAccountAdjustment {
        balance_operation,
        position_operation,
        amount: export_amount(&a.amount),
        bounds: export_bounds(&a.bounds),
        user_data: a.user_data,
    }
}

// ---------------------------------------------------------------------------
// Export followed by import.

/// Whether a serialized decimal survives export and import: a decimal value.
pub open spec fn bits_round_trip(b: [u8; 16]) -> bool {
    is_decimal_bits(b@)
}

/// Whether an optional serialized decimal survives export and import.
pub open spec fn optional_round_trip(r: Option<[u8; 16]>) -> bool {
    r matches Some(b) ==> bits_round_trip(b)
}

/// Whether an amount change survives export and import.
pub open spec fn amount_value_round_trip(r: Option<AdjustmentAmount>) -> bool {
    match r {
        Some(AdjustmentAmount::Delta(b)) => bits_round_trip(b),
        Some(AdjustmentAmount::Absolute(b)) => bits_round_trip(b),
        None => true,
    }
}

/// Whether an asset code survives export and import: not blank.
pub open spec fn code_round_trip(s: String) -> bool {
    trimmed_text(s@).len() > 0
}

/// Whether an adjustment survives export and import: its decimals are
/// decimal values, its asset codes are not blank,
/// and its leverage is within range.
pub open spec fn adjustment_round_trips(a: AccountAdjustment) -> bool {
    &&& match a.operation {
        AccountAdjustmentOperation::Absent => true,
        AccountAdjustmentOperation::Balance(op) => code_round_trip(op.asset) && optional_round_trip(
            op.average_entry_price,
        ),
        AccountAdjustmentOperation::Position(op) => {
            &&& code_round_trip(op.instrument.underlying_asset)
            &&& code_round_trip(op.instrument.settlement_asset)
            &&& code_round_trip(op.collateral_asset)
            &&& bits_round_trip(op.average_entry_price)
            &&& op.leverage matches Some(raw) ==> 10 <= raw <= 30000
        },
    }
    &&& a.amount matches Some(x) ==> amount_value_round_trip(x.total) && amount_value_round_trip(
        x.reserved,
    ) && amount_value_round_trip(x.pending)
    &&& a.bounds matches Some(x) ==> optional_round_trip(x.total_upper) && optional_round_trip(
        x.total_lower,
    ) && optional_round_trip(x.reserved_upper) && optional_round_trip(x.reserved_lower)
        && optional_round_trip(x.pending_upper) && optional_round_trip(x.pending_lower)
}

/// Whether two optional serialized decimals hold the same value at the
/// same scale.
pub open spec fn same_optional(x: Option<[u8; 16]>, y: Option<[u8; 16]>) -> bool {
    match (x, y) {
        (Some(p), Some(q)) => same_decimal(p@, q@),
        (None, None) => true,
        _ => false,
    }
}

/// Whether two amount changes are the same.
pub open spec fn same_amount_value(x: Option<AdjustmentAmount>, y: Option<AdjustmentAmount>) -> bool {
    match (x, y) {
        (Some(AdjustmentAmount::Delta(p)), Some(AdjustmentAmount::Delta(q))) => same_decimal(p@, q@),
        (Some(AdjustmentAmount::Absolute(p)), Some(AdjustmentAmount::Absolute(q))) => same_decimal(
            p@,
            q@,
        ),
        (None, None) => true,
        _ => false,
    }
}

/// Whether two operations hold the same texts and values.
pub open spec fn same_operation(a: AccountAdjustmentOperation, b: AccountAdjustmentOperation) -> bool {
    match (a, b) {
        (AccountAdjustmentOperation::Absent, AccountAdjustmentOperation::Absent) => true,
        (AccountAdjustmentOperation::Balance(x), AccountAdjustmentOperation::Balance(y)) => x.asset@
            == y.asset@ && same_optional(x.average_entry_price, y.average_entry_price),
        (AccountAdjustmentOperation::Position(x), AccountAdjustmentOperation::Position(y)) => {
            &&& x.instrument.underlying_asset@ == y.instrument.underlying_asset@
            &&& x.instrument.settlement_asset@ == y.instrument.settlement_asset@
            &&& x.collateral_asset@ == y.collateral_asset@
            &&& same_decimal(x.average_entry_price@, y.average_entry_price@)
            &&& x.mode == y.mode
            &&& x.leverage == y.leverage
        },
        _ => false,
    }
}

/// Whether two optional amount groups hold the same changes.
pub open spec fn same_amount(a: Option<AccountAdjustmentAmount>, b: Option<AccountAdjustmentAmount>) -> bool {
    match (a, b) {
        (Some(x), Some(y)) => same_amount_value(x.total, y.total) && same_amount_value(
            x.reserved,
            y.reserved,
        ) && same_amount_value(x.pending, y.pending),
        (None, None) => true,
        _ => false,
    }
}

/// Whether two optional bounds groups hold the same bounds.
pub open spec fn same_bounds(a: Option<AccountAdjustmentBounds>, b: Option<AccountAdjustmentBounds>) -> bool {
    match (a, b) {
        (Some(x), Some(y)) => same_optional(x.total_upper, y.total_upper) && same_optional(
            x.total_lower,
            y.total_lower,
        ) && same_optional(x.reserved_upper, y.reserved_upper) && same_optional(
            x.reserved_lower,
            y.reserved_lower,
        ) && same_optional(x.pending_upper, y.pending_upper) && same_optional(
            x.pending_lower,
            y.pending_lower,
        ),
        (None, None) => true,
        _ => false,
    }
}

/// Whether two adjustments hold the same texts, values and token.
pub open spec fn same_adjustment(a: AccountAdjustment, b: AccountAdjustment) -> bool {
    &&& same_operation(a.operation, b.operation)
    &&& same_amount(a.amount, b.amount)
    &&& same_bounds(a.bounds, b.bounds)
    &&& a.user_data == b.user_data
}

/// An exported asset code reads back as itself.
proof fn lemma_text_round_trip(s: String, v: OpenPitStringView)
    requires
        text_exported(s, v),
        code_round_trip(s),
    ensures
        spec_asset_view(v) == Some(Some(s@)),
{
    vstd::utf8::encode_utf8_valid_utf8(s@);
    vstd::utf8::encode_utf8_decode_utf8(s@);
}

/// An exported decimal reads back as the same value at the same scale.
proof fn lemma_decimal_round_trip(b: [u8; 16], d: OpenPitParamDecimal)
    requires
        decimal_exported(b, d),
        bits_round_trip(b),
    ensures
        d.is_valid(),
        same_decimal(b@, d.spec_bits()),
{
    lemma_bits_value_round_trip(b@);
}

/// An exported optional decimal reads back as itself.
proof fn lemma_optional_round_trip(r: Option<[u8; 16]>, is_set: bool, d: OpenPitParamDecimal)
    requires
        optional_exported(r, is_set, d),
        optional_round_trip(r),
    ensures
        !is_set || d.is_valid(),
        forall|x: Option<[u8; 16]>| decimal_imported(is_set, d, x) ==> same_optional(r, x),
{
    if let Some(b) = r {
        lemma_decimal_round_trip(b, d);
    }
}

/// An exported amount change reads back as itself.
proof fn lemma_amount_value_round_trip(r: Option<AdjustmentAmount>, v: OpenPitParamAdjustmentAmount)
    requires
        amount_value_exported(r, v),
        amount_value_round_trip(r),
    ensures
        amount_value_ok(v),
        forall|x: Option<AdjustmentAmount>| amount_value_imported(v, x) ==> same_amount_value(r, x),
{
    match r {
        Some(AdjustmentAmount::Delta(b)) => lemma_decimal_round_trip(b, v.value.0),
        Some(AdjustmentAmount::Absolute(b)) => lemma_decimal_round_trip(b, v.value.0),
        None => {},
    }
}

/// The operation groups of an exported adjustment read back as its
/// operation.
proof fn lemma_operation_round_trip(a: AccountAdjustment, v: OpenPitAccountAdjustment)
    requires
        adjustment_round_trips(a),
        adjustment_exported(a, v),
    ensures
        adjustment_readable(v),
        balance_ok(v.balance_operation),
        position_ok(v.position_operation),
        !(v.balance_operation.is_set && v.position_operation.is_set),
        forall|op: AccountAdjustmentOperation| operation_imported(v, op) ==> same_operation(
            a.operation,
            op,
        ),
{
    match a.operation {
        AccountAdjustmentOperation::Absent => {},
        AccountAdjustmentOperation::Balance(op) => {
            lemma_text_round_trip(op.asset, v.balance_operation.value.asset);
            lemma_optional_round_trip(
                op.average_entry_price,
                v.balance_operation.value.average_entry_price.is_set,
                v.balance_operation.value.average_entry_price.value.0,
            );
        },
        AccountAdjustmentOperation::Position(op) => {
            let p = v.position_operation.value;
            lemma_text_round_trip(op.instrument.underlying_asset, p.instrument.underlying_asset);
            lemma_text_round_trip(op.instrument.settlement_asset, p.instrument.settlement_asset);
            lemma_text_round_trip(op.collateral_asset, p.collateral_asset);
            lemma_decimal_round_trip(op.average_entry_price, p.average_entry_price.value.0);
        },
    }
}

/// The amount group of an exported adjustment reads back as its amounts.
proof fn lemma_amount_round_trip(a: AccountAdjustment, v: OpenPitAccountAdjustment)
    requires
        adjustment_round_trips(a),
        adjustment_exported(a, v),
    ensures
        amount_ok(v.amount),
        forall|x: Option<AccountAdjustmentAmount>| amount_imported(v.amount, x) ==> same_amount(
            a.amount,
            x,
        ),
{
    match a.amount {
        Some(x) => {
            lemma_amount_value_round_trip(x.total, v.amount.value.total);
            lemma_amount_value_round_trip(x.reserved, v.amount.value.reserved);
            lemma_amount_value_round_trip(x.pending, v.amount.value.pending);
        },
        None => {},
    }
}

/// The bounds group of an exported adjustment reads back as its bounds.
proof fn lemma_bounds_round_trip(a: AccountAdjustment, v: OpenPitAccountAdjustment)
    requires
        adjustment_round_trips(a),
        adjustment_exported(a, v),
    ensures
        bounds_ok(v.bounds),
        forall|x: Option<AccountAdjustmentBounds>| bounds_imported(v.bounds, x) ==> same_bounds(
            a.bounds,
            x,
        ),
{
    match a.bounds {
        Some(x) => {
            let b = v.bounds.value;
            lemma_optional_round_trip(x.total_upper, b.total_upper.is_set, b.total_upper.value.0);
            lemma_optional_round_trip(x.total_lower, b.total_lower.is_set, b.total_lower.value.0);
            lemma_optional_round_trip(x.reserved_upper, b.reserved_upper.is_set, b.reserved_upper.value.0);
            lemma_optional_round_trip(x.reserved_lower, b.reserved_lower.is_set, b.reserved_lower.value.0);
            lemma_optional_round_trip(x.pending_upper, b.pending_upper.is_set, b.pending_upper.value.0);
            lemma_optional_round_trip(x.pending_lower, b.pending_lower.is_set, b.pending_lower.value.0);
        },
        None => {},
    }
}

/// Law: exporting an adjustment and importing the payload gives back the
/// same adjustment (decimals compared by value and scale, so negative zero
/// equals zero), whenever its decimals are decimal values, its asset codes
/// are not blank and its leverage is within range.
pub proof fn lemma_adjustment_round_trip(a: AccountAdjustment, v: OpenPitAccountAdjustment)
    requires
        adjustment_round_trips(a),
        adjustment_exported(a, v),
    ensures
        adjustment_readable(v),
        adjustment_ok(v),
        forall|b: AccountAdjustment| adjustment_imported(v, b) ==> same_adjustment(a, b),
{
    lemma_operation_round_trip(a, v);
    lemma_amount_round_trip(a, v);
    lemma_bounds_round_trip(a, v);
}

} // verus!
