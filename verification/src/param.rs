//! Decimal parameters exchanged across the C boundary, and the 16-byte
//! serialized form in which the library holds a decimal value.

use rust_decimal::Decimal;
use vstd::prelude::*;

verus! {

/// Largest mantissa magnitude a decimal can hold: `2^96 - 1`.
pub const MAX_MANTISSA: i128 = 79228162514264337593543950335;

/// Largest scale (number of fractional digits) a decimal can hold.
pub const MAX_SCALE: u32 = 28;

/// Little-endian base-256 digits of `v`, `n` of them (higher digits dropped).
pub open spec fn le_bytes(v: nat, n: nat) -> Seq<u8>
    decreases n,
{
    if n == 0 {
        Seq::empty()
    } else {
        seq![(v % 256) as u8] + le_bytes(v / 256, (n - 1) as nat)
    }
}

/// Value of a little-endian base-256 digit sequence.
pub open spec fn le_value(b: Seq<u8>) -> nat
    decreases b.len(),
{
    if b.len() == 0 {
        0
    } else {
        (b[0] as nat + 256 * le_value(b.drop_first())) as nat
    }
}

/// `le_bytes` yields exactly `n` digits.
pub proof fn lemma_le_bytes_len(v: nat, n: nat)
    ensures
        le_bytes(v, n).len() == n,
    decreases n,
{
    if n > 0 {
        lemma_le_bytes_len(v / 256, (n - 1) as nat);
    }
}

/// Four little-endian digits read back give the value they were taken from.
pub proof fn lemma_le4_round_trip(v: nat)
    requires
        v < 0x1_0000_0000,
    ensures
        le_value(le_bytes(v, 4)) == v,
        le_bytes(v, 4).len() == 4,
{
    reveal_with_fuel(le_bytes, 5);
    reveal_with_fuel(le_value, 5);
    let b = le_bytes(v, 4);
    let v1 = v / 256;
    let v2 = v1 / 256;
    let v3 = v2 / 256;
    assert(b =~= seq![(v % 256) as u8, (v1 % 256) as u8, (v2 % 256) as u8, (v3 % 256) as u8]);
    assert(v3 < 256);
    assert(b.drop_first().drop_first().drop_first().drop_first() =~= Seq::<u8>::empty());
    assert(b.drop_first().drop_first().drop_first() =~= seq![(v3 % 256) as u8]);
    assert(b.drop_first().drop_first() =~= seq![(v2 % 256) as u8, (v3 % 256) as u8]);
    assert(b.drop_first() =~= seq![(v1 % 256) as u8, (v2 % 256) as u8, (v3 % 256) as u8]);
}

/// Two little-endian digits read back give the value they were taken from.
pub proof fn lemma_le2_round_trip(v: nat)
    requires
        v < 0x1_0000,
    ensures
        le_value(le_bytes(v, 2)) == v,
        le_bytes(v, 2).len() == 2,
{
    reveal_with_fuel(le_bytes, 3);
    reveal_with_fuel(le_value, 3);
    let b = le_bytes(v, 2);
    let v1 = v / 256;
    assert(b =~= seq![(v % 256) as u8, (v1 % 256) as u8]);
    assert(b.drop_first().drop_first() =~= Seq::<u8>::empty());
    assert(b.drop_first() =~= seq![(v1 % 256) as u8]);
}

/// Value of four little-endian digits.
pub proof fn lemma_le_value4(b: Seq<u8>)
    requires
        b.len() == 4,
    ensures
        le_value(b) == b[0] + 256 * (b[1] + 256 * (b[2] + 256 * b[3] as int)),
{
    reveal_with_fuel(le_value, 5);
    assert(b.drop_first().drop_first().drop_first().drop_first() =~= Seq::<u8>::empty());
    assert(b.drop_first().drop_first().drop_first() =~= seq![b[3]]);
    assert(b.drop_first().drop_first() =~= seq![b[2], b[3]]);
    assert(b.drop_first() =~= seq![b[1], b[2], b[3]]);
}

/// Value of two little-endian digits.
pub proof fn lemma_le_value2(b: Seq<u8>)
    requires
        b.len() == 2,
    ensures
        le_value(b) == b[0] + 256 * b[1] as int,
{
    reveal_with_fuel(le_value, 3);
    assert(b.drop_first().drop_first() =~= Seq::<u8>::empty());
    assert(b.drop_first() =~= seq![b[1]]);
}

/// Four little-endian digits of a value.
pub proof fn lemma_le_bytes4(v: nat)
    ensures
        le_bytes(v, 4) =~= seq![
            (v % 256) as u8,
            (v / 256 % 256) as u8,
            (v / 256 / 256 % 256) as u8,
            (v / 256 / 256 / 256 % 256) as u8,
        ],
{
    reveal_with_fuel(le_bytes, 5);
}

/// Two little-endian digits of a value.
pub proof fn lemma_le_bytes2(v: nat)
    ensures
        le_bytes(v, 2) =~= seq![(v % 256) as u8, (v / 256 % 256) as u8],
{
    reveal_with_fuel(le_bytes, 3);
}

/// A serialized decimal is left unchanged by deserialization.
pub proof fn lemma_canonical_identity(b: Seq<u8>)
    requires
        is_decimal_bits(b),
    ensures
        canonical_bits(b) == b,
{
    let b2 = b[2];
    let b3 = b[3];
    assert(b2 <= 28 ==> b2 & 0x1f == b2) by (bit_vector);
    assert((b3 == 0 || b3 == 0x80) ==> b3 & 0x80 == b3) by (bit_vector);
    assert(seq![0u8, 0u8, b[2] & 0x1f, b[3] & 0x80] + b.subrange(4, 16) =~= b);
}

/// Digits read as a value and written back give the same digits.
pub proof fn lemma_le_bytes_of_value(b: Seq<u8>)
    ensures
        le_bytes(le_value(b), b.len()) == b,
    decreases b.len(),
{
    if b.len() > 0 {
        let rest = b.drop_first();
        lemma_le_bytes_of_value(rest);
        let v = le_value(b);
        assert(v % 256 == b[0]);
        assert(v / 256 == le_value(rest));
        assert(seq![b[0]] + rest =~= b);
    }
}

/// `256` to the power `n`.
pub open spec fn pow256(n: nat) -> nat
    decreases n,
{
    if n == 0 {
        1
    } else {
        256 * pow256((n - 1) as nat)
    }
}

/// The value of twelve digits is at most `2^96 - 1`.
pub proof fn lemma_le_value12_bound(b: Seq<u8>)
    requires
        b.len() == 12,
    ensures
        le_value(b) <= MAX_MANTISSA,
{
    lemma_le_value_bound(b);
    reveal_with_fuel(pow256, 13);
}

/// The value of digits is below `256` to the number of digits.
pub proof fn lemma_le_value_bound(b: Seq<u8>)
    ensures
        le_value(b) < pow256(b.len()),
    decreases b.len(),
{
    if b.len() > 0 {
        lemma_le_value_bound(b.drop_first());
        let p = pow256((b.len() - 1) as nat);
        assert(le_value(b) == b[0] + 256 * le_value(b.drop_first()));
        assert(b[0] + 256 * le_value(b.drop_first()) < 256 * p) by (nonlinear_arith)
            requires
                b[0] < 256,
                le_value(b.drop_first()) < p,
        ;
    }
}

/// Whether serialized bits hold a zero with the sign bit set, which the
/// mantissa-and-scale form cannot tell from zero.
pub open spec fn is_negative_zero(b: Seq<u8>) -> bool {
    b[3] == 0x80 && le_value(b.subrange(4, 16)) == 0
}

/// Law: a serialized decimal is the serialized form of its own mantissa and
/// scale, negative zero aside; the pair is within range.
pub proof fn lemma_bits_round_trip(b: Seq<u8>)
    requires
        is_decimal_bits(b),
        !is_negative_zero(b),
    ensures
        decimal_bits(bits_mantissa(b), bits_scale(b)) == b,
        -MAX_MANTISSA <= bits_mantissa(b) <= MAX_MANTISSA,
        bits_scale(b) <= MAX_SCALE,
{
    let m = b.subrange(4, 16);
    lemma_le_bytes_of_value(m);
    lemma_le_value12_bound(m);
    assert(magnitude(bits_mantissa(b)) == le_value(m));
    assert(decimal_bits(bits_mantissa(b), bits_scale(b)) =~= b);
}

/// Digits written from a value below `256^n` read back as that value.
pub proof fn lemma_le_value_of_bytes(v: nat, n: nat)
    requires
        v < pow256(n),
    ensures
        le_value(le_bytes(v, n)) == v,
    decreases n,
{
    lemma_le_bytes_len(v, n);
    if n > 0 {
        let q = v / 256;
        assert(q < pow256((n - 1) as nat)) by (nonlinear_arith)
            requires
                v < 256 * pow256((n - 1) as nat),
                q == v / 256,
        ;
        lemma_le_value_of_bytes(q, (n - 1) as nat);
        let b = le_bytes(v, n);
        assert(b.drop_first() =~= le_bytes(q, (n - 1) as nat));
        assert(v == v % 256 + 256 * q);
    } else {
        assert(pow256(0) == 1);
    }
}

/// Whether two serialized decimals hold the same value at the same scale:
/// equal mantissa and scale, so that negative zero equals zero.
pub open spec fn same_decimal(p: Seq<u8>, q: Seq<u8>) -> bool {
    bits_mantissa(p) == bits_mantissa(q) && bits_scale(p) == bits_scale(q)
}

/// The serialized form of a mantissa in range and an admissible scale reads
/// back as that mantissa and scale.
pub proof fn lemma_decimal_bits_read(mantissa: int, scale: nat)
    requires
        -MAX_MANTISSA <= mantissa <= MAX_MANTISSA,
        scale <= MAX_SCALE,
    ensures
        bits_mantissa(decimal_bits(mantissa, scale)) == mantissa,
        bits_scale(decimal_bits(mantissa, scale)) == scale,
{
    reveal_with_fuel(pow256, 13);
    lemma_le_bytes_len(magnitude(mantissa), 12);
    lemma_le_value_of_bytes(magnitude(mantissa), 12);
    let b = decimal_bits(mantissa, scale);
    assert(b.subrange(4, 16) =~= le_bytes(magnitude(mantissa), 12));
}

/// Law: a serialized decimal value reads back, through its mantissa and
/// scale, as the same value at the same scale; the pair is within range.
pub proof fn lemma_bits_value_round_trip(b: Seq<u8>)
    requires
        is_decimal_bits(b),
    ensures
        same_decimal(decimal_bits(bits_mantissa(b), bits_scale(b)), b),
        -MAX_MANTISSA <= bits_mantissa(b) <= MAX_MANTISSA,
        bits_scale(b) <= MAX_SCALE,
{
    lemma_le_value12_bound(b.subrange(4, 16));
    lemma_decimal_bits_read(bits_mantissa(b), bits_scale(b));
}

/// Magnitude of an integer.
pub open spec fn magnitude(m: int) -> nat {
    if m < 0 {
        (-m) as nat
    } else {
        m as nat
    }
}

/// Serialized form of the decimal `mantissa * 10^-scale`: four flag bytes (the
/// scale in the third, the sign in the top bit of the fourth), then the
/// magnitude as a 96-bit little-endian integer.
pub open spec fn decimal_bits(mantissa: int, scale: nat) -> Seq<u8> {
    seq![0u8, 0u8, scale as u8, if mantissa < 0 { 0x80u8 } else { 0u8 }] + le_bytes(
        magnitude(mantissa),
        12,
    )
}

/// The serialized form of a decimal with an admissible scale is well formed.
pub proof fn lemma_decimal_bits_valid(mantissa: int, scale: nat)
    requires
        scale <= 28,
    ensures
        is_decimal_bits(decimal_bits(mantissa, scale)),
{
    lemma_le_bytes_len(magnitude(mantissa), 12);
}

/// Whether `b` is the serialized form of a decimal value: sixteen bytes, no
/// flag bits but the scale (at most 28) and the sign.
pub open spec fn is_decimal_bits(b: Seq<u8>) -> bool {
    &&& b.len() == 16
    &&& b[0] == 0
    &&& b[1] == 0
    &&& b[2] <= 28
    &&& (b[3] == 0 || b[3] == 0x80)
}

/// Scale of a serialized decimal.
pub open spec fn bits_scale(b: Seq<u8>) -> nat {
    b[2] as nat
}

/// Signed mantissa of a serialized decimal.
pub open spec fn bits_mantissa(b: Seq<u8>) -> int {
    let m = le_value(b.subrange(4, 16)) as int;
    if b[3] == 0x80 {
        -m
    } else {
        m
    }
}

/// `10` to the power `n`.
pub open spec fn pow10(n: nat) -> nat
    decreases n,
{
    if n == 0 {
        1
    } else {
        10 * pow10((n - 1) as nat)
    }
}

/// Serialized form that `Decimal::deserialize` gives to arbitrary bytes whose
/// scale field (the low five bits of the third byte) exceeds 28: the 96-bit
/// magnitude is divided by `10` to the excess of the scale over 28 and
/// rounded up when the remainder is at least 5; the scale becomes 28 and the
/// sign bit is kept.
pub open spec fn decimal_rescaled_bits(raw: Seq<u8>) -> Seq<u8> {
    let m = le_value(raw.subrange(4, 16));
    let d = pow10(((raw[2] & 0x1f) - 28) as nat);
    let q = if m % d >= 5 {
        m / d + 1
    } else {
        m / d
    };
    seq![0u8, 0u8, 28u8, raw[3] & 0x80] + le_bytes(q, 12)
}

/// Serialized form of the decimal that `Decimal::deserialize` builds from any
/// sixteen bytes: unused flag bits are cleared, and a scale above 28 is
/// brought down to 28.
pub open spec fn canonical_bits(raw: Seq<u8>) -> Seq<u8> {
    if raw[2] & 0x1f <= 28 {
        seq![0u8, 0u8, raw[2] & 0x1f, raw[3] & 0x80] + raw.subrange(4, 16)
    } else {
        decimal_rescaled_bits(raw)
    }
}

/// `Decimal::try_from_i128_with_scale` of rust_decimal, the decimal it builds
/// taken to its serialized form by `Decimal::serialize`. The crate refuses a
/// scale above 28 and a magnitude above `2^96 - 1`; otherwise it stores the
/// sign, the scale and the three 32-bit limbs of the magnitude unchanged.
#[verifier::external_body]
fn decimal_from_i128_with_scale(num: i128, scale: u32) -> (res: Option<[u8; 16]>)
    ensures
        res is Some <==> (scale <= MAX_SCALE && -MAX_MANTISSA <= num <= MAX_MANTISSA),
        res matches Some(bits) ==> bits@ == decimal_bits(num as int, scale as nat),
{
    match Decimal::try_from_i128_with_scale(num, scale) {
        Ok(value) => Some(value.serialize()),
        Err(_) => None,
    }
}

/// `Decimal::mantissa` and `Decimal::scale` of rust_decimal, read from the
/// decimal that `Decimal::deserialize` rebuilds from a serialized form: the
/// signed 96-bit magnitude and the scale byte.
#[verifier::external_body]
fn decimal_mantissa_scale(bits: [u8; 16]) -> (res: (i128, u32))
    requires
        is_decimal_bits(bits@),
    ensures
        res.0 == bits_mantissa(bits@),
        res.1 == bits_scale(bits@),
{
    let value = Decimal::deserialize(bits);
    (value.mantissa(), value.scale())
}

/// `Decimal::deserialize` of rust_decimal, taken back to its serialized form
/// by `Decimal::serialize`. The crate masks the flag word with `0x801F0000`
/// and rescales to 28 digits when the scale field is larger (see
/// `decimal_rescaled_bits`).
#[verifier::external_body]
pub(crate) fn decimal_deserialize(raw: [u8; 16]) -> (res: [u8; 16])
    ensures
        raw[2] & 0x1f <= 28 ==> res@ == seq![0u8, 0u8, raw[2] & 0x1f, raw[3] & 0x80]
            + raw@.subrange(4, 16),
        raw[2] & 0x1f > 28 ==> res@ == decimal_rescaled_bits(raw@),
        is_decimal_bits(res@),
{
    Decimal::deserialize(raw).serialize()
}

/// Serialized form of the decimal `Decimal::from_str_exact` reads from a
/// text, or `None` when it refuses the text.
pub uninterp spec fn exact_decimal_parse(text: Seq<char>) -> Option<Seq<u8>>;

/// Why a decimal parameter does not denote a decimal value.
#[derive(Clone, Copy, Debug, PartialEq, Eq, Structural)]
pub enum DecimalParamError {
    /// The scale is negative.
    NegativeScale,
    /// The scale exceeds 28.
    ScaleTooLarge,
    /// The mantissa magnitude exceeds `2^96 - 1`.
    MantissaOutOfRange,
    /// The value is negative where only non-negative values are accepted.
    Negative,
}

/// Decimal number `mantissa * 10^-scale` as exchanged across the C boundary:
/// the 128-bit mantissa split into its low and high 64-bit halves.
#[derive(Clone, Copy, Debug, PartialEq, Eq, Default, Structural)]
pub struct OpenPitParamDecimal {
    /// Low 64 bits of the mantissa (two's complement).
    pub mantissa_lo: i64,
    /// High 64 bits of the mantissa (two's complement, carries the sign).
    pub mantissa_hi: i64,
    /// Number of fractional digits.
    pub scale: i32,
}

/// The mantissa stored in a low and a high 64-bit half.
pub open spec fn join_mantissa(lo: i64, hi: i64) -> int {
    hi as int * 0x1_0000_0000_0000_0000 + lo as u64 as int
}

impl OpenPitParamDecimal {
    /// The 128-bit mantissa.
    pub open spec fn spec_mantissa(&self) -> int {
        join_mantissa(self.mantissa_lo, self.mantissa_hi)
    }

    /// Whether the parameter denotes a decimal value.
    pub open spec fn is_valid(&self) -> bool {
        &&& 0 <= self.scale <= MAX_SCALE
        &&& -MAX_MANTISSA <= self.spec_mantissa() <= MAX_MANTISSA
    }

    /// The error a parameter that is not valid is refused with.
    pub open spec fn spec_error(&self) -> DecimalParamError {
        if self.scale < 0 {
            DecimalParamError::NegativeScale
        } else if self.scale > MAX_SCALE {
            DecimalParamError::ScaleTooLarge
        } else {
            DecimalParamError::MantissaOutOfRange
        }
    }

    /// Serialized form of the decimal the parameter denotes.
    pub open spec fn spec_bits(&self) -> Seq<u8> {
        decimal_bits(self.spec_mantissa(), self.scale as nat)
    }

    /// The 128-bit mantissa.
    pub fn mantissa(&self) -> (res: i128)
        ensures
            res == self.spec_mantissa(),
    {
        let lo: u64 = self.mantissa_lo as u64;
        self.mantissa_hi as i128 * 0x1_0000_0000_0000_0000i128 + lo as i128
    }

    /// Splits `mantissa` into its two halves.
    pub fn from_parts(mantissa: i128, scale: i32) -> (res: Self)
        ensures
            res.spec_mantissa() == mantissa,
            res.scale == scale,
    {
        let lo: i64 = mantissa as i64;
        let hi: i64 = (mantissa >> 64u32) as i64;
        assert(((mantissa >> 64u32) as i64) as i128 * 0x1_0000_0000_0000_0000i128 + ((
        mantissa as i64) as u64) as i128 == mantissa) by (bit_vector);
        OpenPitParamDecimal { mantissa_lo: lo, mantissa_hi: hi, scale }
    }

    /// The serialized decimal the parameter denotes, or why it denotes none.
    pub fn to_bits(&self) -> (res: Result<[u8; 16], DecimalParamError>)
        ensures
            match res {
                Ok(bits) => self.is_valid() && bits@ == self.spec_bits(),
                Err(e) => !self.is_valid() && e == self.spec_error(),
            },
    {
        if self.scale < 0 {
            return Err(DecimalParamError::NegativeScale);
        }
        let m = self.mantissa();
        match decimal_from_i128_with_scale(m, self.scale as u32) {
            Some(bits) => Ok(bits),
            None => {
                if self.scale as u32 > MAX_SCALE {
                    Err(DecimalParamError::ScaleTooLarge)
                } else {
                    Err(DecimalParamError::MantissaOutOfRange)
                }
            },
        }
    }

    /// The parameter carrying a serialized decimal.
    pub fn from_bits(bits: [u8; 16]) -> (res: Self)
        requires
            is_decimal_bits(bits@),
        ensures
            res.spec_mantissa() == bits_mantissa(bits@),
            res.scale == bits_scale(bits@),
    {
        let (mantissa, scale) = decimal_mantissa_scale(bits);
        Self::from_parts(mantissa, scale as i32)
    }
}

/// Price parameter.
#[derive(Clone, Copy, Debug, PartialEq, Eq, Default, Structural)]
pub struct OpenPitParamPrice(pub OpenPitParamDecimal);

/// Profit-and-loss parameter.
#[derive(Clone, Copy, Debug, PartialEq, Eq, Default, Structural)]
pub struct OpenPitParamPnl(pub OpenPitParamDecimal);

/// Signed position-size parameter.
#[derive(Clone, Copy, Debug, PartialEq, Eq, Default, Structural)]
pub struct OpenPitParamPositionSize(pub OpenPitParamDecimal);

/// Optional price: `value` is meaningful only when `is_set`.
#[derive(Clone, Copy, Debug, PartialEq, Eq, Default, Structural)]
pub struct OpenPitParamPriceOptional {
    /// The price, when set.
    pub value: OpenPitParamPrice,
    /// Whether the price is set.
    pub is_set: bool,
}

/// Optional position size: `value` is meaningful only when `is_set`.
#[derive(Clone, Copy, Debug, PartialEq, Eq, Default, Structural)]
pub struct OpenPitParamPositionSizeOptional {
    /// The size, when set.
    pub value: OpenPitParamPositionSize,
    /// Whether the size is set.
    pub is_set: bool,
}

/// How an adjustment amount is applied.
#[derive(Clone, Copy, Debug, PartialEq, Eq, Default, Structural)]
pub enum OpenPitParamAdjustmentAmountKind {
    /// No amount.
    #[default]
    NotSet,
    /// Change the current state by the signed amount.
    Delta,
    /// Set the current state to the signed amount.
    Absolute,
}

/// Position accounting mode.
#[derive(Clone, Copy, Debug, PartialEq, Eq, Default, Structural)]
pub enum OpenPitParamPositionMode {
    /// No mode given.
    #[default]
    NotSet,
    /// One net position per instrument.
    Netting,
    /// Independent long and short legs per instrument.
    Hedged,
}

impl DecimalParamError {
    /// Message that describes the error.
    pub open spec fn spec_message(self) -> Seq<char> {
        match self {
            DecimalParamError::NegativeScale => "decimal scale must not be negative"@,
            DecimalParamError::ScaleTooLarge => "decimal scale must not exceed 28"@,
            DecimalParamError::MantissaOutOfRange => "decimal mantissa exceeds 96 bits"@,
            DecimalParamError::Negative => "value must not be negative"@,
        }
    }

    /// Message that describes the error.
    pub fn message(self) -> (res: &'static str)
        ensures
            res@ == self.spec_message(),
    {
        match self {
            DecimalParamError::NegativeScale => "decimal scale must not be negative",
            DecimalParamError::ScaleTooLarge => "decimal scale must not exceed 28",
            DecimalParamError::MantissaOutOfRange => "decimal mantissa exceeds 96 bits",
            DecimalParamError::Negative => "value must not be negative",
        }
    }
}

/// Optional profit-and-loss value: `value` is meaningful only when `is_set`.
#[derive(Clone, Copy, Debug, PartialEq, Eq, Default, Structural)]
pub struct OpenPitParamPnlOptional {
    /// The value, when set.
    pub value: OpenPitParamPnl,
    /// Whether the value is set.
    pub is_set: bool,
}

impl OpenPitParamDecimal {
    /// Whether the parameter denotes a decimal value that is not below zero.
    pub open spec fn is_non_negative(&self) -> bool {
        self.is_valid() && self.spec_mantissa() >= 0
    }

    /// The error a parameter that is not a non-negative value is refused
    /// with.
    pub open spec fn spec_non_negative_error(&self) -> DecimalParamError {
        if !self.is_valid() {
            self.spec_error()
        } else {
            DecimalParamError::Negative
        }
    }

    /// The serialized decimal the parameter denotes when it is not below
    /// zero, or why it is refused.
    pub fn to_non_negative_bits(&self) -> (res: Result<[u8; 16], DecimalParamError>)
        ensures
            match res {
                Ok(bits) => self.is_non_negative() && bits@ == self.spec_bits(),
                Err(e) => !self.is_non_negative() && e == self.spec_non_negative_error(),
            },
    {
        let bits = match self.to_bits() {
            Ok(bits) => bits,
            Err(e) => return Err(e),
        };
        if self.mantissa() < 0 {
            return Err(DecimalParamError::Negative);
        }
        Ok(bits)
    }
}

/// Quantity parameter (non-negative).
#[derive(Clone, Copy, Debug, PartialEq, Eq, Default, Structural)]
pub struct OpenPitParamQuantity(pub OpenPitParamDecimal);

/// Volume parameter (non-negative).
#[derive(Clone, Copy, Debug, PartialEq, Eq, Default, Structural)]
pub struct OpenPitParamVolume(pub OpenPitParamDecimal);

/// Law: the messages of the decimal parameter refusals.
pub proof fn lemma_decimal_error_texts()
    ensures
        DecimalParamError::NegativeScale.spec_message() == "decimal scale must not be negative"@,
        DecimalParamError::ScaleTooLarge.spec_message() == "decimal scale must not exceed 28"@,
        DecimalParamError::MantissaOutOfRange.spec_message() == "decimal mantissa exceeds 96 bits"@,
        DecimalParamError::Negative.spec_message() == "value must not be negative"@,
{
}

} // verus!
