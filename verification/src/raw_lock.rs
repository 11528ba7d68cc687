//! The binary-stable raw layout of a pre-trade lock.
//!
//! Layout, all integers little-endian:
//! - `u32` number of default-group prices, then each price as the 16-byte
//!   serialized form of its decimal value;
//! - `u32` number of non-default groups, then for each group its `u16` id,
//!   a `u32` number of prices and each price as above.

use crate::lock_model::{
    empty_sections, entries_are_decimals, flatten, lemma_push_all_push, lemma_push_price_wf,
    lemma_rebuild, lemma_section_index, lemma_section_index_wf, lock_wf, prices_in, push_all,
    push_price, section_entries, section_index, LockEntry, LockSection,
};
use crate::param::{
    canonical_bits, decimal_deserialize, is_decimal_bits, lemma_canonical_identity,
    lemma_le2_round_trip, lemma_le4_round_trip, lemma_le_bytes2, lemma_le_bytes4,
    lemma_le_value2, lemma_le_value4, le_bytes, le_value,
};
use crate::pre_trade_lock::{lock_entries, lock_new, lock_prices_of, lock_push, lock_sections};
use crate::text::{decimal_string, decimal_text};
use openpit::pretrade::PreTradeLock;
use vstd::prelude::*;
use vstd::string::StringExecFns;

verus! {

/// Size of one serialized price.
pub const SERIALIZED_DECIMAL_SIZE: usize = 16;

/// Why raw bytes do not hold a lock.
#[derive(Clone, Copy, Debug, PartialEq, Eq, Structural)]
pub enum RawDecodeError {
    /// A field of `need` bytes starts at `offset`, past the end of the `total`
    /// input bytes.
    UnexpectedEnd { need: usize, offset: usize, total: usize },
    /// The lock ends `remaining` bytes before the input does.
    TrailingBytes { remaining: usize },
}

impl RawDecodeError {
    /// The message reporting the error.
    pub open spec fn spec_message(self) -> Seq<char> {
        match self {
            RawDecodeError::UnexpectedEnd { need, offset, total } =>
                "raw lock decode: unexpected end of input (need "@ + decimal_text(need as nat)
                + " bytes at offset "@ + decimal_text(offset as nat) + ", total "@ + decimal_text(
                total as nat,
            ) + ")"@,
            RawDecodeError::TrailingBytes { remaining } => "raw lock decode: "@ + decimal_text(
                remaining as nat,
            ) + " trailing bytes"@,
        }
    }

    /// The message reporting the error.
    pub fn message(&self) -> (res: String)
        ensures
            res@ == self.spec_message(),
    {
        match *self {
            RawDecodeError::UnexpectedEnd { need, offset, total } => String::from_str(
                "raw lock decode: unexpected end of input (need ",
            ).concat(decimal_string(need as u64).as_str()).concat(" bytes at offset ").concat(
                decimal_string(offset as u64).as_str(),
            ).concat(", total ").concat(decimal_string(total as u64).as_str()).concat(")"),
            RawDecodeError::TrailingBytes { remaining } => String::from_str("raw lock decode: ").concat(
                decimal_string(remaining as u64).as_str(),
            ).concat(" trailing bytes"),
        }
    }
}

/// The error for a field of `need` bytes at `offset` that does not fit.
pub open spec fn end_error(need: nat, offset: nat, total: nat) -> RawDecodeError {
    RawDecodeError::UnexpectedEnd {
        need: need as usize,
        offset: offset as usize,
        total: total as usize,
    }
}

/// Reads `n` prices of group `g` from `pos` on: the records read and the
/// position after them, or the first field that does not fit.
pub open spec fn parse_prices(b: Seq<u8>, pos: nat, n: nat, g: u16) -> Result<
    (Seq<LockEntry>, nat),
    RawDecodeError,
>
    decreases n,
{
    if n == 0 {
        Ok((Seq::empty(), pos))
    } else {
        match parse_prices(b, pos, (n - 1) as nat, g) {
            Ok((es, p)) => if p + 16 > b.len() {
                Err(end_error(16, p, b.len()))
            } else {
                Ok((es.push((g, canonical_bits(b.subrange(p as int, (p + 16) as int)))), p + 16))
            },
            Err(e) => Err(e),
        }
    }
}

/// Reads one group (id, count, prices) at `p`.
pub open spec fn parse_group(b: Seq<u8>, p: nat) -> Result<(Seq<LockEntry>, nat), RawDecodeError> {
    if p + 2 > b.len() {
        Err(end_error(2, p, b.len()))
    } else if p + 6 > b.len() {
        Err(end_error(4, p + 2, b.len()))
    } else {
        let g = le_value(b.subrange(p as int, (p + 2) as int)) as u16;
        let count = le_value(b.subrange((p + 2) as int, (p + 6) as int));
        parse_prices(b, p + 6, count, g)
    }
}

/// Reads `n` groups from `pos` on: the records read and the position after
/// them, or the first field that does not fit.
pub open spec fn parse_groups(b: Seq<u8>, pos: nat, n: nat) -> Result<
    (Seq<LockEntry>, nat),
    RawDecodeError,
>
    decreases n,
{
    if n == 0 {
        Ok((Seq::empty(), pos))
    } else {
        match parse_groups(b, pos, (n - 1) as nat) {
            Ok((es, p)) => match parse_group(b, p) {
                Ok((gs, q)) => Ok((es + gs, q)),
                Err(e) => Err(e),
            },
            Err(e) => Err(e),
        }
    }
}

/// The records that raw bytes hold, in order, or why they hold no lock.
pub open spec fn raw_decode(b: Seq<u8>) -> Result<Seq<LockEntry>, RawDecodeError> {
    if 4 > b.len() {
        Err(end_error(4, 0, b.len()))
    } else {
        match parse_prices(b, 4, le_value(b.subrange(0, 4)), 0) {
            Ok((ds, p)) => if p + 4 > b.len() {
                Err(end_error(4, p, b.len()))
            } else {
                match parse_groups(b, p + 4, le_value(b.subrange(p as int, (p + 4) as int))) {
                    Ok((gs, q)) => if q != b.len() {
                        Err(RawDecodeError::TrailingBytes { remaining: (b.len() - q) as usize })
                    } else {
                        Ok(ds + gs)
                    },
                    Err(e) => Err(e),
                }
            },
            Err(e) => Err(e),
        }
    }
}

/// A count as written: its low 32 bits.
pub open spec fn count32(n: nat) -> nat {
    n % 0x1_0000_0000
}

/// Prices written one after the other.
pub open spec fn encode_prices(ps: Seq<Seq<u8>>) -> Seq<u8>
    decreases ps.len(),
{
    if ps.len() == 0 {
        Seq::empty()
    } else {
        encode_prices(ps.drop_last()) + ps.last()
    }
}

/// One group: id, price count, prices.
pub open spec fn encode_group(sec: LockSection) -> Seq<u8> {
    le_bytes(sec.0 as nat, 2) + le_bytes(count32(sec.1.len()), 4) + encode_prices(sec.1)
}

/// Groups written one after the other.
pub open spec fn encode_groups(gs: Seq<LockSection>) -> Seq<u8>
    decreases gs.len(),
{
    if gs.len() == 0 {
        Seq::empty()
    } else {
        encode_groups(gs.drop_last()) + encode_group(gs.last())
    }
}

/// The raw layout of a lock's contents.
pub open spec fn raw_encoding(s: Seq<LockSection>) -> Seq<u8> {
    le_bytes(count32(s[0].1.len()), 4) + encode_prices(s[0].1) + le_bytes(
        count32((s.len() - 1) as nat),
        4,
    ) + encode_groups(s.subrange(1, s.len() as int))
}

/// Sequential reader over raw bytes.
pub struct RawCursor<'a> {
    bytes: &'a [u8],
    pos: usize,
}

impl<'a> RawCursor<'a> {
    #[verifier::type_invariant]
    spec fn within(self) -> bool {
        self.pos <= self.bytes@.len()
    }

    /// The bytes read from.
    pub closed spec fn data(self) -> Seq<u8> {
        self.bytes@
    }

    /// How many bytes have been read.
    pub closed spec fn position(self) -> nat {
        self.pos as nat
    }

    /// A cursor at the start of `bytes`.
    pub fn new(bytes: &'a [u8]) -> (res: Self)
        ensures
            res.data() == bytes@,
            res.position() == 0,
    {
        RawCursor { bytes, pos: 0 }
    }

    /// The next `len` bytes; refused, without moving, when fewer remain.
    pub fn take(&mut self, len: usize) -> (res: Result<&'a [u8], RawDecodeError>)
        ensures
            final(self).data() == old(self).data(),
            old(self).position() <= old(self).data().len(),
            old(self).position() + len <= old(self).data().len() ==> (res matches Ok(s) && s@
                == old(self).data().subrange(
                old(self).position() as int,
                old(self).position() + len as int,
            )) && final(self).position() == old(self).position() + len,
            old(self).position() + len > old(self).data().len() ==> res == Err::<&[u8], _>(
                end_error(len as nat, old(self).position(), old(self).data().len()),
            ) && final(self).position() == old(self).position(),
    {
        proof {
            use_type_invariant(&*self);
        }
        if len > self.bytes.len() - self.pos {
            return Err(
                RawDecodeError::UnexpectedEnd { need: len, offset: self.pos, total: self.bytes.len() },
            );
        }
        let slice = slice_subrange(self.bytes, self.pos, self.pos + len);
        self.pos = self.pos + len;
        Ok(slice)
    }

    /// The next two bytes as a little-endian `u16`.
    pub fn read_u16(&mut self) -> (res: Result<u16, RawDecodeError>)
        ensures
            final(self).data() == old(self).data(),
            old(self).position() + 2 <= old(self).data().len() ==> res == Ok::<u16, RawDecodeError>(
                le_value(
                    old(self).data().subrange(old(self).position() as int, old(self).position() + 2 as int),
                ) as u16,
            ) && final(self).position() == old(self).position() + 2,
            old(self).position() + 2 > old(self).data().len() ==> res == Err::<u16, _>(
                end_error(2, old(self).position(), old(self).data().len()),
            ) && final(self).position() == old(self).position(),
    {
        let slice = match self.take(2) {
            Ok(slice) => slice,
            Err(e) => return Err(e),
        };
        proof {
            lemma_le_value2(slice@);
        }
        Ok(slice[0] as u16 + 256 * slice[1] as u16)
    }

    /// The next four bytes as a little-endian `u32`.
    pub fn read_u32(&mut self) -> (res: Result<u32, RawDecodeError>)
        ensures
            final(self).data() == old(self).data(),
            old(self).position() + 4 <= old(self).data().len() ==> res == Ok::<u32, RawDecodeError>(
                le_value(
                    old(self).data().subrange(old(self).position() as int, old(self).position() + 4 as int),
                ) as u32,
            ) && final(self).position() == old(self).position() + 4,
            old(self).position() + 4 > old(self).data().len() ==> res == Err::<u32, _>(
                end_error(4, old(self).position(), old(self).data().len()),
            ) && final(self).position() == old(self).position(),
    {
        let slice = match self.take(4) {
            Ok(slice) => slice,
            Err(e) => return Err(e),
        };
        proof {
            lemma_le_value4(slice@);
        }
        Ok(
            slice[0] as u32 + 256 * (slice[1] as u32 + 256 * (slice[2] as u32 + 256
                * slice[3] as u32)),
        )
    }

    /// The next sixteen bytes as a decimal, in its serialized form.
    pub fn read_price(&mut self) -> (res: Result<[u8; 16], RawDecodeError>)
        ensures
            final(self).data() == old(self).data(),
            old(self).position() + 16 <= old(self).data().len() ==> (res matches Ok(p) && p@
                == canonical_bits(
                old(self).data().subrange(old(self).position() as int, old(self).position() + 16 as int),
            ) && is_decimal_bits(p@)) && final(self).position() == old(self).position() + 16,
            old(self).position() + 16 > old(self).data().len() ==> res == Err::<[u8; 16], _>(
                end_error(16, old(self).position(), old(self).data().len()),
            ) && final(self).position() == old(self).position(),
    {
        let s = match self.take(SERIALIZED_DECIMAL_SIZE) {
            Ok(s) => s,
            Err(e) => return Err(e),
        };
        let buf: [u8; 16] = [
            s[0],
            s[1],
            s[2],
            s[3],
            s[4],
            s[5],
            s[6],
            s[7],
            s[8],
            s[9],
            s[10],
            s[11],
            s[12],
            s[13],
            s[14],
            s[15],
        ];
        assert(buf@ =~= s@);
        Ok(decimal_deserialize(buf))
    }

    /// Whether every byte has been read.
    pub fn is_empty(&self) -> (res: bool)
        ensures
            res == (self.position() == self.data().len()),
    {
        self.pos == self.bytes.len()
    }

    /// Number of bytes not read yet.
    pub fn remaining(&self) -> (res: usize)
        ensures
            res == self.data().len() - self.position(),
    {
        proof {
            use_type_invariant(self);
        }
        self.bytes.len() - self.pos
    }
}

/// Once reading prices fails, reading more of them fails the same way.
pub proof fn lemma_parse_prices_err(b: Seq<u8>, pos: nat, k: nat, n: nat, g: u16)
    requires
        k <= n,
        parse_prices(b, pos, k, g) is Err,
    ensures
        parse_prices(b, pos, n, g) == parse_prices(b, pos, k, g),
    decreases n,
{
    if n > k {
        lemma_parse_prices_err(b, pos, k, (n - 1) as nat, g);
    }
}

/// Once reading groups fails, reading more of them fails the same way.
pub proof fn lemma_parse_groups_err(b: Seq<u8>, pos: nat, k: nat, n: nat)
    requires
        k <= n,
        parse_groups(b, pos, k) is Err,
    ensures
        parse_groups(b, pos, n) == parse_groups(b, pos, k),
    decreases n,
{
    if n > k {
        lemma_parse_groups_err(b, pos, k, (n - 1) as nat);
    }
}

/// Reads `count` prices of group `group` and stores them.
fn read_prices_into(
    cursor: &mut RawCursor,
    lock: &mut PreTradeLock,
    count: u32,
    group: u16,
    Ghost(stored): Ghost<Seq<LockEntry>>,
) -> (res: Result<(), RawDecodeError>)
    requires
        lock_wf(lock_sections(*old(lock))),
        lock_sections(*old(lock)) == push_all(empty_sections(), stored),
    ensures
        final(cursor).data() == old(cursor).data(),
        match parse_prices(old(cursor).data(), old(cursor).position(), count as nat, group) {
            Ok((es, p)) => res is Ok && final(cursor).position() == p && lock_wf(
                lock_sections(*final(lock)),
            ) && lock_sections(*final(lock)) == push_all(empty_sections(), stored + es),
            Err(e) => res == Err::<(), _>(e),
        },
{
    let ghost b = cursor.data();
    let ghost start = cursor.position();
    let ghost mut acc: Seq<LockEntry> = Seq::empty();
    let mut k: u32 = 0;
    assert(stored + acc =~= stored);
    while k < count
        invariant
            cursor.data() == b,
            b == old(cursor).data(),
            start == old(cursor).position(),
            k <= count,
            parse_prices(b, start, k as nat, group) == Ok::<_, RawDecodeError>(
                (acc, cursor.position()),
            ),
            lock_wf(lock_sections(*lock)),
            lock_sections(*lock) == push_all(empty_sections(), stored + acc),
        decreases count - k,
    {
        let ghost before = cursor.position();
        let price = match cursor.read_price() {
            Ok(p) => p,
            Err(e) => {
                proof {
                    lemma_parse_prices_err(b, start, (k + 1) as nat, count as nat, group);
                }
                return Err(e);
            },
        };
        proof {
            lemma_push_price_wf(lock_sections(*lock), group, price@);
            lemma_push_all_push(empty_sections(), stored + acc, (group, price@));
            assert((stored + acc).push((group, price@)) =~= stored + acc.push((group, price@)));
            acc = acc.push((group, price@));
        }
        lock_push(lock, group, price);
        k = k + 1;
    }
    Ok(())
}

/// Rebuilds a lock from its raw layout.
pub fn decode_raw(bytes: &[u8]) -> (res: Result<PreTradeLock, RawDecodeError>)
    ensures
        match raw_decode(bytes@) {
            Ok(es) => res matches Ok(lock) && lock_sections(lock) == push_all(empty_sections(), es)
                && lock_wf(lock_sections(lock)),
            Err(e) => res matches Err(e2) && e2 == e,
        },
{
    let ghost b = bytes@;
    let mut cursor = RawCursor::new(bytes);
    let mut lock = lock_new();
    let default_count = match cursor.read_u32() {
        Ok(v) => v,
        Err(e) => return Err(e),
    };
    assert(default_count == le_value(b.subrange(0, 4))) by {
        lemma_le_value4(b.subrange(0, 4));
    }
    let ghost empty: Seq<LockEntry> = Seq::empty();
    assert(push_all(empty_sections(), empty) == empty_sections());
    match read_prices_into(&mut cursor, &mut lock, default_count, 0, Ghost(empty)) {
        Ok(()) => {},
        Err(e) => return Err(e),
    }
    let ghost (ds, p1) = parse_prices(b, 4, default_count as nat, 0)->Ok_0;
    assert(empty + ds =~= ds);
    let group_count = match cursor.read_u32() {
        Ok(v) => v,
        Err(e) => return Err(e),
    };
    assert(group_count == le_value(b.subrange(p1 as int, (p1 + 4) as int))) by {
        lemma_le_value4(b.subrange(p1 as int, (p1 + 4) as int));
    }
    let ghost base = (p1 + 4) as nat;
    let ghost mut acc: Seq<LockEntry> = Seq::empty();
    let mut j: u32 = 0;
    assert(ds + acc =~= ds);
    while j < group_count
        invariant
            cursor.data() == b,
            b == bytes@,
            4 <= b.len(),
            default_count == le_value(b.subrange(0, 4)),
            parse_prices(b, 4, default_count as nat, 0) == Ok::<_, RawDecodeError>((ds, p1)),
            p1 + 4 <= b.len(),
            base == p1 + 4,
            group_count == le_value(b.subrange(p1 as int, (p1 + 4) as int)),
            j <= group_count,
            parse_groups(b, base, j as nat) == Ok::<_, RawDecodeError>((acc, cursor.position())),
            lock_wf(lock_sections(lock)),
            lock_sections(lock) == push_all(empty_sections(), ds + acc),
        decreases group_count - j,
    {
        let ghost p = cursor.position();
        let group = match cursor.read_u16() {
            Ok(g) => g,
            Err(e) => {
                proof {
                    lemma_parse_groups_err(b, base, (j + 1) as nat, group_count as nat);
                }
                return Err(e);
            },
        };
        let count = match cursor.read_u32() {
            Ok(c) => c,
            Err(e) => {
                proof {
                    lemma_parse_groups_err(b, base, (j + 1) as nat, group_count as nat);
                }
                return Err(e);
            },
        };
        proof {
            lemma_le_value2(b.subrange(p as int, (p + 2) as int));
            lemma_le_value4(b.subrange((p + 2) as int, (p + 6) as int));
        }
        match read_prices_into(&mut cursor, &mut lock, count, group, Ghost(ds + acc)) {
            Ok(()) => {},
            Err(e) => {
                proof {
                    lemma_parse_groups_err(b, base, (j + 1) as nat, group_count as nat);
                }
                return Err(e);
            },
        }
        proof {
            let gs = parse_group(b, p)->Ok_0.0;
            assert(ds + acc + gs =~= ds + (acc + gs));
            acc = acc + gs;
        }
        j = j + 1;
    }
    if !cursor.is_empty() {
        return Err(RawDecodeError::TrailingBytes { remaining: cursor.remaining() });
    }
    Ok(lock)
}

/// Whether every count of a lock fits the layout's 32-bit count fields.
pub open spec fn fits_raw_counts(s: Seq<LockSection>) -> bool {
    &&& s.len() - 1 < 0x1_0000_0000
    &&& forall|i: int| 0 <= i < s.len() ==> #[trigger] s[i].1.len() < 0x1_0000_0000
}

/// Serialized prices take sixteen bytes each.
pub proof fn lemma_encode_prices_len(ps: Seq<Seq<u8>>)
    requires
        forall|k: int| 0 <= k < ps.len() ==> (#[trigger] ps[k]).len() == 16,
    ensures
        encode_prices(ps).len() == 16 * ps.len(),
    decreases ps.len(),
{
    if ps.len() > 0 {
        lemma_encode_prices_len(ps.drop_last());
        assert(ps.last().len() == 16);
    }
}

/// Reading back written prices gives them back.
pub proof fn lemma_parse_prices_encoded(b: Seq<u8>, pos: nat, ps: Seq<Seq<u8>>, g: u16)
    requires
        forall|k: int| 0 <= k < ps.len() ==> is_decimal_bits(#[trigger] ps[k]),
        pos + 16 * ps.len() <= b.len(),
        b.subrange(pos as int, pos + 16 * ps.len() as int) == encode_prices(ps),
    ensures
        parse_prices(b, pos, ps.len(), g) == Ok::<_, RawDecodeError>(
            (section_entries((g, ps)), pos + 16 * ps.len()),
        ),
    decreases ps.len(),
{
    if ps.len() == 0 {
        assert(section_entries((g, ps)) =~= Seq::<LockEntry>::empty());
    } else {
        let n: int = ps.len() as int;
        let init = ps.drop_last();
        assert forall|k: int| 0 <= k < init.len() implies is_decimal_bits(#[trigger] init[k]) by {
            assert(init[k] == ps[k]);
        }
        assert forall|k: int| 0 <= k < init.len() implies (#[trigger] init[k]).len() == 16 by {
            assert(init[k] == ps[k]);
        }
        lemma_encode_prices_len(init);
        let p = pos + 16 * (n - 1);
        let whole = b.subrange(pos as int, pos + 16 * n);
        assert(whole == encode_prices(init) + ps.last());
        assert(b.subrange(pos as int, p) =~= whole.subrange(0, 16 * (n - 1)));
        assert(whole.subrange(0, 16 * (n - 1)) =~= encode_prices(init));
        lemma_parse_prices_encoded(b, pos, init, g);
        assert(b.subrange(p, p + 16) =~= whole.subrange(16 * (n - 1), 16 * n));
        assert(whole.subrange(16 * (n - 1), 16 * n) =~= ps.last());
        assert(is_decimal_bits(ps[n - 1]));
        lemma_canonical_identity(ps.last());
        assert(section_entries((g, init)).push((g, ps.last())) =~= section_entries((g, ps)));
    }
}

/// One written group takes two bytes of id, four of count and its prices.
pub proof fn lemma_encode_group_len(sec: LockSection)
    requires
        forall|k: int| 0 <= k < sec.1.len() ==> (#[trigger] sec.1[k]).len() == 16,
    ensures
        encode_group(sec).len() == 6 + 16 * sec.1.len(),
{
    crate::param::lemma_le_bytes_len(sec.0 as nat, 2);
    crate::param::lemma_le_bytes_len(count32(sec.1.len()), 4);
    lemma_encode_prices_len(sec.1);
}

/// Whether every section's prices are decimals and its count fits 32 bits.
pub open spec fn sections_encodable(gs: Seq<LockSection>) -> bool {
    forall|i: int, k: int|
        0 <= i < gs.len() && 0 <= k < gs[i].1.len() ==> is_decimal_bits(#[trigger] gs[i].1[k])
            && gs[i].1.len() < 0x1_0000_0000
}

/// Reading back written groups gives back their records.
pub proof fn lemma_parse_groups_encoded(b: Seq<u8>, pos: nat, gs: Seq<LockSection>)
    requires
        sections_encodable(gs),
        forall|i: int| 0 <= i < gs.len() ==> (#[trigger] gs[i]).1.len() < 0x1_0000_0000,
        pos + encode_groups(gs).len() <= b.len(),
        b.subrange(pos as int, pos + encode_groups(gs).len() as int) == encode_groups(gs),
    ensures
        parse_groups(b, pos, gs.len()) == Ok::<_, RawDecodeError>(
            (flatten(gs), pos + encode_groups(gs).len()),
        ),
    decreases gs.len(),
{
    if gs.len() > 0 {
        let init = gs.drop_last();
        let last = gs.last();
        assert forall|i: int, k: int|
            0 <= i < init.len() && 0 <= k < init[i].1.len() implies is_decimal_bits(
            #[trigger] init[i].1[k],
        ) && init[i].1.len() < 0x1_0000_0000 by {
            assert(init[i] == gs[i]);
        }
        assert forall|i: int| 0 <= i < init.len() implies (#[trigger] init[i]).1.len()
            < 0x1_0000_0000 by {
            assert(init[i] == gs[i]);
        }
        let whole = b.subrange(pos as int, pos + encode_groups(gs).len() as int);
        assert(whole == encode_groups(init) + encode_group(last));
        let p: int = pos + encode_groups(init).len() as int;
        assert(b.subrange(pos as int, p) =~= whole.subrange(0, encode_groups(init).len() as int));
        assert(whole.subrange(0, encode_groups(init).len() as int) =~= encode_groups(init));
        lemma_parse_groups_encoded(b, pos, init);
        let n: int = last.1.len() as int;
        assert(gs[gs.len() - 1].1.len() < 0x1_0000_0000);
        assert forall|k: int| 0 <= k < n implies is_decimal_bits(#[trigger] last.1[k]) by {
            assert(is_decimal_bits(gs[gs.len() - 1].1[k]));
        }
        assert forall|k: int| 0 <= k < n implies (#[trigger] last.1[k]).len() == 16 by {
            assert(is_decimal_bits(gs[gs.len() - 1].1[k]));
        }
        lemma_encode_group_len(last);
        let grp = b.subrange(p, p + 6 + 16 * n);
        assert(grp =~= whole.subrange(
            encode_groups(init).len() as int,
            encode_groups(gs).len() as int,
        ));
        assert(grp =~= encode_group(last));
        crate::param::lemma_le_bytes_len(last.0 as nat, 2);
        crate::param::lemma_le_bytes_len(count32(n as nat), 4);
        let l2 = le_bytes(last.0 as nat, 2);
        let l4 = le_bytes(count32(n as nat), 4);
        let lp = encode_prices(last.1);
        assert(grp == l2 + l4 + lp);
        assert(grp.subrange(0, 2) =~= l2);
        assert(grp.subrange(2, 6) =~= l4);
        assert(grp.subrange(6, 6 + 16 * n) =~= lp);
        assert(b.subrange(p, p + 2) =~= grp.subrange(0, 2));
        assert(b.subrange(p + 2, p + 6) =~= grp.subrange(2, 6));
        lemma_le2_round_trip(last.0 as nat);
        lemma_le4_round_trip(count32(n as nat));
        assert(count32(n as nat) == n);
        assert(b.subrange(p + 6, p + 6 + 16 * n) =~= grp.subrange(6, 6 + 16 * n));
        lemma_parse_prices_encoded(b, (p + 6) as nat, last.1, last.0);
        assert(flatten(gs) == flatten(init) + section_entries(last));
    }
}

/// A lock's records: its default records, then those of its other sections.
pub proof fn lemma_flatten_front(s: Seq<LockSection>)
    requires
        s.len() >= 1,
    ensures
        flatten(s) == section_entries(s[0]) + flatten(s.subrange(1, s.len() as int)),
    decreases s.len(),
{
    if s.len() == 1 {
        assert(s.drop_last() =~= Seq::<LockSection>::empty());
        assert(s.subrange(1, 1) =~= Seq::<LockSection>::empty());
        assert(flatten(s.subrange(1, 1)) =~= Seq::<LockEntry>::empty());
        assert(flatten(s.drop_last()) =~= Seq::<LockEntry>::empty());
        assert(section_entries(s[0]) + Seq::<LockEntry>::empty() =~= section_entries(s[0]));
        assert(Seq::<LockEntry>::empty() + section_entries(s[0]) =~= section_entries(s[0]));
    } else {
        let init = s.drop_last();
        lemma_flatten_front(init);
        assert(s.subrange(1, s.len() as int).drop_last() =~= init.subrange(1, init.len() as int));
        assert(s.subrange(1, s.len() as int).last() == s.last());
        assert(init[0] == s[0]);
    }
}

/// The parts of the raw layout of a lock, and their lengths.
proof fn lemma_raw_parts(s: Seq<LockSection>)
    requires
        lock_wf(s),
    ensures
        raw_encoding(s).len() == 8 + 16 * s[0].1.len() + encode_groups(
            s.subrange(1, s.len() as int),
        ).len(),
        raw_encoding(s).subrange(0, 4) == le_bytes(count32(s[0].1.len()), 4),
        raw_encoding(s).subrange(4, 4 + 16 * s[0].1.len() as int) == encode_prices(s[0].1),
        raw_encoding(s).subrange(4 + 16 * s[0].1.len() as int, 8 + 16 * s[0].1.len() as int) == le_bytes(
            count32((s.len() - 1) as nat),
            4,
        ),
        raw_encoding(s).subrange(8 + 16 * s[0].1.len() as int, raw_encoding(s).len() as int)
            == encode_groups(s.subrange(1, s.len() as int)),
{
    let d = s[0].1;
    assert forall|k: int| 0 <= k < d.len() implies (#[trigger] d[k]).len() == 16 by {
        assert(is_decimal_bits(s[0].1[k]));
    }
    lemma_encode_prices_len(d);
    crate::param::lemma_le_bytes_len(count32(d.len()), 4);
    crate::param::lemma_le_bytes_len(count32((s.len() - 1) as nat), 4);
    let a = le_bytes(count32(d.len()), 4);
    let p0 = encode_prices(d);
    let bb = le_bytes(count32((s.len() - 1) as nat), 4);
    let g = encode_groups(s.subrange(1, s.len() as int));
    let b = raw_encoding(s);
    assert(b == a + p0 + bb + g);
    let n: int = d.len() as int;
    assert(b.subrange(0, 4) =~= a);
    assert(b.subrange(4, 4 + 16 * n) =~= p0);
    assert(b.subrange(4 + 16 * n, 8 + 16 * n) =~= bb);
    assert(b.subrange(8 + 16 * n, b.len() as int) =~= g);
}

/// Reading raw bytes whose parts read back successfully.
proof fn lemma_raw_decode_parts(
    b: Seq<u8>,
    dc: nat,
    ds: Seq<LockEntry>,
    p1: nat,
    gc: nat,
    ge: Seq<LockEntry>,
)
    requires
        4 <= b.len(),
        le_value(b.subrange(0, 4)) == dc,
        parse_prices(b, 4, dc, 0) == Ok::<_, RawDecodeError>((ds, p1)),
        p1 + 4 <= b.len(),
        le_value(b.subrange(p1 as int, (p1 + 4) as int)) == gc,
        parse_groups(b, p1 + 4, gc) == Ok::<_, RawDecodeError>((ge, b.len())),
    ensures
        raw_decode(b) == Ok::<_, RawDecodeError>(ds + ge),
{
}

/// Law: the raw layout of a lock reads back as that lock's records, in
/// order, and storing them into an empty lock rebuilds the lock, whenever
/// its counts fit the layout's 32-bit fields.
pub proof fn lemma_raw_round_trip(s: Seq<LockSection>)
    requires
        lock_wf(s),
        fits_raw_counts(s),
    ensures
        raw_decode(raw_encoding(s)) == Ok::<_, RawDecodeError>(flatten(s)),
        push_all(empty_sections(), flatten(s)) == s,
{
    lemma_rebuild(s);
    lemma_raw_parts(s);
    let d = s[0].1;
    let gs = s.subrange(1, s.len() as int);
    let b = raw_encoding(s);
    assert(d.len() < 0x1_0000_0000);
    assert forall|k: int| 0 <= k < d.len() implies is_decimal_bits(#[trigger] d[k]) by {
        assert(is_decimal_bits(s[0].1[k]));
    }
    assert forall|i: int, k: int|
        0 <= i < gs.len() && 0 <= k < gs[i].1.len() implies is_decimal_bits(
        #[trigger] gs[i].1[k],
    ) && gs[i].1.len() < 0x1_0000_0000 by {
        assert(gs[i] == s[i + 1]);
        assert(s[i + 1].1.len() < 0x1_0000_0000);
    }
    assert forall|i: int| 0 <= i < gs.len() implies (#[trigger] gs[i]).1.len() < 0x1_0000_0000 by {
        assert(gs[i] == s[i + 1]);
        assert(s[i + 1].1.len() < 0x1_0000_0000);
    }
    lemma_le4_round_trip(count32(d.len()));
    lemma_le4_round_trip(count32((s.len() - 1) as nat));
    let n: int = d.len() as int;
    let p1: int = 4 + 16 * n;
    assert(le_value(b.subrange(0, 4)) == d.len());
    lemma_parse_prices_encoded(b, 4, d, 0);
    assert(le_value(b.subrange(p1, p1 + 4)) == gs.len());
    lemma_parse_groups_encoded(b, (p1 + 4) as nat, gs);
    lemma_raw_decode_parts(
        b,
        d.len(),
        section_entries((0u16, d)),
        p1 as nat,
        gs.len(),
        flatten(gs),
    );
    lemma_flatten_front(s);
    assert(s[0] == (0u16, d));
}

/// The low 32 bits of a count.
fn count_u32(n: usize) -> (res: u32)
    ensures
        res == count32(n as nat),
{
    (n as u64 % 0x1_0000_0000u64) as u32
}

/// Appends the four little-endian bytes of `v`.
fn push_u32_le(buf: &mut Vec<u8>, v: u32)
    ensures
        final(buf)@ == old(buf)@ + le_bytes(v as nat, 4),
{
    proof {
        lemma_le_bytes4(v as nat);
    }
    buf.push((v % 256) as u8);
    buf.push((v / 256 % 256) as u8);
    buf.push((v / 256 / 256 % 256) as u8);
    buf.push((v / 256 / 256 / 256 % 256) as u8);
}

/// Appends the two little-endian bytes of `v`.
fn push_u16_le(buf: &mut Vec<u8>, v: u16)
    ensures
        final(buf)@ == old(buf)@ + le_bytes(v as nat, 2),
{
    proof {
        lemma_le_bytes2(v as nat);
    }
    buf.push((v % 256) as u8);
    buf.push((v / 256 % 256) as u8);
}

/// Appends a serialized price.
fn push_price_bytes(buf: &mut Vec<u8>, price: &[u8; 16])
    ensures
        final(buf)@ == old(buf)@ + price@,
{
    let ghost start = buf@;
    let mut i: usize = 0;
    while i < 16
        invariant
            i <= 16,
            price@.len() == 16,
            buf@ == start + price@.take(i as int),
        decreases 16 - i,
    {
        buf.push(price[i]);
        assert(price@.take(i as int + 1) =~= price@.take(i as int).push(price@[i as int]));
        i = i + 1;
    }
    assert(price@.take(16) =~= price@);
}

/// Appends serialized prices one after the other.
fn push_prices(buf: &mut Vec<u8>, prices: &Vec<[u8; 16]>)
    ensures
        final(buf)@ == old(buf)@ + encode_prices(prices@.map_values(|p: [u8; 16]| p@)),
{
    let ghost start = buf@;
    let ghost ps = prices@.map_values(|p: [u8; 16]| p@);
    let mut k: usize = 0;
    while k < prices.len()
        invariant
            k <= prices@.len(),
            ps == prices@.map_values(|p: [u8; 16]| p@),
            buf@ == start + encode_prices(ps.take(k as int)),
        decreases prices@.len() - k,
    {
        push_price_bytes(buf, &prices[k]);
        proof {
            let t = ps.take(k as int + 1);
            assert(t.drop_last() =~= ps.take(k as int));
            assert(t.last() == prices@[k as int]@);
            assert(start + encode_prices(ps.take(k as int)) + prices@[k as int]@ =~= start
                + encode_prices(t));
        }
        k = k + 1;
    }
    assert(ps.take(prices@.len() as int) =~= ps);
}

/// Sections as collected while encoding: group id and serialized prices.
pub open spec fn groups_model(groups: Seq<(u16, Vec<[u8; 16]>)>) -> Seq<LockSection> {
    groups.map_values(|e: (u16, Vec<[u8; 16]>)| (e.0, e.1@.map_values(|p: [u8; 16]| p@)))
}

/// Position of the first collected group with id `g`.
fn find_group(groups: &Vec<(u16, Vec<[u8; 16]>)>, g: u16) -> (res: Option<usize>)
    ensures
        match res {
            Some(j) => j < groups@.len() && groups@[j as int].0 == g && forall|k: int|
                0 <= k < j ==> (#[trigger] groups@[k]).0 != g,
            None => forall|k: int| 0 <= k < groups@.len() ==> (#[trigger] groups@[k]).0 != g,
        },
{
    let mut j: usize = 0;
    while j < groups.len()
        invariant
            j <= groups@.len(),
            forall|k: int| 0 <= k < j ==> (#[trigger] groups@[k]).0 != g,
        decreases groups@.len() - j,
    {
        if groups[j].0 == g {
            return Some(j);
        }
        j = j + 1;
    }
    None
}

/// Groups the records of a lock by their non-default group, in the order
/// the groups first occur.
fn collect_groups(lock: &PreTradeLock) -> (res: Vec<(u16, Vec<[u8; 16]>)>)
    requires
        lock_wf(lock_sections(*lock)),
    ensures
        groups_model(res@) == lock_sections(*lock).subrange(1, lock_sections(*lock).len() as int),
{
    let ghost s = lock_sections(*lock);
    let entries = lock_entries(lock);
    let ghost flat = flatten(s);
    let mut groups: Vec<(u16, Vec<[u8; 16]>)> = Vec::new();
    let ghost mut dflt: Seq<Seq<u8>> = Seq::empty();
    let mut i: usize = 0;
    assert(flat.take(0) =~= Seq::<LockEntry>::empty());
    assert(seq![(0u16, dflt)] + groups_model(groups@) =~= empty_sections());
    while i < entries.len()
        invariant
            entries@.map_values(|e: (u16, [u8; 16])| (e.0, e.1@)) == flat,
            i <= entries@.len(),
            push_all(empty_sections(), flat.take(i as int)) == seq![(0u16, dflt)] + groups_model(
                groups@,
            ),
            forall|k: int| 0 <= k < groups@.len() ==> (#[trigger] groups@[k]).0 != 0,
        decreases entries@.len() - i,
    {
        let (group_id, price) = entries[i];
        let ghost before = seq![(0u16, dflt)] + groups_model(groups@);
        let ghost gm = groups_model(groups@);
        proof {
            assert(flat[i as int] == (group_id, price@));
            assert(flat.take(i as int + 1) =~= flat.take(i as int).push(flat[i as int]));
            lemma_push_all_push(empty_sections(), flat.take(i as int), flat[i as int]);
            lemma_section_index(before, group_id);
        }
        if group_id == 0 {
            proof {
                assert(before[0].0 == 0);
                assert(section_index(before, 0) == 0);
                dflt = dflt.push(price@);
                assert(before.update(0, (0u16, before[0].1.push(price@))) =~= seq![(0u16, dflt)]
                    + groups_model(groups@));
            }
        } else {
            match find_group(&groups, group_id) {
                Some(j) => {
                    let ghost old_groups = groups@;
                    proof {
                        assert(gm[j as int].0 == group_id);
                        assert(before[j + 1] == gm[j as int]);
                        assert(before[j + 1].0 == group_id);
                        assert forall|k: int| 0 <= k < j + 1 implies #[trigger] before[k].0
                            != group_id by {
                            if k > 0 {
                                assert(before[k] == gm[k - 1]);
                            }
                        }
                        assert(section_index(before, group_id) == j + 1);
                    }
                    groups[j].1.push(price);
                    proof {
                        assert(groups@[j as int].1@.map_values(|p: [u8; 16]| p@) =~= old_groups[j as int].1@.map_values(|p: [u8; 16]| p@).push(price@));
                        assert forall|k: int| 0 <= k < groups@.len() implies #[trigger] groups@[k].0 != 0 by {
                            if k != j {
                                assert(groups@[k] == old_groups[k]);
                            }
                        }
                        assert(groups_model(groups@) =~= gm.update(
                            j as int,
                            (group_id, gm[j as int].1.push(price@)),
                        ));
                        assert(before.update(
                            j + 1,
                            (group_id, before[j + 1].1.push(price@)),
                        ) =~= seq![(0u16, dflt)] + groups_model(groups@));
                    }
                },
                None => {
                    proof {
                        assert forall|k: int| 0 <= k < before.len() implies #[trigger] before[k].0
                            != group_id by {
                            if k > 0 {
                                assert(before[k] == gm[k - 1]);
                            }
                        }
                        assert(section_index(before, group_id) == -1);
                    }
                    let mut prices: Vec<[u8; 16]> = Vec::new();
                    prices.push(price);
                    groups.push((group_id, prices));
                    proof {
                        assert(prices@.map_values(|p: [u8; 16]| p@) =~= seq![price@]);
                        assert(groups_model(groups@) =~= gm.push((group_id, seq![price@])));
                        assert(before.push((group_id, seq![price@])) =~= seq![(0u16, dflt)]
                            + groups_model(groups@));
                    }
                },
            }
        }
        i = i + 1;
    }
    proof {
        lemma_rebuild(s);
        assert(flat.take(entries@.len() as int) =~= flat);
        let whole = seq![(0u16, dflt)] + groups_model(groups@);
        assert(whole == s);
        assert(groups_model(groups@) =~= whole.subrange(1, whole.len() as int));
    }
    groups
}

/// Writes a lock in the raw layout.
pub fn encode_raw(lock: &PreTradeLock) -> (res: Vec<u8>)
    requires
        lock_wf(lock_sections(*lock)),
    ensures
        res@ == raw_encoding(lock_sections(*lock)),
{
    let ghost s = lock_sections(*lock);
    let default_prices = lock_prices_of(lock, 0);
    proof {
        lemma_section_index_wf(s, 0);
    }
    let groups = collect_groups(lock);
    let ghost gm = groups_model(groups@);
    let mut buffer: Vec<u8> = Vec::new();
    push_u32_le(&mut buffer, count_u32(default_prices.len()));
    push_prices(&mut buffer, &default_prices);
    push_u32_le(&mut buffer, count_u32(groups.len()));
    let ghost header = buffer@;
    let mut gi: usize = 0;
    assert(gm.take(0) =~= Seq::<LockSection>::empty());
    assert(header + encode_groups(gm.take(0)) =~= header);
    while gi < groups.len()
        invariant
            gi <= groups@.len(),
            gm == groups_model(groups@),
            buffer@ == header + encode_groups(gm.take(gi as int)),
        decreases groups@.len() - gi,
    {
        let group_id = groups[gi].0;
        push_u16_le(&mut buffer, group_id);
        push_u32_le(&mut buffer, count_u32(groups[gi].1.len()));
        push_prices(&mut buffer, &groups[gi].1);
        proof {
            let t = gm.take(gi as int + 1);
            assert(t.drop_last() =~= gm.take(gi as int));
            assert(t.last() == gm[gi as int]);
            assert(gm[gi as int].1.len() == groups@[gi as int].1@.len());
            assert(header + encode_groups(gm.take(gi as int)) + le_bytes(group_id as nat, 2)
                + le_bytes(count32(groups@[gi as int].1@.len()), 4) + encode_prices(
                groups@[gi as int].1@.map_values(|p: [u8; 16]| p@),
            ) =~= header + encode_groups(t));
        }
        gi = gi + 1;
    }
    assert(gm.take(groups@.len() as int) =~= gm);
    assert(buffer@ =~= raw_encoding(s));
    buffer
}

/// The bytes of `s` from `start` to `end`.
fn slice_subrange<'a>(s: &'a [u8], start: usize, end: usize) -> (res: &'a [u8])
    requires
        start <= end <= s@.len(),
    ensures
        res@ == s@.subrange(start as int, end as int),
{
    vstd::slice::slice_subrange(s, start, end)
}

} // verus!
