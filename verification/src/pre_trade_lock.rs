//! Pre-trade locks: the prices a reservation locked, grouped by policy group.
//!
//! The lock itself is openpit's `PreTradeLock`; this module holds it in a
//! handle whose contents are always well formed, converts prices between
//! their boundary form and their serialized form, and offers the record-level
//! operations of the C interface.

use crate::lock_model::{
    empty_sections, entries_are_decimals, flatten, group_prices, lemma_prices_after_push_all,
    lemma_push_all_push, lemma_push_all_wf, lemma_push_price_wf, lemma_rebuild,
    lemma_section_index, lock_wf, prices_in, same_lock_values, push_all, push_price, section_entries, section_index,
    total_prices,
    LockEntry, LockSection,
};
use crate::param::{
    bits_mantissa, bits_scale, is_decimal_bits, lemma_decimal_bits_valid, DecimalParamError,
    OpenPitParamDecimal, OpenPitParamPrice,
};
use crate::text::str_from_utf8;
use crate::raw_lock::{decode_raw, encode_raw, raw_decode, raw_encoding, RawDecodeError};
use openpit::param::Price;
use openpit::pretrade::PreTradeLock;
use openpit::PolicyGroupId;
use rust_decimal::Decimal;
use vstd::prelude::*;
use vstd::string::StringExecFns;

verus! {

#[verifier::external_type_specification]
#[verifier::external_body]
pub struct ExPreTradeLock(PreTradeLock);

/// What an openpit `PreTradeLock` holds, as sections (see `lock_model`).
pub uninterp spec fn lock_sections(lock: PreTradeLock) -> Seq<LockSection>;

/// Text that `serde_json::to_string` writes for a lock with these contents,
/// or `None` when it fails.
pub uninterp spec fn lock_json_text(sections: Seq<LockSection>) -> Option<Seq<char>>;

/// Contents of the lock `serde_json::from_str` reads from a text, or `None`
/// when it refuses the text.
pub uninterp spec fn lock_json_decoded(text: Seq<char>) -> Option<Seq<LockSection>>;

/// Bytes that `rmp_serde::to_vec` writes for a lock with these contents, or
/// `None` when it fails.
pub uninterp spec fn lock_msgpack_bytes(sections: Seq<LockSection>) -> Option<Seq<u8>>;

/// Contents of the lock `rmp_serde::from_slice` reads from bytes, or `None`
/// when it refuses them.
pub uninterp spec fn lock_msgpack_decoded(bytes: Seq<u8>) -> Option<Seq<LockSection>>;

/// Bytes that `ciborium::ser::into_writer` writes for a lock with these
/// contents, or `None` when it fails.
pub uninterp spec fn lock_cbor_bytes(sections: Seq<LockSection>) -> Option<Seq<u8>>;

/// Contents of the lock `ciborium::de::from_reader` reads from bytes, or
/// `None` when it refuses them.
pub uninterp spec fn lock_cbor_decoded(bytes: Seq<u8>) -> Option<Seq<LockSection>>;

/// `PreTradeLock::new`: a lock without prices.
#[verifier::external_body]
pub(crate) fn lock_new() -> (res: PreTradeLock)
    ensures
        lock_sections(res) == empty_sections(),
{
    PreTradeLock::new()
}

/// `PreTradeLock::clone` (derived): a lock with the same sections.
#[verifier::external_body]
fn lock_clone(lock: &PreTradeLock) -> (res: PreTradeLock)
    ensures
        lock_sections(res) == lock_sections(*lock),
{
    lock.clone()
}

/// `PreTradeLock::len`: the default prices plus the prices of every section.
#[verifier::external_body]
fn lock_len(lock: &PreTradeLock) -> (res: usize)
    ensures
        res == total_prices(lock_sections(*lock)),
{
    lock.len()
}

/// `PreTradeLock::is_empty`: no default price and no section price.
#[verifier::external_body]
fn lock_is_empty(lock: &PreTradeLock) -> (res: bool)
    ensures
        res == (total_prices(lock_sections(*lock)) == 0),
{
    lock.is_empty()
}

/// `PreTradeLock::push` of the price whose serialized form is `price`: the
/// default group's prices, or the first section of the group, gain the price
/// at their end; a group without a section gets a new last section.
#[verifier::external_body]
pub(crate) fn lock_push(lock: &mut PreTradeLock, group: u16, price: [u8; 16])
    requires
        lock_wf(lock_sections(*old(lock))),
        is_decimal_bits(price@),
    ensures
        lock_sections(*final(lock)) == push_price(lock_sections(*old(lock)), group, price@),
{
    lock.push(PolicyGroupId::new(group), Price::new(Decimal::deserialize(price)));
}

/// `PreTradeLock::merge`: the default prices of `src` are appended to those
/// of `dst`, and each section of `src` to the section of its group in `dst`,
/// or as a new last section; this stores every record of `src`, in order.
#[verifier::external_body]
fn lock_merge(dst: &mut PreTradeLock, src: &PreTradeLock)
    requires
        lock_wf(lock_sections(*old(dst))),
        lock_wf(lock_sections(*src)),
    ensures
        lock_sections(*final(dst)) == push_all(
            lock_sections(*old(dst)),
            flatten(lock_sections(*src)),
        ),
{
    dst.merge(src);
}

/// `PreTradeLock::prices_of`, each price taken to its serialized form: the
/// prices of the group in insertion order.
#[verifier::external_body]
pub(crate) fn lock_prices_of(lock: &PreTradeLock, group: u16) -> (res: Vec<[u8; 16]>)
    requires
        lock_wf(lock_sections(*lock)),
    ensures
        res@.map_values(|p: [u8; 16]| p@) == prices_in(lock_sections(*lock), group),
{
    let mut out = Vec::new();
    for price in lock.prices_of(PolicyGroupId::new(group)) {
        out.push(price.to_decimal().serialize());
    }
    out
}

/// `PreTradeLock::entries`, each price taken to its serialized form: the
/// default records first, then each section's records in section order.
#[verifier::external_body]
pub(crate) fn lock_entries(lock: &PreTradeLock) -> (res: Vec<(u16, [u8; 16])>)
    requires
        lock_wf(lock_sections(*lock)),
    ensures
        res@.map_values(|e: (u16, [u8; 16])| (e.0, e.1@)) == flatten(lock_sections(*lock)),
{
    let mut out = Vec::new();
    for (group, price) in lock.entries() {
        out.push((group.value(), price.to_decimal().serialize()));
    }
    out
}

/// `serde_json::to_string` of a lock; what it writes depends on the
/// contents alone. The crate's error, if any, is passed on as text.
#[verifier::external_body]
fn lock_to_json_text(lock: &PreTradeLock) -> (res: Result<String, String>)
    ensures
        match res {
            Ok(text) => lock_json_text(lock_sections(*lock)) == Some(text@),
            Err(_) => lock_json_text(lock_sections(*lock)) is None,
        },
{
    match serde_json::to_string(lock) {
        Ok(text) => Ok(text),
        Err(error) => Err(error.to_string()),
    }
}

/// `serde_json::from_str` into a lock; the outcome depends on the text alone,
/// and every lock it builds is well formed. Text written for a lock reads
/// back (the lock's `Deserialize` pushes each written price in order) as
/// the same groups and prices; a price is re-read from its decimal text, so
/// it keeps its value and scale but a negative zero comes back as zero.
#[verifier::external_body]
fn lock_from_json_text(text: &str) -> (res: Result<PreTradeLock, String>)
    ensures
        match res {
            Ok(lock) => lock_json_decoded(text@) == Some(lock_sections(lock)) && lock_wf(lock_sections(lock))
                && forall|sections: Seq<LockSection>|
                lock_wf(sections) && #[trigger] lock_json_text(sections) == Some(text@) ==> same_lock_values(
                    lock_sections(lock),
                    sections,
                ),
            Err(_) => lock_json_decoded(text@) is None && forall|sections: Seq<LockSection>|
                lock_wf(sections) ==> #[trigger] lock_json_text(sections) != Some(text@),
        },
{
    match serde_json::from_str::<PreTradeLock>(text) {
        Ok(lock) => Ok(lock),
        Err(error) => Err(error.to_string()),
    }
}

/// `rmp_serde::to_vec` of a lock; what it writes depends on the contents
/// alone. The crate's error, if any, is passed on as text.
#[verifier::external_body]
fn lock_to_msgpack_bytes(lock: &PreTradeLock) -> (res: Result<Vec<u8>, String>)
    ensures
        match res {
            Ok(bytes) => lock_msgpack_bytes(lock_sections(*lock)) == Some(bytes@),
            Err(_) => lock_msgpack_bytes(lock_sections(*lock)) is None,
        },
{
    match rmp_serde::to_vec(lock) {
        Ok(bytes) => Ok(bytes),
        Err(error) => Err(error.to_string()),
    }
}

/// `rmp_serde::from_slice` into a lock; the outcome depends on the bytes
/// alone, and every lock it builds is well formed. Bytes written for a lock
/// read back as the same groups and prices, each price of the same value
/// and scale (prices travel as decimal text; negative zero comes back as
/// zero).
#[verifier::external_body]
fn lock_from_msgpack_bytes(bytes: &[u8]) -> (res: Result<PreTradeLock, String>)
    ensures
        match res {
            Ok(lock) => lock_msgpack_decoded(bytes@) == Some(lock_sections(lock)) && lock_wf(lock_sections(lock))
                && forall|sections: Seq<LockSection>|
                lock_wf(sections) && #[trigger] lock_msgpack_bytes(sections) == Some(bytes@) ==> same_lock_values(
                    lock_sections(lock),
                    sections,
                ),
            Err(_) => lock_msgpack_decoded(bytes@) is None && forall|sections: Seq<LockSection>|
                lock_wf(sections) ==> #[trigger] lock_msgpack_bytes(sections) != Some(bytes@),
        },
{
    match rmp_serde::from_slice::<PreTradeLock>(bytes) {
        Ok(lock) => Ok(lock),
        Err(error) => Err(error.to_string()),
    }
}

/// `ciborium::ser::into_writer` of a lock into an empty buffer; what it
/// writes depends on the contents alone. The crate's error, if any, is
/// passed on as text.
#[verifier::external_body]
fn lock_to_cbor_bytes(lock: &PreTradeLock) -> (res: Result<Vec<u8>, String>)
    ensures
        match res {
            Ok(bytes) => lock_cbor_bytes(lock_sections(*lock)) == Some(bytes@),
            Err(_) => lock_cbor_bytes(lock_sections(*lock)) is None,
        },
{
    let mut buffer = Vec::new();
    match ciborium::ser::into_writer(lock, &mut buffer) {
        Ok(()) => Ok(buffer),
        Err(error) => Err(error.to_string()),
    }
}

/// `ciborium::de::from_reader` into a lock; the outcome depends on the bytes
/// alone, and every lock it builds is well formed. Bytes written for a lock
/// read back as the same groups and prices, each price of the same value
/// and scale (prices travel as decimal text; negative zero comes back as
/// zero).
#[verifier::external_body]
fn lock_from_cbor_bytes(bytes: &[u8]) -> (res: Result<PreTradeLock, String>)
    ensures
        match res {
            Ok(lock) => lock_cbor_decoded(bytes@) == Some(lock_sections(lock)) && lock_wf(lock_sections(lock))
                && forall|sections: Seq<LockSection>|
                lock_wf(sections) && #[trigger] lock_cbor_bytes(sections) == Some(bytes@) ==> same_lock_values(
                    lock_sections(lock),
                    sections,
                ),
            Err(_) => lock_cbor_decoded(bytes@) is None && forall|sections: Seq<LockSection>|
                lock_wf(sections) ==> #[trigger] lock_cbor_bytes(sections) != Some(bytes@),
        },
{
    match ciborium::de::from_reader::<PreTradeLock, _>(bytes) {
        Ok(lock) => Ok(lock),
        Err(error) => Err(error.to_string()),
    }
}

/// Whether a boundary price and a serialized decimal denote the same value.
pub open spec fn price_denotes(price: OpenPitParamPrice, bits: Seq<u8>) -> bool {
    &&& price.0.spec_mantissa() == bits_mantissa(bits)
    &&& price.0.scale == bits_scale(bits)
}

/// The boundary form of a serialized price.
pub fn export_price(bits: [u8; 16]) -> (res: OpenPitParamPrice)
    requires
        is_decimal_bits(bits@),
    ensures
        price_denotes(res, bits@),
{
    OpenPitParamPrice(OpenPitParamDecimal::from_bits(bits))
}

/// A single `(policy_group_id, price)` record exchanged across the C
/// boundary.
#[derive(Clone, Copy, Debug, PartialEq, Eq, Default, Structural)]
pub struct OpenPitPretradePreTradeLockEntry {
    /// Policy group the price belongs to (0 is the default group).
    pub policy_group_id: u16,
    /// The locked price.
    pub price: OpenPitParamPrice,
}

/// The record an entry denotes, when its price is valid.
pub open spec fn entry_model(e: OpenPitPretradePreTradeLockEntry) -> LockEntry {
    (e.policy_group_id, e.price.0.spec_bits())
}

/// Whether every entry carries a valid price.
pub open spec fn entries_valid(es: Seq<OpenPitPretradePreTradeLockEntry>) -> bool {
    forall|k: int| 0 <= k < es.len() ==> (#[trigger] es[k]).price.0.is_valid()
}

/// The records a list of entries denotes.
pub open spec fn entries_model(es: Seq<OpenPitPretradePreTradeLockEntry>) -> Seq<LockEntry> {
    es.map_values(|e: OpenPitPretradePreTradeLockEntry| entry_model(e))
}

/// The first entry whose price is not valid, and why.
#[derive(Clone, Copy, Debug, PartialEq, Eq, Structural)]
pub struct EntryError {
    /// Position of the entry in the input.
    pub index: usize,
    /// Why its price does not denote a decimal value.
    pub error: DecimalParamError,
}

/// Whether `err` names the first entry of `es` whose price is not valid.
pub open spec fn is_first_invalid(es: Seq<OpenPitPretradePreTradeLockEntry>, err: EntryError) -> bool {
    &&& err.index < es.len()
    &&& !es[err.index as int].price.0.is_valid()
    &&& err.error == es[err.index as int].price.0.spec_error()
    &&& forall|k: int| 0 <= k < err.index ==> (#[trigger] es[k]).price.0.is_valid()
}

/// Parses every entry's price; fails on the first invalid one.
fn parse_entries(entries: &[OpenPitPretradePreTradeLockEntry]) -> (res: Result<
    Vec<(u16, [u8; 16])>,
    EntryError,
>)
    ensures
        match res {
            Ok(parsed) => entries_valid(entries@) && parsed@.map_values(
                |e: (u16, [u8; 16])| (e.0, e.1@),
            ) == entries_model(entries@),
            Err(err) => is_first_invalid(entries@, err),
        },
{
    let mut parsed: Vec<(u16, [u8; 16])> = Vec::new();
    let mut i: usize = 0;
    while i < entries.len()
        invariant
            i <= entries.len(),
            parsed@.len() == i,
            forall|k: int| 0 <= k < i ==> (#[trigger] entries@[k]).price.0.is_valid(),
            forall|k: int|
                0 <= k < i ==> (#[trigger] parsed@[k]).0 == entries@[k].policy_group_id
                    && parsed@[k].1@ == entries@[k].price.0.spec_bits(),
        decreases entries.len() - i,
    {
        let entry = entries[i];
        match entry.price.0.to_bits() {
            Ok(bits) => {
                parsed.push((entry.policy_group_id, bits));
            },
            Err(error) => {
                return Err(EntryError { index: i, error });
            },
        }
        i = i + 1;
    }
    assert(parsed@.map_values(|e: (u16, [u8; 16])| (e.0, e.1@)) =~= entries_model(entries@));
    Ok(parsed)
}

/// Stores parsed records one by one.
fn push_parsed(lock: &mut PreTradeLock, parsed: &Vec<(u16, [u8; 16])>)
    requires
        lock_wf(lock_sections(*old(lock))),
        forall|k: int| 0 <= k < parsed@.len() ==> is_decimal_bits((#[trigger] parsed@[k]).1@),
    ensures
        lock_wf(lock_sections(*final(lock))),
        lock_sections(*final(lock)) == push_all(
            lock_sections(*old(lock)),
            parsed@.map_values(|e: (u16, [u8; 16])| (e.0, e.1@)),
        ),
{
    let ghost start = lock_sections(*lock);
    let ghost model = parsed@.map_values(|e: (u16, [u8; 16])| (e.0, e.1@));
    let mut i: usize = 0;
    while i < parsed.len()
        invariant
            i <= parsed@.len(),
            model == parsed@.map_values(|e: (u16, [u8; 16])| (e.0, e.1@)),
            forall|k: int| 0 <= k < parsed@.len() ==> is_decimal_bits((#[trigger] parsed@[k]).1@),
            lock_wf(lock_sections(*lock)),
            lock_sections(*lock) == push_all(start, model.take(i as int)),
        decreases parsed@.len() - i,
    {
        let (group, price) = parsed[i];
        proof {
            lemma_push_price_wf(lock_sections(*lock), group, price@);
            assert(model.take(i as int + 1) =~= model.take(i as int).push(model[i as int]));
            lemma_push_all_push(start, model.take(i as int), model[i as int]);
        }
        lock_push(lock, group, price);
        i = i + 1;
    }
    assert(model.take(parsed@.len() as int) =~= model);
}

/// Caller-owned list of prices stored under a lock group.
#[derive(Debug)]
pub struct OpenPitPretradePreTradeLockPrices {
    items: Vec<OpenPitParamPrice>,
}

impl OpenPitPretradePreTradeLockPrices {
    /// The prices of the list.
    pub closed spec fn spec_items(&self) -> Seq<OpenPitParamPrice> {
        self.items@
    }

    /// The prices of the list.
    pub fn as_slice(&self) -> (res: &[OpenPitParamPrice])
        ensures
            res@ == self.spec_items(),
    {
        self.items.as_slice()
    }

    /// A read-only view of the list (unset when it is empty).
    pub fn view_items(&self) -> (res: OpenPitPretradePreTradeLockPricesView<'_>)
        ensures
            self.spec_items().len() == 0 ==> res.ptr is None && res.len == 0,
            self.spec_items().len() > 0 ==> (res.ptr matches Some(p) && p@ == self.spec_items())
                && res.len == self.spec_items().len(),
    {
        OpenPitPretradePreTradeLockPricesView::from_slice(self.items.as_slice())
    }
}

/// Read-only view of a lock price list: a borrowed slice and its length, or
/// unset (`ptr` absent, `len` zero).
#[derive(Clone, Copy, Debug, PartialEq, Eq, Default)]
pub struct OpenPitPretradePreTradeLockPricesView<'a> {
    /// The prices viewed, when set.
    pub ptr: Option<&'a [OpenPitParamPrice]>,
    /// Number of prices viewed.
    pub len: usize,
}

impl<'a> OpenPitPretradePreTradeLockPricesView<'a> {
    /// The unset view.
    pub fn not_set() -> (res: Self)
        ensures
            res.ptr is None,
            res.len == 0,
    {
        OpenPitPretradePreTradeLockPricesView { ptr: None, len: 0 }
    }

    /// A view of `values`, unset when it is empty.
    pub fn from_slice(values: &'a [OpenPitParamPrice]) -> (res: Self)
        ensures
            values@.len() == 0 ==> res.ptr is None && res.len == 0,
            values@.len() > 0 ==> res.ptr == Some(values) && res.len == values@.len(),
    {
        if values.len() == 0 {
            return Self::not_set();
        }
        OpenPitPretradePreTradeLockPricesView { ptr: Some(values), len: values.len() }
    }
}

/// Outcome of a price lookup: the C interface's status, with the price or
/// the caller-owned list it hands out.
#[derive(Debug)]
pub enum OpenPitPretradePreTradeLockPricesOf {
    /// The group has no prices.
    Empty,
    /// The group has exactly this price.
    One(OpenPitParamPrice),
    /// The group has these prices, at least two.
    List(OpenPitPretradePreTradeLockPrices),
}

/// Status codes of a price lookup across the C boundary.
#[derive(Clone, Copy, Debug, PartialEq, Eq, Structural)]
pub enum OpenPitPretradePreTradeLockPricesStatus {
    /// An argument was missing.
    Error,
    /// The group has no prices.
    Empty,
    /// The group has exactly one price.
    One,
    /// The group has several prices.
    List,
}

impl OpenPitPretradePreTradeLockPricesOf {
    /// The status that reports this outcome.
    pub fn status(&self) -> (res: OpenPitPretradePreTradeLockPricesStatus)
        ensures
            self is Empty <==> res == OpenPitPretradePreTradeLockPricesStatus::Empty,
            self is One <==> res == OpenPitPretradePreTradeLockPricesStatus::One,
            self is List <==> res == OpenPitPretradePreTradeLockPricesStatus::List,
    {
        match self {
            OpenPitPretradePreTradeLockPricesOf::Empty => OpenPitPretradePreTradeLockPricesStatus::Empty,
            OpenPitPretradePreTradeLockPricesOf::One(_) => OpenPitPretradePreTradeLockPricesStatus::One,
            OpenPitPretradePreTradeLockPricesOf::List(_) => OpenPitPretradePreTradeLockPricesStatus::List,
        }
    }
}

/// Caller-owned snapshot of every `(policy_group_id, price)` record in a
/// lock.
#[derive(Debug)]
pub struct OpenPitPretradePreTradeLockEntries {
    items: Vec<OpenPitPretradePreTradeLockEntry>,
}

impl OpenPitPretradePreTradeLockEntries {
    /// The records of the snapshot.
    pub closed spec fn spec_items(&self) -> Seq<OpenPitPretradePreTradeLockEntry> {
        self.items@
    }

    /// The records of the snapshot.
    pub fn as_slice(&self) -> (res: &[OpenPitPretradePreTradeLockEntry])
        ensures
            res@ == self.spec_items(),
    {
        self.items.as_slice()
    }

    /// A read-only view of the snapshot (unset when it is empty).
    pub fn view_items(&self) -> (res: OpenPitPretradePreTradeLockEntriesView<'_>)
        ensures
            self.spec_items().len() == 0 ==> res.ptr is None && res.len == 0,
            self.spec_items().len() > 0 ==> (res.ptr matches Some(p) && p@ == self.spec_items())
                && res.len == self.spec_items().len(),
    {
        OpenPitPretradePreTradeLockEntriesView::from_slice(self.items.as_slice())
    }
}

/// Read-only view of a lock entry snapshot: a borrowed slice and its length,
/// or unset (`ptr` absent, `len` zero).
#[derive(Clone, Copy, Debug, PartialEq, Eq, Default)]
pub struct OpenPitPretradePreTradeLockEntriesView<'a> {
    /// The records viewed, when set.
    pub ptr: Option<&'a [OpenPitPretradePreTradeLockEntry]>,
    /// Number of records viewed.
    pub len: usize,
}

impl<'a> OpenPitPretradePreTradeLockEntriesView<'a> {
    /// The unset view.
    pub fn not_set() -> (res: Self)
        ensures
            res.ptr is None,
            res.len == 0,
    {
        OpenPitPretradePreTradeLockEntriesView { ptr: None, len: 0 }
    }

    /// A view of `values`, unset when it is empty.
    pub fn from_slice(values: &'a [OpenPitPretradePreTradeLockEntry]) -> (res: Self)
        ensures
            values@.len() == 0 ==> res.ptr is None && res.len == 0,
            values@.len() > 0 ==> res.ptr == Some(values) && res.len == values@.len(),
    {
        if values.len() == 0 {
            return Self::not_set();
        }
        OpenPitPretradePreTradeLockEntriesView { ptr: Some(values), len: values.len() }
    }
}

/// Why a serialized lock could not be read back.
#[derive(Clone, Debug, PartialEq, Eq)]
pub enum LockDecodeError {
    /// The input is not valid UTF-8 (JSON only); the decoder's message.
    InvalidUtf8(String),
    /// The decoder refused the input; its message.
    Refused(String),
}

/// The message of a lock that could not be written or read in `format`
/// (`action` is `encode` or `decode`): the codec's message, prefixed.
pub fn codec_failure_message(format: &str, action: &str, error: &str) -> (res: String)
    ensures
        res@ == "lock "@ + format@ + " "@ + action@ + " failed: "@ + error@,
{
    String::from_str("lock ").concat(format).concat(" ").concat(action).concat(" failed: ").concat(
        error,
    )
}

impl LockDecodeError {
    /// The message of a JSON input that could not be read.
    pub open spec fn spec_json_message(self) -> Seq<char> {
        match self {
            LockDecodeError::InvalidUtf8(m) => "json input is not valid UTF-8: "@ + m@,
            LockDecodeError::Refused(m) => "lock json decode failed: "@ + m@,
        }
    }

    /// The message of a JSON input that could not be read.
    pub fn json_message(&self) -> (res: String)
        ensures
            res@ == self.spec_json_message(),
    {
        match self {
            LockDecodeError::InvalidUtf8(m) => String::from_str("json input is not valid UTF-8: ").concat(
                m.as_str(),
            ),
            LockDecodeError::Refused(m) => String::from_str("lock json decode failed: ").concat(
                m.as_str(),
            ),
        }
    }
}

/// Law: the message of an unreadable JSON input names what went wrong: text
/// that is not UTF-8, or a refusal of the decoder, followed by its message.
pub proof fn lemma_json_message_texts(m: String)
    ensures
        LockDecodeError::InvalidUtf8(m).spec_json_message() == "json input is not valid UTF-8: "@ + m@,
        LockDecodeError::Refused(m).spec_json_message() == "lock json decode failed: "@ + m@,
{
}

/// Lock handle: an openpit `PreTradeLock`, always well formed.
pub struct OpenPitPretradePreTradeLock {
    inner: PreTradeLock,
}

impl View for OpenPitPretradePreTradeLock {
    type V = Seq<LockSection>;

    closed spec fn view(&self) -> Seq<LockSection> {
        lock_sections(self.inner)
    }
}

impl OpenPitPretradePreTradeLock {
    #[verifier::type_invariant]
    spec fn well_formed(self) -> bool {
        lock_wf(lock_sections(self.inner))
    }

    /// Wraps a lock.
    pub fn from_inner(inner: PreTradeLock) -> (res: Self)
        requires
            lock_wf(lock_sections(inner)),
        ensures
            res@ == lock_sections(inner),
    {
        OpenPitPretradePreTradeLock { inner }
    }

    /// A copy of the wrapped lock.
    pub fn inner_clone(&self) -> (res: PreTradeLock)
        ensures
            lock_sections(res) == self@,
            lock_wf(lock_sections(res)),
    {
        proof {
            use_type_invariant(self);
        }
        lock_clone(&self.inner)
    }

    /// The wrapped lock.
    pub fn inner(&self) -> (res: &PreTradeLock)
        ensures
            lock_sections(*res) == self@,
            lock_wf(lock_sections(*res)),
    {
        proof {
            use_type_invariant(self);
        }
        &self.inner
    }

    /// Every lock handle is well formed.
    pub fn check_wf(&self)
        ensures
            lock_wf(self@),
    {
        proof {
            use_type_invariant(self);
        }
    }

    /// An empty lock.
    pub fn new() -> (res: Self)
        ensures
            res@ == empty_sections(),
    {
        OpenPitPretradePreTradeLock { inner: lock_new() }
    }

    /// An independent lock with the same records.
    pub fn duplicate(&self) -> (res: Self)
        ensures
            res@ == self@,
    {
        OpenPitPretradePreTradeLock { inner: self.inner_clone() }
    }

    /// Number of stored records.
    pub fn len(&self) -> (res: usize)
        ensures
            res == total_prices(self@),
    {
        lock_len(&self.inner)
    }

    /// Whether no record is stored.
    pub fn is_empty(&self) -> (res: bool)
        ensures
            res == (total_prices(self@) == 0),
    {
        lock_is_empty(&self.inner)
    }

    /// Stores `price` under `policy_group_id`; refuses a price that denotes
    /// no decimal value and then leaves the lock unchanged.
    pub fn push(&mut self, policy_group_id: u16, price: OpenPitParamPrice) -> (res: Result<
        (),
        DecimalParamError,
    >)
        ensures
            match res {
                Ok(()) => price.0.is_valid() && final(self)@ == push_price(
                    old(self)@,
                    policy_group_id,
                    price.0.spec_bits(),
                ),
                Err(e) => !price.0.is_valid() && e == price.0.spec_error() && final(self)@ == old(
                    self,
                )@,
            },
    {
        proof {
            use_type_invariant(&*self);
        }
        let bits = match price.0.to_bits() {
            Ok(bits) => bits,
            Err(e) => return Err(e),
        };
        proof {
            lemma_decimal_bits_valid(price.0.spec_mantissa(), price.0.scale as nat);
            lemma_push_price_wf(self@, policy_group_id, bits@);
        }
        let mut inner = lock_new();
        std::mem::swap(&mut inner, &mut self.inner);
        lock_push(&mut inner, policy_group_id, bits);
        self.inner = inner;
        Ok(())
    }

    /// Stores every entry, in order; when an entry's price is not valid,
    /// stores nothing and names the first such entry.
    pub fn push_many(&mut self, entries: &[OpenPitPretradePreTradeLockEntry]) -> (res: Result<
        (),
        EntryError,
    >)
        ensures
            match res {
                Ok(()) => entries_valid(entries@) && final(self)@ == push_all(
                    old(self)@,
                    entries_model(entries@),
                ),
                Err(err) => is_first_invalid(entries@, err) && final(self)@ == old(self)@,
            },
    {
        proof {
            use_type_invariant(&*self);
        }
        let parsed = match parse_entries(entries) {
            Ok(parsed) => parsed,
            Err(err) => return Err(err),
        };
        proof {
            assert forall|k: int| 0 <= k < parsed@.len() implies is_decimal_bits(
                (#[trigger] parsed@[k]).1@,
            ) by {
                let m = parsed@.map_values(|e: (u16, [u8; 16])| (e.0, e.1@));
                assert(m.len() == parsed@.len());
                assert(entries_model(entries@).len() == entries@.len());
                assert(m[k] == entries_model(entries@)[k]);
                assert(entries@[k].price.0.is_valid());
                lemma_decimal_bits_valid(entries@[k].price.0.spec_mantissa(), entries@[k].price.0.scale as nat);
            }
        }
        let mut inner = lock_new();
        std::mem::swap(&mut inner, &mut self.inner);
        push_parsed(&mut inner, &parsed);
        self.inner = inner;
        Ok(())
    }

    /// A lock holding every entry, in order; when an entry's price is not
    /// valid, names the first such entry.
    pub fn from_entries(entries: &[OpenPitPretradePreTradeLockEntry]) -> (res: Result<Self, EntryError>)
        ensures
            match res {
                Ok(lock) => entries_valid(entries@) && lock@ == push_all(
                    empty_sections(),
                    entries_model(entries@),
                ),
                Err(err) => is_first_invalid(entries@, err),
            },
    {
        let mut lock = Self::new();
        match lock.push_many(entries) {
            Ok(()) => Ok(lock),
            Err(err) => Err(err),
        }
    }

    /// Stores every record of `src`, in order; `src` is left unchanged.
    pub fn merge(&mut self, src: &Self)
        ensures
            final(self)@ == push_all(old(self)@, flatten(src@)),
    {
        proof {
            use_type_invariant(&*self);
            use_type_invariant(src);
        }
        proof {
            lemma_flatten_decimals(src@);
            lemma_push_all_wf(self@, flatten(src@));
        }
        let mut inner = lock_new();
        std::mem::swap(&mut inner, &mut self.inner);
        lock_merge(&mut inner, &src.inner);
        self.inner = inner;
    }

    /// The prices stored under `policy_group_id`: none, exactly one, or a
    /// caller-owned list of several, in insertion order.
    pub fn prices_of(&self, policy_group_id: u16) -> (res: OpenPitPretradePreTradeLockPricesOf)
        ensures
            ({
                let ps = prices_in(self@, policy_group_id);
                match res {
                    OpenPitPretradePreTradeLockPricesOf::Empty => ps.len() == 0,
                    OpenPitPretradePreTradeLockPricesOf::One(p) => ps.len() == 1 && price_denotes(
                        p,
                        ps[0],
                    ),
                    OpenPitPretradePreTradeLockPricesOf::List(list) => ps.len() >= 2
                        && list.spec_items().len() == ps.len() && forall|k: int|
                        0 <= k < ps.len() ==> price_denotes(#[trigger] list.spec_items()[k], ps[k]),
                }
            }),
    {
        proof {
            use_type_invariant(self);
            lemma_prices_in_decimals(self@, policy_group_id);
        }
        let ghost ps = prices_in(self@, policy_group_id);
        let raw = lock_prices_of(&self.inner, policy_group_id);
        assert(raw@.len() == ps.len() && forall|k: int| 0 <= k < raw@.len() ==> (
        #[trigger] raw@[k])@ == ps[k]) by {
            assert forall|k: int| 0 <= k < raw@.len() implies (#[trigger] raw@[k])@ == ps[k] by {
                assert(raw@.map_values(|p: [u8; 16]| p@)[k] == ps[k]);
            }
        }
        if raw.len() == 0 {
            return OpenPitPretradePreTradeLockPricesOf::Empty;
        }
        if raw.len() == 1 {
            return OpenPitPretradePreTradeLockPricesOf::One(export_price(raw[0]));
        }
        let mut items: Vec<OpenPitParamPrice> = Vec::new();
        let mut i: usize = 0;
        while i < raw.len()
            invariant
                i <= raw@.len(),
                raw@.len() == ps.len(),
                forall|k: int| 0 <= k < raw@.len() ==> (#[trigger] raw@[k])@ == ps[k],
                forall|k: int| 0 <= k < ps.len() ==> is_decimal_bits(#[trigger] ps[k]),
                items@.len() == i,
                forall|k: int| 0 <= k < i ==> price_denotes(#[trigger] items@[k], ps[k]),
            decreases raw@.len() - i,
        {
            items.push(export_price(raw[i]));
            i = i + 1;
        }
        OpenPitPretradePreTradeLockPricesOf::List(OpenPitPretradePreTradeLockPrices { items })
    }

    /// A caller-owned snapshot of every record: default-group records first,
    /// then each non-default group in the order groups first received a
    /// price.
    pub fn entries(&self) -> (res: OpenPitPretradePreTradeLockEntries)
        ensures
            res.spec_items().len() == flatten(self@).len(),
            forall|k: int|
                0 <= k < flatten(self@).len() ==> (#[trigger] res.spec_items()[k]).policy_group_id
                    == flatten(self@)[k].0 && price_denotes(
                    res.spec_items()[k].price,
                    flatten(self@)[k].1,
                ),
    {
        proof {
            use_type_invariant(self);
            lemma_flatten_decimals(self@);
        }
        let ghost es = flatten(self@);
        let raw = lock_entries(&self.inner);
        assert(raw@.len() == es.len() && forall|k: int| 0 <= k < raw@.len() ==> (#[trigger] raw@[k]).0
            == es[k].0 && raw@[k].1@ == es[k].1) by {
            assert forall|k: int| 0 <= k < raw@.len() implies (#[trigger] raw@[k]).0 == es[k].0
                && raw@[k].1@ == es[k].1 by {
                assert(raw@.map_values(|e: (u16, [u8; 16])| (e.0, e.1@))[k] == es[k]);
            }
        }
        let mut items: Vec<OpenPitPretradePreTradeLockEntry> = Vec::new();
        let mut i: usize = 0;
        while i < raw.len()
            invariant
                i <= raw@.len(),
                raw@.len() == es.len(),
                forall|k: int| 0 <= k < raw@.len() ==> (#[trigger] raw@[k]).0 == es[k].0 && raw@[k].1@
                    == es[k].1,
                entries_are_decimals(es),
                items@.len() == i,
                forall|k: int|
                    0 <= k < i ==> (#[trigger] items@[k]).policy_group_id == es[k].0 && price_denotes(
                        items@[k].price,
                        es[k].1,
                    ),
            decreases raw@.len() - i,
        {
            let (group, bits) = raw[i];
            assert(is_decimal_bits(es[i as int].1));
            items.push(
                OpenPitPretradePreTradeLockEntry { policy_group_id: group, price: export_price(bits) },
            );
            i = i + 1;
        }
        OpenPitPretradePreTradeLockEntries { items }
    }

    /// The lock in the binary-stable raw layout.
    pub fn to_raw(&self) -> (res: Vec<u8>)
        ensures
            res@ == raw_encoding(self@),
    {
        proof {
            use_type_invariant(self);
        }
        encode_raw(&self.inner)
    }

    /// A lock read from the raw layout: the records the bytes hold, stored
    /// in order into an empty lock, or why the bytes hold no lock.
    pub fn from_raw(bytes: &[u8]) -> (res: Result<Self, RawDecodeError>)
        ensures
            match raw_decode(bytes@) {
                Ok(es) => res matches Ok(lock) && lock@ == push_all(empty_sections(), es),
                Err(e) => res matches Err(e2) && e2 == e,
            },
    {
        match decode_raw(bytes) {
            Ok(inner) => Ok(OpenPitPretradePreTradeLock { inner }),
            Err(e) => Err(e),
        }
    }

    /// The lock as compact JSON; the encoder's message when it fails.
    pub fn to_json(&self) -> (res: Result<String, String>)
        ensures
            match res {
                Ok(text) => lock_json_text(self@) == Some(text@),
                Err(_) => lock_json_text(self@) is None,
            },
    {
        lock_to_json_text(&self.inner)
    }

    /// A lock read from UTF-8 JSON bytes; the text `to_json` wrote for a
    /// lock reads back as that lock, prices compared by value and scale.
    pub fn from_json(bytes: &[u8]) -> (res: Result<Self, LockDecodeError>)
        ensures
            match res {
                Ok(lock) => vstd::utf8::valid_utf8(bytes@) && lock_json_decoded(
                    vstd::utf8::decode_utf8(bytes@),
                ) == Some(lock@),
                Err(LockDecodeError::InvalidUtf8(_)) => !vstd::utf8::valid_utf8(bytes@),
                Err(LockDecodeError::Refused(_)) => vstd::utf8::valid_utf8(bytes@) && lock_json_decoded(
                    vstd::utf8::decode_utf8(bytes@),
                ) is None,
            },
            forall|sections: Seq<LockSection>|
                lock_wf(sections) && vstd::utf8::valid_utf8(bytes@) && #[trigger] lock_json_text(sections)
                    == Some(vstd::utf8::decode_utf8(bytes@)) ==> (res matches Ok(lock) && same_lock_values(
                    lock@,
                    sections,
                )),
    {
        let text = match str_from_utf8(bytes) {
            Ok(text) => text,
            Err(message) => return Err(LockDecodeError::InvalidUtf8(message)),
        };
        match lock_from_json_text(text) {
            Ok(inner) => Ok(OpenPitPretradePreTradeLock { inner }),
            Err(message) => Err(LockDecodeError::Refused(message)),
        }
    }

    /// The lock as MessagePack; the encoder's message when it fails.
    pub fn to_msgpack(&self) -> (res: Result<Vec<u8>, String>)
        ensures
            match res {
                Ok(bytes) => lock_msgpack_bytes(self@) == Some(bytes@),
                Err(_) => lock_msgpack_bytes(self@) is None,
            },
    {
        lock_to_msgpack_bytes(&self.inner)
    }

    /// A lock read from MessagePack bytes; the bytes `to_msgpack` wrote for
    /// a lock read back as that lock, prices compared by value and scale.
    pub fn from_msgpack(bytes: &[u8]) -> (res: Result<Self, String>)
        ensures
            match res {
                Ok(lock) => lock_msgpack_decoded(bytes@) == Some(lock@),
                Err(_) => lock_msgpack_decoded(bytes@) is None,
            },
            forall|sections: Seq<LockSection>|
                lock_wf(sections) && #[trigger] lock_msgpack_bytes(sections) == Some(bytes@) ==> (res matches Ok(lock)
                    && same_lock_values(lock@, sections)),
    {
        match lock_from_msgpack_bytes(bytes) {
            Ok(inner) => Ok(OpenPitPretradePreTradeLock { inner }),
            Err(message) => Err(message),
        }
    }

    /// The lock as CBOR; the encoder's message when it fails.
    pub fn to_cbor(&self) -> (res: Result<Vec<u8>, String>)
        ensures
            match res {
                Ok(bytes) => lock_cbor_bytes(self@) == Some(bytes@),
                Err(_) => lock_cbor_bytes(self@) is None,
            },
    {
        lock_to_cbor_bytes(&self.inner)
    }

    /// A lock read from CBOR bytes; the bytes `to_cbor` wrote for a lock
    /// read back as that lock, prices compared by value and scale.
    pub fn from_cbor(bytes: &[u8]) -> (res: Result<Self, String>)
        ensures
            match res {
                Ok(lock) => lock_cbor_decoded(bytes@) == Some(lock@),
                Err(_) => lock_cbor_decoded(bytes@) is None,
            },
            forall|sections: Seq<LockSection>|
                lock_wf(sections) && #[trigger] lock_cbor_bytes(sections) == Some(bytes@) ==> (res matches Ok(lock)
                    && same_lock_values(lock@, sections)),
    {
        match lock_from_cbor_bytes(bytes) {
            Ok(inner) => Ok(OpenPitPretradePreTradeLock { inner }),
            Err(message) => Err(message),
        }
    }
}

/// Law: merging appends, group by group, the source's prices after the
/// destination's own, in the source's order.
pub proof fn lemma_prices_after_merge(dst: Seq<LockSection>, src: Seq<LockSection>, h: u16)
    requires
        lock_wf(dst),
        lock_wf(src),
    ensures
        prices_in(push_all(dst, flatten(src)), h) == prices_in(dst, h) + prices_in(src, h),
{
    lemma_flatten_decimals(src);
    lemma_prices_after_push_all(dst, flatten(src), h);
    lemma_empty_sections_wf();
    lemma_prices_after_push_all(empty_sections(), flatten(src), h);
    lemma_rebuild(src);
    let e = empty_sections();
    assert(e.drop_last() =~= Seq::<LockSection>::empty());
    assert(section_index(e.drop_last(), h) == -1);
    assert(e.last() == (0u16, Seq::<Seq<u8>>::empty()));
    assert(e[0].1 =~= Seq::<Seq<u8>>::empty());
    assert(prices_in(e, h) =~= Seq::<Seq<u8>>::empty());
    assert(Seq::<Seq<u8>>::empty() + group_prices(flatten(src), h) =~= group_prices(flatten(src), h));
}

/// The empty lock is well formed.
proof fn lemma_empty_sections_wf()
    ensures
        lock_wf(empty_sections()),
{
}

/// Law: a batch of no entries leaves a lock as it was.
pub proof fn lemma_push_no_entries(s: Seq<LockSection>)
    ensures
        push_all(s, entries_model(Seq::empty())) == s,
{
    assert(entries_model(Seq::<OpenPitPretradePreTradeLockEntry>::empty()) =~= Seq::<LockEntry>::empty());
}

/// Every record of a well-formed lock carries a decimal value.
pub proof fn lemma_flatten_decimals(s: Seq<LockSection>)
    requires
        forall|i: int, k: int|
            0 <= i < s.len() && 0 <= k < s[i].1.len() ==> is_decimal_bits(#[trigger] s[i].1[k]),
    ensures
        entries_are_decimals(flatten(s)),
    decreases s.len(),
{
    if s.len() > 0 {
        let init = s.drop_last();
        assert forall|i: int, k: int|
            0 <= i < init.len() && 0 <= k < init[i].1.len() implies is_decimal_bits(
            #[trigger] init[i].1[k],
        ) by {
            assert(init[i] == s[i]);
        }
        lemma_flatten_decimals(init);
        let last = section_entries(s.last());
        assert forall|k: int| 0 <= k < flatten(s).len() implies is_decimal_bits(
            #[trigger] flatten(s)[k].1,
        ) by {
            if k >= flatten(init).len() {
                let j = k - flatten(init).len();
                assert(flatten(s)[k] == last[j]);
                assert(is_decimal_bits(s[s.len() - 1].1[j]));
            } else {
                assert(flatten(s)[k] == flatten(init)[k]);
            }
        }
    }
}

/// Every price of a well-formed lock's group carries a decimal value.
pub proof fn lemma_prices_in_decimals(s: Seq<LockSection>, g: u16)
    requires
        lock_wf(s),
    ensures
        forall|k: int| 0 <= k < prices_in(s, g).len() ==> is_decimal_bits(#[trigger] prices_in(s, g)[k]),
{
    lemma_section_index(s, g);
}

/// The entries an array argument designates: none when the length is zero
/// (the pointer is then not read), refused (`None`) when the pointer is null
/// with a length, otherwise the first `len` entries.
pub open spec fn entries_arg(entries: Option<&[OpenPitPretradePreTradeLockEntry]>, len: usize) -> Option<
    Seq<OpenPitPretradePreTradeLockEntry>,
> {
    if len == 0 {
        Some(Seq::empty())
    } else {
        match entries {
            None => None,
            Some(s) => Some(s@.subrange(0, len as int)),
        }
    }
}

/// Reads an entries array argument (see `entries_arg`).
fn read_entries_arg<'a>(entries: Option<&'a [OpenPitPretradePreTradeLockEntry]>, len: usize) -> (res: Result<
    &'a [OpenPitPretradePreTradeLockEntry],
    String,
>)
    requires
        entries matches Some(s) ==> len <= s@.len(),
    ensures
        match res {
            Ok(es) => entries_arg(entries, len) == Some(es@),
            Err(m) => entries_arg(entries, len) is None && m@ == "entries pointer must be non-null"@,
        },
{
    if len == 0 {
        let empty: &[OpenPitPretradePreTradeLockEntry] = &[];
        assert(empty@ =~= Seq::<OpenPitPretradePreTradeLockEntry>::empty());
        return Ok(empty);
    }
    match entries {
        None => Err(String::from_str("entries pointer must be non-null")),
        Some(s) => Ok(vstd::slice::slice_subrange(s, 0, len)),
    }
}

/// A new caller-owned empty lock.
pub fn openpit_create_pretrade_pre_trade_lock() -> (res: Box<OpenPitPretradePreTradeLock>)
    ensures
        res@ == empty_sections(),
{
    Box::new(OpenPitPretradePreTradeLock::new())
}

/// A deep copy of `lock`, independent of it; `None` without a lock.
pub fn openpit_pretrade_pre_trade_lock_clone(lock: Option<&OpenPitPretradePreTradeLock>) -> (res: Option<
    Box<OpenPitPretradePreTradeLock>,
>)
    ensures
        match lock {
            None => res is None,
            Some(l) => res matches Some(c) && c@ == l@,
        },
{
    match lock {
        None => None,
        Some(l) => Some(Box::new(l.duplicate())),
    }
}

/// Total number of stored prices across all groups.
pub fn openpit_pretrade_pre_trade_lock_len(lock: &OpenPitPretradePreTradeLock) -> (res: usize)
    ensures
        res == total_prices(lock@),
{
    lock.len()
}

/// Whether the lock stores no price.
pub fn openpit_pretrade_pre_trade_lock_is_empty(lock: &OpenPitPretradePreTradeLock) -> (res: bool)
    ensures
        res == (total_prices(lock@) == 0),
{
    lock.is_empty()
}

/// Appends `price` under `policy_group_id`; refused without a lock or when
/// the price denotes no decimal value, and the lock is then unchanged.
pub fn openpit_pretrade_pre_trade_lock_push(
    lock: Option<&mut OpenPitPretradePreTradeLock>,
    policy_group_id: u16,
    price: OpenPitParamPrice,
) -> (res: Result<(), String>)
    ensures
        lock is None ==> (res matches Err(m) && m@ == "lock pointer must be non-null"@),
        lock matches Some(l) ==> match res {
            Ok(()) => price.0.is_valid() && final(l)@ == push_price(
                l@,
                policy_group_id,
                price.0.spec_bits(),
            ),
            Err(m) => !price.0.is_valid() && m@ == price.0.spec_error().spec_message() && final(l)@
                == l@,
        },
{
    match lock {
        None => Err(String::from_str("lock pointer must be non-null")),
        Some(l) => match l.push(policy_group_id, price) {
            Ok(()) => Ok(()),
            Err(e) => Err(String::from_str(e.message())),
        },
    }
}

/// Appends every entry of the array argument, in order; refused without a
/// lock, without entries for a non-zero length, or when a price denotes no
/// decimal value, and the lock is then unchanged.
pub fn openpit_pretrade_pre_trade_lock_push_many(
    lock: Option<&mut OpenPitPretradePreTradeLock>,
    entries: Option<&[OpenPitPretradePreTradeLockEntry]>,
    entries_len: usize,
) -> (res: Result<(), String>)
    requires
        entries matches Some(s) ==> entries_len <= s@.len(),
    ensures
        lock is None ==> (res matches Err(m) && m@ == "lock pointer must be non-null"@),
        lock matches Some(l) ==> match entries_arg(entries, entries_len) {
            None => final(l)@ == l@ && (res matches Err(m) && m@
                == "entries pointer must be non-null"@),
            Some(es) => if entries_valid(es) {
                res is Ok && final(l)@ == push_all(l@, entries_model(es))
            } else {
                final(l)@ == l@ && (res matches Err(m) && exists|err: EntryError|
                    is_first_invalid(es, err) && m@ == err.error.spec_message())
            },
        },
{
    match lock {
        None => Err(String::from_str("lock pointer must be non-null")),
        Some(l) => {
            let es = match read_entries_arg(entries, entries_len) {
                Ok(es) => es,
                Err(m) => return Err(m),
            };
            match l.push_many(es) {
                Ok(()) => Ok(()),
                Err(err) => Err(String::from_str(err.error.message())),
            }
        },
    }
}

/// A new lock holding every entry of the array argument, in order; refused
/// without entries for a non-zero length or when a price denotes no decimal
/// value.
pub fn openpit_create_pretrade_pre_trade_lock_from_entries(
    entries: Option<&[OpenPitPretradePreTradeLockEntry]>,
    entries_len: usize,
) -> (res: Result<Box<OpenPitPretradePreTradeLock>, String>)
    requires
        entries matches Some(s) ==> entries_len <= s@.len(),
    ensures
        match entries_arg(entries, entries_len) {
            None => res matches Err(m) && m@ == "entries pointer must be non-null"@,
            Some(es) => if entries_valid(es) {
                res matches Ok(lock) && lock@ == push_all(empty_sections(), entries_model(es))
            } else {
                res matches Err(m) && exists|err: EntryError|
                    is_first_invalid(es, err) && m@ == err.error.spec_message()
            },
        },
{
    let es = match read_entries_arg(entries, entries_len) {
        Ok(es) => es,
        Err(m) => return Err(m),
    };
    match OpenPitPretradePreTradeLock::from_entries(es) {
        Ok(lock) => Ok(Box::new(lock)),
        Err(err) => Err(String::from_str(err.error.message())),
    }
}

/// Appends every record of `src` to `dst`, leaving `src` unchanged; refused
/// without either lock.
pub fn openpit_pretrade_pre_trade_lock_merge(
    dst: Option<&mut OpenPitPretradePreTradeLock>,
    src: Option<&OpenPitPretradePreTradeLock>,
) -> (res: Result<(), String>)
    ensures
        dst is None ==> (res matches Err(m) && m@ == "destination lock pointer must be non-null"@),
        dst matches Some(d) ==> match src {
            None => final(d)@ == d@ && (res matches Err(m) && m@
                == "source lock pointer must be non-null"@),
            Some(s) => res is Ok && final(d)@ == push_all(d@, flatten(s@)),
        },
{
    match dst {
        None => Err(String::from_str("destination lock pointer must be non-null")),
        Some(d) => match src {
            None => Err(String::from_str("source lock pointer must be non-null")),
            Some(s) => {
                d.merge(s);
                Ok(())
            },
        },
    }
}

/// A read-only view of a lock price list (unset when it is empty).
pub fn openpit_pretrade_pre_trade_lock_prices_view(handle: &OpenPitPretradePreTradeLockPrices) -> (res:
    OpenPitPretradePreTradeLockPricesView<'_>)
    ensures
        handle.spec_items().len() == 0 ==> res.ptr is None && res.len == 0,
        handle.spec_items().len() > 0 ==> (res.ptr matches Some(p) && p@ == handle.spec_items())
            && res.len == handle.spec_items().len(),
{
    handle.view_items()
}

/// The prices stored under `policy_group_id`: none, the only one, or a
/// caller-owned list; refused without a lock or without a place for either
/// answer (`has_out_price`, `has_out_prices`).
pub fn openpit_pretrade_pre_trade_lock_prices_of(
    lock: Option<&OpenPitPretradePreTradeLock>,
    policy_group_id: u16,
    has_out_price: bool,
    has_out_prices: bool,
) -> (res: Result<OpenPitPretradePreTradeLockPricesOf, String>)
    ensures
        lock is None ==> (res matches Err(m) && m@ == "lock pointer must be non-null"@),
        lock is Some && !has_out_price ==> (res matches Err(m) && m@
            == "out_price pointer must be non-null"@),
        lock is Some && has_out_price && !has_out_prices ==> (res matches Err(m) && m@
            == "out_prices pointer must be non-null"@),
        lock matches Some(l) ==> (has_out_price && has_out_prices ==> (res matches Ok(found) && ({
            let ps = prices_in(l@, policy_group_id);
            match found {
                OpenPitPretradePreTradeLockPricesOf::Empty => ps.len() == 0,
                OpenPitPretradePreTradeLockPricesOf::One(p) => ps.len() == 1 && price_denotes(
                    p,
                    ps[0],
                ),
                OpenPitPretradePreTradeLockPricesOf::List(list) => ps.len() >= 2
                    && list.spec_items().len() == ps.len() && forall|k: int|
                    0 <= k < ps.len() ==> price_denotes(#[trigger] list.spec_items()[k], ps[k]),
            }
        }))),
{
    let l = match lock {
        None => return Err(String::from_str("lock pointer must be non-null")),
        Some(l) => l,
    };
    if !has_out_price {
        return Err(String::from_str("out_price pointer must be non-null"));
    }
    if !has_out_prices {
        return Err(String::from_str("out_prices pointer must be non-null"));
    }
    Ok(l.prices_of(policy_group_id))
}

/// A caller-owned snapshot of every record of the lock, in order.
pub fn openpit_pretrade_pre_trade_lock_entries(lock: &OpenPitPretradePreTradeLock) -> (res: Box<
    OpenPitPretradePreTradeLockEntries,
>)
    ensures
        res.spec_items().len() == flatten(lock@).len(),
        forall|k: int|
            0 <= k < flatten(lock@).len() ==> (#[trigger] res.spec_items()[k]).policy_group_id
                == flatten(lock@)[k].0 && price_denotes(res.spec_items()[k].price, flatten(lock@)[k].1),
{
    Box::new(lock.entries())
}

/// A read-only view of a lock entry snapshot (unset when it is empty).
pub fn openpit_pretrade_pre_trade_lock_entries_view(handle: &OpenPitPretradePreTradeLockEntries) -> (res:
    OpenPitPretradePreTradeLockEntriesView<'_>)
    ensures
        handle.spec_items().len() == 0 ==> res.ptr is None && res.len == 0,
        handle.spec_items().len() > 0 ==> (res.ptr matches Some(p) && p@ == handle.spec_items())
            && res.len == handle.spec_items().len(),
{
    handle.view_items()
}

/// The lock as MessagePack; refused without a lock, or with the encoder's
/// message.
pub fn openpit_pretrade_pre_trade_lock_to_msgpack(lock: Option<&OpenPitPretradePreTradeLock>) -> (res:
    Result<Vec<u8>, String>)
    ensures
        lock is None ==> (res matches Err(m) && m@ == "lock pointer must be non-null"@),
        lock matches Some(l) ==> match lock_msgpack_bytes(l@) {
            Some(b) => res matches Ok(bytes) && bytes@ == b,
            None => res matches Err(m) && exists|e: Seq<char>| m@ == "lock msgpack encode failed: "@ + e,
        },
{
    let l = match lock {
        None => return Err(String::from_str("lock pointer must be non-null")),
        Some(l) => l,
    };
    match l.to_msgpack() {
        Ok(bytes) => Ok(bytes),
        Err(e) => Err(String::from_str("lock msgpack encode failed: ").concat(e.as_str())),
    }
}

/// A lock read from MessagePack bytes; refused without input, or with the
/// decoder's message.
pub fn openpit_create_pretrade_pre_trade_lock_from_msgpack(data: Option<&[u8]>) -> (res: Result<
    Box<OpenPitPretradePreTradeLock>,
    String,
>)
    ensures
        data is None ==> (res matches Err(m) && m@ == "msgpack input pointer must be non-null"@),
        data matches Some(d) ==> match lock_msgpack_decoded(d@) {
            Some(sections) => res matches Ok(lock) && lock@ == sections,
            None => res matches Err(m) && exists|e: Seq<char>| m@ == "lock msgpack decode failed: "@ + e,
        },
        data matches Some(d) ==> forall|sections: Seq<LockSection>|
            lock_wf(sections) && #[trigger] lock_msgpack_bytes(sections) == Some(d@) ==> (res matches Ok(lock)
                && same_lock_values(lock@, sections)),
{
    let d = match data {
        None => return Err(String::from_str("msgpack input pointer must be non-null")),
        Some(d) => d,
    };
    match OpenPitPretradePreTradeLock::from_msgpack(d) {
        Ok(lock) => Ok(Box::new(lock)),
        Err(e) => Err(String::from_str("lock msgpack decode failed: ").concat(e.as_str())),
    }
}

/// The lock as compact JSON text; refused without a lock, or with the
/// encoder's message.
pub fn openpit_pretrade_pre_trade_lock_to_json(lock: Option<&OpenPitPretradePreTradeLock>) -> (res: Result<
    Box<crate::string::OpenPitSharedString>,
    String,
>)
    ensures
        lock is None ==> (res matches Err(m) && m@ == "lock pointer must be non-null"@),
        lock matches Some(l) ==> match lock_json_text(l@) {
            Some(t) => res matches Ok(text) && text.spec_value() == t,
            None => res matches Err(m) && exists|e: Seq<char>| m@ == "lock json encode failed: "@ + e,
        },
{
    let l = match lock {
        None => return Err(String::from_str("lock pointer must be non-null")),
        Some(l) => l,
    };
    match l.to_json() {
        Ok(text) => Ok(crate::string::OpenPitSharedString::new_handle(text.as_str())),
        Err(e) => Err(String::from_str("lock json encode failed: ").concat(e.as_str())),
    }
}

/// A lock read from UTF-8 JSON bytes; refused without input, for bytes that
/// are not UTF-8, or with the decoder's message.
pub fn openpit_create_pretrade_pre_trade_lock_from_json(text: Option<&[u8]>) -> (res: Result<
    Box<OpenPitPretradePreTradeLock>,
    String,
>)
    ensures
        text is None ==> (res matches Err(m) && m@ == "json input pointer must be non-null"@),
        text matches Some(t) ==> if !vstd::utf8::valid_utf8(t@) {
            res matches Err(m) && exists|e: Seq<char>| m@ == "json input is not valid UTF-8: "@ + e
        } else {
            match lock_json_decoded(vstd::utf8::decode_utf8(t@)) {
                Some(sections) => res matches Ok(lock) && lock@ == sections,
                None => res matches Err(m) && exists|e: Seq<char>| m@ == "lock json decode failed: "@ + e,
            }
        },
        text matches Some(t) ==> forall|sections: Seq<LockSection>|
            lock_wf(sections) && vstd::utf8::valid_utf8(t@) && #[trigger] lock_json_text(sections) == Some(
                vstd::utf8::decode_utf8(t@),
            ) ==> (res matches Ok(lock) && same_lock_values(lock@, sections)),
{
    let t = match text {
        None => return Err(String::from_str("json input pointer must be non-null")),
        Some(t) => t,
    };
    match OpenPitPretradePreTradeLock::from_json(t) {
        Ok(lock) => Ok(Box::new(lock)),
        Err(e) => Err(e.json_message()),
    }
}

/// The lock as CBOR; refused without a lock, or with the encoder's message.
pub fn openpit_pretrade_pre_trade_lock_to_cbor(lock: Option<&OpenPitPretradePreTradeLock>) -> (res: Result<
    Vec<u8>,
    String,
>)
    ensures
        lock is None ==> (res matches Err(m) && m@ == "lock pointer must be non-null"@),
        lock matches Some(l) ==> match lock_cbor_bytes(l@) {
            Some(b) => res matches Ok(bytes) && bytes@ == b,
            None => res matches Err(m) && exists|e: Seq<char>| m@ == "lock cbor encode failed: "@ + e,
        },
{
    let l = match lock {
        None => return Err(String::from_str("lock pointer must be non-null")),
        Some(l) => l,
    };
    match l.to_cbor() {
        Ok(bytes) => Ok(bytes),
        Err(e) => Err(String::from_str("lock cbor encode failed: ").concat(e.as_str())),
    }
}

/// A lock read from CBOR bytes; refused without input, or with the decoder's
/// message.
pub fn openpit_create_pretrade_pre_trade_lock_from_cbor(data: Option<&[u8]>) -> (res: Result<
    Box<OpenPitPretradePreTradeLock>,
    String,
>)
    ensures
        data is None ==> (res matches Err(m) && m@ == "cbor input pointer must be non-null"@),
        data matches Some(d) ==> match lock_cbor_decoded(d@) {
            Some(sections) => res matches Ok(lock) && lock@ == sections,
            None => res matches Err(m) && exists|e: Seq<char>| m@ == "lock cbor decode failed: "@ + e,
        },
        data matches Some(d) ==> forall|sections: Seq<LockSection>|
            lock_wf(sections) && #[trigger] lock_cbor_bytes(sections) == Some(d@) ==> (res matches Ok(lock)
                && same_lock_values(lock@, sections)),
{
    let d = match data {
        None => return Err(String::from_str("cbor input pointer must be non-null")),
        Some(d) => d,
    };
    match OpenPitPretradePreTradeLock::from_cbor(d) {
        Ok(lock) => Ok(Box::new(lock)),
        Err(e) => Err(String::from_str("lock cbor decode failed: ").concat(e.as_str())),
    }
}

/// The lock in the raw layout.
pub fn openpit_pretrade_pre_trade_lock_to_raw(lock: &OpenPitPretradePreTradeLock) -> (res: Vec<u8>)
    ensures
        res@ == raw_encoding(lock@),
{
    lock.to_raw()
}

/// A lock read from the raw layout; refused without input, or with the
/// reason the bytes hold no lock.
pub fn openpit_create_pretrade_pre_trade_lock_from_raw(data: Option<&[u8]>) -> (res: Result<
    Box<OpenPitPretradePreTradeLock>,
    String,
>)
    ensures
        data is None ==> (res matches Err(m) && m@ == "raw input pointer must be non-null"@),
        data matches Some(d) ==> match raw_decode(d@) {
            Ok(es) => res matches Ok(lock) && lock@ == push_all(empty_sections(), es),
            Err(e) => res matches Err(m) && m@ == e.spec_message(),
        },
{
    let d = match data {
        None => return Err(String::from_str("raw input pointer must be non-null")),
        Some(d) => d,
    };
    match OpenPitPretradePreTradeLock::from_raw(d) {
        Ok(lock) => Ok(Box::new(lock)),
        Err(e) => Err(e.message()),
    }
}

} // verus!
