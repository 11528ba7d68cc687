//! Mathematical model of a pre-trade lock: the prices it stores, grouped by
//! policy group, and what storing a price does to them.
//!
//! A lock is modelled as a sequence of sections. Section 0 holds the prices
//! of the default group (id 0); every further section holds one non-default
//! group's id and its prices, sections in the order their groups first
//! received a price, prices in the order they were stored. A price is the
//! 16-byte serialized form of its decimal value.

use crate::param::{is_decimal_bits, same_decimal};
use vstd::prelude::*;

verus! {

/// A stored price: the serialized form of its decimal value.
pub type PriceBits = Seq<u8>;

/// One `(policy group id, price)` record.
pub type LockEntry = (u16, Seq<u8>);

/// One group section: the group id and its prices in insertion order.
pub type LockSection = (u16, Seq<Seq<u8>>);

/// The contents of an empty lock: an empty default section.
pub open spec fn empty_sections() -> Seq<LockSection> {
    seq![(0u16, Seq::<Seq<u8>>::empty())]
}

/// Index of the first section of group `g`, or -1 when there is none.
pub open spec fn section_index(s: Seq<LockSection>, g: u16) -> int
    decreases s.len(),
{
    if s.len() == 0 {
        -1
    } else {
        let i = section_index(s.drop_last(), g);
        if i >= 0 {
            i
        } else if s.last().0 == g {
            s.len() - 1
        } else {
            -1
        }
    }
}

/// The prices stored under group `g`.
pub open spec fn prices_in(s: Seq<LockSection>, g: u16) -> Seq<Seq<u8>> {
    let i = section_index(s, g);
    if i >= 0 {
        s[i].1
    } else {
        Seq::empty()
    }
}

/// Stores `p` under group `g`: appended to the group's section, or in a new
/// last section when the group has none yet.
pub open spec fn push_price(s: Seq<LockSection>, g: u16, p: Seq<u8>) -> Seq<LockSection> {
    let i = section_index(s, g);
    if i >= 0 {
        s.update(i, (g, s[i].1.push(p)))
    } else {
        s.push((g, seq![p]))
    }
}

/// Stores every record of `es`, in order.
pub open spec fn push_all(s: Seq<LockSection>, es: Seq<LockEntry>) -> Seq<LockSection>
    decreases es.len(),
{
    if es.len() == 0 {
        s
    } else {
        let rest = push_all(s, es.drop_last());
        push_price(rest, es.last().0, es.last().1)
    }
}

/// The records of one section, in order.
pub open spec fn section_entries(sec: LockSection) -> Seq<LockEntry> {
    sec.1.map_values(|p: Seq<u8>| (sec.0, p))
}

/// Every record of a lock: default-group records first, then each
/// non-default group in section order.
pub open spec fn flatten(s: Seq<LockSection>) -> Seq<LockEntry>
    decreases s.len(),
{
    if s.len() == 0 {
        Seq::empty()
    } else {
        flatten(s.drop_last()) + section_entries(s.last())
    }
}

/// Number of stored prices.
pub open spec fn total_prices(s: Seq<LockSection>) -> nat
    decreases s.len(),
{
    if s.len() == 0 {
        0
    } else {
        total_prices(s.drop_last()) + s.last().1.len()
    }
}

/// Whether every record carries the serialized form of a decimal value.
pub open spec fn entries_are_decimals(es: Seq<LockEntry>) -> bool {
    forall|k: int| 0 <= k < es.len() ==> is_decimal_bits(#[trigger] es[k].1)
}

/// The shape every lock has: a default section first; then non-empty
/// sections of distinct non-default groups; every price a decimal value.
pub open spec fn lock_wf(s: Seq<LockSection>) -> bool {
    &&& s.len() >= 1
    &&& s[0].0 == 0
    &&& forall|i: int| 1 <= i < s.len() ==> #[trigger] s[i].0 != 0 && s[i].1.len() > 0
    &&& forall|i: int, j: int| 0 <= i < j < s.len() ==> #[trigger] s[i].0 != #[trigger] s[j].0
    &&& forall|i: int, k: int|
        0 <= i < s.len() && 0 <= k < s[i].1.len() ==> is_decimal_bits(#[trigger] s[i].1[k])
}

/// Whether two locks hold the same groups, in the same order, with the same
/// number of prices each, every price of the same value at the same scale
/// (negative zero equal to zero).
pub open spec fn same_lock_values(a: Seq<LockSection>, b: Seq<LockSection>) -> bool {
    &&& a.len() == b.len()
    &&& forall|i: int| 0 <= i < a.len() ==> #[trigger] a[i].0 == b[i].0 && a[i].1.len() == b[i].1.len()
    &&& forall|i: int, k: int|
        0 <= i < a.len() && 0 <= k < a[i].1.len() ==> same_decimal(#[trigger] a[i].1[k], b[i].1[k])
}

/// `section_index` finds the first section of the group.
pub proof fn lemma_section_index(s: Seq<LockSection>, g: u16)
    ensures
        -1 <= section_index(s, g) < s.len(),
        section_index(s, g) == -1 ==> forall|j: int| 0 <= j < s.len() ==> #[trigger] s[j].0 != g,
        section_index(s, g) >= 0 ==> s[section_index(s, g)].0 == g && forall|j: int|
            0 <= j < section_index(s, g) ==> #[trigger] s[j].0 != g,
    decreases s.len(),
{
    if s.len() > 0 {
        lemma_section_index(s.drop_last(), g);
        assert forall|j: int| 0 <= j < s.len() - 1 implies s.drop_last()[j] == #[trigger] s[j] by {}
    }
}

/// In a well-formed lock the default group is section 0, and a group found
/// at index `i` is found nowhere else.
pub proof fn lemma_section_index_wf(s: Seq<LockSection>, g: u16)
    requires
        lock_wf(s),
    ensures
        g == 0 ==> section_index(s, g) == 0,
        section_index(s, g) >= 0 ==> forall|j: int|
            0 <= j < s.len() && j != section_index(s, g) ==> #[trigger] s[j].0 != g,
{
    lemma_section_index(s, g);
    let i = section_index(s, g);
    if g == 0 {
        assert(s[0].0 == g);
    }
    if i >= 0 {
        assert forall|j: int| 0 <= j < s.len() && j != i implies #[trigger] s[j].0 != g by {
            if j > i {
                assert(s[i].0 != s[j].0);
            }
        }
    }
}

/// Storing a decimal keeps a lock well formed.
pub proof fn lemma_push_price_wf(s: Seq<LockSection>, g: u16, p: Seq<u8>)
    requires
        lock_wf(s),
        is_decimal_bits(p),
    ensures
        lock_wf(push_price(s, g, p)),
        push_price(s, g, p).len() >= s.len(),
        forall|j: int| 0 <= j < s.len() ==> #[trigger] push_price(s, g, p)[j].0 == s[j].0,
{
    lemma_section_index(s, g);
    lemma_section_index_wf(s, g);
    let t = push_price(s, g, p);
    let i = section_index(s, g);
    if i >= 0 {
        assert forall|a: int, k: int|
            0 <= a < t.len() && 0 <= k < t[a].1.len() implies is_decimal_bits(#[trigger] t[a].1[k]) by {
            if a == i && k == s[i].1.len() {
            } else {
            }
        }
    } else {
        assert(g != 0);
        assert forall|a: int, b: int| 0 <= a < b < t.len() implies #[trigger] t[a].0 != #[trigger] t[b].0 by {
            if b == s.len() {
                assert(s[a].0 != g);
            } else {
                assert(s[a].0 != s[b].0);
            }
        }
        assert forall|a: int, k: int|
            0 <= a < t.len() && 0 <= k < t[a].1.len() implies is_decimal_bits(#[trigger] t[a].1[k]) by {
            if a == s.len() {
            } else {
                assert(t[a] == s[a]);
            }
        }
    }
}

/// Storing decimals keeps a lock well formed.
pub proof fn lemma_push_all_wf(s: Seq<LockSection>, es: Seq<LockEntry>)
    requires
        lock_wf(s),
        entries_are_decimals(es),
    ensures
        lock_wf(push_all(s, es)),
    decreases es.len(),
{
    if es.len() > 0 {
        assert(entries_are_decimals(es.drop_last())) by {
            assert forall|k: int| 0 <= k < es.drop_last().len() implies is_decimal_bits(
                #[trigger] es.drop_last()[k].1,
            ) by {
                assert(es.drop_last()[k] == es[k]);
            }
        }
        lemma_push_all_wf(s, es.drop_last());
        assert(is_decimal_bits(es[es.len() - 1].1));
        lemma_push_price_wf(push_all(s, es.drop_last()), es.last().0, es.last().1);
    }
}

/// Storing `a` and then `b` is storing `a + b`.
pub proof fn lemma_push_all_concat(s: Seq<LockSection>, a: Seq<LockEntry>, b: Seq<LockEntry>)
    ensures
        push_all(s, a + b) == push_all(push_all(s, a), b),
    decreases b.len(),
{
    if b.len() == 0 {
        assert(a + b =~= a);
    } else {
        assert((a + b).drop_last() =~= a + b.drop_last());
        lemma_push_all_concat(s, a, b.drop_last());
    }
}

/// Storing one more record.
pub proof fn lemma_push_all_push(s: Seq<LockSection>, es: Seq<LockEntry>, e: LockEntry)
    ensures
        push_all(s, es.push(e)) == push_price(push_all(s, es), e.0, e.1),
{
    assert(es.push(e).drop_last() =~= es);
}

/// Storing the prices of a group that has no section yet appends its section.
pub proof fn lemma_push_new_group(s: Seq<LockSection>, g: u16, ps: Seq<Seq<u8>>)
    requires
        section_index(s, g) == -1,
        ps.len() > 0,
    ensures
        push_all(s, section_entries((g, ps))) == s.push((g, ps)),
    decreases ps.len(),
{
    let es = section_entries((g, ps));
    assert(es.last() == (g, ps.last()));
    if ps.len() == 1 {
        assert(es.drop_last() =~= Seq::<LockEntry>::empty());
        assert(push_all(s, es.drop_last()) == s);
        assert(seq![ps.last()] =~= ps);
    } else {
        let init = ps.drop_last();
        lemma_push_new_group(s, g, init);
        assert(es.drop_last() =~= section_entries((g, init)));
        let t = s.push((g, init));
        lemma_section_index(s, g);
        assert(section_index(t, g) == s.len()) by {
            assert(t.drop_last() =~= s);
        }
        assert(init.push(ps.last()) =~= ps);
        assert(t.update(s.len() as int, (g, init.push(ps.last()))) =~= s.push((g, ps)));
    }
}

/// Storing default-group prices appends them to section 0.
pub proof fn lemma_push_default(s: Seq<LockSection>, ps: Seq<Seq<u8>>)
    requires
        s.len() >= 1,
        s[0].0 == 0,
    ensures
        push_all(s, section_entries((0u16, ps))) == s.update(0, (0u16, s[0].1 + ps)),
    decreases ps.len(),
{
    let es = section_entries((0u16, ps));
    if ps.len() == 0 {
        assert(s[0].1 + ps =~= s[0].1);
        assert(s.update(0, (0u16, s[0].1 + ps)) =~= s);
    } else {
        let init = ps.drop_last();
        lemma_push_default(s, init);
        assert(es.drop_last() =~= section_entries((0u16, init)));
        let t = s.update(0, (0u16, s[0].1 + init));
        assert(es.last() == (0u16, ps.last()));
        assert(t[0].0 == 0);
        lemma_section_index(t, 0);
        assert(section_index(t, 0) == 0);
        assert((s[0].1 + init).push(ps.last()) =~= s[0].1 + ps);
        assert(t.update(0, (0u16, (s[0].1 + init).push(ps.last()))) =~= s.update(
            0,
            (0u16, s[0].1 + ps),
        ));
    }
}

/// Storing every record of a well-formed lock into an empty lock rebuilds
/// that lock.
pub proof fn lemma_rebuild(s: Seq<LockSection>)
    requires
        lock_wf(s),
    ensures
        push_all(empty_sections(), flatten(s)) == s,
{
    lemma_rebuild_prefix(s, s.len() as int);
    assert(s.take(s.len() as int) =~= s);
}

proof fn lemma_rebuild_prefix(s: Seq<LockSection>, n: int)
    requires
        lock_wf(s),
        1 <= n <= s.len(),
    ensures
        push_all(empty_sections(), flatten(s.take(n))) == s.take(n),
    decreases n,
{
    let t = s.take(n);
    if n == 1 {
        assert(t.drop_last() =~= Seq::<LockSection>::empty());
        assert(t.last() == s[0]);
        assert(flatten(t.drop_last()) =~= Seq::<LockEntry>::empty());
        assert(flatten(t) =~= Seq::<LockEntry>::empty() + section_entries(s[0]));
        assert(Seq::<LockEntry>::empty() + section_entries(s[0]) =~= section_entries(s[0]));
        lemma_push_default(empty_sections(), s[0].1);
        assert(Seq::<Seq<u8>>::empty() + s[0].1 =~= s[0].1);
        assert(empty_sections().update(0, (0u16, Seq::<Seq<u8>>::empty() + s[0].1)) =~= t);
    } else {
        lemma_rebuild_prefix(s, n - 1);
        let prev = s.take(n - 1);
        assert(t.drop_last() =~= prev);
        lemma_push_all_concat(empty_sections(), flatten(prev), section_entries(s[n - 1]));
        lemma_section_index(prev, s[n - 1].0);
        assert forall|j: int| 0 <= j < prev.len() implies #[trigger] prev[j].0 != s[n - 1].0 by {
            assert(s[j].0 != s[n - 1].0);
        }
        assert(section_index(prev, s[n - 1].0) == -1);
        lemma_push_new_group(prev, s[n - 1].0, s[n - 1].1);
        assert(prev.push(s[n - 1]) =~= t);
    }
}

/// The prices of group `g` among records, in order.
pub open spec fn group_prices(es: Seq<LockEntry>, g: u16) -> Seq<Seq<u8>>
    decreases es.len(),
{
    if es.len() == 0 {
        Seq::empty()
    } else {
        let r = group_prices(es.drop_last(), g);
        if es.last().0 == g {
            r.push(es.last().1)
        } else {
            r
        }
    }
}

/// Sections with the same ids find a group at the same index.
pub proof fn lemma_section_index_same_ids(s: Seq<LockSection>, t: Seq<LockSection>, g: u16)
    requires
        s.len() == t.len(),
        forall|j: int| 0 <= j < s.len() ==> #[trigger] s[j].0 == t[j].0,
    ensures
        section_index(s, g) == section_index(t, g),
    decreases s.len(),
{
    if s.len() > 0 {
        assert forall|j: int| 0 <= j < s.len() - 1 implies #[trigger] s.drop_last()[j].0
            == t.drop_last()[j].0 by {
            assert(s.drop_last()[j] == s[j]);
            assert(t.drop_last()[j] == t[j]);
        }
        lemma_section_index_same_ids(s.drop_last(), t.drop_last(), g);
        assert(s.last().0 == t.last().0);
    }
}

/// Law: storing a price under a group appends it to that group's prices and
/// leaves every other group's prices unchanged.
pub proof fn lemma_prices_after_push(s: Seq<LockSection>, g: u16, p: Seq<u8>, h: u16)
    requires
        lock_wf(s),
    ensures
        prices_in(push_price(s, g, p), h) == if h == g {
            prices_in(s, h).push(p)
        } else {
            prices_in(s, h)
        },
{
    lemma_section_index(s, g);
    lemma_section_index(s, h);
    let i = section_index(s, g);
    let t = push_price(s, g, p);
    if i >= 0 {
        assert forall|j: int| 0 <= j < s.len() implies #[trigger] s[j].0 == t[j].0 by {}
        lemma_section_index_same_ids(s, t, h);
        lemma_section_index_wf(s, g);
        if h != g {
            lemma_section_index(t, h);
            if section_index(s, h) >= 0 {
                assert(section_index(s, h) != i);
            }
        }
    } else {
        assert(t.drop_last() =~= s);
        if h == g {
            assert(section_index(t, h) == s.len());
            assert(Seq::<Seq<u8>>::empty().push(p) =~= seq![p]);
        } else {
            assert(section_index(t, h) == section_index(s, h));
        }
    }
}

/// Law: after storing records, each group holds its earlier prices followed
/// by the records' prices of that group, in record order.
pub proof fn lemma_prices_after_push_all(s: Seq<LockSection>, es: Seq<LockEntry>, h: u16)
    requires
        lock_wf(s),
        entries_are_decimals(es),
    ensures
        prices_in(push_all(s, es), h) == prices_in(s, h) + group_prices(es, h),
    decreases es.len(),
{
    if es.len() == 0 {
        assert(prices_in(s, h) + Seq::<Seq<u8>>::empty() =~= prices_in(s, h));
    } else {
        let init = es.drop_last();
        assert(entries_are_decimals(init)) by {
            assert forall|k: int| 0 <= k < init.len() implies is_decimal_bits(#[trigger] init[k].1) by {
                assert(init[k] == es[k]);
            }
        }
        lemma_prices_after_push_all(s, init, h);
        lemma_push_all_wf(s, init);
        lemma_prices_after_push(push_all(s, init), es.last().0, es.last().1, h);
        if es.last().0 == h {
            assert((prices_in(s, h) + group_prices(init, h)).push(es.last().1) =~= prices_in(s, h)
                + group_prices(init, h).push(es.last().1));
        }
    }
}

/// Law: storing a price adds one record.
pub proof fn lemma_total_after_push(s: Seq<LockSection>, g: u16, p: Seq<u8>)
    ensures
        total_prices(push_price(s, g, p)) == total_prices(s) + 1,
{
    lemma_section_index(s, g);
    let i = section_index(s, g);
    if i >= 0 {
        lemma_total_update(s, i, (g, s[i].1.push(p)));
    } else {
        assert(s.push((g, seq![p])).drop_last() =~= s);
    }
}

/// Replacing one section changes the total by the difference in its size.
pub proof fn lemma_total_update(s: Seq<LockSection>, i: int, sec: LockSection)
    requires
        0 <= i < s.len(),
    ensures
        total_prices(s.update(i, sec)) == total_prices(s) - s[i].1.len() + sec.1.len(),
    decreases s.len(),
{
    let t = s.update(i, sec);
    if i == s.len() - 1 {
        assert(t.drop_last() =~= s.drop_last());
    } else {
        lemma_total_update(s.drop_last(), i, sec);
        assert(t.drop_last() =~= s.drop_last().update(i, sec));
    }
}

/// Law: storing records adds one record each.
pub proof fn lemma_total_after_push_all(s: Seq<LockSection>, es: Seq<LockEntry>)
    ensures
        total_prices(push_all(s, es)) == total_prices(s) + es.len(),
    decreases es.len(),
{
    if es.len() > 0 {
        lemma_total_after_push_all(s, es.drop_last());
        lemma_total_after_push(push_all(s, es.drop_last()), es.last().0, es.last().1);
    }
}

/// A lock holds as many prices as it has records.
pub proof fn lemma_total_prices(s: Seq<LockSection>)
    ensures
        flatten(s).len() == total_prices(s),
    decreases s.len(),
{
    if s.len() > 0 {
        lemma_total_prices(s.drop_last());
    }
}

} // verus!
