//! An ordered map from segments of one shape to content, able to answer
//! overlap queries with early termination.
//!
//! Entries are kept in ascending key order, primarily by start position.
//! A scan walks the entries in order, keeps those that overlap the query,
//! and stops as soon as the query ends before the entry at hand: every later
//! entry starts no earlier, so none of them can overlap either.

use vstd::prelude::*;

use crate::compare::quad_ends_before;
use crate::compare::PassageContent;
use crate::compare::SegmentCompare;
use crate::compare::SegmentOverlap;
use crate::segment::ChapterRange;
use crate::segment::ChapterVerse;
use crate::segment::ChapterVerseRange;
use crate::segment::FullChapter;
use crate::segment::FullChapterRange;

verus! {

/// A segment shape that can serve as an ordered map key: it carries a total
/// order, primarily by start position, under which "the query ends before
/// this key" is monotone.
pub trait OverlapKey: SegmentCompare {
    /// a total order on keys of this shape
    spec fn key_le(self, other: Self) -> bool;

    /// The order is total, and antisymmetric up to equality.
    proof fn lemma_key_order(a: Self, b: Self)
        ensures
            a.key_le(b) || b.key_le(a),
            a.key_le(b) && b.key_le(a) ==> a == b,
    ;

    /// The order is transitive.
    proof fn lemma_key_trans(a: Self, b: Self, c: Self)
        requires
            a.key_le(b),
            b.key_le(c),
        ensures
            a.key_le(c),
    ;

    /// A span that ends before one key starts also ends before every later
    /// key: the order is primarily by start position.
    proof fn lemma_key_monotone(ec: u8, ev: Option<u8>, a: Self, b: Self)
        requires
            a.key_le(b),
            quad_ends_before(ec, ev, a.spec_starting_chapter(), a.spec_starting_verse()),
        ensures
            quad_ends_before(ec, ev, b.spec_starting_chapter(), b.spec_starting_verse()),
    ;

    /// Decide the order.
    fn key_le_exec(&self, other: &Self) -> (r: bool)
        ensures
            r == self.key_le(*other),
    ;
}

impl OverlapKey for ChapterVerse {
    open spec fn key_le(self, other: Self) -> bool {
        self.chapter < other.chapter || (self.chapter == other.chapter && self.verse
            <= other.verse)
    }

    proof fn lemma_key_order(a: Self, b: Self) {
    }

    proof fn lemma_key_trans(a: Self, b: Self, c: Self) {
    }

    proof fn lemma_key_monotone(ec: u8, ev: Option<u8>, a: Self, b: Self) {
    }

    fn key_le_exec(&self, other: &Self) -> bool {
        self.chapter < other.chapter || (self.chapter == other.chapter && self.verse
            <= other.verse)
    }
}

impl OverlapKey for ChapterVerseRange {
    open spec fn key_le(self, other: Self) -> bool {
        self.chapter < other.chapter || (self.chapter == other.chapter && (self.verses.start
            < other.verses.start || (self.verses.start == other.verses.start && self.verses.end
            <= other.verses.end)))
    }

    proof fn lemma_key_order(a: Self, b: Self) {
    }

    proof fn lemma_key_trans(a: Self, b: Self, c: Self) {
    }

    proof fn lemma_key_monotone(ec: u8, ev: Option<u8>, a: Self, b: Self) {
    }

    fn key_le_exec(&self, other: &Self) -> bool {
        self.chapter < other.chapter || (self.chapter == other.chapter && (self.verses.start
            < other.verses.start || (self.verses.start == other.verses.start && self.verses.end
            <= other.verses.end)))
    }
}

impl OverlapKey for ChapterRange {
    open spec fn key_le(self, other: Self) -> bool {
        self.start.chapter < other.start.chapter || (self.start.chapter == other.start.chapter && (
        self.start.verse < other.start.verse || (self.start.verse == other.start.verse && (
        self.end.chapter < other.end.chapter || (self.end.chapter == other.end.chapter
            && self.end.verse <= other.end.verse)))))
    }

    proof fn lemma_key_order(a: Self, b: Self) {
    }

    proof fn lemma_key_trans(a: Self, b: Self, c: Self) {
    }

    proof fn lemma_key_monotone(ec: u8, ev: Option<u8>, a: Self, b: Self) {
    }

    fn key_le_exec(&self, other: &Self) -> bool {
        self.start.chapter < other.start.chapter || (self.start.chapter == other.start.chapter && (
        self.start.verse < other.start.verse || (self.start.verse == other.start.verse && (
        self.end.chapter < other.end.chapter || (self.end.chapter == other.end.chapter
            && self.end.verse <= other.end.verse)))))
    }
}

impl OverlapKey for FullChapter {
    open spec fn key_le(self, other: Self) -> bool {
        self.chapter <= other.chapter
    }

    proof fn lemma_key_order(a: Self, b: Self) {
    }

    proof fn lemma_key_trans(a: Self, b: Self, c: Self) {
    }

    proof fn lemma_key_monotone(ec: u8, ev: Option<u8>, a: Self, b: Self) {
    }

    fn key_le_exec(&self, other: &Self) -> bool {
        self.chapter <= other.chapter
    }
}

impl OverlapKey for FullChapterRange {
    open spec fn key_le(self, other: Self) -> bool {
        self.start.chapter < other.start.chapter || (self.start.chapter == other.start.chapter
            && self.end.chapter <= other.end.chapter)
    }

    proof fn lemma_key_order(a: Self, b: Self) {
    }

    proof fn lemma_key_trans(a: Self, b: Self, c: Self) {
    }

    proof fn lemma_key_monotone(ec: u8, ev: Option<u8>, a: Self, b: Self) {
    }

    fn key_le_exec(&self, other: &Self) -> bool {
        self.start.chapter < other.start.chapter || (self.start.chapter == other.start.chapter
            && self.end.chapter <= other.end.chapter)
    }
}

/// The entries whose segment overlaps the span `(sc, sv)..(ec, ev)`, in
/// order: those of which neither "the entry ends before the span starts" nor
/// "the span ends before the entry starts" holds.
pub open spec fn spec_overlapping<S: SegmentCompare, C>(
    s: Seq<(S, C)>,
    sc: u8,
    sv: u8,
    ec: u8,
    ev: Option<u8>,
) -> Seq<(S, C)>
    decreases s.len(),
{
    if s.len() == 0 {
        Seq::empty()
    } else {
        let rest = spec_overlapping(s.drop_first(), sc, sv, ec, ev);
        let k = s[0].0;
        if !quad_ends_before(k.spec_ending_chapter(), k.spec_ending_verse(), sc, sv)
            && !quad_ends_before(ec, ev, k.spec_starting_chapter(), k.spec_starting_verse()) {
            seq![s[0]] + rest
        } else {
            rest
        }
    }
}

/// Overlap scanning distributes over splitting the entries.
proof fn lemma_overlapping_append<S: SegmentCompare, C>(
    s1: Seq<(S, C)>,
    s2: Seq<(S, C)>,
    sc: u8,
    sv: u8,
    ec: u8,
    ev: Option<u8>,
)
    ensures
        spec_overlapping(s1 + s2, sc, sv, ec, ev) == spec_overlapping(s1, sc, sv, ec, ev)
            + spec_overlapping(s2, sc, sv, ec, ev),
    decreases s1.len(),
{
    if s1.len() == 0 {
        assert(s1 + s2 =~= s2);
        assert(spec_overlapping(s1, sc, sv, ec, ev) + spec_overlapping(s2, sc, sv, ec, ev)
            =~= spec_overlapping(s2, sc, sv, ec, ev));
    } else {
        assert((s1 + s2).drop_first() =~= s1.drop_first() + s2);
        lemma_overlapping_append(s1.drop_first(), s2, sc, sv, ec, ev);
        let rest = spec_overlapping(s1.drop_first() + s2, sc, sv, ec, ev);
        let k = s1[0].0;
        if !quad_ends_before(k.spec_ending_chapter(), k.spec_ending_verse(), sc, sv)
            && !quad_ends_before(ec, ev, k.spec_starting_chapter(), k.spec_starting_verse()) {
            assert(seq![s1[0]] + (spec_overlapping(s1.drop_first(), sc, sv, ec, ev)
                + spec_overlapping(s2, sc, sv, ec, ev)) =~= (seq![s1[0]] + spec_overlapping(
                s1.drop_first(),
                sc,
                sv,
                ec,
                ev,
            )) + spec_overlapping(s2, sc, sv, ec, ev));
        }
    }
}

/// A run of entries of which the span ends before every one holds nothing
/// overlapping.
proof fn lemma_overlapping_none<S: SegmentCompare, C>(
    s: Seq<(S, C)>,
    sc: u8,
    sv: u8,
    ec: u8,
    ev: Option<u8>,
)
    requires
        forall|i: int|
            0 <= i < s.len() ==> quad_ends_before(
                ec,
                ev,
                (#[trigger] s[i]).0.spec_starting_chapter(),
                s[i].0.spec_starting_verse(),
            ),
    ensures
        spec_overlapping(s, sc, sv, ec, ev) == Seq::<(S, C)>::empty(),
    decreases s.len(),
{
    if s.len() > 0 {
        assert(forall|i: int|
            0 <= i < s.drop_first().len() ==> (#[trigger] s.drop_first()[i]) == s[i + 1]);
        lemma_overlapping_none(s.drop_first(), sc, sv, ec, ev);
    }
}

/// The ordered map itself: entries in strictly ascending key order.
pub struct OverlapMap<S, C> {
    entries: Vec<(S, C)>,
}

impl<S: OverlapKey, C> OverlapMap<S, C> {
    /// the entries, in ascending key order
    pub closed spec fn spec_entries(self) -> Seq<(S, C)> {
        self.entries@
    }

    /// keys strictly ascending: every earlier entry's key is below - and not
    /// equal to - every later one's
    pub open spec fn wf(self) -> bool {
        forall|i: int, j: int|
            0 <= i < j < self.spec_entries().len() ==> ((#[trigger] self.spec_entries()[i]).0.key_le(
                (#[trigger] self.spec_entries()[j]).0,
            ) && self.spec_entries()[i].0 != self.spec_entries()[j].0)
    }

    /// whether some entry holds exactly this key
    pub open spec fn spec_contains_key(self, k: S) -> bool {
        exists|i: int| 0 <= i < self.spec_entries().len() && (#[trigger] self.spec_entries()[i]).0 == k
    }

    /// An empty map.
    pub fn new() -> (r: Self)
        ensures
            r.wf(),
            r.spec_entries().len() == 0,
    {
        OverlapMap { entries: Vec::new() }
    }
}

/// The first position at or after `i` whose key is at or above `k`; the
/// entry count when there is none.
pub open spec fn spec_lower_bound<S: OverlapKey, C>(s: Seq<(S, C)>, k: S, i: int) -> int
    decreases s.len() - i,
{
    if 0 <= i < s.len() && !k.key_le(s[i].0) {
        spec_lower_bound(s, k, i + 1)
    } else {
        i
    }
}

/// How one `modify` call changes the entries: with `pos` the key's ordered
/// position, either the key was already there - its content was `seen` and
/// is replaced by `fin` - or a fresh entry `(key, fin)` is inserted at `pos`.
pub open spec fn spec_modify_post<S: OverlapKey, C>(
    s_old: Seq<(S, C)>,
    s_new: Seq<(S, C)>,
    key: S,
    seen: C,
    fin: C,
) -> bool {
    let pos = spec_lower_bound(s_old, key, 0);
    if pos < s_old.len() && s_old[pos].0 == key {
        seen == s_old[pos].1 && s_new =~= s_old.update(pos, (key, fin))
    } else {
        s_new =~= s_old.insert(pos, (key, fin))
    }
}

impl<S: OverlapKey, C: Default> OverlapMap<S, C> {
    /// The slot for `key`, inserting a default-valued entry at its ordered
    /// position when the key is new. Structurally different spellings of the
    /// same key reach the same slot.
    pub fn modify(&mut self, key: S) -> (c: &mut C)
        requires
            old(self).wf(),
        ensures
            final(self).wf(),
            spec_modify_post(old(self).spec_entries(), final(self).spec_entries(), key, *c, *final(c)),
            !old(self).spec_contains_key(key) ==> call_ensures(C::default, (), *c),
            ({
                let s = old(self).spec_entries();
                let pos = spec_lower_bound(s, key, 0);
                if pos < s.len() && s[pos].0 == key {
                    *c == s[pos].1 && final(self).spec_entries() == s.update(
                        pos,
                        (key, *final(c)),
                    )
                } else {
                    call_ensures(C::default, (), *c) && final(self).spec_entries() == s.insert(
                        pos,
                        (key, *final(c)),
                    )
                }
            }),
    {
        let ghost s = self.entries@;
        let n = self.entries.len();
        let mut i: usize = 0;
        while i < n && !key.key_le_exec(&self.entries[i].0)
            invariant
                0 <= i <= n,
                n == self.entries@.len(),
                self.entries@ == s,
                spec_lower_bound(s, key, 0) == spec_lower_bound(s, key, i as int),
                forall|j: int| 0 <= j < i ==> !key.key_le((#[trigger] s[j]).0),
            decreases n - i,
        {
            i = i + 1;
        }
        proof {
            assert(spec_lower_bound(s, key, 0) == i as int);
            // entries before the slot are strictly below the key
            assert forall|j: int| 0 <= j < i implies (#[trigger] s[j]).0.key_le(key) && s[j].0
                != key by {
                S::lemma_key_order(key, s[j].0);
            }
        }
        if i < n {
            let found = self.entries[i].0.key_le_exec(&key);
            proof {
                S::lemma_key_order(key, s[i as int].0);
            }
            if found {
                return &mut self.entries[i].1;
            }
        }
        // the key is new: every entry at or after the slot is strictly above
        proof {
            assert forall|j: int| i <= j < n implies key.key_le((#[trigger] s[j]).0) && s[j].0
                != key by {
                if j > i {
                    S::lemma_key_trans(key, s[i as int].0, s[j].0);
                    if s[j].0 == key {
                        S::lemma_key_order(key, s[i as int].0);
                    }
                }
            }
        }
        self.entries.insert(i, (key, C::default()));
        &mut self.entries[i].1
    }
}

impl<S: OverlapKey, C> OverlapMap<S, C> {
    /// Every stored entry whose segment overlaps the query, paired with its
    /// content, in ascending key order. The scan stops early: once the query
    /// ends before an entry, no later entry can overlap it.
    pub fn scan<'a, Q: SegmentCompare>(&'a self, q: &Q) -> (r: Vec<PassageContent<'a, S, C>>)
        requires
            self.wf(),
        ensures
            ({
                let olap = spec_overlapping(
                    self.spec_entries(),
                    q.spec_starting_chapter(),
                    q.spec_starting_verse(),
                    q.spec_ending_chapter(),
                    q.spec_ending_verse(),
                );
                r@.len() == olap.len() && forall|i: int|
                    0 <= i < olap.len() ==> (#[trigger] r@[i]).segment == olap[i].0
                        && r@[i].content == olap[i].1
            }),
    {
        let ghost s = self.entries@;
        let ghost q_sc = q.spec_starting_chapter();
        let ghost q_sv = q.spec_starting_verse();
        let ghost q_ec = q.spec_ending_chapter();
        let ghost q_ev = q.spec_ending_verse();
        let n = self.entries.len();
        proof {
            assert(s == self.spec_entries());
            assert(forall|x: int, y: int|
                0 <= x < y < s.len() ==> (#[trigger] s[x]).0.key_le((#[trigger] s[y]).0));
            assert(s.subrange(0, n as int) =~= s);
        }
        let mut r: Vec<PassageContent<'a, S, C>> = Vec::new();
        let mut i: usize = 0;
        while i < n
            invariant
                0 <= i <= n,
                n == s.len(),
                s == self.entries@,
                s.subrange(0, n as int) == s,
                q_sc == q.spec_starting_chapter(),
                q_sv == q.spec_starting_verse(),
                q_ec == q.spec_ending_chapter(),
                q_ev == q.spec_ending_verse(),
                forall|x: int, y: int|
                    0 <= x < y < s.len() ==> (#[trigger] s[x]).0.key_le((#[trigger] s[y]).0),
                ({
                    let olap = spec_overlapping(s.subrange(0, i as int), q_sc, q_sv, q_ec, q_ev);
                    r@.len() == olap.len() && forall|j: int|
                        0 <= j < olap.len() ==> (#[trigger] r@[j]).segment == olap[j].0
                            && r@[j].content == olap[j].1
                }),
            ensures
                ({
                    let olap = spec_overlapping(s, q_sc, q_sv, q_ec, q_ev);
                    r@.len() == olap.len() && forall|j: int|
                        0 <= j < olap.len() ==> (#[trigger] r@[j]).segment == olap[j].0
                            && r@[j].content == olap[j].1
                }),
            decreases n - i,
        {
            let entry_seg = self.entries[i].0;
            if q.ends_before(&entry_seg) {
                // every later entry starts no earlier than this one
                proof {
                    let suffix = s.subrange(i as int, n as int);
                    assert forall|j: int|
                        0 <= j < suffix.len() implies quad_ends_before(
                        q_ec,
                        q_ev,
                        (#[trigger] suffix[j]).0.spec_starting_chapter(),
                        suffix[j].0.spec_starting_verse(),
                    ) by {
                        assert(suffix[j] == s[i + j]);
                        if j > 0 {
                            S::lemma_key_monotone(q_ec, q_ev, s[i as int].0, s[i + j].0);
                        }
                    }
                    lemma_overlapping_none(suffix, q_sc, q_sv, q_ec, q_ev);
                    assert(s =~= s.subrange(0, i as int) + suffix);
                    lemma_overlapping_append(
                        s.subrange(0, i as int),
                        suffix,
                        q_sc,
                        q_sv,
                        q_ec,
                        q_ev,
                    );
                    assert(spec_overlapping(s, q_sc, q_sv, q_ec, q_ev) =~= spec_overlapping(
                        s.subrange(0, i as int),
                        q_sc,
                        q_sv,
                        q_ec,
                        q_ev,
                    ));
                }
                break ;
            }
            let overlaps = entry_seg.overlaps_with(q);
            proof {
                let e = s[i as int];
                let single = seq![e];
                assert(s.subrange(0, i as int + 1) =~= s.subrange(0, i as int) + single);
                lemma_overlapping_append(s.subrange(0, i as int), single, q_sc, q_sv, q_ec, q_ev);
                assert(single.drop_first() =~= Seq::<(S, C)>::empty());
                assert(spec_overlapping(single.drop_first(), q_sc, q_sv, q_ec, q_ev) =~= Seq::<
                    (S, C),
                >::empty());
                assert(single[0] == e);
                if overlaps {
                    assert(spec_overlapping(single, q_sc, q_sv, q_ec, q_ev) =~= single);
                } else {
                    assert(spec_overlapping(single, q_sc, q_sv, q_ec, q_ev) =~= Seq::<
                        (S, C),
                    >::empty());
                }
            }
            if overlaps {
                r.push(PassageContent { segment: entry_seg, content: &self.entries[i].1 });
            }
            i = i + 1;
        }
        r
    }
}

} // verus!
