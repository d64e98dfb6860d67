//! The range-indexed content store.
//!
//! A caller attaches a container of arbitrary content to any segment, and
//! later retrieves, for an arbitrary query segment, every stored segment
//! that overlaps it - whatever the shapes involved. Internally one ordered
//! map is kept per canonical segment shape; every mutation path
//! canonicalizes its key first, so structurally different spellings of the
//! same span share one slot.

use vstd::prelude::*;

use crate::compare::canonical_segment;
use crate::compare::PassageContent;
use crate::compare::SegmentCompare;
use crate::compare::SegmentOverlap;
use crate::overlap_map::spec_modify_post;
use crate::overlap_map::spec_overlapping;
use crate::overlap_map::OverlapMap;
use crate::segment::ChapterRange;
use crate::segment::ChapterVerse;
use crate::segment::ChapterVerseRange;
use crate::segment::FullChapter;
use crate::segment::FullChapterRange;
use crate::segment::PassageSegment;

verus! {

/// Content found by one overlap query, grouped by the shape of the stored
/// segment it was attached to.
pub struct GroupedContent<'a, Container> {
    pub chapter_verse: Vec<PassageContent<'a, ChapterVerse, Container>>,
    pub chapter_verse_range: Vec<PassageContent<'a, ChapterVerseRange, Container>>,
    pub chapter_range: Vec<PassageContent<'a, ChapterRange, Container>>,
    pub full_chapter: Vec<PassageContent<'a, FullChapter, Container>>,
    pub full_chapter_range: Vec<PassageContent<'a, FullChapterRange, Container>>,
}

/// The store: one ordered map per canonical segment shape.
pub struct PassageOrganizer<Container> {
    chapter_verse: OverlapMap<ChapterVerse, Container>,
    chapter_verse_range: OverlapMap<ChapterVerseRange, Container>,
    chapter_range: OverlapMap<ChapterRange, Container>,
    full_chapter: OverlapMap<FullChapter, Container>,
    full_chapter_range: OverlapMap<FullChapterRange, Container>,
}

impl<Container> PassageOrganizer<Container> {
    /// the stored point entries, in ascending key order
    pub closed spec fn spec_chapter_verse(self) -> Seq<(ChapterVerse, Container)> {
        self.chapter_verse.spec_entries()
    }

    /// the stored verse-range entries, in ascending key order
    pub closed spec fn spec_chapter_verse_range(self) -> Seq<(ChapterVerseRange, Container)> {
        self.chapter_verse_range.spec_entries()
    }

    /// the stored cross-chapter-range entries, in ascending key order
    pub closed spec fn spec_chapter_range(self) -> Seq<(ChapterRange, Container)> {
        self.chapter_range.spec_entries()
    }

    /// the stored whole-chapter entries, in ascending key order
    pub closed spec fn spec_full_chapter(self) -> Seq<(FullChapter, Container)> {
        self.full_chapter.spec_entries()
    }

    /// the stored whole-chapter-range entries, in ascending key order
    pub closed spec fn spec_full_chapter_range(self) -> Seq<(FullChapterRange, Container)> {
        self.full_chapter_range.spec_entries()
    }

    /// every per-shape map is in ascending key order
    pub closed spec fn wf(self) -> bool {
        self.chapter_verse.wf() && self.chapter_verse_range.wf() && self.chapter_range.wf()
            && self.full_chapter.wf() && self.full_chapter_range.wf()
    }

    /// An empty store.
    pub fn new() -> (r: Self)
        ensures
            r.wf(),
            r.spec_chapter_verse().len() == 0,
            r.spec_chapter_verse_range().len() == 0,
            r.spec_chapter_range().len() == 0,
            r.spec_full_chapter().len() == 0,
            r.spec_full_chapter_range().len() == 0,
    {
        PassageOrganizer {
            chapter_verse: OverlapMap::new(),
            chapter_verse_range: OverlapMap::new(),
            chapter_range: OverlapMap::new(),
            full_chapter: OverlapMap::new(),
            full_chapter_range: OverlapMap::new(),
        }
    }
}

/// How one `modify` call changes a store's five per-shape entry lists, given
/// the four observable quantities of the segment that was handed in: its
/// canonical shape's map gains or updates the key's slot, and the other four
/// maps stay untouched.
pub open spec fn spec_store_modify_post<Container>(
    old_cv: Seq<(ChapterVerse, Container)>,
    new_cv: Seq<(ChapterVerse, Container)>,
    old_cvr: Seq<(ChapterVerseRange, Container)>,
    new_cvr: Seq<(ChapterVerseRange, Container)>,
    old_cr: Seq<(ChapterRange, Container)>,
    new_cr: Seq<(ChapterRange, Container)>,
    old_fc: Seq<(FullChapter, Container)>,
    new_fc: Seq<(FullChapter, Container)>,
    old_fcr: Seq<(FullChapterRange, Container)>,
    new_fcr: Seq<(FullChapterRange, Container)>,
    sc: u8,
    sv: u8,
    ec: u8,
    ev: Option<u8>,
    seen: Container,
    fin: Container,
) -> bool {
    match canonical_segment(sc, sv, ec, ev) {
        PassageSegment::ChapterVerse(k) => spec_modify_post(old_cv, new_cv, k, seen, fin)
            && new_cvr =~= old_cvr && new_cr =~= old_cr && new_fc =~= old_fc && new_fcr =~= old_fcr,
        PassageSegment::ChapterVerseRange(k) => spec_modify_post(old_cvr, new_cvr, k, seen, fin)
            && new_cv =~= old_cv && new_cr =~= old_cr && new_fc =~= old_fc && new_fcr =~= old_fcr,
        PassageSegment::ChapterRange(k) => spec_modify_post(old_cr, new_cr, k, seen, fin) && new_cv
            =~= old_cv && new_cvr =~= old_cvr && new_fc =~= old_fc && new_fcr =~= old_fcr,
        PassageSegment::FullChapter(k) => spec_modify_post(old_fc, new_fc, k, seen, fin) && new_cv
            =~= old_cv && new_cvr =~= old_cvr && new_cr =~= old_cr && new_fcr =~= old_fcr,
        PassageSegment::FullChapterRange(k) => spec_modify_post(old_fcr, new_fcr, k, seen, fin)
            && new_cv =~= old_cv && new_cvr =~= old_cvr && new_cr =~= old_cr && new_fc =~= old_fc,
    }
}

impl<Container: Default> PassageOrganizer<Container> {
    /// The slot the segment's canonical form owns, inserting a default
    /// container along the way when the slot is new. Structurally different
    /// but canonicalization-equal keys reach the same slot; the four maps of
    /// the other shapes are untouched.
    pub fn modify<S: SegmentCompare>(&mut self, seg: S) -> (c: &mut Container)
        requires
            old(self).wf(),
        ensures
            final(self).wf(),
            spec_store_modify_post(
                old(self).spec_chapter_verse(),
                final(self).spec_chapter_verse(),
                old(self).spec_chapter_verse_range(),
                final(self).spec_chapter_verse_range(),
                old(self).spec_chapter_range(),
                final(self).spec_chapter_range(),
                old(self).spec_full_chapter(),
                final(self).spec_full_chapter(),
                old(self).spec_full_chapter_range(),
                final(self).spec_full_chapter_range(),
                seg.spec_starting_chapter(),
                seg.spec_starting_verse(),
                seg.spec_ending_chapter(),
                seg.spec_ending_verse(),
                *c,
                *final(c),
            ),
    {
        match seg.actual() {
            PassageSegment::ChapterVerse(k) => self.chapter_verse.modify(k),
            PassageSegment::ChapterVerseRange(k) => self.chapter_verse_range.modify(k),
            PassageSegment::ChapterRange(k) => self.chapter_range.modify(k),
            PassageSegment::FullChapter(k) => self.full_chapter.modify(k),
            PassageSegment::FullChapterRange(k) => self.full_chapter_range.modify(k),
        }
    }
}

impl<Container> PassageOrganizer<Container> {
    /// Every stored point whose position overlaps the query, with its
    /// content, in ascending key order.
    pub fn iter_chapter_verse_content<'a, Q: SegmentCompare>(&'a self, key: &Q) -> (r: Vec<
        PassageContent<'a, ChapterVerse, Container>,
    >)
        requires
            self.wf(),
        ensures
            ({
                let olap = spec_overlapping(
                    self.spec_chapter_verse(),
                    key.spec_starting_chapter(),
                    key.spec_starting_verse(),
                    key.spec_ending_chapter(),
                    key.spec_ending_verse(),
                );
                r@.len() == olap.len() && forall|i: int|
                    0 <= i < olap.len() ==> (#[trigger] r@[i]).segment == olap[i].0
                        && r@[i].content == olap[i].1
            }),
    {
        self.chapter_verse.scan(key)
    }

    /// See `iter_chapter_verse_content`.
    pub fn get_chapter_verse_content<'a, Q: SegmentCompare>(&'a self, key: &Q) -> (r: Vec<
        PassageContent<'a, ChapterVerse, Container>,
    >)
        requires
            self.wf(),
        ensures
            ({
                let olap = spec_overlapping(
                    self.spec_chapter_verse(),
                    key.spec_starting_chapter(),
                    key.spec_starting_verse(),
                    key.spec_ending_chapter(),
                    key.spec_ending_verse(),
                );
                r@.len() == olap.len() && forall|i: int|
                    0 <= i < olap.len() ==> (#[trigger] r@[i]).segment == olap[i].0
                        && r@[i].content == olap[i].1
            }),
    {
        self.iter_chapter_verse_content(key)
    }

    /// Every stored verse range that overlaps the query, with its content,
    /// in ascending key order.
    pub fn iter_chapter_verse_range_content<'a, Q: SegmentCompare>(&'a self, key: &Q) -> (r: Vec<
        PassageContent<'a, ChapterVerseRange, Container>,
    >)
        requires
            self.wf(),
        ensures
            ({
                let olap = spec_overlapping(
                    self.spec_chapter_verse_range(),
                    key.spec_starting_chapter(),
                    key.spec_starting_verse(),
                    key.spec_ending_chapter(),
                    key.spec_ending_verse(),
                );
                r@.len() == olap.len() && forall|i: int|
                    0 <= i < olap.len() ==> (#[trigger] r@[i]).segment == olap[i].0
                        && r@[i].content == olap[i].1
            }),
    {
        self.chapter_verse_range.scan(key)
    }

    /// See `iter_chapter_verse_range_content`.
    pub fn get_chapter_verse_range_content<'a, Q: SegmentCompare>(&'a self, key: &Q) -> (r: Vec<
        PassageContent<'a, ChapterVerseRange, Container>,
    >)
        requires
            self.wf(),
        ensures
            ({
                let olap = spec_overlapping(
                    self.spec_chapter_verse_range(),
                    key.spec_starting_chapter(),
                    key.spec_starting_verse(),
                    key.spec_ending_chapter(),
                    key.spec_ending_verse(),
                );
                r@.len() == olap.len() && forall|i: int|
                    0 <= i < olap.len() ==> (#[trigger] r@[i]).segment == olap[i].0
                        && r@[i].content == olap[i].1
            }),
    {
        self.iter_chapter_verse_range_content(key)
    }

    /// Every stored cross-chapter range that overlaps the query, with its
    /// content, in ascending key order.
    pub fn iter_chapter_range_content<'a, Q: SegmentCompare>(&'a self, key: &Q) -> (r: Vec<
        PassageContent<'a, ChapterRange, Container>,
    >)
        requires
            self.wf(),
        ensures
            ({
                let olap = spec_overlapping(
                    self.spec_chapter_range(),
                    key.spec_starting_chapter(),
                    key.spec_starting_verse(),
                    key.spec_ending_chapter(),
                    key.spec_ending_verse(),
                );
                r@.len() == olap.len() && forall|i: int|
                    0 <= i < olap.len() ==> (#[trigger] r@[i]).segment == olap[i].0
                        && r@[i].content == olap[i].1
            }),
    {
        self.chapter_range.scan(key)
    }

    /// See `iter_chapter_range_content`.
    pub fn get_chapter_range_content<'a, Q: SegmentCompare>(&'a self, key: &Q) -> (r: Vec<
        PassageContent<'a, ChapterRange, Container>,
    >)
        requires
            self.wf(),
        ensures
            ({
                let olap = spec_overlapping(
                    self.spec_chapter_range(),
                    key.spec_starting_chapter(),
                    key.spec_starting_verse(),
                    key.spec_ending_chapter(),
                    key.spec_ending_verse(),
                );
                r@.len() == olap.len() && forall|i: int|
                    0 <= i < olap.len() ==> (#[trigger] r@[i]).segment == olap[i].0
                        && r@[i].content == olap[i].1
            }),
    {
        self.iter_chapter_range_content(key)
    }

    /// Every stored whole chapter that overlaps the query, with its content,
    /// in ascending key order.
    pub fn iter_full_chapter_content<'a, Q: SegmentCompare>(&'a self, key: &Q) -> (r: Vec<
        PassageContent<'a, FullChapter, Container>,
    >)
        requires
            self.wf(),
        ensures
            ({
                let olap = spec_overlapping(
                    self.spec_full_chapter(),
                    key.spec_starting_chapter(),
                    key.spec_starting_verse(),
                    key.spec_ending_chapter(),
                    key.spec_ending_verse(),
                );
                r@.len() == olap.len() && forall|i: int|
                    0 <= i < olap.len() ==> (#[trigger] r@[i]).segment == olap[i].0
                        && r@[i].content == olap[i].1
            }),
    {
        self.full_chapter.scan(key)
    }

    /// See `iter_full_chapter_content`.
    pub fn get_full_chapter_content<'a, Q: SegmentCompare>(&'a self, key: &Q) -> (r: Vec<
        PassageContent<'a, FullChapter, Container>,
    >)
        requires
            self.wf(),
        ensures
            ({
                let olap = spec_overlapping(
                    self.spec_full_chapter(),
                    key.spec_starting_chapter(),
                    key.spec_starting_verse(),
                    key.spec_ending_chapter(),
                    key.spec_ending_verse(),
                );
                r@.len() == olap.len() && forall|i: int|
                    0 <= i < olap.len() ==> (#[trigger] r@[i]).segment == olap[i].0
                        && r@[i].content == olap[i].1
            }),
    {
        self.iter_full_chapter_content(key)
    }

    /// Every stored whole-chapter range that overlaps the query, with its
    /// content, in ascending key order.
    pub fn iter_full_chapter_range_content<'a, Q: SegmentCompare>(&'a self, key: &Q) -> (r: Vec<
        PassageContent<'a, FullChapterRange, Container>,
    >)
        requires
            self.wf(),
        ensures
            ({
                let olap = spec_overlapping(
                    self.spec_full_chapter_range(),
                    key.spec_starting_chapter(),
                    key.spec_starting_verse(),
                    key.spec_ending_chapter(),
                    key.spec_ending_verse(),
                );
                r@.len() == olap.len() && forall|i: int|
                    0 <= i < olap.len() ==> (#[trigger] r@[i]).segment == olap[i].0
                        && r@[i].content == olap[i].1
            }),
    {
        self.full_chapter_range.scan(key)
    }

    /// See `iter_full_chapter_range_content`.
    pub fn get_full_chapter_range_content<'a, Q: SegmentCompare>(&'a self, key: &Q) -> (r: Vec<
        PassageContent<'a, FullChapterRange, Container>,
    >)
        requires
            self.wf(),
        ensures
            ({
                let olap = spec_overlapping(
                    self.spec_full_chapter_range(),
                    key.spec_starting_chapter(),
                    key.spec_starting_verse(),
                    key.spec_ending_chapter(),
                    key.spec_ending_verse(),
                );
                r@.len() == olap.len() && forall|i: int|
                    0 <= i < olap.len() ==> (#[trigger] r@[i]).segment == olap[i].0
                        && r@[i].content == olap[i].1
            }),
    {
        self.iter_full_chapter_range_content(key)
    }

    /// The overlap query's answers from all five per-shape maps, grouped by
    /// the stored shape.
    pub fn get_all_content_grouped<'a, Q: SegmentCompare>(&'a self, key: &Q) -> (r: GroupedContent<
        'a,
        Container,
    >)
        requires
            self.wf(),
        ensures
            ({
                let olap = spec_overlapping(
                    self.spec_chapter_verse(),
                    key.spec_starting_chapter(),
                    key.spec_starting_verse(),
                    key.spec_ending_chapter(),
                    key.spec_ending_verse(),
                );
                r.chapter_verse@.len() == olap.len() && forall|i: int|
                    0 <= i < olap.len() ==> (#[trigger] r.chapter_verse@[i]).segment == olap[i].0
                        && r.chapter_verse@[i].content == olap[i].1
            }),
            ({
                let olap = spec_overlapping(
                    self.spec_chapter_verse_range(),
                    key.spec_starting_chapter(),
                    key.spec_starting_verse(),
                    key.spec_ending_chapter(),
                    key.spec_ending_verse(),
                );
                r.chapter_verse_range@.len() == olap.len() && forall|i: int|
                    0 <= i < olap.len() ==> (#[trigger] r.chapter_verse_range@[i]).segment
                        == olap[i].0 && r.chapter_verse_range@[i].content == olap[i].1
            }),
            ({
                let olap = spec_overlapping(
                    self.spec_chapter_range(),
                    key.spec_starting_chapter(),
                    key.spec_starting_verse(),
                    key.spec_ending_chapter(),
                    key.spec_ending_verse(),
                );
                r.chapter_range@.len() == olap.len() && forall|i: int|
                    0 <= i < olap.len() ==> (#[trigger] r.chapter_range@[i]).segment == olap[i].0
                        && r.chapter_range@[i].content == olap[i].1
            }),
            ({
                let olap = spec_overlapping(
                    self.spec_full_chapter(),
                    key.spec_starting_chapter(),
                    key.spec_starting_verse(),
                    key.spec_ending_chapter(),
                    key.spec_ending_verse(),
                );
                r.full_chapter@.len() == olap.len() && forall|i: int|
                    0 <= i < olap.len() ==> (#[trigger] r.full_chapter@[i]).segment == olap[i].0
                        && r.full_chapter@[i].content == olap[i].1
            }),
            ({
                let olap = spec_overlapping(
                    self.spec_full_chapter_range(),
                    key.spec_starting_chapter(),
                    key.spec_starting_verse(),
                    key.spec_ending_chapter(),
                    key.spec_ending_verse(),
                );
                r.full_chapter_range@.len() == olap.len() && forall|i: int|
                    0 <= i < olap.len() ==> (#[trigger] r.full_chapter_range@[i]).segment
                        == olap[i].0 && r.full_chapter_range@[i].content == olap[i].1
            }),
    {
        GroupedContent {
            chapter_verse: self.get_chapter_verse_content(key),
            chapter_verse_range: self.get_chapter_verse_range_content(key),
            chapter_range: self.get_chapter_range_content(key),
            full_chapter: self.get_full_chapter_content(key),
            full_chapter_range: self.get_full_chapter_range_content(key),
        }
    }
}

/// Append every found pairing to `acc`, erasing the segments' shape.
fn push_generalized<'a, S: SegmentCompare, C>(
    acc: &mut Vec<PassageContent<'a, PassageSegment, C>>,
    items: Vec<PassageContent<'a, S, C>>,
)
    ensures
        final(acc)@.len() == old(acc)@.len() + items@.len(),
        forall|i: int| 0 <= i < old(acc)@.len() ==> #[trigger] final(acc)@[i] == old(acc)@[i],
        forall|i: int|
            old(acc)@.len() <= i < final(acc)@.len() ==> (#[trigger] final(acc)@[i]).segment
                == items@[i - old(acc)@.len()].segment.spec_generalize() && final(acc)@[i].content == items@[i - old(acc)@.len()].content,
{
    let n = items.len();
    let mut j: usize = 0;
    while j < n
        invariant
            n == items@.len(),
            0 <= j <= n,
            acc@.len() == old(acc)@.len() + j,
            forall|i: int| 0 <= i < old(acc)@.len() ==> #[trigger] acc@[i] == old(acc)@[i],
            forall|i: int|
                old(acc)@.len() <= i < acc@.len() ==> (#[trigger] acc@[i]).segment == items@[i - old(acc)@.len()].segment.spec_generalize() && acc@[i].content == items@[i - old(acc)@.len()].content,
        decreases n - j,
    {
        let seg = items[j].segment;
        acc.push(PassageContent { segment: seg.generalize(), content: items[j].content });
        j = j + 1;
    }
}

impl<Container> PassageOrganizer<Container> {
    /// Every stored entry of any shape that overlaps the query, erased into
    /// the union, with its content: the per-shape answers, one shape after
    /// another, each in ascending key order.
    #[verifier::rlimit(50)]
    pub fn iter_all_content<'a, Q: SegmentCompare>(&'a self, key: &Q) -> (r: Vec<
        PassageContent<'a, PassageSegment, Container>,
    >)
        requires
            self.wf(),
        ensures
            ({
                let o1 = spec_overlapping(
                    self.spec_chapter_verse(),
                    key.spec_starting_chapter(),
                    key.spec_starting_verse(),
                    key.spec_ending_chapter(),
                    key.spec_ending_verse(),
                );
                let o2 = spec_overlapping(
                    self.spec_chapter_verse_range(),
                    key.spec_starting_chapter(),
                    key.spec_starting_verse(),
                    key.spec_ending_chapter(),
                    key.spec_ending_verse(),
                );
                let o3 = spec_overlapping(
                    self.spec_chapter_range(),
                    key.spec_starting_chapter(),
                    key.spec_starting_verse(),
                    key.spec_ending_chapter(),
                    key.spec_ending_verse(),
                );
                let o4 = spec_overlapping(
                    self.spec_full_chapter(),
                    key.spec_starting_chapter(),
                    key.spec_starting_verse(),
                    key.spec_ending_chapter(),
                    key.spec_ending_verse(),
                );
                let o5 = spec_overlapping(
                    self.spec_full_chapter_range(),
                    key.spec_starting_chapter(),
                    key.spec_starting_verse(),
                    key.spec_ending_chapter(),
                    key.spec_ending_verse(),
                );
                r@.len() == o1.len() + o2.len() + o3.len() + o4.len() + o5.len() && (forall|i: int|
                    0 <= i < o1.len() ==> (#[trigger] r@[i]).segment == o1[i].0.spec_generalize()
                        && r@[i].content == o1[i].1) && (forall|i: int|
                    0 <= i < o2.len() ==> (#[trigger] r@[o1.len() + i]).segment == o2[
                        i
                    ].0.spec_generalize() && r@[o1.len() + i].content == o2[i].1) && (forall|i: int|
                    0 <= i < o3.len() ==> (#[trigger] r@[o1.len() + o2.len() + i]).segment == o3[
                        i
                    ].0.spec_generalize() && r@[o1.len() + o2.len() + i].content == o3[i].1) && (
                forall|i: int|
                    0 <= i < o4.len() ==> (#[trigger] r@[o1.len() + o2.len() + o3.len()
                        + i]).segment == o4[i].0.spec_generalize() && r@[o1.len() + o2.len()
                        + o3.len() + i].content == o4[i].1) && (forall|i: int|
                    0 <= i < o5.len() ==> (#[trigger] r@[o1.len() + o2.len() + o3.len() + o4.len()
                        + i]).segment == o5[i].0.spec_generalize() && r@[o1.len() + o2.len()
                        + o3.len() + o4.len() + i].content == o5[i].1)
            }),
    {
        let ghost q_sc = key.spec_starting_chapter();
        let ghost q_sv = key.spec_starting_verse();
        let ghost q_ec = key.spec_ending_chapter();
        let ghost q_ev = key.spec_ending_verse();
        let ghost o1 = spec_overlapping(self.spec_chapter_verse(), q_sc, q_sv, q_ec, q_ev);
        let ghost o2 = spec_overlapping(self.spec_chapter_verse_range(), q_sc, q_sv, q_ec, q_ev);
        let ghost o3 = spec_overlapping(self.spec_chapter_range(), q_sc, q_sv, q_ec, q_ev);
        let ghost o4 = spec_overlapping(self.spec_full_chapter(), q_sc, q_sv, q_ec, q_ev);
        let ghost o5 = spec_overlapping(self.spec_full_chapter_range(), q_sc, q_sv, q_ec, q_ev);
        let mut r: Vec<PassageContent<'a, PassageSegment, Container>> = Vec::new();
        push_generalized(&mut r, self.iter_chapter_verse_content(key));
        proof {
            assert(r@.len() == o1.len());
            assert(forall|i: int|
                0 <= i < o1.len() ==> (#[trigger] r@[i]).segment == o1[i].0.spec_generalize()
                    && r@[i].content == o1[i].1);
        }
        push_generalized(&mut r, self.iter_chapter_verse_range_content(key));
        proof {
            assert(r@.len() == o1.len() + o2.len());
            assert(forall|i: int|
                0 <= i < o1.len() ==> (#[trigger] r@[i]).segment == o1[i].0.spec_generalize()
                    && r@[i].content == o1[i].1);
            assert(forall|i: int|
                0 <= i < o2.len() ==> (#[trigger] r@[o1.len() + i]).segment == o2[
                    i
                ].0.spec_generalize() && r@[o1.len() + i].content == o2[i].1);
        }
        push_generalized(&mut r, self.iter_chapter_range_content(key));
        proof {
            assert(r@.len() == o1.len() + o2.len() + o3.len());
            assert(forall|i: int|
                0 <= i < o1.len() ==> (#[trigger] r@[i]).segment == o1[i].0.spec_generalize()
                    && r@[i].content == o1[i].1);
            assert(forall|i: int|
                0 <= i < o2.len() ==> (#[trigger] r@[o1.len() + i]).segment == o2[
                    i
                ].0.spec_generalize() && r@[o1.len() + i].content == o2[i].1);
            assert(forall|i: int|
                0 <= i < o3.len() ==> (#[trigger] r@[o1.len() + o2.len() + i]).segment == o3[
                    i
                ].0.spec_generalize() && r@[o1.len() + o2.len() + i].content == o3[i].1);
        }
        push_generalized(&mut r, self.iter_full_chapter_content(key));
        proof {
            assert(r@.len() == o1.len() + o2.len() + o3.len() + o4.len());
            assert(forall|i: int|
                0 <= i < o1.len() ==> (#[trigger] r@[i]).segment == o1[i].0.spec_generalize()
                    && r@[i].content == o1[i].1);
            assert(forall|i: int|
                0 <= i < o2.len() ==> (#[trigger] r@[o1.len() + i]).segment == o2[
                    i
                ].0.spec_generalize() && r@[o1.len() + i].content == o2[i].1);
            assert(forall|i: int|
                0 <= i < o3.len() ==> (#[trigger] r@[o1.len() + o2.len() + i]).segment == o3[
                    i
                ].0.spec_generalize() && r@[o1.len() + o2.len() + i].content == o3[i].1);
            assert(forall|i: int|
                0 <= i < o4.len() ==> (#[trigger] r@[o1.len() + o2.len() + o3.len() + i]).segment
                    == o4[i].0.spec_generalize() && r@[o1.len() + o2.len() + o3.len() + i].content
                    == o4[i].1);
        }
        push_generalized(&mut r, self.iter_full_chapter_range_content(key));
        r
    }

    /// See `iter_all_content`.
    pub fn get_all_content<'a, Q: SegmentCompare>(&'a self, key: &Q) -> (r: Vec<
        PassageContent<'a, PassageSegment, Container>,
    >)
        requires
            self.wf(),
        ensures
            ({
                let o1 = spec_overlapping(
                    self.spec_chapter_verse(),
                    key.spec_starting_chapter(),
                    key.spec_starting_verse(),
                    key.spec_ending_chapter(),
                    key.spec_ending_verse(),
                );
                let o2 = spec_overlapping(
                    self.spec_chapter_verse_range(),
                    key.spec_starting_chapter(),
                    key.spec_starting_verse(),
                    key.spec_ending_chapter(),
                    key.spec_ending_verse(),
                );
                let o3 = spec_overlapping(
                    self.spec_chapter_range(),
                    key.spec_starting_chapter(),
                    key.spec_starting_verse(),
                    key.spec_ending_chapter(),
                    key.spec_ending_verse(),
                );
                let o4 = spec_overlapping(
                    self.spec_full_chapter(),
                    key.spec_starting_chapter(),
                    key.spec_starting_verse(),
                    key.spec_ending_chapter(),
                    key.spec_ending_verse(),
                );
                let o5 = spec_overlapping(
                    self.spec_full_chapter_range(),
                    key.spec_starting_chapter(),
                    key.spec_starting_verse(),
                    key.spec_ending_chapter(),
                    key.spec_ending_verse(),
                );
                r@.len() == o1.len() + o2.len() + o3.len() + o4.len() + o5.len() && (forall|i: int|
                    0 <= i < o1.len() ==> (#[trigger] r@[i]).segment == o1[i].0.spec_generalize()
                        && r@[i].content == o1[i].1) && (forall|i: int|
                    0 <= i < o2.len() ==> (#[trigger] r@[o1.len() + i]).segment == o2[
                        i
                    ].0.spec_generalize() && r@[o1.len() + i].content == o2[i].1) && (forall|i: int|
                    0 <= i < o3.len() ==> (#[trigger] r@[o1.len() + o2.len() + i]).segment == o3[
                        i
                    ].0.spec_generalize() && r@[o1.len() + o2.len() + i].content == o3[i].1) && (
                forall|i: int|
                    0 <= i < o4.len() ==> (#[trigger] r@[o1.len() + o2.len() + o3.len()
                        + i]).segment == o4[i].0.spec_generalize() && r@[o1.len() + o2.len()
                        + o3.len() + i].content == o4[i].1) && (forall|i: int|
                    0 <= i < o5.len() ==> (#[trigger] r@[o1.len() + o2.len() + o3.len() + o4.len()
                        + i]).segment == o5[i].0.spec_generalize() && r@[o1.len() + o2.len()
                        + o3.len() + o4.len() + i].content == o5[i].1)
            }),
    {
        self.iter_all_content(key)
    }
}

impl<Container> Default for PassageOrganizer<Container> {
    /// An empty store.
    fn default() -> (r: Self)
        ensures
            r.wf(),
            r.spec_chapter_verse().len() == 0,
            r.spec_chapter_verse_range().len() == 0,
            r.spec_chapter_range().len() == 0,
            r.spec_full_chapter().len() == 0,
            r.spec_full_chapter_range().len() == 0,
    {
        PassageOrganizer::new()
    }
}

} // verus!
