//! The shared comparison contract over every segment shape.
//!
//! Each segment exposes the same four observable quantities: starting chapter,
//! starting verse, ending chapter, and ending verse-or-unbounded
//! (`SegmentCompare`). Ordering, overlap testing and canonicalization are all
//! derived from those four accessors, once, in the blanket `SegmentOverlap`
//! extension, instead of enumerating the pairs of shapes.

use vstd::prelude::*;

use crate::book_segment::BookSegment;
use crate::segment::ChapterRange;
use crate::segment::ChapterVerse;
use crate::segment::ChapterVerseRange;
use crate::segment::FullChapter;
use crate::segment::FullChapterRange;
use crate::segment::PassageSegment;
use crate::segment::RangePair;

verus! {

/// A span ending at `(a_ec, a_ev)` finishes strictly before one starting at
/// `(b_sc, b_sv)` begins: either in an earlier chapter, or in the same chapter
/// with a concrete ending verse below the starting verse. An unbounded ending
/// (`None`) never ends before anything in the same chapter.
pub open spec fn quad_ends_before(a_ec: u8, a_ev: Option<u8>, b_sc: u8, b_sv: u8) -> bool {
    a_ec < b_sc || (a_ec == b_sc && match a_ev {
        Some(ev) => ev < b_sv,
        None => false,
    })
}

/// The most specific of the five shapes that exactly represents the span with
/// the given four observable quantities.
pub open spec fn canonical_segment(sc: u8, sv: u8, ec: u8, ev: Option<u8>) -> PassageSegment {
    match ev {
        Some(ev) => if sc == ec {
            if sv == ev {
                PassageSegment::ChapterVerse((ChapterVerse { chapter: sc, verse: sv }))
            } else {
                PassageSegment::ChapterVerseRange(
                    (ChapterVerseRange { chapter: sc, verses: RangePair { start: sv, end: ev } }),
                )
            }
        } else {
            PassageSegment::ChapterRange(
                (ChapterRange {
                    start: ChapterVerse { chapter: sc, verse: sv },
                    end: ChapterVerse { chapter: ec, verse: ev },
                }),
            )
        },
        None => if sc == ec {
            PassageSegment::FullChapter((FullChapter { chapter: sc }))
        } else {
            PassageSegment::FullChapterRange(
                (FullChapterRange {
                    start: FullChapter { chapter: sc },
                    end: FullChapter { chapter: ec },
                }),
            )
        },
    }
}

/// The four primitive accessors every segment shape exposes, plus lossless
/// embedding into the erased union.
pub trait SegmentCompare: Sized + Copy {
    /// chapter in which the segment begins
    spec fn spec_starting_chapter(&self) -> u8;

    /// verse at which the segment begins; chapter-level shapes report 1
    spec fn spec_starting_verse(&self) -> u8;

    /// chapter in which the segment ends
    spec fn spec_ending_chapter(&self) -> u8;

    /// verse at which the segment ends; `None` means through the end of the
    /// ending chapter
    spec fn spec_ending_verse(&self) -> Option<u8>;

    /// the erased union holding this same segment
    spec fn spec_generalize(&self) -> PassageSegment;

    fn starting_chapter(&self) -> (c: u8)
        ensures
            c == self.spec_starting_chapter(),
    ;

    fn starting_verse(&self) -> (v: u8)
        ensures
            v == self.spec_starting_verse(),
    ;

    fn ending_chapter(&self) -> (c: u8)
        ensures
            c == self.spec_ending_chapter(),
    ;

    fn ending_verse(&self) -> (v: Option<u8>)
        ensures
            v == self.spec_ending_verse(),
    ;

    /// Embed this segment in the erased union, losslessly.
    fn generalize(&self) -> (r: PassageSegment)
        ensures
            r == self.spec_generalize(),
    ;
}

/// `a` finishes strictly before `b` begins.
pub open spec fn spec_ends_before<A: SegmentCompare, B: SegmentCompare>(a: A, b: B) -> bool {
    quad_ends_before(
        a.spec_ending_chapter(),
        a.spec_ending_verse(),
        b.spec_starting_chapter(),
        b.spec_starting_verse(),
    )
}

/// Two segments overlap when neither ends before the other starts.
pub open spec fn spec_overlaps_with<A: SegmentCompare, B: SegmentCompare>(a: A, b: B) -> bool {
    !spec_ends_before(a, b) && !spec_ends_before(b, a)
}

/// The most specific of the five shapes that exactly represents `a`'s span.
pub open spec fn spec_actual<A: SegmentCompare>(a: A) -> PassageSegment {
    canonical_segment(
        a.spec_starting_chapter(),
        a.spec_starting_verse(),
        a.spec_ending_chapter(),
        a.spec_ending_verse(),
    )
}

/// A segment is well formed when its start does not come after its end: it
/// begins in an earlier chapter than it ends, or in the same chapter with its
/// starting verse at or below its concrete ending verse (an unbounded ending
/// always qualifies). Exactly the segments that do not end before themselves.
pub open spec fn spec_well_formed<A: SegmentCompare>(a: A) -> bool {
    !spec_ends_before(a, a)
}

/// Every operation derived from the four accessors, available on all segment
/// shapes through the blanket implementation below.
pub trait SegmentOverlap: SegmentCompare {
    /// True when this segment finishes strictly before `other` begins.
    fn ends_before<B: SegmentCompare>(&self, other: &B) -> (r: bool)
        ensures
            r == quad_ends_before(
                self.spec_ending_chapter(),
                self.spec_ending_verse(),
                other.spec_starting_chapter(),
                other.spec_starting_verse(),
            ),
    {
        let ec = self.ending_chapter();
        let osc = other.starting_chapter();
        if ec < osc {
            true
        } else if ec == osc {
            match self.ending_verse() {
                Some(ev) => ev < other.starting_verse(),
                None => false,
            }
        } else {
            false
        }
    }

    /// True when this segment begins strictly after `other` ends: the mirror
    /// of `ends_before`, which makes the overlap relation symmetric by
    /// construction.
    fn starts_after<B: SegmentCompare>(&self, other: &B) -> (r: bool)
        ensures
            r == quad_ends_before(
                other.spec_ending_chapter(),
                other.spec_ending_verse(),
                self.spec_starting_chapter(),
                self.spec_starting_verse(),
            ),
    {
        let oec = other.ending_chapter();
        let sc = self.starting_chapter();
        if oec < sc {
            true
        } else if oec == sc {
            match other.ending_verse() {
                Some(ev) => ev < self.starting_verse(),
                None => false,
            }
        } else {
            false
        }
    }

    /// True when the two segments share at least one chapter/verse position:
    /// neither ends before the other starts.
    fn overlaps_with<B: SegmentCompare>(&self, other: &B) -> (r: bool)
        ensures
            r == (!quad_ends_before(
                self.spec_ending_chapter(),
                self.spec_ending_verse(),
                other.spec_starting_chapter(),
                other.spec_starting_verse(),
            ) && !quad_ends_before(
                other.spec_ending_chapter(),
                other.spec_ending_verse(),
                self.spec_starting_chapter(),
                self.spec_starting_verse(),
            )),
    {
        !(self.ends_before(other) || self.starts_after(other))
    }

    /// The inclusive verse bounds this segment covers within `chapter`: the
    /// lower bound is the starting verse only in the starting chapter, else 1;
    /// the upper bound is the ending verse only in the ending chapter, and
    /// `None` (unbounded) elsewhere or when the ending verse itself is
    /// unbounded. Meaningful for chapters within `chapter_range()`.
    fn verse_range(&self, chapter: u8) -> (r: (u8, Option<u8>))
        ensures
            r.0 == (if chapter == self.spec_starting_chapter() {
                self.spec_starting_verse()
            } else {
                1u8
            }),
            r.1 == (if chapter == self.spec_ending_chapter() {
                self.spec_ending_verse()
            } else {
                None::<u8>
            }),
    {
        let start_bound = if chapter == self.starting_chapter() {
            self.starting_verse()
        } else {
            1u8
        };
        let end_bound = if chapter == self.ending_chapter() {
            self.ending_verse()
        } else {
            None
        };
        (start_bound, end_bound)
    }

    /// The inclusive range of chapters this segment touches.
    fn chapter_range(&self) -> (r: (u8, u8))
        ensures
            r == (self.spec_starting_chapter(), self.spec_ending_chapter()),
    {
        (self.starting_chapter(), self.ending_chapter())
    }

    /// Canonicalization: collapse this segment to the most specific of the
    /// five shapes that exactly represents its span.
    fn actual(&self) -> (r: PassageSegment)
        ensures
            r == canonical_segment(
                self.spec_starting_chapter(),
                self.spec_starting_verse(),
                self.spec_ending_chapter(),
                self.spec_ending_verse(),
            ),
    {
        let starting_chapter = self.starting_chapter();
        let starting_verse = self.starting_verse();
        let ending_chapter = self.ending_chapter();
        let same_chapter = starting_chapter == ending_chapter;
        match self.ending_verse() {
            Some(ending_verse) => {
                if same_chapter {
                    if starting_verse == ending_verse {
                        PassageSegment::chapter_verse(starting_chapter, starting_verse)
                    } else {
                        PassageSegment::chapter_verse_range(
                            starting_chapter,
                            starting_verse,
                            ending_verse,
                        )
                    }
                } else {
                    PassageSegment::chapter_range(
                        starting_chapter,
                        starting_verse,
                        ending_chapter,
                        ending_verse,
                    )
                }
            },
            None => {
                if same_chapter {
                    PassageSegment::full_chapter(starting_chapter)
                } else {
                    PassageSegment::full_chapter_range(starting_chapter, ending_chapter)
                }
            },
        }
    }

    /// Pair this segment with borrowed content, without altering comparison
    /// semantics.
    fn with_content<'a, Content>(&self, content: &'a Content) -> (r: PassageContent<
        'a,
        Self,
        Content,
    >)
        ensures
            r.segment == *self,
            r.content == content,
    {
        PassageContent { segment: *self, content }
    }

    /// Attach the identifier of the book this segment belongs to.
    fn with_book(&self, book: u8) -> (r: BookSegment<Self>)
        ensures
            r.book == book,
            r.segment == *self,
    {
        BookSegment { book, segment: *self }
    }
}

impl<T: SegmentCompare> SegmentOverlap for T {

}

/// A segment paired with borrowed content, as handed back by the organizers.
#[derive(Copy, Clone, Debug)]
pub struct PassageContent<'a, Segment, Content> {
    pub segment: Segment,
    pub content: &'a Content,
}

impl<'a, Segment: SegmentCompare, Content> PassageContent<'a, Segment, Content> {
    /// Erase the segment's shape while keeping the content pairing.
    pub fn generalize(self) -> (r: PassageContent<'a, PassageSegment, Content>)
        ensures
            r.segment == self.segment.spec_generalize(),
            r.content == self.content,
    {
        PassageContent { segment: self.segment.generalize(), content: self.content }
    }

    /// Attach the identifier of the book the pairing belongs to.
    pub fn with_book(self, book: u8) -> (r: BookPassageContent<'a, Segment, Content>)
        ensures
            r.book == book,
            r.segment == self.segment,
            r.content == self.content,
    {
        BookPassageContent { book, segment: self.segment, content: self.content }
    }
}

/// A segment paired with borrowed content and the book it belongs to.
#[derive(Copy, Clone, Debug)]
pub struct BookPassageContent<'a, Segment, Content> {
    pub book: u8,
    pub segment: Segment,
    pub content: &'a Content,
}

impl<'a, Segment: SegmentCompare, Content> BookPassageContent<'a, Segment, Content> {
    /// Erase the segment's shape while keeping the book and content pairing.
    pub fn generalize(self) -> (r: BookPassageContent<'a, PassageSegment, Content>)
        ensures
            r.book == self.book,
            r.segment == self.segment.spec_generalize(),
            r.content == self.content,
    {
        BookPassageContent {
            book: self.book,
            segment: self.segment.generalize(),
            content: self.content,
        }
    }
}

/// Overlap is symmetric: for any two segments, of any of the five shapes or
/// the erased union, each overlaps the other or neither does.
pub proof fn lemma_overlap_symmetric<A: SegmentCompare, B: SegmentCompare>(a: A, b: B)
    ensures
        spec_overlaps_with(a, b) == spec_overlaps_with(b, a),
{
}

/// Overlap is reflexive: every well-formed segment overlaps itself. (A
/// malformed range whose end precedes its start, such as verses 5 through 2,
/// ends before itself and overlaps nothing.)
pub proof fn lemma_overlap_reflexive<A: SegmentCompare>(a: A)
    requires
        spec_well_formed(a),
    ensures
        spec_overlaps_with(a, a),
{
}

/// Canonicalization is idempotent: reducing a segment to its most specific
/// shape a second time changes nothing.
pub proof fn lemma_actual_idempotent<A: SegmentCompare>(a: A)
    ensures
        spec_actual(spec_actual(a)) == spec_actual(a),
{
}

/// Canonicalization preserves the four observable quantities - so it never
/// changes what a segment overlaps - whenever the segment reports a starting
/// verse of 1 where its ending is unbounded, as every chapter-level shape of
/// this crate does.
pub proof fn lemma_actual_preserves_bounds<A: SegmentCompare>(a: A)
    requires
        a.spec_ending_verse() is None ==> a.spec_starting_verse() == 1,
    ensures
        spec_actual(a).spec_starting_chapter() == a.spec_starting_chapter(),
        spec_actual(a).spec_starting_verse() == a.spec_starting_verse(),
        spec_actual(a).spec_ending_chapter() == a.spec_ending_chapter(),
        spec_actual(a).spec_ending_verse() == a.spec_ending_verse(),
{
}

} // verus!
