//! The five concrete segment shapes over (chapter, verse) coordinates, and the
//! erased union over them.
//!
//! Chapter and verse numbers are 1-based small integers. A segment is a value
//! type: built once, copied freely, never mutated in place.

use vstd::prelude::*;

use crate::compare::SegmentCompare;

verus! {

/// A generic ordered pair `(start, end)` of a point type, used to build the
/// range-shaped segments uniformly. No ordering is enforced here; each owning
/// segment type states its own invariant.
#[derive(Copy, Clone, Debug, PartialEq, Eq, Structural)]
pub struct RangePair<T> {
    pub start: T,
    pub end: T,
}

/// A single chapter/verse point, the `1:2` in `John 1:2`.
#[derive(Copy, Clone, Debug, PartialEq, Eq, Structural)]
pub struct ChapterVerse {
    pub chapter: u8,
    pub verse: u8,
}

/// A span of verses within one chapter, the `1:2-3` in `John 1:2-3`.
#[derive(Copy, Clone, Debug, PartialEq, Eq, Structural)]
pub struct ChapterVerseRange {
    pub chapter: u8,
    pub verses: RangePair<u8>,
}

/// A span of verses crossing chapter boundaries, the `1:2-3:4` in `John 1:2-3:4`.
#[derive(Copy, Clone, Debug, PartialEq, Eq, Structural)]
pub struct ChapterRange {
    pub start: ChapterVerse,
    pub end: ChapterVerse,
}

/// An entire chapter, verse-unbounded, the `1` in `John 1`.
#[derive(Copy, Clone, Debug, PartialEq, Eq, Structural)]
pub struct FullChapter {
    pub chapter: u8,
}

/// A span of entire chapters, the `1-2` in `John 1-2`.
#[derive(Copy, Clone, Debug, PartialEq, Eq, Structural)]
pub struct FullChapterRange {
    pub start: FullChapter,
    pub end: FullChapter,
}

/// The tagged union over the five concrete segment shapes: the erasure type
/// used whenever heterogeneous segments are stored or compared together.
#[derive(Copy, Clone, Debug, PartialEq, Eq, Structural)]
pub enum PassageSegment {
    ChapterVerse(ChapterVerse),
    ChapterVerseRange(ChapterVerseRange),
    ChapterRange(ChapterRange),
    FullChapter(FullChapter),
    FullChapterRange(FullChapterRange),
}

impl ChapterVerse {
    pub fn new(chapter: u8, verse: u8) -> (s: Self)
        ensures
            s == (ChapterVerse { chapter, verse }),
    {
        ChapterVerse { chapter, verse }
    }
}

impl ChapterVerseRange {
    pub fn new(chapter: u8, start_verse: u8, end_verse: u8) -> (s: Self)
        ensures
            s == (ChapterVerseRange {
                chapter,
                verses: RangePair { start: start_verse, end: end_verse },
            }),
    {
        ChapterVerseRange { chapter, verses: RangePair { start: start_verse, end: end_verse } }
    }
}

impl ChapterRange {
    pub fn new(start_chapter: u8, start_verse: u8, end_chapter: u8, end_verse: u8) -> (s: Self)
        ensures
            s == (ChapterRange {
                start: ChapterVerse { chapter: start_chapter, verse: start_verse },
                end: ChapterVerse { chapter: end_chapter, verse: end_verse },
            }),
    {
        ChapterRange {
            start: ChapterVerse { chapter: start_chapter, verse: start_verse },
            end: ChapterVerse { chapter: end_chapter, verse: end_verse },
        }
    }
}

impl FullChapter {
    pub fn new(chapter: u8) -> (s: Self)
        ensures
            s == (FullChapter { chapter }),
    {
        FullChapter { chapter }
    }
}

impl FullChapterRange {
    pub fn new(start: u8, end: u8) -> (s: Self)
        ensures
            s == (FullChapterRange {
                start: FullChapter { chapter: start },
                end: FullChapter { chapter: end },
            }),
    {
        FullChapterRange { start: FullChapter { chapter: start }, end: FullChapter { chapter: end } }
    }
}

/// the erased union holding the point `chapter:verse`
pub open spec fn spec_chapter_verse(chapter: u8, verse: u8) -> PassageSegment {
    PassageSegment::ChapterVerse((ChapterVerse { chapter, verse }))
}

/// the erased union holding the verse range `chapter:start-end`
pub open spec fn spec_chapter_verse_range(chapter: u8, start: u8, end: u8) -> PassageSegment {
    PassageSegment::ChapterVerseRange(
        (ChapterVerseRange { chapter, verses: RangePair { start, end } }),
    )
}

/// the erased union holding the cross-chapter range `sc:sv-ec:ev`
pub open spec fn spec_chapter_range(sc: u8, sv: u8, ec: u8, ev: u8) -> PassageSegment {
    PassageSegment::ChapterRange(
        (ChapterRange {
            start: ChapterVerse { chapter: sc, verse: sv },
            end: ChapterVerse { chapter: ec, verse: ev },
        }),
    )
}

/// the erased union holding the whole chapter `chapter`
pub open spec fn spec_full_chapter(chapter: u8) -> PassageSegment {
    PassageSegment::FullChapter((FullChapter { chapter }))
}

/// the erased union holding the whole-chapter range `start-end`
pub open spec fn spec_full_chapter_range(start: u8, end: u8) -> PassageSegment {
    PassageSegment::FullChapterRange(
        (FullChapterRange {
            start: FullChapter { chapter: start },
            end: FullChapter { chapter: end },
        }),
    )
}

// Shorthand constructors for the erased union.

impl PassageSegment {
    pub fn chapter_verse(chapter: u8, verse: u8) -> (s: Self)
        ensures
            s == PassageSegment::ChapterVerse((ChapterVerse { chapter, verse })),
    {
        PassageSegment::ChapterVerse(ChapterVerse::new(chapter, verse))
    }

    pub fn chapter_verse_range(chapter: u8, start_verse: u8, end_verse: u8) -> (s: Self)
        ensures
            s == PassageSegment::ChapterVerseRange((ChapterVerseRange {
                chapter,
                verses: RangePair { start: start_verse, end: end_verse },
            })),
    {
        PassageSegment::ChapterVerseRange(ChapterVerseRange::new(chapter, start_verse, end_verse))
    }

    pub fn chapter_range(
        start_chapter: u8,
        start_verse: u8,
        end_chapter: u8,
        end_verse: u8,
    ) -> (s: Self)
        ensures
            s == PassageSegment::ChapterRange((ChapterRange {
                start: ChapterVerse { chapter: start_chapter, verse: start_verse },
                end: ChapterVerse { chapter: end_chapter, verse: end_verse },
            })),
    {
        PassageSegment::ChapterRange(
            ChapterRange::new(start_chapter, start_verse, end_chapter, end_verse),
        )
    }

    pub fn full_chapter(chapter: u8) -> (s: Self)
        ensures
            s == PassageSegment::FullChapter((FullChapter { chapter })),
    {
        PassageSegment::FullChapter(FullChapter::new(chapter))
    }

    pub fn full_chapter_range(start: u8, end: u8) -> (s: Self)
        ensures
            s == PassageSegment::FullChapterRange((FullChapterRange {
                start: FullChapter { chapter: start },
                end: FullChapter { chapter: end },
            })),
    {
        PassageSegment::FullChapterRange(FullChapterRange::new(start, end))
    }
}

// The four primitive accessors for each shape. Everything else - overlap,
// ordering, canonicalization - is derived from these in `SegmentCompare`.
impl SegmentCompare for ChapterVerse {
    open spec fn spec_starting_chapter(&self) -> u8 {
        self.chapter
    }

    open spec fn spec_starting_verse(&self) -> u8 {
        self.verse
    }

    open spec fn spec_ending_chapter(&self) -> u8 {
        self.chapter
    }

    open spec fn spec_ending_verse(&self) -> Option<u8> {
        Some(self.verse)
    }

    open spec fn spec_generalize(&self) -> PassageSegment {
        PassageSegment::ChapterVerse(*self)
    }

    fn starting_chapter(&self) -> u8 {
        self.chapter
    }

    fn starting_verse(&self) -> u8 {
        self.verse
    }

    fn ending_chapter(&self) -> u8 {
        self.chapter
    }

    fn ending_verse(&self) -> Option<u8> {
        Some(self.verse)
    }

    fn generalize(&self) -> PassageSegment {
        PassageSegment::ChapterVerse(*self)
    }
}

impl SegmentCompare for ChapterVerseRange {
    open spec fn spec_starting_chapter(&self) -> u8 {
        self.chapter
    }

    open spec fn spec_starting_verse(&self) -> u8 {
        self.verses.start
    }

    open spec fn spec_ending_chapter(&self) -> u8 {
        self.chapter
    }

    open spec fn spec_ending_verse(&self) -> Option<u8> {
        Some(self.verses.end)
    }

    open spec fn spec_generalize(&self) -> PassageSegment {
        PassageSegment::ChapterVerseRange(*self)
    }

    fn starting_chapter(&self) -> u8 {
        self.chapter
    }

    fn starting_verse(&self) -> u8 {
        self.verses.start
    }

    fn ending_chapter(&self) -> u8 {
        self.chapter
    }

    fn ending_verse(&self) -> Option<u8> {
        Some(self.verses.end)
    }

    fn generalize(&self) -> PassageSegment {
        PassageSegment::ChapterVerseRange(*self)
    }
}

impl SegmentCompare for ChapterRange {
    open spec fn spec_starting_chapter(&self) -> u8 {
        self.start.chapter
    }

    open spec fn spec_starting_verse(&self) -> u8 {
        self.start.verse
    }

    open spec fn spec_ending_chapter(&self) -> u8 {
        self.end.chapter
    }

    open spec fn spec_ending_verse(&self) -> Option<u8> {
        Some(self.end.verse)
    }

    open spec fn spec_generalize(&self) -> PassageSegment {
        PassageSegment::ChapterRange(*self)
    }

    fn starting_chapter(&self) -> u8 {
        self.start.chapter
    }

    fn starting_verse(&self) -> u8 {
        self.start.verse
    }

    fn ending_chapter(&self) -> u8 {
        self.end.chapter
    }

    fn ending_verse(&self) -> Option<u8> {
        Some(self.end.verse)
    }

    fn generalize(&self) -> PassageSegment {
        PassageSegment::ChapterRange(*self)
    }
}

impl SegmentCompare for FullChapter {
    open spec fn spec_starting_chapter(&self) -> u8 {
        self.chapter
    }

    open spec fn spec_starting_verse(&self) -> u8 {
        1u8
    }

    open spec fn spec_ending_chapter(&self) -> u8 {
        self.chapter
    }

    open spec fn spec_ending_verse(&self) -> Option<u8> {
        None
    }

    open spec fn spec_generalize(&self) -> PassageSegment {
        PassageSegment::FullChapter(*self)
    }

    fn starting_chapter(&self) -> u8 {
        self.chapter
    }

    fn starting_verse(&self) -> u8 {
        1
    }

    fn ending_chapter(&self) -> u8 {
        self.chapter
    }

    fn ending_verse(&self) -> Option<u8> {
        None
    }

    fn generalize(&self) -> PassageSegment {
        PassageSegment::FullChapter(*self)
    }
}

impl SegmentCompare for FullChapterRange {
    open spec fn spec_starting_chapter(&self) -> u8 {
        self.start.chapter
    }

    open spec fn spec_starting_verse(&self) -> u8 {
        1u8
    }

    open spec fn spec_ending_chapter(&self) -> u8 {
        self.end.chapter
    }

    open spec fn spec_ending_verse(&self) -> Option<u8> {
        None
    }

    open spec fn spec_generalize(&self) -> PassageSegment {
        PassageSegment::FullChapterRange(*self)
    }

    fn starting_chapter(&self) -> u8 {
        self.start.chapter
    }

    fn starting_verse(&self) -> u8 {
        1
    }

    fn ending_chapter(&self) -> u8 {
        self.end.chapter
    }

    fn ending_verse(&self) -> Option<u8> {
        None
    }

    fn generalize(&self) -> PassageSegment {
        PassageSegment::FullChapterRange(*self)
    }
}

impl SegmentCompare for PassageSegment {
    open spec fn spec_starting_chapter(&self) -> u8 {
        match self {
            PassageSegment::ChapterVerse(s) => s.spec_starting_chapter(),
            PassageSegment::ChapterVerseRange(s) => s.spec_starting_chapter(),
            PassageSegment::ChapterRange(s) => s.spec_starting_chapter(),
            PassageSegment::FullChapter(s) => s.spec_starting_chapter(),
            PassageSegment::FullChapterRange(s) => s.spec_starting_chapter(),
        }
    }

    open spec fn spec_starting_verse(&self) -> u8 {
        match self {
            PassageSegment::ChapterVerse(s) => s.spec_starting_verse(),
            PassageSegment::ChapterVerseRange(s) => s.spec_starting_verse(),
            PassageSegment::ChapterRange(s) => s.spec_starting_verse(),
            PassageSegment::FullChapter(s) => s.spec_starting_verse(),
            PassageSegment::FullChapterRange(s) => s.spec_starting_verse(),
        }
    }

    open spec fn spec_ending_chapter(&self) -> u8 {
        match self {
            PassageSegment::ChapterVerse(s) => s.spec_ending_chapter(),
            PassageSegment::ChapterVerseRange(s) => s.spec_ending_chapter(),
            PassageSegment::ChapterRange(s) => s.spec_ending_chapter(),
            PassageSegment::FullChapter(s) => s.spec_ending_chapter(),
            PassageSegment::FullChapterRange(s) => s.spec_ending_chapter(),
        }
    }

    open spec fn spec_ending_verse(&self) -> Option<u8> {
        match self {
            PassageSegment::ChapterVerse(s) => s.spec_ending_verse(),
            PassageSegment::ChapterVerseRange(s) => s.spec_ending_verse(),
            PassageSegment::ChapterRange(s) => s.spec_ending_verse(),
            PassageSegment::FullChapter(s) => s.spec_ending_verse(),
            PassageSegment::FullChapterRange(s) => s.spec_ending_verse(),
        }
    }

    open spec fn spec_generalize(&self) -> PassageSegment {
        *self
    }

    fn starting_chapter(&self) -> u8 {
        match self {
            PassageSegment::ChapterVerse(s) => s.starting_chapter(),
            PassageSegment::ChapterVerseRange(s) => s.starting_chapter(),
            PassageSegment::ChapterRange(s) => s.starting_chapter(),
            PassageSegment::FullChapter(s) => s.starting_chapter(),
            PassageSegment::FullChapterRange(s) => s.starting_chapter(),
        }
    }

    fn starting_verse(&self) -> u8 {
        match self {
            PassageSegment::ChapterVerse(s) => s.starting_verse(),
            PassageSegment::ChapterVerseRange(s) => s.starting_verse(),
            PassageSegment::ChapterRange(s) => s.starting_verse(),
            PassageSegment::FullChapter(s) => s.starting_verse(),
            PassageSegment::FullChapterRange(s) => s.starting_verse(),
        }
    }

    fn ending_chapter(&self) -> u8 {
        match self {
            PassageSegment::ChapterVerse(s) => s.ending_chapter(),
            PassageSegment::ChapterVerseRange(s) => s.ending_chapter(),
            PassageSegment::ChapterRange(s) => s.ending_chapter(),
            PassageSegment::FullChapter(s) => s.ending_chapter(),
            PassageSegment::FullChapterRange(s) => s.ending_chapter(),
        }
    }

    fn ending_verse(&self) -> Option<u8> {
        match self {
            PassageSegment::ChapterVerse(s) => s.ending_verse(),
            PassageSegment::ChapterVerseRange(s) => s.ending_verse(),
            PassageSegment::ChapterRange(s) => s.ending_verse(),
            PassageSegment::FullChapter(s) => s.ending_verse(),
            PassageSegment::FullChapterRange(s) => s.ending_verse(),
        }
    }

    fn generalize(&self) -> PassageSegment {
        *self
    }
}

} // verus!
