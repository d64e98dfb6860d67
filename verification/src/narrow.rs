//! Narrowing the erased union back into concrete shapes.
//!
//! Every concrete shape embeds losslessly into `PassageSegment`; going the
//! other way is an attempt that fails when the union's payload is a
//! structurally incompatible wider shape. Compatible same-chapter payloads
//! narrow: a degenerate verse range becomes a point, a same-chapter
//! cross-chapter range becomes a verse range or a point.

use vstd::prelude::*;

use crate::compare::SegmentCompare;
use crate::segment::ChapterRange;
use crate::segment::ChapterVerse;
use crate::segment::ChapterVerseRange;
use crate::segment::FullChapter;
use crate::segment::FullChapterRange;
use crate::segment::PassageSegment;
use crate::segment::RangePair;

verus! {

/// The shape of a segment, named; used to report a failed narrowing.
#[derive(Copy, Clone, Debug, PartialEq, Eq, Structural)]
pub enum SegmentKind {
    ChapterVerse,
    ChapterVerseRange,
    ChapterRange,
    FullChapter,
    FullChapterRange,
}

/// A failed narrowing: the union held a `from`-shaped payload that cannot be
/// coerced into the requested `to` shape.
#[derive(Copy, Clone, Debug, PartialEq, Eq, Structural)]
pub struct CoerceError {
    pub from: SegmentKind,
    pub to: SegmentKind,
}

/// What narrowing a union value to a `ChapterVerse` yields: the point itself,
/// a degenerate verse range, or a degenerate same-chapter range; anything
/// wider is refused.
pub open spec fn spec_narrow_chapter_verse(p: PassageSegment) -> Result<
    ChapterVerse,
    CoerceError,
> {
    match p {
        PassageSegment::ChapterVerse(cv) => Ok(cv),
        PassageSegment::ChapterVerseRange(cvr) => if cvr.verses.start == cvr.verses.end {
            Ok(ChapterVerse { chapter: cvr.chapter, verse: cvr.verses.start })
        } else {
            Err(CoerceError { from: SegmentKind::ChapterVerseRange, to: SegmentKind::ChapterVerse })
        },
        PassageSegment::ChapterRange(cr) => if cr.start == cr.end {
            Ok(cr.start)
        } else {
            Err(CoerceError { from: SegmentKind::ChapterRange, to: SegmentKind::ChapterVerse })
        },
        PassageSegment::FullChapter(_) => Err(
            CoerceError { from: SegmentKind::FullChapter, to: SegmentKind::ChapterVerse },
        ),
        PassageSegment::FullChapterRange(_) => Err(
            CoerceError { from: SegmentKind::FullChapterRange, to: SegmentKind::ChapterVerse },
        ),
    }
}

/// What narrowing a union value to a `ChapterVerseRange` yields: a point
/// becomes a degenerate range, a same-chapter range drops its chapter pair;
/// anything spanning chapters, or chapter-level, is refused.
pub open spec fn spec_narrow_chapter_verse_range(p: PassageSegment) -> Result<
    ChapterVerseRange,
    CoerceError,
> {
    match p {
        PassageSegment::ChapterVerse(cv) => Ok(
            ChapterVerseRange {
                chapter: cv.chapter,
                verses: RangePair { start: cv.verse, end: cv.verse },
            },
        ),
        PassageSegment::ChapterVerseRange(cvr) => Ok(cvr),
        PassageSegment::ChapterRange(cr) => if cr.start.chapter == cr.end.chapter {
            Ok(
                ChapterVerseRange {
                    chapter: cr.start.chapter,
                    verses: RangePair { start: cr.start.verse, end: cr.end.verse },
                },
            )
        } else {
            Err(CoerceError { from: SegmentKind::ChapterRange, to: SegmentKind::ChapterVerseRange })
        },
        PassageSegment::FullChapter(_) => Err(
            CoerceError { from: SegmentKind::FullChapter, to: SegmentKind::ChapterVerseRange },
        ),
        PassageSegment::FullChapterRange(_) => Err(
            CoerceError { from: SegmentKind::FullChapterRange, to: SegmentKind::ChapterVerseRange },
        ),
    }
}

/// What narrowing a union value to a `ChapterRange` yields: every
/// verse-concrete payload widens into a chapter range; chapter-level payloads,
/// which have no concrete verses, are refused.
pub open spec fn spec_narrow_chapter_range(p: PassageSegment) -> Result<
    ChapterRange,
    CoerceError,
> {
    match p {
        PassageSegment::ChapterVerse(cv) => Ok(ChapterRange { start: cv, end: cv }),
        PassageSegment::ChapterVerseRange(cvr) => Ok(
            ChapterRange {
                start: ChapterVerse { chapter: cvr.chapter, verse: cvr.verses.start },
                end: ChapterVerse { chapter: cvr.chapter, verse: cvr.verses.end },
            },
        ),
        PassageSegment::ChapterRange(cr) => Ok(cr),
        PassageSegment::FullChapter(_) => Err(
            CoerceError { from: SegmentKind::FullChapter, to: SegmentKind::ChapterRange },
        ),
        PassageSegment::FullChapterRange(_) => Err(
            CoerceError { from: SegmentKind::FullChapterRange, to: SegmentKind::ChapterRange },
        ),
    }
}

/// What narrowing a union value to a `FullChapter` yields: verse-level
/// payloads within a single chapter collapse to that chapter; anything
/// spanning chapters is refused.
pub open spec fn spec_narrow_full_chapter(p: PassageSegment) -> Result<FullChapter, CoerceError> {
    match p {
        PassageSegment::ChapterVerse(cv) => Ok(FullChapter { chapter: cv.chapter }),
        PassageSegment::ChapterVerseRange(cvr) => Ok(FullChapter { chapter: cvr.chapter }),
        PassageSegment::ChapterRange(_) => Err(
            CoerceError { from: SegmentKind::ChapterRange, to: SegmentKind::FullChapter },
        ),
        PassageSegment::FullChapter(fc) => Ok(fc),
        PassageSegment::FullChapterRange(_) => Err(
            CoerceError { from: SegmentKind::FullChapterRange, to: SegmentKind::FullChapter },
        ),
    }
}

/// What narrowing a union value to a `FullChapterRange` yields: every payload
/// widens to the range of chapters it touches, so this narrowing never fails.
pub open spec fn spec_narrow_full_chapter_range(p: PassageSegment) -> Result<
    FullChapterRange,
    CoerceError,
> {
    match p {
        PassageSegment::ChapterVerse(cv) => Ok(
            FullChapterRange {
                start: FullChapter { chapter: cv.chapter },
                end: FullChapter { chapter: cv.chapter },
            },
        ),
        PassageSegment::ChapterVerseRange(cvr) => Ok(
            FullChapterRange {
                start: FullChapter { chapter: cvr.chapter },
                end: FullChapter { chapter: cvr.chapter },
            },
        ),
        PassageSegment::ChapterRange(cr) => Ok(
            FullChapterRange {
                start: FullChapter { chapter: cr.start.chapter },
                end: FullChapter { chapter: cr.end.chapter },
            },
        ),
        PassageSegment::FullChapter(fc) => Ok(FullChapterRange { start: fc, end: fc }),
        PassageSegment::FullChapterRange(fcr) => Ok(fcr),
    }
}

impl ChapterVerse {
    /// Narrow the erased union into a single point, when its payload exactly
    /// covers one.
    pub fn try_from(value: PassageSegment) -> (r: Result<ChapterVerse, CoerceError>)
        ensures
            r == spec_narrow_chapter_verse(value),
    {
        match value {
            PassageSegment::ChapterVerse(cv) => Ok(cv),
            PassageSegment::ChapterVerseRange(cvr) => if cvr.verses.start == cvr.verses.end {
                Ok(ChapterVerse::new(cvr.chapter, cvr.verses.start))
            } else {
                Err(
                    CoerceError {
                        from: SegmentKind::ChapterVerseRange,
                        to: SegmentKind::ChapterVerse,
                    },
                )
            },
            PassageSegment::ChapterRange(cr) => if cr.start.chapter == cr.end.chapter
                && cr.start.verse == cr.end.verse {
                Ok(cr.start)
            } else {
                Err(CoerceError { from: SegmentKind::ChapterRange, to: SegmentKind::ChapterVerse })
            },
            PassageSegment::FullChapter(_) => Err(
                CoerceError { from: SegmentKind::FullChapter, to: SegmentKind::ChapterVerse },
            ),
            PassageSegment::FullChapterRange(_) => Err(
                CoerceError { from: SegmentKind::FullChapterRange, to: SegmentKind::ChapterVerse },
            ),
        }
    }
}

impl ChapterVerseRange {
    /// Narrow the erased union into a verse range within one chapter, when
    /// its payload stays within one chapter at the verse level.
    pub fn try_from(value: PassageSegment) -> (r: Result<ChapterVerseRange, CoerceError>)
        ensures
            r == spec_narrow_chapter_verse_range(value),
    {
        match value {
            PassageSegment::ChapterVerse(cv) => Ok(
                ChapterVerseRange::new(cv.chapter, cv.verse, cv.verse),
            ),
            PassageSegment::ChapterVerseRange(cvr) => Ok(cvr),
            PassageSegment::ChapterRange(cr) => if cr.start.chapter == cr.end.chapter {
                Ok(ChapterVerseRange::new(cr.start.chapter, cr.start.verse, cr.end.verse))
            } else {
                Err(
                    CoerceError {
                        from: SegmentKind::ChapterRange,
                        to: SegmentKind::ChapterVerseRange,
                    },
                )
            },
            PassageSegment::FullChapter(_) => Err(
                CoerceError { from: SegmentKind::FullChapter, to: SegmentKind::ChapterVerseRange },
            ),
            PassageSegment::FullChapterRange(_) => Err(
                CoerceError {
                    from: SegmentKind::FullChapterRange,
                    to: SegmentKind::ChapterVerseRange,
                },
            ),
        }
    }
}

impl ChapterRange {
    /// Narrow the erased union into a cross-chapter range; every
    /// verse-concrete payload qualifies.
    pub fn try_from(value: PassageSegment) -> (r: Result<ChapterRange, CoerceError>)
        ensures
            r == spec_narrow_chapter_range(value),
    {
        match value {
            PassageSegment::ChapterVerse(cv) => Ok(
                ChapterRange::new(cv.chapter, cv.verse, cv.chapter, cv.verse),
            ),
            PassageSegment::ChapterVerseRange(cvr) => Ok(
                ChapterRange::new(cvr.chapter, cvr.verses.start, cvr.chapter, cvr.verses.end),
            ),
            PassageSegment::ChapterRange(cr) => Ok(cr),
            PassageSegment::FullChapter(_) => Err(
                CoerceError { from: SegmentKind::FullChapter, to: SegmentKind::ChapterRange },
            ),
            PassageSegment::FullChapterRange(_) => Err(
                CoerceError { from: SegmentKind::FullChapterRange, to: SegmentKind::ChapterRange },
            ),
        }
    }
}

impl FullChapter {
    /// Narrow the erased union into a whole chapter, when its payload stays
    /// within one chapter.
    pub fn try_from(value: PassageSegment) -> (r: Result<FullChapter, CoerceError>)
        ensures
            r == spec_narrow_full_chapter(value),
    {
        match value {
            PassageSegment::ChapterVerse(cv) => Ok(FullChapter::new(cv.chapter)),
            PassageSegment::ChapterVerseRange(cvr) => Ok(FullChapter::new(cvr.chapter)),
            PassageSegment::ChapterRange(_) => Err(
                CoerceError { from: SegmentKind::ChapterRange, to: SegmentKind::FullChapter },
            ),
            PassageSegment::FullChapter(fc) => Ok(fc),
            PassageSegment::FullChapterRange(_) => Err(
                CoerceError { from: SegmentKind::FullChapterRange, to: SegmentKind::FullChapter },
            ),
        }
    }
}

impl FullChapterRange {
    /// Narrow the erased union into a range of whole chapters; every payload
    /// qualifies, so this never fails.
    pub fn try_from(value: PassageSegment) -> (r: Result<FullChapterRange, CoerceError>)
        ensures
            r == spec_narrow_full_chapter_range(value),
            r is Ok,
    {
        match value {
            PassageSegment::ChapterVerse(cv) => Ok(FullChapterRange::new(cv.chapter, cv.chapter)),
            PassageSegment::ChapterVerseRange(cvr) => Ok(
                FullChapterRange::new(cvr.chapter, cvr.chapter),
            ),
            PassageSegment::ChapterRange(cr) => Ok(
                FullChapterRange::new(cr.start.chapter, cr.end.chapter),
            ),
            PassageSegment::FullChapter(fc) => Ok(FullChapterRange::new(fc.chapter, fc.chapter)),
            PassageSegment::FullChapterRange(fcr) => Ok(fcr),
        }
    }
}

/// Narrowing undoes widening: embedding a point in the erased union and
/// narrowing it back yields the point unchanged.
pub proof fn lemma_narrow_widen_chapter_verse(s: ChapterVerse)
    ensures
        spec_narrow_chapter_verse(s.spec_generalize()) == Ok::<ChapterVerse, CoerceError>(s),
{
}

/// Narrowing undoes widening: embedding a verse range in the erased union and
/// narrowing it back yields the range unchanged.
pub proof fn lemma_narrow_widen_chapter_verse_range(s: ChapterVerseRange)
    ensures
        spec_narrow_chapter_verse_range(s.spec_generalize()) == Ok::<
            ChapterVerseRange,
            CoerceError,
        >(s),
{
}

/// Narrowing undoes widening: embedding a chapter range in the erased union
/// and narrowing it back yields the range unchanged.
pub proof fn lemma_narrow_widen_chapter_range(s: ChapterRange)
    ensures
        spec_narrow_chapter_range(s.spec_generalize()) == Ok::<ChapterRange, CoerceError>(s),
{
}

/// Narrowing undoes widening: embedding a whole chapter in the erased union
/// and narrowing it back yields the chapter unchanged.
pub proof fn lemma_narrow_widen_full_chapter(s: FullChapter)
    ensures
        spec_narrow_full_chapter(s.spec_generalize()) == Ok::<FullChapter, CoerceError>(s),
{
}

/// Narrowing undoes widening: embedding a chapter range in the erased union
/// and narrowing it back yields the range unchanged.
pub proof fn lemma_narrow_widen_full_chapter_range(s: FullChapterRange)
    ensures
        spec_narrow_full_chapter_range(s.spec_generalize()) == Ok::<FullChapterRange, CoerceError>(
            s,
        ),
{
}

} // verus!
