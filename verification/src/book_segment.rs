//! A segment together with the identifier of the book it belongs to.

use vstd::prelude::*;

use crate::compare::SegmentCompare;
use crate::segment::ChapterRange;
use crate::segment::ChapterVerse;
use crate::segment::ChapterVerseRange;
use crate::segment::FullChapter;
use crate::segment::FullChapterRange;
use crate::segment::PassageSegment;
use crate::segment::RangePair;

verus! {

/// A segment of any shape, qualified by a 1-based book identifier.
#[derive(Copy, Clone, Debug, PartialEq, Eq)]
pub struct BookSegment<Segment> {
    pub book: u8,
    pub segment: Segment,
}

impl BookSegment<ChapterVerse> {
    pub fn chapter_verse(book: u8, chapter: u8, verse: u8) -> (s: BookSegment<ChapterVerse>)
        ensures
            s.book == book,
            s.segment == (ChapterVerse { chapter, verse }),
    {
        BookSegment::new(book, ChapterVerse::new(chapter, verse))
    }
}

impl BookSegment<ChapterVerseRange> {
    pub fn chapter_verse_range(book: u8, chapter: u8, start_verse: u8, end_verse: u8) -> (s:
        BookSegment<ChapterVerseRange>)
        ensures
            s.book == book,
            s.segment == (ChapterVerseRange {
                chapter,
                verses: RangePair { start: start_verse, end: end_verse },
            }),
    {
        BookSegment::new(book, ChapterVerseRange::new(chapter, start_verse, end_verse))
    }
}

impl BookSegment<ChapterRange> {
    pub fn chapter_range(
        book: u8,
        start_chapter: u8,
        start_verse: u8,
        end_chapter: u8,
        end_verse: u8,
    ) -> (s: BookSegment<ChapterRange>)
        ensures
            s.book == book,
            s.segment == (ChapterRange {
                start: ChapterVerse { chapter: start_chapter, verse: start_verse },
                end: ChapterVerse { chapter: end_chapter, verse: end_verse },
            }),
    {
        BookSegment::new(book, ChapterRange::new(start_chapter, start_verse, end_chapter, end_verse))
    }
}

impl BookSegment<FullChapter> {
    pub fn full_chapter(book: u8, chapter: u8) -> (s: BookSegment<FullChapter>)
        ensures
            s.book == book,
            s.segment == (FullChapter { chapter }),
    {
        BookSegment::new(book, FullChapter::new(chapter))
    }
}

impl BookSegment<FullChapterRange> {
    pub fn full_chapter_range(book: u8, start: u8, end: u8) -> (s: BookSegment<FullChapterRange>)
        ensures
            s.book == book,
            s.segment == (FullChapterRange {
                start: FullChapter { chapter: start },
                end: FullChapter { chapter: end },
            }),
    {
        BookSegment::new(book, FullChapterRange::new(start, end))
    }
}

impl<Segment: SegmentCompare> BookSegment<Segment> {
    pub fn new(book: u8, segment: Segment) -> (s: Self)
        ensures
            s.book == book,
            s.segment == segment,
    {
        BookSegment { book, segment }
    }

    /// Erase the segment's shape while keeping the book qualifier.
    pub fn generalize(self) -> (r: BookSegment<PassageSegment>)
        ensures
            r.book == self.book,
            r.segment == self.segment.spec_generalize(),
    {
        BookSegment { book: self.book, segment: self.segment.generalize() }
    }
}

} // verus!
