//! Parsing, comparing and indexing references into a chapter-and-verse
//! numbered text.
//!
//! Five segment shapes describe a position or span - a single verse, a
//! verse range within one chapter, a range crossing chapters, a whole
//! chapter, and a range of whole chapters - all comparable for overlap
//! through one shared contract. A sanitizing parser turns loosely formatted
//! references such as `"1,2-4,5:1-3,5,7-9,12-6:6,7:7-8:8"` into an ordered
//! list of segments, and the organizers associate arbitrary content with
//! segments of any shape and answer overlap queries across shapes.

pub mod book_chapter_verse;
pub mod book_organizer;
pub mod book_segment;
pub mod compare;
pub mod narrow;
pub mod organizer;
pub mod overlap_map;
pub mod parse;
pub mod segment;
pub mod segments;

pub use segment::ChapterRange;
pub use segment::ChapterVerse;
pub use segment::ChapterVerseRange;
pub use segment::FullChapter;
pub use segment::FullChapterRange;
pub use segment::PassageSegment;
pub use segment::RangePair;

pub use book_segment::BookSegment;
pub use compare::BookPassageContent;
pub use compare::PassageContent;
pub use compare::SegmentCompare;
pub use compare::SegmentOverlap;
pub use narrow::CoerceError;
pub use narrow::SegmentKind;
pub use segments::BookPassageSegments;
pub use segments::PassageSegments;
pub use parse::ParseError;
pub use parse::ParsableSegment;
pub use overlap_map::OverlapKey;
pub use overlap_map::OverlapMap;
pub use organizer::GroupedContent;
pub use organizer::PassageOrganizer;
pub use book_organizer::BibleBookOrganizer;
pub use book_organizer::BibleVerseOrganizer;
pub use book_organizer::BookGroupedContent;
pub use book_organizer::FullBibleOrganizer;
pub use book_chapter_verse::BookChapterVerse;
pub use book_chapter_verse::BookChapterVerseError;
pub use book_chapter_verse::LAST_VERSE;
