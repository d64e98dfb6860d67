//! The stated laws of the library, checked on concrete values, together
//! with the failure modes of parsing and narrowing.

use bible_passage::ChapterRange;
use bible_passage::ChapterVerse;
use bible_passage::ChapterVerseRange;
use bible_passage::CoerceError;
use bible_passage::FullChapter;
use bible_passage::FullChapterRange;
use bible_passage::ParsableSegment;
use bible_passage::ParseError;
use bible_passage::PassageOrganizer;
use bible_passage::PassageSegment;
use bible_passage::PassageSegments;
use bible_passage::SegmentCompare;
use bible_passage::SegmentKind;
use bible_passage::SegmentOverlap;

// overlap is symmetric and reflexive across shapes
#[test]
fn overlap_symmetric_and_reflexive() {
    let segments = vec![
        PassageSegment::chapter_verse(3, 3),
        PassageSegment::chapter_verse_range(3, 1, 4),
        PassageSegment::chapter_range(2, 5, 4, 1),
        PassageSegment::full_chapter(3),
        PassageSegment::full_chapter_range(2, 4),
    ];
    for a in &segments {
        assert!(a.overlaps_with(a));
        for b in &segments {
            assert_eq!(a.overlaps_with(b), b.overlaps_with(a));
        }
    }

    assert!(ChapterVerse::new(3, 3).overlaps_with(&ChapterVerseRange::new(3, 1, 4)));
    assert!(!ChapterVerse::new(3, 3).overlaps_with(&ChapterVerse::new(2, 3)));
}

// canonicalization picks the most specific shape and is idempotent
#[test]
fn actual_canonicalizes_and_is_idempotent() {
    let degenerate = ChapterVerseRange::new(3, 5, 5);
    let actual = degenerate.actual();
    assert_eq!(actual, PassageSegment::chapter_verse(3, 5));
    assert_eq!(actual.actual(), actual);

    let same_chapter = ChapterRange::new(3, 2, 3, 6);
    assert_eq!(same_chapter.actual(), PassageSegment::chapter_verse_range(3, 2, 6));

    let whole = FullChapterRange::new(4, 4);
    assert_eq!(whole.actual(), PassageSegment::full_chapter(4));

    let kept = ChapterRange::new(3, 2, 4, 6);
    assert_eq!(kept.actual(), PassageSegment::chapter_range(3, 2, 4, 6));
    assert_eq!(kept.actual().actual(), kept.actual());
}

// narrowing undoes widening for every shape
#[test]
fn narrow_widen_round_trip() {
    let cv = ChapterVerse::new(3, 4);
    assert_eq!(ChapterVerse::try_from(cv.generalize()), Ok(cv));

    let cvr = ChapterVerseRange::new(3, 4, 6);
    assert_eq!(ChapterVerseRange::try_from(cvr.generalize()), Ok(cvr));

    let cr = ChapterRange::new(3, 4, 5, 6);
    assert_eq!(ChapterRange::try_from(cr.generalize()), Ok(cr));

    let fc = FullChapter::new(7);
    assert_eq!(FullChapter::try_from(fc.generalize()), Ok(fc));

    let fcr = FullChapterRange::new(7, 9);
    assert_eq!(FullChapterRange::try_from(fcr.generalize()), Ok(fcr));
}

// compatible same-chapter payloads narrow; incompatible wider ones are refused
#[test]
fn narrowing_compatibility() {
    let degenerate = PassageSegment::chapter_verse_range(3, 5, 5);
    assert_eq!(ChapterVerse::try_from(degenerate), Ok(ChapterVerse::new(3, 5)));

    let same_chapter = PassageSegment::chapter_range(3, 2, 3, 6);
    assert_eq!(
        ChapterVerseRange::try_from(same_chapter),
        Ok(ChapterVerseRange::new(3, 2, 6))
    );

    let wide = PassageSegment::chapter_range(3, 2, 4, 6);
    assert_eq!(
        ChapterVerse::try_from(wide),
        Err(CoerceError { from: SegmentKind::ChapterRange, to: SegmentKind::ChapterVerse })
    );
    assert_eq!(
        ChapterVerseRange::try_from(wide),
        Err(CoerceError { from: SegmentKind::ChapterRange, to: SegmentKind::ChapterVerseRange })
    );
    assert_eq!(
        FullChapter::try_from(PassageSegment::full_chapter_range(2, 4)),
        Err(CoerceError { from: SegmentKind::FullChapterRange, to: SegmentKind::FullChapter })
    );
}

// parsing the same text twice yields identical segment lists
#[test]
fn parser_deterministic() {
    let input = "1,2-4,5:1-3,5,7-9,12-6:6,7:7-8:8";
    let first = PassageSegments::parse(input).unwrap();
    let second = PassageSegments::parse(input).unwrap();
    assert_eq!(first, second);
}

// the two parse failures stay distinguishable
#[test]
fn parse_errors() {
    assert_eq!(PassageSegments::parse("hello"), Err(ParseError::NoMatch));
    assert_eq!(PassageSegments::parse(""), Err(ParseError::NoMatch));
    assert_eq!(PassageSegments::parse("300"), Err(ParseError::MalformedNumber));
    assert_eq!(PassageSegments::parse("1-2-3"), Err(ParseError::MalformedNumber));
    assert_eq!(PassageSegments::parse("1:2:3"), Err(ParseError::MalformedNumber));

    // the match stops at the first character outside the grammar
    let trailing = PassageSegments::parse("1:2 and so on").unwrap();
    assert_eq!(trailing.0, vec![PassageSegment::chapter_verse(1, 2)]);
}

// strict typed parsing takes exactly one notation; the forgiving form coerces
#[test]
fn typed_parsing() {
    assert_eq!(ChapterVerse::parse_strict("1:2"), Ok(ChapterVerse::new(1, 2)));
    assert_eq!(ChapterVerse::parse_strict("1.2"), Err(ParseError::UnexpectedFormat));
    assert_eq!(ChapterVerse::parse("1.2"), Ok(ChapterVerse::new(1, 2)));
    assert_eq!(
        ChapterVerse::parse("1:2,3:4"),
        Err(ParseError::NotSingleSegment)
    );
    assert_eq!(
        ChapterVerse::parse("1-2"),
        Err(ParseError::Incompatible(CoerceError {
            from: SegmentKind::FullChapterRange,
            to: SegmentKind::ChapterVerse,
        }))
    );

    assert_eq!(
        ChapterVerseRange::parse_strict("1:2-3"),
        Ok(ChapterVerseRange::new(1, 2, 3))
    );
    assert_eq!(FullChapter::parse_strict("12"), Ok(FullChapter::new(12)));
    assert_eq!(
        FullChapterRange::parse_strict("1-2"),
        Ok(FullChapterRange::new(1, 2))
    );
    assert_eq!(
        ChapterRange::parse_strict("1-2:3-4"),
        Ok(ChapterRange::new(1, 2, 3, 4))
    );

    assert_eq!(PassageSegment::parse("1:2"), Ok(PassageSegment::chapter_verse(1, 2)));
}

// storing through different spellings of one span shares one slot
#[test]
fn organizer_canonical_slots() {
    let mut org = PassageOrganizer::<u32>::new();
    *org.modify(ChapterVerseRange::new(3, 5, 5)) += 1;
    *org.modify(ChapterVerse::new(3, 5)) += 1;
    *org.modify(ChapterRange::new(3, 5, 3, 5)) += 1;

    let found = org.get_chapter_verse_content(&ChapterVerse::new(3, 5));
    assert_eq!(found.len(), 1);
    assert_eq!(*found[0].content, 3);
    assert_eq!(org.get_chapter_verse_range_content(&ChapterVerse::new(3, 5)).len(), 0);
}

// the stored ranges overlapping a point come back exactly, in order
#[test]
fn organizer_overlap_scenario() {
    let mut org = PassageOrganizer::<()>::new();
    org.modify(ChapterVerseRange::new(2, 1, 2));
    org.modify(ChapterVerseRange::new(2, 3, 4));
    org.modify(ChapterVerseRange::new(2, 2, 7));

    let found = org.get_chapter_verse_range_content(&ChapterVerse::new(2, 2));
    assert_eq!(found.len(), 2);
    assert_eq!(found[0].segment, ChapterVerseRange::new(2, 1, 2));
    assert_eq!(found[1].segment, ChapterVerseRange::new(2, 2, 7));
}

// a whole-chapter query finds verse-level content, and the other way round
#[test]
fn organizer_cross_kind_queries() {
    let mut org = PassageOrganizer::<()>::new();
    org.modify(ChapterVerseRange::new(2, 3, 9));
    org.modify(FullChapter::new(2));

    assert_eq!(org.get_chapter_verse_range_content(&FullChapter::new(2)).len(), 1);
    assert_eq!(org.get_full_chapter_content(&ChapterVerse::new(2, 5)).len(), 1);
    assert_eq!(org.get_all_content(&ChapterVerse::new(2, 5)).len(), 2);

    let grouped = org.get_all_content_grouped(&ChapterVerse::new(2, 5));
    assert_eq!(grouped.chapter_verse_range.len(), 1);
    assert_eq!(grouped.full_chapter.len(), 1);
    assert_eq!(grouped.chapter_verse.len(), 0);
}

// the four accessors behind every comparison
#[test]
fn accessors() {
    let cr = ChapterRange::new(3, 2, 4, 6);
    assert_eq!(cr.starting_chapter(), 3);
    assert_eq!(cr.starting_verse(), 2);
    assert_eq!(cr.ending_chapter(), 4);
    assert_eq!(cr.ending_verse(), Some(6));
    assert_eq!(cr.chapter_range(), (3, 4));
    assert_eq!(cr.verse_range(3), (2, None));
    assert_eq!(cr.verse_range(4), (1, Some(6)));

    let fc = FullChapter::new(3);
    assert_eq!(fc.starting_verse(), 1);
    assert_eq!(fc.ending_verse(), None);

    // an unbounded ending never ends before anything in its own chapter
    assert!(!fc.ends_before(&ChapterVerse::new(3, 200)));
    assert!(ChapterVerse::new(3, 200).starts_after(&ChapterVerse::new(3, 1)));
}
