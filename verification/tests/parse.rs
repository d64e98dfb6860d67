//! The reference parser against its grammar, one notation at a time.

use bible_passage::PassageSegment;
use bible_passage::PassageSegments;

fn parse(input: &str) -> Vec<PassageSegment> {
    let parsed = PassageSegments::parse(input).unwrap();
    parsed.0
}

// ChapterVerse: 1:2
#[test]
fn parse_chapter_verse() {
    assert_eq!(parse("1:2"), vec![PassageSegment::chapter_verse(1, 2)]);

    assert_eq!(parse("1.2"), vec![PassageSegment::chapter_verse(1, 2)]);
}

// ChapterVerseRange: 1:2-3
#[test]
fn parse_chapter_verse_range() {
    assert_eq!(parse("1:2-3"), vec![PassageSegment::chapter_verse_range(1, 2, 3)]);
}

// ChapterRange: 1:2-3:4
#[test]
fn parse_chapter_range() {
    assert_eq!(parse("1:2-3:4"), vec![PassageSegment::chapter_range(1, 2, 3, 4)]);
}

// FullChapter: 1
#[test]
fn parse_full_chapter() {
    assert_eq!(parse("1"), vec![PassageSegment::full_chapter(1)]);
}

// FullChapterRange: 1-2
#[test]
fn parse_full_chapter_range() {
    assert_eq!(parse("1-2"), vec![PassageSegment::full_chapter_range(1, 2)]);
}

#[test]
fn parse_change_out_of_chapter() {
    assert_eq!(
        parse("1:1,3-4"),
        vec![
            PassageSegment::chapter_verse(1, 1),
            PassageSegment::chapter_verse_range(1, 3, 4),
        ]
    )
}

// John 1,2-4,5:1-3,5,7-9,12-6:6,7:7-8:8
#[test]
fn parse_combined() {
    // 1
    assert_eq!(parse("1"), vec![PassageSegment::full_chapter(1),]);

    // 1,2-4
    assert_eq!(
        parse("1,2-4"),
        vec![
            PassageSegment::full_chapter(1),
            PassageSegment::full_chapter_range(2, 4),
        ]
    );

    // 1,2-4,5:1-3
    assert_eq!(
        parse("1,2-4,5:1-3"),
        vec![
            PassageSegment::full_chapter(1),
            PassageSegment::full_chapter_range(2, 4),
            PassageSegment::chapter_verse_range(5, 1, 3),
        ]
    );

    // 1,2-4,5:1-3,5
    assert_eq!(
        parse("1,2-4,5:1-3,5"),
        vec![
            PassageSegment::full_chapter(1),
            PassageSegment::full_chapter_range(2, 4),
            PassageSegment::chapter_verse_range(5, 1, 3),
            PassageSegment::chapter_verse(5, 5),
        ]
    );

    // 1,2-4,5:1-3,5,7-9
    assert_eq!(
        parse("1,2-4,5:1-3,5,7-9"),
        vec![
            PassageSegment::full_chapter(1),
            PassageSegment::full_chapter_range(2, 4),
            PassageSegment::chapter_verse_range(5, 1, 3),
            PassageSegment::chapter_verse(5, 5),
            PassageSegment::chapter_verse_range(5, 7, 9),
        ]
    );

    // 1,2-4,5:1-3,5,7-9,12-6:6
    assert_eq!(
        parse("1,2-4,5:1-3,5,7-9,12-6:6"),
        vec![
            PassageSegment::full_chapter(1),
            PassageSegment::full_chapter_range(2, 4),
            PassageSegment::chapter_verse_range(5, 1, 3),
            PassageSegment::chapter_verse(5, 5),
            PassageSegment::chapter_verse_range(5, 7, 9),
            PassageSegment::chapter_range(5, 12, 6, 6),
        ]
    );

    // 1,2-4,5:1-3,5,7-9,12-6:6,7:7-8:8
    assert_eq!(
        parse("1,2-4,5:1-3,5,7-9,12-6:6,7:7-8:8"),
        vec![
            PassageSegment::full_chapter(1),
            PassageSegment::full_chapter_range(2, 4),
            PassageSegment::chapter_verse_range(5, 1, 3),
            PassageSegment::chapter_verse(5, 5),
            PassageSegment::chapter_verse_range(5, 7, 9),
            PassageSegment::chapter_range(5, 12, 6, 6),
            PassageSegment::chapter_range(7, 7, 8, 8),
        ]
    );
}

#[test]
fn roman() {
    assert_eq!(parse("i:2"), vec![PassageSegment::chapter_verse(1, 2)]);
    assert_eq!(parse("iv:2"), vec![PassageSegment::chapter_verse(4, 2)]);
    assert_eq!(parse("v:2"), vec![PassageSegment::chapter_verse(5, 2)]);
}

#[test]
fn parse_segments_chapter_verse() {
    assert_eq!(parse("1:2"), vec![PassageSegment::chapter_verse(1, 2)]);

    assert_eq!(parse("1.2"), vec![PassageSegment::chapter_verse(1, 2)]);
}

#[test]
fn parse_segments_chapter_verse_range() {
    assert_eq!(parse("1:2-3"), vec![PassageSegment::chapter_verse_range(1, 2, 3)]);
}

#[test]
fn parse_segments_chapter_range() {
    assert_eq!(parse("1:2-3:4"), vec![PassageSegment::chapter_range(1, 2, 3, 4)]);
}

#[test]
fn parse_segments_full_chapter() {
    assert_eq!(parse("1"), vec![PassageSegment::full_chapter(1)]);
}

#[test]
fn parse_segments_full_chapter_range() {
    assert_eq!(parse("1-2"), vec![PassageSegment::full_chapter_range(1, 2)]);
}

#[test]
fn parse_segments_change_out_of_chapter() {
    assert_eq!(
        parse("1:1,3-4"),
        vec![
            PassageSegment::chapter_verse(1, 1),
            PassageSegment::chapter_verse_range(1, 3, 4),
        ]
    )
}

#[test]
fn parse_segments_combined() {
    assert_eq!(parse("1"), vec![PassageSegment::full_chapter(1),]);

    assert_eq!(
        parse("1,2-4"),
        vec![
            PassageSegment::full_chapter(1),
            PassageSegment::full_chapter_range(2, 4),
        ]
    );

    assert_eq!(
        parse("1,2-4,5:1-3"),
        vec![
            PassageSegment::full_chapter(1),
            PassageSegment::full_chapter_range(2, 4),
            PassageSegment::chapter_verse_range(5, 1, 3),
        ]
    );

    assert_eq!(
        parse("1,2-4,5:1-3,5"),
        vec![
            PassageSegment::full_chapter(1),
            PassageSegment::full_chapter_range(2, 4),
            PassageSegment::chapter_verse_range(5, 1, 3),
            PassageSegment::chapter_verse(5, 5),
        ]
    );

    assert_eq!(
        parse("1,2-4,5:1-3,5,7-9"),
        vec![
            PassageSegment::full_chapter(1),
            PassageSegment::full_chapter_range(2, 4),
            PassageSegment::chapter_verse_range(5, 1, 3),
            PassageSegment::chapter_verse(5, 5),
            PassageSegment::chapter_verse_range(5, 7, 9),
        ]
    );

    assert_eq!(
        parse("1,2-4,5:1-3,5,7-9,12-6:6"),
        vec![
            PassageSegment::full_chapter(1),
            PassageSegment::full_chapter_range(2, 4),
            PassageSegment::chapter_verse_range(5, 1, 3),
            PassageSegment::chapter_verse(5, 5),
            PassageSegment::chapter_verse_range(5, 7, 9),
            PassageSegment::chapter_range(5, 12, 6, 6),
        ]
    );

    assert_eq!(
        parse("1,2-4,5:1-3,5,7-9,12-6:6,7:7-8:8"),
        vec![
            PassageSegment::full_chapter(1),
            PassageSegment::full_chapter_range(2, 4),
            PassageSegment::chapter_verse_range(5, 1, 3),
            PassageSegment::chapter_verse(5, 5),
            PassageSegment::chapter_verse_range(5, 7, 9),
            PassageSegment::chapter_range(5, 12, 6, 6),
            PassageSegment::chapter_range(7, 7, 8, 8),
        ]
    );
}
