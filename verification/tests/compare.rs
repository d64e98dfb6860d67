//! Overlap behaviour across every pair of segment shapes.

use bible_passage::PassageSegment;
use bible_passage::SegmentOverlap;

fn double_overlap(this: PassageSegment, other: PassageSegment) -> bool {
    let does_overlap = this.overlaps_with(&other);
    let is_overlapped = other.overlaps_with(&this);
    assert_eq!(does_overlap, is_overlapped);
    does_overlap
}

#[test]
fn compare_chapter_verse() {
    let this = PassageSegment::chapter_verse(3, 3);

    // ChapterVerse
    assert!(double_overlap(this, PassageSegment::chapter_verse(3, 3)));

    assert!(!double_overlap(this, PassageSegment::chapter_verse(2, 3)));
    assert!(!double_overlap(this, PassageSegment::chapter_verse(3, 2)));

    assert!(!double_overlap(this, PassageSegment::chapter_verse(4, 3)));
    assert!(!double_overlap(this, PassageSegment::chapter_verse(3, 4)));

    // ChapterVerseRange
    assert!(double_overlap(this, PassageSegment::chapter_verse_range(3, 3, 3)));

    assert!(double_overlap(this, PassageSegment::chapter_verse_range(3, 1, 3)));
    assert!(double_overlap(this, PassageSegment::chapter_verse_range(3, 3, 4)));
    assert!(double_overlap(this, PassageSegment::chapter_verse_range(3, 1, 4)));

    assert!(!double_overlap(this, PassageSegment::chapter_verse_range(1, 3, 3)));
    assert!(!double_overlap(this, PassageSegment::chapter_verse_range(1, 1, 3)));
    assert!(!double_overlap(this, PassageSegment::chapter_verse_range(1, 1, 4)));
    assert!(!double_overlap(this, PassageSegment::chapter_verse_range(1, 3, 4)));

    assert!(!double_overlap(this, PassageSegment::chapter_verse_range(4, 3, 3)));
    assert!(!double_overlap(this, PassageSegment::chapter_verse_range(4, 1, 3)));
    assert!(!double_overlap(this, PassageSegment::chapter_verse_range(4, 1, 4)));
    assert!(!double_overlap(this, PassageSegment::chapter_verse_range(4, 3, 4)));

    // ChapterRange
    assert!(double_overlap(this, PassageSegment::chapter_range(3, 3, 3, 3)));

    assert!(double_overlap(this, PassageSegment::chapter_range(1, 1, 3, 3)));
    assert!(double_overlap(this, PassageSegment::chapter_range(1, 3, 3, 3)));

    assert!(double_overlap(this, PassageSegment::chapter_range(3, 3, 4, 1)));
    assert!(double_overlap(this, PassageSegment::chapter_range(3, 3, 4, 3)));
    assert!(double_overlap(this, PassageSegment::chapter_range(3, 3, 4, 4)));

    assert!(!double_overlap(this, PassageSegment::chapter_range(3, 4, 4, 4)));
    assert!(!double_overlap(this, PassageSegment::chapter_range(1, 1, 3, 1)));

    // FullChapter
    assert!(double_overlap(this, PassageSegment::full_chapter(3)));

    assert!(!double_overlap(this, PassageSegment::full_chapter(2)));
    assert!(!double_overlap(this, PassageSegment::full_chapter(4)));

    // FullChapterRange
    assert!(double_overlap(this, PassageSegment::full_chapter_range(3, 3)));
    assert!(double_overlap(this, PassageSegment::full_chapter_range(1, 3)));
    assert!(double_overlap(this, PassageSegment::full_chapter_range(3, 4)));
    assert!(double_overlap(this, PassageSegment::full_chapter_range(1, 4)));

    assert!(!double_overlap(this, PassageSegment::full_chapter_range(1, 2)));
    assert!(!double_overlap(this, PassageSegment::full_chapter_range(4, 5)));
}

#[test]
fn compare_chapter_verse_range() {
    let this = PassageSegment::chapter_verse_range(3, 3, 7);

    // ChapterVerseRange
    assert!(double_overlap(this, PassageSegment::chapter_verse_range(3, 3, 7)));

    assert!(double_overlap(this, PassageSegment::chapter_verse_range(3, 1, 3)));
    assert!(double_overlap(this, PassageSegment::chapter_verse_range(3, 4, 6)));
    assert!(double_overlap(this, PassageSegment::chapter_verse_range(3, 7, 8)));

    assert!(!double_overlap(this, PassageSegment::chapter_verse_range(2, 3, 7)));
    assert!(!double_overlap(this, PassageSegment::chapter_verse_range(2, 1, 3)));
    assert!(!double_overlap(this, PassageSegment::chapter_verse_range(2, 4, 6)));
    assert!(!double_overlap(this, PassageSegment::chapter_verse_range(2, 7, 8)));

    assert!(!double_overlap(this, PassageSegment::chapter_verse_range(2, 3, 7)));
    assert!(!double_overlap(this, PassageSegment::chapter_verse_range(2, 1, 3)));
    assert!(!double_overlap(this, PassageSegment::chapter_verse_range(2, 4, 6)));
    assert!(!double_overlap(this, PassageSegment::chapter_verse_range(2, 7, 8)));

    // ChapterRange
    assert!(double_overlap(this, PassageSegment::chapter_range(3, 3, 3, 7)));

    assert!(double_overlap(this, PassageSegment::chapter_range(1, 1, 3, 3)));
    assert!(double_overlap(this, PassageSegment::chapter_range(1, 1, 3, 7)));

    assert!(double_overlap(this, PassageSegment::chapter_range(3, 3, 4, 4)));
    assert!(double_overlap(this, PassageSegment::chapter_range(3, 7, 4, 4)));

    assert!(double_overlap(this, PassageSegment::chapter_range(3, 4, 3, 6)));

    assert!(!double_overlap(this, PassageSegment::chapter_range(1, 1, 3, 2)));
    assert!(!double_overlap(this, PassageSegment::chapter_range(3, 8, 4, 4)));

    // FullChapter
    assert!(double_overlap(this, PassageSegment::full_chapter(3)));

    assert!(!double_overlap(this, PassageSegment::full_chapter(2)));
    assert!(!double_overlap(this, PassageSegment::full_chapter(4)));

    // FullChapterRange
    assert!(double_overlap(this, PassageSegment::full_chapter_range(3, 3)));
    assert!(double_overlap(this, PassageSegment::full_chapter_range(1, 3)));
    assert!(double_overlap(this, PassageSegment::full_chapter_range(3, 4)));
    assert!(double_overlap(this, PassageSegment::full_chapter_range(1, 4)));

    assert!(!double_overlap(this, PassageSegment::full_chapter_range(1, 2)));
    assert!(!double_overlap(this, PassageSegment::full_chapter_range(4, 5)));
}

#[test]
fn compare_chapter_range() {
    let this = PassageSegment::chapter_range(3, 3, 4, 4);

    // ChapterRange
    assert!(double_overlap(this, PassageSegment::chapter_range(3, 3, 4, 4)));

    assert!(double_overlap(this, PassageSegment::chapter_range(1, 1, 3, 3)));
    assert!(double_overlap(this, PassageSegment::chapter_range(1, 1, 4, 4)));

    assert!(double_overlap(this, PassageSegment::chapter_range(3, 3, 5, 5)));
    assert!(double_overlap(this, PassageSegment::chapter_range(4, 4, 5, 5)));

    assert!(double_overlap(this, PassageSegment::chapter_range(3, 4, 3, 6)));
    assert!(double_overlap(this, PassageSegment::chapter_range(4, 1, 4, 3)));

    assert!(!double_overlap(this, PassageSegment::chapter_range(1, 1, 3, 2)));
    assert!(!double_overlap(this, PassageSegment::chapter_range(4, 5, 5, 5)));

    // FullChapter
    assert!(double_overlap(this, PassageSegment::full_chapter(3)));
    assert!(double_overlap(this, PassageSegment::full_chapter(4)));

    assert!(!double_overlap(this, PassageSegment::full_chapter(2)));
    assert!(!double_overlap(this, PassageSegment::full_chapter(5)));

    // FullChapterRange
    assert!(double_overlap(this, PassageSegment::full_chapter_range(3, 4)));
    assert!(double_overlap(this, PassageSegment::full_chapter_range(1, 3)));
    assert!(double_overlap(this, PassageSegment::full_chapter_range(4, 5)));
    assert!(double_overlap(this, PassageSegment::full_chapter_range(1, 5)));

    assert!(!double_overlap(this, PassageSegment::full_chapter_range(1, 2)));
    assert!(!double_overlap(this, PassageSegment::full_chapter_range(5, 6)));
}

#[test]
fn compare_full_chapter() {
    let this = PassageSegment::full_chapter(3);

    // FullChapter
    assert!(double_overlap(this, PassageSegment::full_chapter(3)));

    assert!(!double_overlap(this, PassageSegment::full_chapter(2)));
    assert!(!double_overlap(this, PassageSegment::full_chapter(4)));

    // FullChapterRange
    assert!(double_overlap(this, PassageSegment::full_chapter_range(1, 3)));
    assert!(double_overlap(this, PassageSegment::full_chapter_range(3, 4)));

    assert!(!double_overlap(this, PassageSegment::full_chapter_range(1, 2)));
    assert!(!double_overlap(this, PassageSegment::full_chapter_range(4, 6)));
}

#[test]
fn compare_full_chapter_range() {
    let this = PassageSegment::full_chapter_range(3, 4);

    // FullChapterRange
    assert!(double_overlap(this, PassageSegment::full_chapter_range(3, 4)));
    assert!(double_overlap(this, PassageSegment::full_chapter_range(1, 3)));
    assert!(double_overlap(this, PassageSegment::full_chapter_range(4, 5)));
    assert!(double_overlap(this, PassageSegment::full_chapter_range(1, 5)));

    assert!(!double_overlap(this, PassageSegment::full_chapter_range(1, 2)));
    assert!(!double_overlap(this, PassageSegment::full_chapter_range(5, 6)));
}
