//! Organizers that span several books, and book-qualified segment lists.

use bible_passage::BookPassageSegments;
use bible_passage::BookSegment;
use bible_passage::ChapterVerse;
use bible_passage::ChapterVerseRange;
use bible_passage::FullBibleOrganizer;
use bible_passage::BibleVerseOrganizer;
use bible_passage::PassageSegment;
use bible_passage::SegmentOverlap;

#[test]
fn bible_organizer_test() {}

#[test]
fn bible_verse_organizer_test() {
    let mut bible = BibleVerseOrganizer::<String>::new();
    *bible.modify(BookSegment::chapter_verse(1, 1, 1)) =
        String::from("In the beginning God created the heavens and the earth.");

    *bible.modify(ChapterVerse::new(1, 1).with_book(43)) =
        String::from("In the beginning was the Word, and the Word was with God, and the Word was God.");
    *bible.modify(ChapterVerse::new(1, 2).with_book(43)) =
        String::from("He was in the beginning with God.");
    *bible.modify(ChapterVerse::new(1, 3).with_book(43)) =
        String::from("All things were made through him, and without him was not any thing made that was made.");

    println!("{:#?}", bible.get_segment_content(&ChapterVerse::new(1, 1).with_book(1)));

    println!("{:#?}", bible.get_segment_content(&ChapterVerseRange::new(1, 1, 3).with_book(43)));
}

#[test]
fn segments_test() {
    let segs = BookPassageSegments::parse(1, "1:1,3-4").unwrap();
    for seg in segs.iter() {
        println!("{seg:#?}");
    }
}

#[test]
fn bible_verse_organizer_counts() {
    let mut bible = BibleVerseOrganizer::<String>::new();
    *bible.modify(BookSegment::chapter_verse(43, 1, 1)) = String::from("a");
    *bible.modify(BookSegment::chapter_verse(43, 1, 2)) = String::from("b");
    *bible.modify(BookSegment::chapter_verse(43, 1, 3)) = String::from("c");
    *bible.modify(BookSegment::chapter_verse(1, 1, 1)) = String::from("d");

    let one = bible.get_segment_content(&ChapterVerse::new(1, 1).with_book(1));
    assert_eq!(one.len(), 1);
    assert_eq!(one[0].book, 1);
    assert_eq!(one[0].content.as_str(), "d");

    let john = bible.get_segment_content(&ChapterVerseRange::new(1, 1, 3).with_book(43));
    assert_eq!(john.len(), 3);
    assert_eq!(john[0].segment, ChapterVerse::new(1, 1));
    assert_eq!(john[0].content.as_str(), "a");
    assert_eq!(john[2].content.as_str(), "c");

    // writing through the slot of an existing entry keeps one entry
    *bible.modify(BookSegment::chapter_verse(1, 1, 1)) = String::from("e");
    let one = bible.get_segment_content(&ChapterVerse::new(1, 1).with_book(1));
    assert_eq!(one.len(), 1);
    assert_eq!(one[0].content.as_str(), "e");

    // an unknown book finds nothing
    assert_eq!(bible.get_segment_content(&ChapterVerse::new(1, 1).with_book(7)).len(), 0);
}

#[test]
fn full_bible_organizer_across_kinds() {
    let mut org = FullBibleOrganizer::<String>::new();
    *org.modify(BookSegment::chapter_verse_range(43, 2, 1, 2)) = String::from("x");
    *org.modify(BookSegment::chapter_verse_range(43, 2, 3, 4)) = String::from("y");
    *org.modify(BookSegment::chapter_verse_range(43, 2, 2, 7)) = String::from("z");
    *org.modify(BookSegment::full_chapter(43, 2)) = String::from("whole");

    let key = BookSegment::new(43, ChapterVerse::new(2, 2));
    let ranges = org.get_chapter_verse_range_content(&key);
    assert_eq!(ranges.len(), 2);
    assert_eq!(ranges[0].segment, ChapterVerseRange::new(2, 1, 2));
    assert_eq!(ranges[1].segment, ChapterVerseRange::new(2, 2, 7));

    let whole = org.get_full_chapter_content(&key);
    assert_eq!(whole.len(), 1);
    assert_eq!(whole[0].content.as_str(), "whole");

    let all = org.get_all_content(&key);
    assert_eq!(all.len(), 3);
    assert!(all.iter().all(|p| p.book == 43));

    let grouped = org.get_all_content_grouped(&key);
    assert_eq!(grouped.chapter_verse.len(), 0);
    assert_eq!(grouped.chapter_verse_range.len(), 2);
    assert_eq!(grouped.full_chapter.len(), 1);

    // the same span stored in another book stays apart
    assert_eq!(org.get_all_content(&BookSegment::new(1, ChapterVerse::new(2, 2))).len(), 0);
}

#[test]
fn book_segments_overlap_book_aware() {
    let a = BookPassageSegments::parse(1, "1:1,3-4").unwrap();
    let b = BookPassageSegments::parse(1, "1:1").unwrap();
    let c = BookPassageSegments::parse(2, "1:1").unwrap();
    assert!(a.overlaps_with(&b));
    assert!(!a.overlaps_with(&c));

    let erased: Vec<BookSegment<PassageSegment>> = a.iter();
    assert_eq!(erased.len(), 2);
    assert_eq!(erased[0].book, 1);

    assert!(a.segments.overlaps_with(&ChapterVerse::new(1, 3)));
    assert!(!a.segments.overlaps_with(&ChapterVerse::new(2, 1)));
    assert!(a.segments.contains_overlap(&b.segments));
}
