//! Overlap queries against the range-indexed content store.

use bible_passage::ChapterRange;
use bible_passage::ChapterVerse;
use bible_passage::ChapterVerseRange;
use bible_passage::FullChapter;
use bible_passage::FullChapterRange;
use bible_passage::PassageOrganizer;

#[test]
fn organizer_chapter_verse() {
    let mut org = PassageOrganizer::<()>::new();
    for ch in 1..=3 {
        for v in 1..=3 {
            org.modify(ChapterVerse::new(ch, v));
        }
    }

    assert_eq!(org.iter_chapter_verse_content(&ChapterVerse::new(1, 1)).len(), 1);
    assert_eq!(org.iter_chapter_verse_content(&ChapterVerse::new(4, 1)).len(), 0);

    assert_eq!(org.iter_chapter_verse_content(&ChapterVerseRange::new(1, 1, 4)).len(), 3);
    assert_eq!(org.iter_chapter_verse_content(&ChapterVerseRange::new(4, 1, 2)).len(), 0);

    assert_eq!(org.iter_chapter_verse_content(&ChapterRange::new(1, 1, 2, 1)).len(), 4);
    assert_eq!(org.iter_chapter_verse_content(&ChapterRange::new(4, 1, 5, 1)).len(), 0);

    assert_eq!(org.iter_chapter_verse_content(&FullChapter::new(2)).len(), 3);
    assert_eq!(org.iter_chapter_verse_content(&FullChapter::new(4)).len(), 0);

    assert_eq!(org.iter_chapter_verse_content(&FullChapterRange::new(1, 2)).len(), 6);
    assert_eq!(org.iter_chapter_verse_content(&FullChapterRange::new(4, 5)).len(), 0);
}

#[test]
fn organizer_chapter_verse_range() {
    let mut org = PassageOrganizer::<()>::new();
    org.modify(ChapterVerseRange::new(2, 1, 2));
    org.modify(ChapterVerseRange::new(2, 3, 4));
    org.modify(ChapterVerseRange::new(2, 2, 7));

    assert_eq!(org.iter_chapter_verse_range_content(&ChapterVerse::new(2, 1)).len(), 1);
    assert_eq!(org.iter_chapter_verse_range_content(&ChapterVerse::new(2, 2)).len(), 2);
    assert_eq!(org.iter_chapter_verse_range_content(&ChapterVerse::new(4, 1)).len(), 0);

    assert_eq!(org.iter_chapter_verse_range_content(&ChapterVerseRange::new(2, 1, 4)).len(), 3);
    assert_eq!(org.iter_chapter_verse_range_content(&ChapterVerseRange::new(4, 1, 2)).len(), 0);

    assert_eq!(org.iter_chapter_verse_range_content(&ChapterRange::new(1, 1, 2, 2)).len(), 2);
    assert_eq!(org.iter_chapter_verse_range_content(&ChapterRange::new(4, 1, 5, 1)).len(), 0);

    assert_eq!(org.iter_chapter_verse_range_content(&FullChapter::new(2)).len(), 3);
    assert_eq!(org.iter_chapter_verse_range_content(&FullChapter::new(4)).len(), 0);

    assert_eq!(org.iter_chapter_verse_range_content(&FullChapterRange::new(1, 2)).len(), 3);
    assert_eq!(org.iter_chapter_verse_range_content(&FullChapterRange::new(4, 5)).len(), 0);
}

#[test]
fn organizer_chapter_range() {
    let mut org = PassageOrganizer::<()>::new();
    org.modify(ChapterRange::new(2, 1, 3, 3));
    org.modify(ChapterRange::new(2, 4, 3, 7));
    org.modify(ChapterRange::new(1, 1, 4, 3));

    assert_eq!(org.iter_chapter_range_content(&ChapterVerse::new(2, 1)).len(), 2);
    assert_eq!(org.iter_chapter_range_content(&ChapterVerse::new(2, 4)).len(), 3);
    assert_eq!(org.iter_chapter_range_content(&ChapterVerse::new(4, 1)).len(), 1);
    assert_eq!(org.iter_chapter_range_content(&ChapterVerse::new(5, 1)).len(), 0);

    assert_eq!(org.iter_chapter_range_content(&ChapterVerseRange::new(2, 1, 4)).len(), 3);
    assert_eq!(org.iter_chapter_range_content(&ChapterVerseRange::new(2, 5, 8)).len(), 3);
    assert_eq!(org.iter_chapter_range_content(&ChapterVerseRange::new(4, 1, 2)).len(), 1);
    assert_eq!(org.iter_chapter_range_content(&ChapterVerseRange::new(5, 1, 2)).len(), 0);

    assert_eq!(org.iter_chapter_range_content(&ChapterRange::new(1, 1, 2, 2)).len(), 2);
    assert_eq!(org.iter_chapter_range_content(&ChapterRange::new(4, 1, 5, 1)).len(), 1);
    assert_eq!(org.iter_chapter_range_content(&ChapterRange::new(4, 4, 5, 1)).len(), 0);

    assert_eq!(org.iter_chapter_range_content(&FullChapter::new(2)).len(), 3);
    assert_eq!(org.iter_chapter_range_content(&FullChapter::new(4)).len(), 1);
    assert_eq!(org.iter_chapter_range_content(&FullChapter::new(5)).len(), 0);

    assert_eq!(org.iter_chapter_range_content(&FullChapterRange::new(1, 2)).len(), 3);
    assert_eq!(org.iter_chapter_range_content(&FullChapterRange::new(4, 5)).len(), 1);
}

#[test]
fn organizer_full_chapter() {
    let mut org = PassageOrganizer::<()>::new();
    for ch in 1..=3 {
        org.modify(FullChapter::new(ch));
    }

    assert_eq!(org.iter_full_chapter_content(&ChapterVerse::new(1, 1)).len(), 1);
    assert_eq!(org.iter_full_chapter_content(&ChapterVerse::new(4, 1)).len(), 0);

    assert_eq!(org.iter_full_chapter_content(&ChapterVerseRange::new(1, 1, 2)).len(), 1);
    assert_eq!(org.iter_full_chapter_content(&ChapterVerseRange::new(4, 1, 2)).len(), 0);

    assert_eq!(org.iter_full_chapter_content(&ChapterRange::new(1, 1, 2, 1)).len(), 2);
    assert_eq!(org.iter_full_chapter_content(&ChapterRange::new(4, 1, 5, 1)).len(), 0);

    assert_eq!(org.iter_full_chapter_content(&FullChapter::new(2)).len(), 1);
    assert_eq!(org.iter_full_chapter_content(&FullChapter::new(4)).len(), 0);

    assert_eq!(org.iter_full_chapter_content(&FullChapterRange::new(1, 2)).len(), 2);
    assert_eq!(org.iter_full_chapter_content(&FullChapterRange::new(4, 5)).len(), 0);
}

#[test]
fn organizer_full_chapter_range() {
    let mut org = PassageOrganizer::<()>::new();
    // 1-3, 2-4, 3-5
    for start in 1..=3 {
        org.modify(FullChapterRange::new(start, start + 2));
    }

    assert_eq!(org.iter_full_chapter_range_content(&ChapterVerse::new(1, 1)).len(), 1);
    assert_eq!(org.iter_full_chapter_range_content(&ChapterVerse::new(6, 1)).len(), 0);

    assert_eq!(org.iter_full_chapter_range_content(&ChapterVerseRange::new(1, 1, 2)).len(), 1);
    assert_eq!(org.iter_full_chapter_range_content(&ChapterVerseRange::new(6, 1, 2)).len(), 0);

    assert_eq!(org.iter_full_chapter_range_content(&ChapterRange::new(1, 1, 2, 1)).len(), 2);
    assert_eq!(org.iter_full_chapter_range_content(&ChapterRange::new(6, 1, 7, 1)).len(), 0);

    assert_eq!(org.iter_full_chapter_range_content(&FullChapter::new(2)).len(), 2);
    assert_eq!(org.iter_full_chapter_range_content(&FullChapter::new(6)).len(), 0);

    assert_eq!(org.iter_full_chapter_range_content(&FullChapterRange::new(1, 2)).len(), 2);
    assert_eq!(org.iter_full_chapter_range_content(&FullChapterRange::new(6, 7)).len(), 0);
}
