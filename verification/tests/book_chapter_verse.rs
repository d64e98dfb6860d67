//! Validated positions and absolute verse numbering.

use bible_passage::BookChapterVerse;

#[test]
fn new() -> Result<(), String> {
    assert!(BookChapterVerse::new(0, 1, 1).is_err());
    assert!(BookChapterVerse::new(1, 0, 1).is_err());
    assert!(BookChapterVerse::new(1, 1, 0).is_err());
    assert!(BookChapterVerse::new(1, 1, 1).is_ok());
    assert!(BookChapterVerse::new(1, 1, 31).is_ok());
    assert!(BookChapterVerse::new(1, 1, 32).is_err());
    assert!(BookChapterVerse::new(1, 2, 1).is_ok());
    assert!(BookChapterVerse::new(1, 2, 25).is_ok());
    assert!(BookChapterVerse::new(1, 2, 26).is_err());
    assert!(BookChapterVerse::new(1, 50, 26).is_ok());
    assert!(BookChapterVerse::new(1, 50, 27).is_err());
    assert!(BookChapterVerse::new(1, 51, 1).is_err());
    assert!(BookChapterVerse::new(2, 1, 1).is_ok());
    assert!(BookChapterVerse::new(2, 1, 22).is_ok());
    assert!(BookChapterVerse::new(2, 1, 23).is_err());
    assert!(BookChapterVerse::new(67, 1, 1).is_err());

    Ok(())
}

#[test]
fn from_verse() -> Result<(), String> {
    assert_eq!(
        BookChapterVerse::from_verse(1).unwrap(),
        BookChapterVerse::new(1, 1, 1).unwrap()
    );

    assert_eq!(
        BookChapterVerse::from_verse(2).unwrap(),
        BookChapterVerse::new(1, 1, 2).unwrap()
    );

    assert_eq!(
        BookChapterVerse::from_verse(23146).unwrap(),
        BookChapterVerse::new(40, 1, 1).unwrap()
    );

    assert_eq!(
        BookChapterVerse::from_verse(23170).unwrap(),
        BookChapterVerse::new(40, 1, 25).unwrap()
    );

    assert_eq!(
        BookChapterVerse::from_verse(23171).unwrap(),
        BookChapterVerse::new(40, 2, 1).unwrap()
    );

    Ok(())
}

#[test]
fn as_verse() -> Result<(), String> {
    assert_eq!(BookChapterVerse::new(1, 1, 1).unwrap().as_verse(), 1,);

    assert_eq!(BookChapterVerse::new(1, 1, 2).unwrap().as_verse(), 2,);

    assert_eq!(BookChapterVerse::new(40, 1, 1).unwrap().as_verse(), 23146,);

    assert_eq!(BookChapterVerse::new(40, 1, 25).unwrap().as_verse(), 23170,);

    assert_eq!(BookChapterVerse::new(40, 2, 1).unwrap().as_verse(), 23171,);

    Ok(())
}

#[test]
fn from_id_str() -> Result<(), String> {
    assert_eq!(
        BookChapterVerse::from_id_string("01001001").unwrap(),
        BookChapterVerse::new(1, 1, 1).unwrap()
    );

    assert_eq!(
        BookChapterVerse::from_id_string("43011035").unwrap(),
        BookChapterVerse::new(43, 11, 35).unwrap()
    );

    Ok(())
}

#[test]
fn as_id_str() -> Result<(), String> {
    assert_eq!(
        BookChapterVerse::new(1, 1, 1).unwrap().as_id_string(),
        String::from("01001001")
    );

    assert_eq!(
        BookChapterVerse::new(43, 11, 35).unwrap().as_id_string(),
        String::from("43011035")
    );

    Ok(())
}

#[test]
fn remaining_verses() -> Result<(), String> {
    assert_eq!(
        BookChapterVerse::new(1, 1, 1).unwrap().remaining_verses(),
        Some((2, 31))
    );

    assert_eq!(
        BookChapterVerse::new(1, 1, 30).unwrap().remaining_verses(),
        Some((31, 31))
    );

    assert_eq!(BookChapterVerse::new(1, 1, 31).unwrap().remaining_verses(), None);

    Ok(())
}

#[test]
fn iter_remaining_verses() -> Result<(), String> {
    assert_eq!(
        BookChapterVerse::new(1, 1, 1).unwrap().iter_remaining_verses(),
        (2..=31).collect::<Vec<u8>>()
    );

    assert_eq!(
        BookChapterVerse::new(1, 1, 30).unwrap().iter_remaining_verses(),
        (31..=31).collect::<Vec<u8>>()
    );

    assert_eq!(
        BookChapterVerse::new(1, 1, 31).unwrap().iter_remaining_verses(),
        Vec::<u8>::new()
    );

    Ok(())
}

#[test]
fn remaining_chapters() -> Result<(), String> {
    assert_eq!(
        BookChapterVerse::new(1, 1, 1).unwrap().remaining_chapters(),
        Some((2, 50))
    );

    assert_eq!(
        BookChapterVerse::new(1, 49, 1).unwrap().remaining_chapters(),
        Some((50, 50))
    );

    assert_eq!(BookChapterVerse::new(1, 50, 1).unwrap().remaining_chapters(), None);

    Ok(())
}

#[test]
fn iter_remaining_chapters() -> Result<(), String> {
    assert_eq!(
        BookChapterVerse::new(1, 1, 1).unwrap().iter_remaining_chapters(),
        (2..=50).collect::<Vec<u8>>()
    );

    assert_eq!(
        BookChapterVerse::new(1, 49, 1).unwrap().iter_remaining_chapters(),
        (50..=50).collect::<Vec<u8>>()
    );

    assert_eq!(
        BookChapterVerse::new(1, 50, 1).unwrap().iter_remaining_chapters(),
        Vec::<u8>::new()
    );

    Ok(())
}
