//! Organizers that span several books.
//!
//! Each keeps one store per book, keyed by the book's identifier, and
//! dispatches every operation to the store of the book the key names.

use vstd::prelude::*;

use crate::book_segment::BookSegment;
use crate::compare::BookPassageContent;
use crate::compare::PassageContent;
use crate::compare::SegmentCompare;
use crate::overlap_map::spec_modify_post;
use crate::overlap_map::spec_overlapping;
use crate::overlap_map::OverlapMap;
use crate::organizer::spec_store_modify_post;
use crate::organizer::GroupedContent;
use crate::organizer::PassageOrganizer;
use crate::segment::ChapterRange;
use crate::segment::ChapterVerse;
use crate::segment::ChapterVerseRange;
use crate::segment::FullChapter;
use crate::segment::FullChapterRange;
use crate::segment::PassageSegment;

verus! {

/// The first position at or after `i` whose book is at or above `book`; the
/// entry count when there is none.
pub open spec fn spec_book_lower_bound<V>(s: Seq<(u8, V)>, book: u8, i: int) -> int
    decreases s.len() - i,
{
    if 0 <= i < s.len() && s[i].0 < book {
        spec_book_lower_bound(s, book, i + 1)
    } else {
        i
    }
}

/// A lower bound search never moves backward.
proof fn lemma_book_lower_bound_ge<V>(s: Seq<(u8, V)>, book: u8, i: int)
    ensures
        spec_book_lower_bound(s, book, i) >= i,
    decreases s.len() - i,
{
    if 0 <= i < s.len() && s[i].0 < book {
        lemma_book_lower_bound_ge(s, book, i + 1);
    }
}

/// A lower bound search never leaves the entries.
proof fn lemma_book_lower_bound_le<V>(s: Seq<(u8, V)>, book: u8, i: int)
    requires
        0 <= i <= s.len(),
    ensures
        spec_book_lower_bound(s, book, i) <= s.len(),
    decreases s.len() - i,
{
    if 0 <= i < s.len() && s[i].0 < book {
        lemma_book_lower_bound_le(s, book, i + 1);
    }
}

/// The value stored for `book` at or after position `i`, when there is one.
pub open spec fn spec_book_find_at<V>(s: Seq<(u8, V)>, book: u8, i: int) -> Option<V>
    decreases s.len() - i,
{
    if i < 0 || i >= s.len() {
        None
    } else if s[i].0 == book {
        Some(s[i].1)
    } else {
        spec_book_find_at(s, book, i + 1)
    }
}

/// The value stored for `book`, when there is one.
pub open spec fn spec_book_find<V>(s: Seq<(u8, V)>, book: u8) -> Option<V> {
    spec_book_find_at(s, book, 0)
}

/// How one per-book `modify` call changes the shelf of stores: with `pos`
/// the book's ordered position, either the book's entry is replaced in
/// place, or a fresh entry for the book is inserted at `pos`; the new
/// entry's value is whatever now stands at `pos`.
pub open spec fn spec_shelf_modify_post<V>(s_old: Seq<(u8, V)>, s_new: Seq<(u8, V)>, book: u8) -> bool {
    let pos = spec_book_lower_bound(s_old, book, 0);
    if pos < s_old.len() && s_old[pos].0 == book {
        s_new =~= s_old.update(pos, (book, s_new[pos].1))
    } else {
        s_new =~= s_old.insert(pos, (book, s_new[pos].1))
    }
}

/// A shelf of per-book values, in ascending book order.
pub struct BookMap<V> {
    entries: Vec<(u8, V)>,
}

impl<V> BookMap<V> {
    /// the entries, in ascending book order
    pub closed spec fn spec_entries(self) -> Seq<(u8, V)> {
        self.entries@
    }

    /// book identifiers strictly ascending
    pub open spec fn wf(self) -> bool {
        forall|i: int, j: int|
            0 <= i < j < self.spec_entries().len() ==> (#[trigger] self.spec_entries()[i]).0 < (
            #[trigger] self.spec_entries()[j]).0
    }

    /// An empty shelf.
    pub fn new() -> (r: Self)
        ensures
            r.wf(),
            r.spec_entries().len() == 0,
    {
        BookMap { entries: Vec::new() }
    }

    /// The value stored for `book`, when there is one.
    pub fn get(&self, book: u8) -> (r: Option<&V>)
        ensures
            r is Some <==> spec_book_find(self.spec_entries(), book) is Some,
            r is Some ==> *r->0 == spec_book_find(self.spec_entries(), book)->0 && exists|i: int|
                0 <= i < self.spec_entries().len() && #[trigger] self.spec_entries()[i] == (
                    book,
                    *r->0,
                ),
    {
        let ghost s = self.entries@;
        let n = self.entries.len();
        let mut i: usize = 0;
        while i < n
            invariant
                0 <= i <= n,
                n == s.len(),
                s == self.entries@,
                spec_book_find_at(s, book, 0) == spec_book_find_at(s, book, i as int),
            decreases n - i,
        {
            if self.entries[i].0 == book {
                return Some(&self.entries[i].1);
            }
            i = i + 1;
        }
        None
    }
}

impl<V: Default> BookMap<V> {
    /// The value for `book`, inserting a default one at its ordered position
    /// when the book is new.
    pub fn modify(&mut self, book: u8) -> (c: &mut V)
        requires
            old(self).wf(),
        ensures
            final(self).wf(),
            spec_shelf_modify_post(old(self).spec_entries(), final(self).spec_entries(), book),
            ({
                let s = old(self).spec_entries();
                let pos = spec_book_lower_bound(s, book, 0);
                if pos < s.len() && s[pos].0 == book {
                    *c == s[pos].1 && final(self).spec_entries() == s.update(
                        pos,
                        (book, *final(c)),
                    )
                } else {
                    call_ensures(V::default, (), *c) && final(self).spec_entries() == s.insert(
                        pos,
                        (book, *final(c)),
                    )
                }
            }),
            ({
                let s = old(self).spec_entries();
                let pos = spec_book_lower_bound(s, book, 0);
                let fs = final(self).spec_entries();
                0 <= pos && fs[pos] == (book, *final(c)) && (if pos < s.len() && s[pos].0 == book {
                    fs.len() == s.len() && (forall|i: int|
                        0 <= i < fs.len() && i != pos ==> #[trigger] fs[i] == s[i])
                } else {
                    fs.len() == s.len() + 1 && (forall|i: int|
                        0 <= i < pos ==> #[trigger] fs[i] == s[i]) && (forall|i: int|
                        pos < i < fs.len() ==> #[trigger] fs[i] == s[i - 1])
                })
            }),
    {
        let ghost s = self.entries@;
        proof {
            lemma_book_lower_bound_ge(s, book, 0);
        }
        let n = self.entries.len();
        let mut i: usize = 0;
        while i < n && self.entries[i].0 < book
            invariant
                0 <= i <= n,
                n == self.entries@.len(),
                self.entries@ == s,
                spec_book_lower_bound(s, book, 0) == spec_book_lower_bound(s, book, i as int),
                forall|j: int| 0 <= j < i ==> (#[trigger] s[j]).0 < book,
            decreases n - i,
        {
            i = i + 1;
        }
        if i < n && self.entries[i].0 == book {
            return &mut self.entries[i].1;
        }
        self.entries.insert(i, (book, V::default()));
        &mut self.entries[i].1
    }
}

/// Append every found pairing to `acc`, qualified with the book it was
/// found in.
fn add_book<'a, S: SegmentCompare, C>(items: Vec<PassageContent<'a, S, C>>, book: u8) -> (r: Vec<
    BookPassageContent<'a, S, C>,
>)
    ensures
        r@.len() == items@.len(),
        forall|i: int|
            0 <= i < items@.len() ==> (#[trigger] r@[i]).book == book && r@[i].segment == items@[
                i
            ].segment && r@[i].content == items@[i].content,
{
    let n = items.len();
    let mut r: Vec<BookPassageContent<'a, S, C>> = Vec::new();
    let mut j: usize = 0;
    while j < n
        invariant
            n == items@.len(),
            0 <= j <= n,
            r@.len() == j,
            forall|i: int|
                0 <= i < j ==> (#[trigger] r@[i]).book == book && r@[i].segment == items@[i].segment
                    && r@[i].content == items@[i].content,
        decreases n - j,
    {
        let seg = items[j].segment;
        r.push(BookPassageContent { book, segment: seg, content: items[j].content });
        j = j + 1;
    }
    r
}

/// A per-book store of verse-level content, the shape in which the text of
/// a book itself is kept: content attaches to single chapter/verse points
/// only, and any segment shape can query the overlapping points.
pub struct BibleBookOrganizer<Content> {
    chapter_verse: OverlapMap<ChapterVerse, Content>,
}

impl<Content> BibleBookOrganizer<Content> {
    /// the stored point entries, in ascending order
    pub closed spec fn spec_chapter_verse(self) -> Seq<(ChapterVerse, Content)> {
        self.chapter_verse.spec_entries()
    }

    /// the entries are in ascending key order
    pub closed spec fn wf(self) -> bool {
        self.chapter_verse.wf()
    }

    /// An empty store.
    pub fn new() -> (r: Self)
        ensures
            r.wf(),
            r.spec_chapter_verse() == Seq::<(ChapterVerse, Content)>::empty(),
    {
        BibleBookOrganizer { chapter_verse: OverlapMap::new() }
    }

    /// Every stored point that overlaps the query, with its content, in
    /// ascending order.
    pub fn iter_segment_content<'a, Q: SegmentCompare>(&'a self, key: &Q) -> (r: Vec<
        PassageContent<'a, ChapterVerse, Content>,
    >)
        requires
            self.wf(),
        ensures
            ({
                let olap = spec_overlapping(
                    self.spec_chapter_verse(),
                    key.spec_starting_chapter(),
                    key.spec_starting_verse(),
                    key.spec_ending_chapter(),
                    key.spec_ending_verse(),
                );
                r@.len() == olap.len() && forall|i: int|
                    0 <= i < olap.len() ==> (#[trigger] r@[i]).segment == olap[i].0
                        && r@[i].content == olap[i].1
            }),
    {
        self.chapter_verse.scan(key)
    }

    /// See `iter_segment_content`.
    pub fn get_segment_content<'a, Q: SegmentCompare>(&'a self, key: &Q) -> (r: Vec<
        PassageContent<'a, ChapterVerse, Content>,
    >)
        requires
            self.wf(),
        ensures
            ({
                let olap = spec_overlapping(
                    self.spec_chapter_verse(),
                    key.spec_starting_chapter(),
                    key.spec_starting_verse(),
                    key.spec_ending_chapter(),
                    key.spec_ending_verse(),
                );
                r@.len() == olap.len() && forall|i: int|
                    0 <= i < olap.len() ==> (#[trigger] r@[i]).segment == olap[i].0
                        && r@[i].content == olap[i].1
            }),
    {
        self.iter_segment_content(key)
    }
}

impl<Content: Default> BibleBookOrganizer<Content> {
    /// The slot a point owns, inserting a default container when the point
    /// is new.
    pub fn modify(&mut self, seg: ChapterVerse) -> (c: &mut Content)
        requires
            old(self).wf(),
        ensures
            final(self).wf(),
            spec_modify_post(
                old(self).spec_chapter_verse(),
                final(self).spec_chapter_verse(),
                seg,
                *c,
                *final(c),
            ),
            !old(self).spec_contains_verse(seg) ==> call_ensures(Content::default, (), *c),
    {
        self.chapter_verse.modify(seg)
    }

    /// whether some entry holds exactly this point
    pub open spec fn spec_contains_verse(self, seg: ChapterVerse) -> bool {
        exists|i: int|
            0 <= i < self.spec_chapter_verse().len() && (#[trigger] self.spec_chapter_verse()[i]).0
                == seg
    }
}

impl<Content> Default for BibleBookOrganizer<Content> {
    /// An empty store.
    fn default() -> (r: Self)
        ensures
            r.wf(),
            r.spec_chapter_verse() == Seq::<(ChapterVerse, Content)>::empty(),
    {
        BibleBookOrganizer::new()
    }
}

/// Verse-level content for every book of the whole text: one
/// `BibleBookOrganizer` per book.
pub struct BibleVerseOrganizer<Content> {
    pub chapter_verse: BookMap<BibleBookOrganizer<Content>>,
}

impl<Content> BibleVerseOrganizer<Content> {
    /// the per-book stores, in ascending book order
    pub open spec fn spec_books(self) -> Seq<(u8, BibleBookOrganizer<Content>)> {
        self.chapter_verse.spec_entries()
    }

    /// books ascending, every book's store well formed
    pub open spec fn wf(self) -> bool {
        self.chapter_verse.wf() && forall|i: int|
            0 <= i < self.spec_books().len() ==> (#[trigger] self.spec_books()[i]).1.wf()
    }

    /// An empty store.
    pub fn new() -> (r: Self)
        ensures
            r.wf(),
            r.spec_books().len() == 0,
    {
        BibleVerseOrganizer { chapter_verse: BookMap::new() }
    }

    /// Every stored point of the key's book that overlaps the key's segment,
    /// with its content and book, in ascending order.
    pub fn iter_segment_content<'a, Q: SegmentCompare>(&'a self, key: &BookSegment<Q>) -> (r: Vec<
        BookPassageContent<'a, ChapterVerse, Content>,
    >)
        requires
            self.wf(),
        ensures
            ({
                match spec_book_find(self.spec_books(), key.book) {
                    None => r@.len() == 0,
                    Some(o) => {
                        let olap = spec_overlapping(
                            o.spec_chapter_verse(),
                            key.segment.spec_starting_chapter(),
                            key.segment.spec_starting_verse(),
                            key.segment.spec_ending_chapter(),
                            key.segment.spec_ending_verse(),
                        );
                        r@.len() == olap.len() && forall|i: int|
                            0 <= i < olap.len() ==> (#[trigger] r@[i]).book == key.book
                                && r@[i].segment == olap[i].0 && r@[i].content == olap[i].1
                    },
                }
            }),
    {
        match self.chapter_verse.get(key.book) {
            None => Vec::new(),
            Some(org) => add_book(org.iter_segment_content(&key.segment), key.book),
        }
    }

    /// See `iter_segment_content`.
    pub fn get_segment_content<'a, Q: SegmentCompare>(&'a self, key: &BookSegment<Q>) -> (r: Vec<
        BookPassageContent<'a, ChapterVerse, Content>,
    >)
        requires
            self.wf(),
        ensures
            ({
                match spec_book_find(self.spec_books(), key.book) {
                    None => r@.len() == 0,
                    Some(o) => {
                        let olap = spec_overlapping(
                            o.spec_chapter_verse(),
                            key.segment.spec_starting_chapter(),
                            key.segment.spec_starting_verse(),
                            key.segment.spec_ending_chapter(),
                            key.segment.spec_ending_verse(),
                        );
                        r@.len() == olap.len() && forall|i: int|
                            0 <= i < olap.len() ==> (#[trigger] r@[i]).book == key.book
                                && r@[i].segment == olap[i].0 && r@[i].content == olap[i].1
                    },
                }
            }),
    {
        self.iter_segment_content(key)
    }
}

impl<Content: Default> BibleVerseOrganizer<Content> {
    /// The slot a book-qualified point owns, creating the book's store and
    /// the point's slot as needed; the stores of all other books stay
    /// untouched.
    pub fn modify(&mut self, key: BookSegment<ChapterVerse>) -> (c: &mut Content)
        requires
            old(self).wf(),
        ensures
            final(self).wf(),
            spec_shelf_modify_post(old(self).spec_books(), final(self).spec_books(), key.book),
            ({
                let s = old(self).spec_books();
                let pos = spec_book_lower_bound(s, key.book, 0);
                let found = pos < s.len() && s[pos].0 == key.book;
                let old_cv = if found {
                    s[pos].1.spec_chapter_verse()
                } else {
                    Seq::<(ChapterVerse, Content)>::empty()
                };
                let fs = final(self).spec_books();
                fs[pos].0 == key.book && spec_modify_post(
                    old_cv,
                    fs[pos].1.spec_chapter_verse(),
                    key.segment,
                    *c,
                    *final(c),
                )
            }),
    {
        let ghost s = self.chapter_verse.spec_entries();
        let ghost pos = spec_book_lower_bound(s, key.book, 0);
        proof {
            lemma_book_lower_bound_ge(s, key.book, 0);
            lemma_book_lower_bound_le(s, key.book, 0);
            assert forall|i: int| 0 <= i < s.len() implies (#[trigger] s[i]).1.wf() by {
                assert(old(self).spec_books()[i] == s[i]);
                assert(old(self).spec_books()[i].1.wf());
            }
        }
        let org = self.chapter_verse.modify(key.book);
        proof {
            if pos < s.len() && s[pos].0 == key.book {
                assert(*org == s[pos].1);
            } else {
                assert(call_ensures(
                    <BibleBookOrganizer<Content> as Default>::default,
                    (),
                    *org,
                ));
            }
            assert(org.wf());
        }
        org.modify(key.segment)
    }
}

/// Content found by one whole-text overlap query, grouped by the shape of
/// the stored segment it was attached to, each pairing qualified with its
/// book.
pub struct BookGroupedContent<'a, Container> {
    pub chapter_verse: Vec<BookPassageContent<'a, ChapterVerse, Container>>,
    pub chapter_verse_range: Vec<BookPassageContent<'a, ChapterVerseRange, Container>>,
    pub chapter_range: Vec<BookPassageContent<'a, ChapterRange, Container>>,
    pub full_chapter: Vec<BookPassageContent<'a, FullChapter, Container>>,
    pub full_chapter_range: Vec<BookPassageContent<'a, FullChapterRange, Container>>,
}

/// A range-indexed content store for the whole text: one `PassageOrganizer`
/// per book.
pub struct FullBibleOrganizer<Container> {
    pub books: BookMap<PassageOrganizer<Container>>,
}

impl<Container> FullBibleOrganizer<Container> {
    /// the per-book stores, in ascending book order
    pub open spec fn spec_books(self) -> Seq<(u8, PassageOrganizer<Container>)> {
        self.books.spec_entries()
    }

    /// books ascending, every book's store well formed
    pub open spec fn wf(self) -> bool {
        self.books.wf() && forall|i: int|
            0 <= i < self.spec_books().len() ==> (#[trigger] self.spec_books()[i]).1.wf()
    }

    /// An empty store.
    pub fn new() -> (r: Self)
        ensures
            r.wf(),
            r.spec_books().len() == 0,
    {
        FullBibleOrganizer { books: BookMap::new() }
    }
}

impl<Container: Default> FullBibleOrganizer<Container> {
    /// The slot a book-qualified segment's canonical form owns, creating
    /// the book's store and the canonical slot as needed; the stores of all
    /// other books stay untouched.
    pub fn modify<S: SegmentCompare>(&mut self, key: BookSegment<S>) -> (c: &mut Container)
        requires
            old(self).wf(),
        ensures
            final(self).wf(),
            spec_shelf_modify_post(old(self).spec_books(), final(self).spec_books(), key.book),
            ({
                let s = old(self).spec_books();
                let pos = spec_book_lower_bound(s, key.book, 0);
                let found = pos < s.len() && s[pos].0 == key.book;
                let o_cv = if found {
                    s[pos].1.spec_chapter_verse()
                } else {
                    Seq::<(ChapterVerse, Container)>::empty()
                };
                let o_cvr = if found {
                    s[pos].1.spec_chapter_verse_range()
                } else {
                    Seq::<(ChapterVerseRange, Container)>::empty()
                };
                let o_cr = if found {
                    s[pos].1.spec_chapter_range()
                } else {
                    Seq::<(ChapterRange, Container)>::empty()
                };
                let o_fc = if found {
                    s[pos].1.spec_full_chapter()
                } else {
                    Seq::<(FullChapter, Container)>::empty()
                };
                let o_fcr = if found {
                    s[pos].1.spec_full_chapter_range()
                } else {
                    Seq::<(FullChapterRange, Container)>::empty()
                };
                let v_new = final(self).spec_books()[pos].1;
                final(self).spec_books()[pos].0 == key.book && spec_store_modify_post(
                    o_cv,
                    v_new.spec_chapter_verse(),
                    o_cvr,
                    v_new.spec_chapter_verse_range(),
                    o_cr,
                    v_new.spec_chapter_range(),
                    o_fc,
                    v_new.spec_full_chapter(),
                    o_fcr,
                    v_new.spec_full_chapter_range(),
                    key.segment.spec_starting_chapter(),
                    key.segment.spec_starting_verse(),
                    key.segment.spec_ending_chapter(),
                    key.segment.spec_ending_verse(),
                    *c,
                    *final(c),
                )
            }),
    {
        let ghost s = self.books.spec_entries();
        let ghost pos = spec_book_lower_bound(s, key.book, 0);
        proof {
            lemma_book_lower_bound_ge(s, key.book, 0);
            lemma_book_lower_bound_le(s, key.book, 0);
            assert forall|i: int| 0 <= i < s.len() implies (#[trigger] s[i]).1.wf() by {
                assert(old(self).spec_books()[i] == s[i]);
                assert(old(self).spec_books()[i].1.wf());
            }
        }
        let org = self.books.modify(key.book);
        proof {
            if pos < s.len() && s[pos].0 == key.book {
                assert(*org == s[pos].1);
            } else {
                assert(call_ensures(
                    <PassageOrganizer<Container> as Default>::default,
                    (),
                    *org,
                ));
            }
            assert(org.wf());
        }
        org.modify(key.segment)
    }
}

impl<Container> FullBibleOrganizer<Container> {

    /// Every stored point of the key's book that overlaps the key's segment,
    /// with its content and book, in ascending key order.
    pub fn iter_chapter_verse_content<'a, Q: SegmentCompare>(&'a self, key: &BookSegment<Q>) -> (r: Vec<
        BookPassageContent<'a, ChapterVerse, Container>,
    >)
        requires
            self.wf(),
        ensures
            ({
                match spec_book_find(self.spec_books(), key.book) {
                    None => r@.len() == 0,
                    Some(o) => {
                        let olap = spec_overlapping(
                            o.spec_chapter_verse(),
                            key.segment.spec_starting_chapter(),
                            key.segment.spec_starting_verse(),
                            key.segment.spec_ending_chapter(),
                            key.segment.spec_ending_verse(),
                        );
                        r@.len() == olap.len() && forall|i: int|
                            0 <= i < olap.len() ==> (#[trigger] r@[i]).book == key.book
                                && r@[i].segment == olap[i].0 && r@[i].content == olap[i].1
                    },
                }
            }),
    {
        match self.books.get(key.book) {
            None => Vec::new(),
            Some(org) => add_book(org.iter_chapter_verse_content(&key.segment), key.book),
        }
    }

    /// See `iter_chapter_verse_content`.
    pub fn get_chapter_verse_content<'a, Q: SegmentCompare>(&'a self, key: &BookSegment<Q>) -> (r: Vec<
        BookPassageContent<'a, ChapterVerse, Container>,
    >)
        requires
            self.wf(),
        ensures
            ({
                match spec_book_find(self.spec_books(), key.book) {
                    None => r@.len() == 0,
                    Some(o) => {
                        let olap = spec_overlapping(
                            o.spec_chapter_verse(),
                            key.segment.spec_starting_chapter(),
                            key.segment.spec_starting_verse(),
                            key.segment.spec_ending_chapter(),
                            key.segment.spec_ending_verse(),
                        );
                        r@.len() == olap.len() && forall|i: int|
                            0 <= i < olap.len() ==> (#[trigger] r@[i]).book == key.book
                                && r@[i].segment == olap[i].0 && r@[i].content == olap[i].1
                    },
                }
            }),
    {
        self.iter_chapter_verse_content(key)
    }

    /// Every stored verse range of the key's book that overlaps the key's segment,
    /// with its content and book, in ascending key order.
    pub fn iter_chapter_verse_range_content<'a, Q: SegmentCompare>(&'a self, key: &BookSegment<Q>) -> (r: Vec<
        BookPassageContent<'a, ChapterVerseRange, Container>,
    >)
        requires
            self.wf(),
        ensures
            ({
                match spec_book_find(self.spec_books(), key.book) {
                    None => r@.len() == 0,
                    Some(o) => {
                        let olap = spec_overlapping(
                            o.spec_chapter_verse_range(),
                            key.segment.spec_starting_chapter(),
                            key.segment.spec_starting_verse(),
                            key.segment.spec_ending_chapter(),
                            key.segment.spec_ending_verse(),
                        );
                        r@.len() == olap.len() && forall|i: int|
                            0 <= i < olap.len() ==> (#[trigger] r@[i]).book == key.book
                                && r@[i].segment == olap[i].0 && r@[i].content == olap[i].1
                    },
                }
            }),
    {
        match self.books.get(key.book) {
            None => Vec::new(),
            Some(org) => add_book(org.iter_chapter_verse_range_content(&key.segment), key.book),
        }
    }

    /// See `iter_chapter_verse_range_content`.
    pub fn get_chapter_verse_range_content<'a, Q: SegmentCompare>(&'a self, key: &BookSegment<Q>) -> (r: Vec<
        BookPassageContent<'a, ChapterVerseRange, Container>,
    >)
        requires
            self.wf(),
        ensures
            ({
                match spec_book_find(self.spec_books(), key.book) {
                    None => r@.len() == 0,
                    Some(o) => {
                        let olap = spec_overlapping(
                            o.spec_chapter_verse_range(),
                            key.segment.spec_starting_chapter(),
                            key.segment.spec_starting_verse(),
                            key.segment.spec_ending_chapter(),
                            key.segment.spec_ending_verse(),
                        );
                        r@.len() == olap.len() && forall|i: int|
                            0 <= i < olap.len() ==> (#[trigger] r@[i]).book == key.book
                                && r@[i].segment == olap[i].0 && r@[i].content == olap[i].1
                    },
                }
            }),
    {
        self.iter_chapter_verse_range_content(key)
    }

    /// Every stored cross-chapter range of the key's book that overlaps the key's segment,
    /// with its content and book, in ascending key order.
    pub fn iter_chapter_range_content<'a, Q: SegmentCompare>(&'a self, key: &BookSegment<Q>) -> (r: Vec<
        BookPassageContent<'a, ChapterRange, Container>,
    >)
        requires
            self.wf(),
        ensures
            ({
                match spec_book_find(self.spec_books(), key.book) {
                    None => r@.len() == 0,
                    Some(o) => {
                        let olap = spec_overlapping(
                            o.spec_chapter_range(),
                            key.segment.spec_starting_chapter(),
                            key.segment.spec_starting_verse(),
                            key.segment.spec_ending_chapter(),
                            key.segment.spec_ending_verse(),
                        );
                        r@.len() == olap.len() && forall|i: int|
                            0 <= i < olap.len() ==> (#[trigger] r@[i]).book == key.book
                                && r@[i].segment == olap[i].0 && r@[i].content == olap[i].1
                    },
                }
            }),
    {
        match self.books.get(key.book) {
            None => Vec::new(),
            Some(org) => add_book(org.iter_chapter_range_content(&key.segment), key.book),
        }
    }

    /// See `iter_chapter_range_content`.
    pub fn get_chapter_range_content<'a, Q: SegmentCompare>(&'a self, key: &BookSegment<Q>) -> (r: Vec<
        BookPassageContent<'a, ChapterRange, Container>,
    >)
        requires
            self.wf(),
        ensures
            ({
                match spec_book_find(self.spec_books(), key.book) {
                    None => r@.len() == 0,
                    Some(o) => {
                        let olap = spec_overlapping(
                            o.spec_chapter_range(),
                            key.segment.spec_starting_chapter(),
                            key.segment.spec_starting_verse(),
                            key.segment.spec_ending_chapter(),
                            key.segment.spec_ending_verse(),
                        );
                        r@.len() == olap.len() && forall|i: int|
                            0 <= i < olap.len() ==> (#[trigger] r@[i]).book == key.book
                                && r@[i].segment == olap[i].0 && r@[i].content == olap[i].1
                    },
                }
            }),
    {
        self.iter_chapter_range_content(key)
    }

    /// Every stored whole chapter of the key's book that overlaps the key's segment,
    /// with its content and book, in ascending key order.
    pub fn iter_full_chapter_content<'a, Q: SegmentCompare>(&'a self, key: &BookSegment<Q>) -> (r: Vec<
        BookPassageContent<'a, FullChapter, Container>,
    >)
        requires
            self.wf(),
        ensures
            ({
                match spec_book_find(self.spec_books(), key.book) {
                    None => r@.len() == 0,
                    Some(o) => {
                        let olap = spec_overlapping(
                            o.spec_full_chapter(),
                            key.segment.spec_starting_chapter(),
                            key.segment.spec_starting_verse(),
                            key.segment.spec_ending_chapter(),
                            key.segment.spec_ending_verse(),
                        );
                        r@.len() == olap.len() && forall|i: int|
                            0 <= i < olap.len() ==> (#[trigger] r@[i]).book == key.book
                                && r@[i].segment == olap[i].0 && r@[i].content == olap[i].1
                    },
                }
            }),
    {
        match self.books.get(key.book) {
            None => Vec::new(),
            Some(org) => add_book(org.iter_full_chapter_content(&key.segment), key.book),
        }
    }

    /// See `iter_full_chapter_content`.
    pub fn get_full_chapter_content<'a, Q: SegmentCompare>(&'a self, key: &BookSegment<Q>) -> (r: Vec<
        BookPassageContent<'a, FullChapter, Container>,
    >)
        requires
            self.wf(),
        ensures
            ({
                match spec_book_find(self.spec_books(), key.book) {
                    None => r@.len() == 0,
                    Some(o) => {
                        let olap = spec_overlapping(
                            o.spec_full_chapter(),
                            key.segment.spec_starting_chapter(),
                            key.segment.spec_starting_verse(),
                            key.segment.spec_ending_chapter(),
                            key.segment.spec_ending_verse(),
                        );
                        r@.len() == olap.len() && forall|i: int|
                            0 <= i < olap.len() ==> (#[trigger] r@[i]).book == key.book
                                && r@[i].segment == olap[i].0 && r@[i].content == olap[i].1
                    },
                }
            }),
    {
        self.iter_full_chapter_content(key)
    }

    /// Every stored whole-chapter range of the key's book that overlaps the key's segment,
    /// with its content and book, in ascending key order.
    pub fn iter_full_chapter_range_content<'a, Q: SegmentCompare>(&'a self, key: &BookSegment<Q>) -> (r: Vec<
        BookPassageContent<'a, FullChapterRange, Container>,
    >)
        requires
            self.wf(),
        ensures
            ({
                match spec_book_find(self.spec_books(), key.book) {
                    None => r@.len() == 0,
                    Some(o) => {
                        let olap = spec_overlapping(
                            o.spec_full_chapter_range(),
                            key.segment.spec_starting_chapter(),
                            key.segment.spec_starting_verse(),
                            key.segment.spec_ending_chapter(),
                            key.segment.spec_ending_verse(),
                        );
                        r@.len() == olap.len() && forall|i: int|
                            0 <= i < olap.len() ==> (#[trigger] r@[i]).book == key.book
                                && r@[i].segment == olap[i].0 && r@[i].content == olap[i].1
                    },
                }
            }),
    {
        match self.books.get(key.book) {
            None => Vec::new(),
            Some(org) => add_book(org.iter_full_chapter_range_content(&key.segment), key.book),
        }
    }

    /// See `iter_full_chapter_range_content`.
    pub fn get_full_chapter_range_content<'a, Q: SegmentCompare>(&'a self, key: &BookSegment<Q>) -> (r: Vec<
        BookPassageContent<'a, FullChapterRange, Container>,
    >)
        requires
            self.wf(),
        ensures
            ({
                match spec_book_find(self.spec_books(), key.book) {
                    None => r@.len() == 0,
                    Some(o) => {
                        let olap = spec_overlapping(
                            o.spec_full_chapter_range(),
                            key.segment.spec_starting_chapter(),
                            key.segment.spec_starting_verse(),
                            key.segment.spec_ending_chapter(),
                            key.segment.spec_ending_verse(),
                        );
                        r@.len() == olap.len() && forall|i: int|
                            0 <= i < olap.len() ==> (#[trigger] r@[i]).book == key.book
                                && r@[i].segment == olap[i].0 && r@[i].content == olap[i].1
                    },
                }
            }),
    {
        self.iter_full_chapter_range_content(key)
    }

    /// The overlap query's answers from all five per-shape maps of the key's
    /// book, grouped by the stored shape, each pairing qualified with the
    /// book.
    pub fn get_all_content_grouped<'a, Q: SegmentCompare>(&'a self, key: &BookSegment<Q>) -> (r:
        BookGroupedContent<'a, Container>)
        requires
            self.wf(),
        ensures
            ({
                match spec_book_find(self.spec_books(), key.book) {
                    None => r.chapter_verse@.len() == 0 && r.chapter_verse_range@.len() == 0
                        && r.chapter_range@.len() == 0 && r.full_chapter@.len() == 0
                        && r.full_chapter_range@.len() == 0,
                    Some(o) => {
                        let olap = spec_overlapping(
                            o.spec_chapter_verse(),
                            key.segment.spec_starting_chapter(),
                            key.segment.spec_starting_verse(),
                            key.segment.spec_ending_chapter(),
                            key.segment.spec_ending_verse(),
                        );
                        r.chapter_verse@.len() == olap.len() && forall|i: int|
                            0 <= i < olap.len() ==> (#[trigger] r.chapter_verse@[i]).book
                                == key.book && r.chapter_verse@[i].segment == olap[i].0
                                && r.chapter_verse@[i].content == olap[i].1
                    },
                }
            }),
            ({
                match spec_book_find(self.spec_books(), key.book) {
                    None => true,
                    Some(o) => {
                        let olap = spec_overlapping(
                            o.spec_chapter_verse_range(),
                            key.segment.spec_starting_chapter(),
                            key.segment.spec_starting_verse(),
                            key.segment.spec_ending_chapter(),
                            key.segment.spec_ending_verse(),
                        );
                        r.chapter_verse_range@.len() == olap.len() && forall|i: int|
                            0 <= i < olap.len() ==> (#[trigger] r.chapter_verse_range@[i]).book
                                == key.book && r.chapter_verse_range@[i].segment == olap[i].0
                                && r.chapter_verse_range@[i].content == olap[i].1
                    },
                }
            }),
            ({
                match spec_book_find(self.spec_books(), key.book) {
                    None => true,
                    Some(o) => {
                        let olap = spec_overlapping(
                            o.spec_chapter_range(),
                            key.segment.spec_starting_chapter(),
                            key.segment.spec_starting_verse(),
                            key.segment.spec_ending_chapter(),
                            key.segment.spec_ending_verse(),
                        );
                        r.chapter_range@.len() == olap.len() && forall|i: int|
                            0 <= i < olap.len() ==> (#[trigger] r.chapter_range@[i]).book
                                == key.book && r.chapter_range@[i].segment == olap[i].0
                                && r.chapter_range@[i].content == olap[i].1
                    },
                }
            }),
            ({
                match spec_book_find(self.spec_books(), key.book) {
                    None => true,
                    Some(o) => {
                        let olap = spec_overlapping(
                            o.spec_full_chapter(),
                            key.segment.spec_starting_chapter(),
                            key.segment.spec_starting_verse(),
                            key.segment.spec_ending_chapter(),
                            key.segment.spec_ending_verse(),
                        );
                        r.full_chapter@.len() == olap.len() && forall|i: int|
                            0 <= i < olap.len() ==> (#[trigger] r.full_chapter@[i]).book
                                == key.book && r.full_chapter@[i].segment == olap[i].0
                                && r.full_chapter@[i].content == olap[i].1
                    },
                }
            }),
            ({
                match spec_book_find(self.spec_books(), key.book) {
                    None => true,
                    Some(o) => {
                        let olap = spec_overlapping(
                            o.spec_full_chapter_range(),
                            key.segment.spec_starting_chapter(),
                            key.segment.spec_starting_verse(),
                            key.segment.spec_ending_chapter(),
                            key.segment.spec_ending_verse(),
                        );
                        r.full_chapter_range@.len() == olap.len() && forall|i: int|
                            0 <= i < olap.len() ==> (#[trigger] r.full_chapter_range@[i]).book
                                == key.book && r.full_chapter_range@[i].segment == olap[i].0
                                && r.full_chapter_range@[i].content == olap[i].1
                    },
                }
            }),
    {
        BookGroupedContent {
            chapter_verse: self.get_chapter_verse_content(key),
            chapter_verse_range: self.get_chapter_verse_range_content(key),
            chapter_range: self.get_chapter_range_content(key),
            full_chapter: self.get_full_chapter_content(key),
            full_chapter_range: self.get_full_chapter_range_content(key),
        }
    }

    /// Every stored entry of any shape in the key's book that overlaps the
    /// key's segment, erased into the union, with its content and book: the
    /// per-shape answers one shape after another, each in ascending key
    /// order.
    pub fn iter_all_content<'a, Q: SegmentCompare>(&'a self, key: &BookSegment<Q>) -> (r: Vec<
        BookPassageContent<'a, PassageSegment, Container>,
    >)
        requires
            self.wf(),
        ensures
            spec_book_find(self.spec_books(), key.book) is None ==> r@.len() == 0,
            forall|i: int| 0 <= i < r@.len() ==> (#[trigger] r@[i]).book == key.book,
            ({
                match spec_book_find(self.spec_books(), key.book) {
                    None => true,
                    Some(o) => {
                        let q_sc = key.segment.spec_starting_chapter();
                        let q_sv = key.segment.spec_starting_verse();
                        let q_ec = key.segment.spec_ending_chapter();
                        let q_ev = key.segment.spec_ending_verse();
                        let o1 = spec_overlapping(o.spec_chapter_verse(), q_sc, q_sv, q_ec, q_ev);
                        let o2 = spec_overlapping(
                            o.spec_chapter_verse_range(),
                            q_sc,
                            q_sv,
                            q_ec,
                            q_ev,
                        );
                        let o3 = spec_overlapping(o.spec_chapter_range(), q_sc, q_sv, q_ec, q_ev);
                        let o4 = spec_overlapping(o.spec_full_chapter(), q_sc, q_sv, q_ec, q_ev);
                        let o5 = spec_overlapping(
                            o.spec_full_chapter_range(),
                            q_sc,
                            q_sv,
                            q_ec,
                            q_ev,
                        );
                        r@.len() == o1.len() + o2.len() + o3.len() + o4.len() + o5.len() && (
                        forall|i: int|
                            0 <= i < o1.len() ==> (#[trigger] r@[i]).segment == o1[
                                i
                            ].0.spec_generalize() && r@[i].content == o1[i].1) && (forall|i: int|
                            0 <= i < o2.len() ==> (#[trigger] r@[o1.len() + i]).segment == o2[
                                i
                            ].0.spec_generalize() && r@[o1.len() + i].content == o2[i].1) && (
                        forall|i: int|
                            0 <= i < o3.len() ==> (#[trigger] r@[o1.len() + o2.len() + i]).segment
                                == o3[i].0.spec_generalize() && r@[o1.len() + o2.len() + i].content
                                == o3[i].1) && (forall|i: int|
                            0 <= i < o4.len() ==> (#[trigger] r@[o1.len() + o2.len() + o3.len()
                                + i]).segment == o4[i].0.spec_generalize() && r@[o1.len()
                                + o2.len() + o3.len() + i].content == o4[i].1) && (forall|i: int|
                            0 <= i < o5.len() ==> (#[trigger] r@[o1.len() + o2.len() + o3.len()
                                + o4.len() + i]).segment == o5[i].0.spec_generalize() && r@[
                                o1.len() + o2.len() + o3.len() + o4.len() + i
                            ].content == o5[i].1)
                    },
                }
            }),
    {
        match self.books.get(key.book) {
            None => Vec::new(),
            Some(org) => add_book(org.iter_all_content(&key.segment), key.book),
        }
    }

    /// See `iter_all_content`.
    pub fn get_all_content<'a, Q: SegmentCompare>(&'a self, key: &BookSegment<Q>) -> (r: Vec<
        BookPassageContent<'a, PassageSegment, Container>,
    >)
        requires
            self.wf(),
        ensures
            spec_book_find(self.spec_books(), key.book) is None ==> r@.len() == 0,
            forall|i: int| 0 <= i < r@.len() ==> (#[trigger] r@[i]).book == key.book,
            ({
                match spec_book_find(self.spec_books(), key.book) {
                    None => true,
                    Some(o) => {
                        let q_sc = key.segment.spec_starting_chapter();
                        let q_sv = key.segment.spec_starting_verse();
                        let q_ec = key.segment.spec_ending_chapter();
                        let q_ev = key.segment.spec_ending_verse();
                        let o1 = spec_overlapping(o.spec_chapter_verse(), q_sc, q_sv, q_ec, q_ev);
                        let o2 = spec_overlapping(
                            o.spec_chapter_verse_range(),
                            q_sc,
                            q_sv,
                            q_ec,
                            q_ev,
                        );
                        let o3 = spec_overlapping(o.spec_chapter_range(), q_sc, q_sv, q_ec, q_ev);
                        let o4 = spec_overlapping(o.spec_full_chapter(), q_sc, q_sv, q_ec, q_ev);
                        let o5 = spec_overlapping(
                            o.spec_full_chapter_range(),
                            q_sc,
                            q_sv,
                            q_ec,
                            q_ev,
                        );
                        r@.len() == o1.len() + o2.len() + o3.len() + o4.len() + o5.len() && (
                        forall|i: int|
                            0 <= i < o1.len() ==> (#[trigger] r@[i]).segment == o1[
                                i
                            ].0.spec_generalize() && r@[i].content == o1[i].1) && (forall|i: int|
                            0 <= i < o2.len() ==> (#[trigger] r@[o1.len() + i]).segment == o2[
                                i
                            ].0.spec_generalize() && r@[o1.len() + i].content == o2[i].1) && (
                        forall|i: int|
                            0 <= i < o3.len() ==> (#[trigger] r@[o1.len() + o2.len() + i]).segment
                                == o3[i].0.spec_generalize() && r@[o1.len() + o2.len() + i].content
                                == o3[i].1) && (forall|i: int|
                            0 <= i < o4.len() ==> (#[trigger] r@[o1.len() + o2.len() + o3.len()
                                + i]).segment == o4[i].0.spec_generalize() && r@[o1.len()
                                + o2.len() + o3.len() + i].content == o4[i].1) && (forall|i: int|
                            0 <= i < o5.len() ==> (#[trigger] r@[o1.len() + o2.len() + o3.len()
                                + o4.len() + i]).segment == o5[i].0.spec_generalize() && r@[
                                o1.len() + o2.len() + o3.len() + o4.len() + i
                            ].content == o5[i].1)
                    },
                }
            }),
    {
        self.iter_all_content(key)
    }
}

} // verus!
