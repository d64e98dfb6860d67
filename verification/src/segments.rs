//! Ordered sequences of segments, as the reference parser produces them.
//!
//! Segments stay in source order: parsing order usually matches reading
//! order, and callers may want both. No sorting, no de-duplication, no
//! overlap resolution between entries.

use vstd::prelude::*;

use crate::book_segment::BookSegment;
use crate::compare::spec_overlaps_with;
use crate::compare::SegmentCompare;
use crate::compare::SegmentOverlap;
use crate::segment::PassageSegment;

verus! {

/// An ordered list of segments of any shape, in source order.
#[derive(Clone, Debug, PartialEq, Eq)]
pub struct PassageSegments(pub Vec<PassageSegment>);

/// An ordered list of segments, qualified by the book they refer to.
#[derive(Clone, Debug, PartialEq, Eq)]
pub struct BookPassageSegments {
    pub book: u8,
    pub segments: PassageSegments,
}

impl PassageSegments {
    /// An empty list.
    pub fn new() -> (s: Self)
        ensures
            s.0@.len() == 0,
    {
        PassageSegments(Vec::new())
    }

    /// Qualify every segment of this list with a book identifier.
    pub fn with_book(self, book: u8) -> (r: BookPassageSegments)
        ensures
            r.book == book,
            r.segments == self,
    {
        BookPassageSegments { book, segments: self }
    }

    /// True when any segment of this list overlaps `other`.
    pub fn overlaps_with<B: SegmentCompare>(&self, other: &B) -> (r: bool)
        ensures
            r == exists|i: int|
                0 <= i < self.0@.len() && spec_overlaps_with(#[trigger] self.0@[i], *other),
    {
        let n = self.0.len();
        let mut k: usize = 0;
        while k < n
            invariant
                n == self.0@.len(),
                0 <= k <= n,
                forall|i: int| 0 <= i < k ==> !spec_overlaps_with(#[trigger] self.0@[i], *other),
            decreases n - k,
        {
            if self.0[k].overlaps_with(other) {
                assert(spec_overlaps_with(self.0@[k as int], *other));
                return true;
            }
            k += 1;
        }
        false
    }

    /// True when some segment of this list overlaps some segment of `other`.
    pub fn contains_overlap(&self, other: &PassageSegments) -> (r: bool)
        ensures
            r == exists|i: int, j: int|
                0 <= i < self.0@.len() && 0 <= j < other.0@.len() && spec_overlaps_with(
                    #[trigger] self.0@[i],
                    #[trigger] other.0@[j],
                ),
    {
        let n = self.0.len();
        let mut k: usize = 0;
        while k < n
            invariant
                n == self.0@.len(),
                0 <= k <= n,
                forall|i: int, j: int|
                    0 <= i < k && 0 <= j < other.0@.len() ==> !spec_overlaps_with(
                        #[trigger] self.0@[i],
                        #[trigger] other.0@[j],
                    ),
            decreases n - k,
        {
            if other.overlaps_with(&self.0[k]) {
                proof {
                    let j = choose|j: int|
                        0 <= j < other.0@.len() && spec_overlaps_with(
                            #[trigger] other.0@[j],
                            self.0@[k as int],
                        );
                    assert(spec_overlaps_with(self.0@[k as int], other.0@[j]));
                }
                return true;
            }
            k += 1;
        }
        false
    }
}

impl BookPassageSegments {
    /// Each segment of the list, qualified by the book, in order.
    pub fn iter(&self) -> (r: Vec<BookSegment<PassageSegment>>)
        ensures
            r@.len() == self.segments.0@.len(),
            forall|i: int|
                0 <= i < r@.len() ==> #[trigger] r@[i] == (BookSegment {
                    book: self.book,
                    segment: self.segments.0@[i],
                }),
    {
        let n = self.segments.0.len();
        let mut r: Vec<BookSegment<PassageSegment>> = Vec::new();
        let mut k: usize = 0;
        while k < n
            invariant
                n == self.segments.0@.len(),
                0 <= k <= n,
                r@.len() == k,
                forall|i: int|
                    0 <= i < k ==> #[trigger] r@[i] == (BookSegment {
                        book: self.book,
                        segment: self.segments.0@[i],
                    }),
            decreases n - k,
        {
            r.push(self.segments.0[k].with_book(self.book));
            k += 1;
        }
        r
    }

    /// True when the two lists refer to the same book and share at least one
    /// overlapping pair of segments.
    pub fn overlaps_with(&self, other: &BookPassageSegments) -> (r: bool)
        ensures
            r == (self.book == other.book && exists|i: int, j: int|
                0 <= i < self.segments.0@.len() && 0 <= j < other.segments.0@.len()
                    && spec_overlaps_with(
                    #[trigger] self.segments.0@[i],
                    #[trigger] other.segments.0@[j],
                )),
    {
        if self.book != other.book {
            return false;
        }
        self.segments.contains_overlap(&other.segments)
    }
}

} // verus!
