//! The reference parser.
//!
//! Raw text such as `"1,2-4,5:1-3,5,7-9,12-6:6,7:7-8:8"` is first matched
//! against the grammar `number ( separator number )*`, where a number is a
//! run of decimal digits or of lowercase roman numerals, and a separator is
//! one of `. , : ; -` or a unicode dash, with spaces tolerated around
//! separators. The matched prefix is normalized - dashes become `-`, the
//! period becomes `:` (so `"1.1"` behaves like `"1:1"`), roman numerals
//! become their values - and then split at `,` or `;` into range pieces,
//! which are interpreted one at a time against a running current-chapter
//! state. No sorting and no overlap resolution happens here.

use vstd::prelude::*;
use vstd::std_specs::iter::IteratorSpec;

use crate::narrow::CoerceError;
use crate::segment::ChapterRange;
use crate::segment::ChapterVerse;
use crate::segment::ChapterVerseRange;
use crate::segment::FullChapter;
use crate::segment::FullChapterRange;
use crate::segment::spec_chapter_range;
use crate::segment::spec_chapter_verse;
use crate::segment::spec_chapter_verse_range;
use crate::segment::spec_full_chapter;
use crate::segment::spec_full_chapter_range;
use crate::segment::PassageSegment;
use crate::segments::BookPassageSegments;
use crate::segments::PassageSegments;

verus! {

broadcast use vstd::string::axiom_spec_iter, vstd::string::next_postcondition;

/// Why parsing failed. A caller can tell an input with no reference-shaped
/// prefix apart from one whose numbers are malformed.
#[derive(Copy, Clone, Debug, PartialEq, Eq, Structural)]
pub enum ParseError {
    /// no reference-shaped prefix was found in the input
    NoMatch,
    /// a numeric token does not fit a 1-byte chapter or verse number, or a
    /// range piece is not shaped like a reference
    MalformedNumber,
    /// the input does not match the strict shape a typed parser expects
    UnexpectedFormat,
    /// several segments were found where exactly one was expected
    NotSingleSegment,
    /// the one segment found cannot be coerced into the requested shape
    Incompatible(CoerceError),
}

/// a decimal digit
pub open spec fn spec_is_digit(c: char) -> bool {
    '0' <= c <= '9'
}

pub open spec fn spec_digit_value(c: char) -> int {
    c as int - '0' as int
}

/// a lowercase roman numeral character (the glyphs up to one hundred)
pub open spec fn spec_is_roman(c: char) -> bool {
    c == 'i' || c == 'v' || c == 'x' || c == 'l' || c == 'c'
}

pub open spec fn spec_roman_char_value(c: char) -> int {
    if c == 'i' {
        1
    } else if c == 'v' {
        5
    } else if c == 'x' {
        10
    } else if c == 'l' {
        50
    } else if c == 'c' {
        100
    } else {
        0
    }
}

/// The value of the decimal digit run `s[lo..hi]`, most significant first.
pub open spec fn spec_digits_value(s: Seq<char>, lo: int, hi: int) -> int
    decreases hi - lo,
{
    if hi <= lo {
        0
    } else {
        spec_digits_value(s, lo, hi - 1) * 10 + spec_digit_value(s[hi - 1])
    }
}

/// The value of the roman numeral run `s[lo..hi]`: each character counts
/// negatively when a strictly larger one follows it (subtractive notation),
/// positively otherwise.
pub open spec fn spec_roman_value(s: Seq<char>, lo: int, hi: int) -> int
    decreases hi - lo,
{
    if hi <= lo {
        0
    } else if lo + 1 < hi && spec_roman_char_value(s[lo]) < spec_roman_char_value(s[lo + 1]) {
        spec_roman_value(s, lo + 1, hi) - spec_roman_char_value(s[lo])
    } else {
        spec_roman_value(s, lo + 1, hi) + spec_roman_char_value(s[lo])
    }
}

/// Where the numeric token starting at `lo` ends: the end of the digit run,
/// or of the roman run, or `lo` itself when no token starts there.
pub open spec fn spec_token_end(s: Seq<char>, lo: int) -> int
    decreases s.len() - lo,
{
    if lo < 0 || lo >= s.len() {
        lo
    } else if spec_is_digit(s[lo]) {
        spec_digit_run_end(s, lo)
    } else if spec_is_roman(s[lo]) {
        spec_roman_run_end(s, lo)
    } else {
        lo
    }
}

/// The end of the maximal digit run starting at `lo`.
pub open spec fn spec_digit_run_end(s: Seq<char>, lo: int) -> int
    decreases s.len() - lo,
{
    if 0 <= lo < s.len() && spec_is_digit(s[lo]) {
        spec_digit_run_end(s, lo + 1)
    } else {
        lo
    }
}

/// The end of the maximal roman numeral run starting at `lo`.
pub open spec fn spec_roman_run_end(s: Seq<char>, lo: int) -> int
    decreases s.len() - lo,
{
    if 0 <= lo < s.len() && spec_is_roman(s[lo]) {
        spec_roman_run_end(s, lo + 1)
    } else {
        lo
    }
}

/// The chapter-or-verse number the token `s[lo..hi]` denotes: its digit or
/// roman value when that fits an unsigned byte, `None` otherwise.
pub open spec fn spec_token_value(s: Seq<char>, lo: int, hi: int) -> Option<u8> {
    let v = if 0 <= lo < s.len() && spec_is_digit(s[lo]) {
        spec_digits_value(s, lo, hi)
    } else {
        spec_roman_value(s, lo, hi)
    };
    if 0 <= v <= 255 {
        Some(v as u8)
    } else {
        None
    }
}

/// The first position at or after `lo` that does not hold a space.
pub open spec fn spec_skip_spaces(s: Seq<char>, lo: int) -> int
    decreases s.len() - lo,
{
    if 0 <= lo < s.len() && s[lo] == ' ' {
        spec_skip_spaces(s, lo + 1)
    } else {
        lo
    }
}

/// a separator glyph the grammar accepts between numbers
pub open spec fn spec_is_sep(c: char) -> bool {
    c == '-' || c == '\u{2013}' || c == '\u{2014}' || c == '\u{2E3A}' || c == '.' || c == ','
        || c == ':' || c == ';'
}

/// Normalization: every dash glyph becomes `-`, the period becomes `:`, and
/// the remaining separators stay themselves.
pub open spec fn spec_norm_sep(c: char) -> char {
    if c == '\u{2013}' || c == '\u{2014}' || c == '\u{2E3A}' {
        '-'
    } else if c == '.' {
        ':'
    } else {
        c
    }
}

/// Every character of a digit run is a digit, and the run stays in bounds.
proof fn lemma_digit_run_chars(s: Seq<char>, lo: int)
    requires
        0 <= lo <= s.len(),
    ensures
        lo <= spec_digit_run_end(s, lo) <= s.len(),
        forall|k: int| lo <= k < spec_digit_run_end(s, lo) ==> spec_is_digit(s[k]),
    decreases s.len() - lo,
{
    if lo < s.len() && spec_is_digit(s[lo]) {
        lemma_digit_run_chars(s, lo + 1);
    }
}

/// Every character of a roman numeral run is a roman numeral character, and
/// the run stays in bounds.
proof fn lemma_roman_run_chars(s: Seq<char>, lo: int)
    requires
        0 <= lo <= s.len(),
    ensures
        lo <= spec_roman_run_end(s, lo) <= s.len(),
        forall|k: int| lo <= k < spec_roman_run_end(s, lo) ==> spec_is_roman(s[k]),
    decreases s.len() - lo,
{
    if lo < s.len() && spec_is_roman(s[lo]) {
        lemma_roman_run_chars(s, lo + 1);
    }
}

/// Collect the characters of a string slice, in order.
pub(crate) fn chars_of(s: &str) -> (v: Vec<char>)
    ensures
        v@ == s@,
{
    let mut it = s.chars();
    let mut v: Vec<char> = Vec::new();
    loop
        invariant
            it.obeys_prophetic_iter_laws(),
            it.decrease() is Some,
            s@ == v@ + it.remaining(),
        decreases it.decrease()->0,
    {
        match it.next() {
            Some(c) => {
                v.push(c);
            },
            None => {
                proof {
                    assert(v@ =~= s@);
                }
                return v;
            },
        }
    }
}

/// First non-space position at or after `lo`.
fn skip_spaces(v: &Vec<char>, lo: usize) -> (r: usize)
    requires
        lo <= v@.len(),
    ensures
        r == spec_skip_spaces(v@, lo as int),
        lo <= r <= v@.len(),
{
    let n = v.len();
    let mut i = lo;
    while i < n && v[i] == ' '
        invariant
            lo <= i <= n,
            n == v@.len(),
            spec_skip_spaces(v@, lo as int) == spec_skip_spaces(v@, i as int),
        decreases n - i,
    {
        i = i + 1;
    }
    i
}

/// End of the numeric token starting at `lo`; equals `lo` when none starts
/// there.
fn token_end(v: &Vec<char>, lo: usize) -> (r: usize)
    requires
        lo <= v@.len(),
    ensures
        r == spec_token_end(v@, lo as int),
        lo <= r <= v@.len(),
{
    let n = v.len();
    if lo < n && '0' <= v[lo] && v[lo] <= '9' {
        let mut i = lo;
        while i < n && '0' <= v[i] && v[i] <= '9'
            invariant
                lo <= i <= n,
                n == v@.len(),
                spec_digit_run_end(v@, lo as int) == spec_digit_run_end(v@, i as int),
            decreases n - i,
        {
            i = i + 1;
        }
        i
    } else if lo < n && (v[lo] == 'i' || v[lo] == 'v' || v[lo] == 'x' || v[lo] == 'l' || v[lo]
        == 'c') {
        let mut i = lo;
        while i < n && (v[i] == 'i' || v[i] == 'v' || v[i] == 'x' || v[i] == 'l' || v[i] == 'c')
            invariant
                lo <= i <= n,
                n == v@.len(),
                spec_roman_run_end(v@, lo as int) == spec_roman_run_end(v@, i as int),
            decreases n - i,
        {
            i = i + 1;
        }
        i
    } else {
        lo
    }
}

/// The value of the token `v[lo..hi]` as a chapter-or-verse number, `None`
/// when it does not fit an unsigned byte.
fn token_value(v: &Vec<char>, lo: usize, hi: usize) -> (r: Option<u8>)
    requires
        lo < hi <= v@.len(),
        spec_is_digit(v@[lo as int]) ==> forall|k: int| lo <= k < hi ==> spec_is_digit(v@[k]),
    ensures
        r == spec_token_value(v@, lo as int, hi as int),
{
    if '0' <= v[lo] && v[lo] <= '9' {
        // most-significant-first accumulation; once past 255 the value can
        // only keep growing
        let mut acc: u32 = 0;
        let mut over = false;
        let mut i = lo;
        while i < hi
            invariant
                lo <= i <= hi <= v@.len(),
                forall|k: int| lo <= k < hi ==> spec_is_digit(v@[k]),
                !over ==> acc == spec_digits_value(v@, lo as int, i as int) && acc <= 255,
                over ==> spec_digits_value(v@, lo as int, i as int) > 255,
                over ==> spec_digits_value(v@, lo as int, i as int) >= 0,
                !over ==> spec_digits_value(v@, lo as int, i as int) >= 0,
            decreases hi - i,
        {
            let c = v[i];
            let d: u32 = if '0' <= c && c <= '9' {
                (c as u32) - ('0' as u32)
            } else {
                0
            };
            proof {
                if spec_is_digit(v@[i as int]) {
                    assert(d == spec_digit_value(v@[i as int]));
                } else {
                    assert(spec_digit_value(v@[i as int]) <= 0 || d == 0);
                }
            }
            if over {
                proof {
                    assert(spec_digits_value(v@, lo as int, i as int + 1) == spec_digits_value(
                        v@,
                        lo as int,
                        i as int,
                    ) * 10 + spec_digit_value(v@[i as int]));
                }
                i = i + 1;
            } else {
                let next = acc * 10 + d;
                if next > 255 {
                    over = true;
                }
                acc = next;
                i = i + 1;
            }
        }
        if over {
            None
        } else {
            Some(acc as u8)
        }
    } else {
        // right-to-left roman accumulation: a character counts negatively
        // exactly when a strictly larger one follows it
        let mut acc: i128 = 0;
        let mut i = hi;
        while i > lo
            invariant
                lo <= i <= hi <= v@.len(),
                acc == spec_roman_value(v@, i as int, hi as int),
                -100 * (hi - i) <= acc <= 100 * (hi - i),
            decreases i - lo,
        {
            i = i - 1;
            let c = v[i];
            let d: i128 = if c == 'i' {
                1
            } else if c == 'v' {
                5
            } else if c == 'x' {
                10
            } else if c == 'l' {
                50
            } else if c == 'c' {
                100
            } else {
                0
            };
            let subtract = i + 1 < hi && {
                let nx = v[i + 1];
                let dn: i128 = if nx == 'i' {
                    1
                } else if nx == 'v' {
                    5
                } else if nx == 'x' {
                    10
                } else if nx == 'l' {
                    50
                } else if nx == 'c' {
                    100
                } else {
                    0
                };
                d < dn
            };
            if subtract {
                acc = acc - d;
            } else {
                acc = acc + d;
            }
        }
        if 0 <= acc && acc <= 255 {
            Some(acc as u8)
        } else {
            None
        }
    }
}

/// Skipping spaces stays within bounds.
proof fn lemma_skip_spaces_bounds(s: Seq<char>, lo: int)
    requires
        0 <= lo <= s.len(),
    ensures
        lo <= spec_skip_spaces(s, lo) <= s.len(),
    decreases s.len() - lo,
{
    if lo < s.len() && s[lo] == ' ' {
        lemma_skip_spaces_bounds(s, lo + 1);
    }
}

/// A token's end stays within bounds.
proof fn lemma_token_end_bounds(s: Seq<char>, lo: int)
    requires
        0 <= lo <= s.len(),
    ensures
        lo <= spec_token_end(s, lo) <= s.len(),
{
    lemma_digit_run_chars(s, lo);
    lemma_roman_run_chars(s, lo);
}

/// The `(separator, number)` pairs that follow a token ending at `i`: as
/// long as optional spaces, a separator, optional spaces and another token
/// follow, the normalized separator and the token's value are taken; the
/// match ends just after the last token.
pub open spec fn spec_scan_rest(s: Seq<char>, i: int) -> Seq<(char, Option<u8>)>
    decreases s.len() - i,
        when 0 <= i <= s.len()
        via spec_scan_rest_decreases
{
    let j = spec_skip_spaces(s, i);
    if j < s.len() && spec_is_sep(s[j]) {
        let k = spec_skip_spaces(s, j + 1);
        let e = spec_token_end(s, k);
        if e > k {
            seq![(spec_norm_sep(s[j]), spec_token_value(s, k, e))] + spec_scan_rest(s, e)
        } else {
            Seq::empty()
        }
    } else {
        Seq::empty()
    }
}

#[via_fn]
proof fn spec_scan_rest_decreases(s: Seq<char>, i: int) {
    lemma_skip_spaces_bounds(s, i);
    let j = spec_skip_spaces(s, i);
    if j < s.len() && spec_is_sep(s[j]) {
        lemma_skip_spaces_bounds(s, j + 1);
        lemma_token_end_bounds(s, spec_skip_spaces(s, j + 1));
    }
}

/// The reference-shaped prefix of the input, tokenized: the value of the
/// leading number (after optional spaces) and the `(separator, number)`
/// pairs that follow it. `None` when the input does not begin with a number.
pub open spec fn spec_scan(s: Seq<char>) -> Option<(Option<u8>, Seq<(char, Option<u8>)>)> {
    let i = spec_skip_spaces(s, 0);
    let e = spec_token_end(s, i);
    if e > i {
        Some((spec_token_value(s, i, e), spec_scan_rest(s, e)))
    } else {
        None
    }
}

/// The normalized separator when `c` is one, `None` otherwise.
fn sep_norm(c: char) -> (r: Option<char>)
    ensures
        spec_is_sep(c) ==> r == Some(spec_norm_sep(c)),
        !spec_is_sep(c) ==> r is None,
{
    if c == '-' || c == '\u{2013}' || c == '\u{2014}' || c == '\u{2E3A}' {
        Some('-')
    } else if c == '.' {
        Some(':')
    } else if c == ',' || c == ':' || c == ';' {
        Some(c)
    } else {
        None
    }
}

/// Read the token at `lo..hi` as a number; `hi` must be the token's end.
fn token_value_at(v: &Vec<char>, lo: usize, hi: usize) -> (r: Option<u8>)
    requires
        lo < hi <= v@.len(),
        hi == spec_token_end(v@, lo as int),
    ensures
        r == spec_token_value(v@, lo as int, hi as int),
{
    proof {
        lemma_digit_run_chars(v@, lo as int);
        lemma_roman_run_chars(v@, lo as int);
    }
    token_value(v, lo, hi)
}

/// Tokenize the reference-shaped prefix of the input: the leading number and
/// the `(separator, number)` pairs that follow it.
fn scan(v: &Vec<char>) -> (r: Option<(Option<u8>, Vec<(char, Option<u8>)>)>)
    ensures
        r is Some <==> spec_scan(v@) is Some,
        r is Some ==> {
            let (first, pairs) = r->0;
            let (sfirst, spairs) = spec_scan(v@)->0;
            first == sfirst && pairs@ == spairs
        },
{
    let i = skip_spaces(v, 0);
    let e = token_end(v, i);
    if e == i {
        return None;
    }
    let first = token_value_at(v, i, e);
    let ghost e0 = e as int;
    let mut pairs: Vec<(char, Option<u8>)> = Vec::new();
    let mut cur = e;
    loop
        invariant
            0 <= cur <= v@.len(),
            spec_scan_rest(v@, e0) == pairs@ + spec_scan_rest(v@, cur as int),
        ensures
            spec_scan_rest(v@, e0) == pairs@ + spec_scan_rest(v@, cur as int),
            spec_scan_rest(v@, cur as int) == Seq::<(char, Option<u8>)>::empty(),
        decreases v@.len() - cur,
    {
        let j = skip_spaces(v, cur);
        if j >= v.len() {
            break ;
        }
        match sep_norm(v[j]) {
            None => {
                break ;
            },
            Some(ns) => {
                let k = skip_spaces(v, j + 1);
                let e2 = token_end(v, k);
                if e2 == k {
                    break ;
                }
                let tv = token_value_at(v, k, e2);
                pairs.push((ns, tv));
                proof {
                    assert(spec_scan_rest(v@, cur as int) == seq![(ns, tv)] + spec_scan_rest(
                        v@,
                        e2 as int,
                    ));
                    assert(pairs@ + spec_scan_rest(v@, e2 as int) =~= spec_scan_rest(v@, e0));
                }
                cur = e2;
            },
        }
    }
    proof {
        assert(spec_scan_rest(v@, cur as int) =~= Seq::<(char, Option<u8>)>::empty());
        assert(pairs@ =~= spec_scan_rest(v@, e0));
    }
    Some((first, pairs))
}

/// A range piece: the numbers of one comma-or-semicolon-delimited token,
/// with the normalized separators (`:` or `-`) standing between them.
struct Piece {
    nums: Vec<Option<u8>>,
    seps: Vec<char>,
}

/// the mathematical shape of a piece: its numbers and its separators
spec fn pview(p: Piece) -> (Seq<Option<u8>>, Seq<char>) {
    (p.nums@, p.seps@)
}

/// Split a tokenized prefix into range pieces at `,` and `;`: every other
/// separator extends the piece at hand, and each delimiter opens a new one.
pub open spec fn spec_group(first: Option<u8>, pairs: Seq<(char, Option<u8>)>) -> Seq<
    (Seq<Option<u8>>, Seq<char>),
> 
    decreases pairs.len(),
{
    if pairs.len() == 0 {
        seq![(seq![first], Seq::<char>::empty())]
    } else {
        let (sep, num) = pairs.last();
        let g = spec_group(first, pairs.drop_last());
        if sep == ',' || sep == ';' {
            g + seq![(seq![num], Seq::<char>::empty())]
        } else {
            g.drop_last() + seq![(g.last().0 + seq![num], g.last().1 + seq![sep])]
        }
    }
}

/// Grouping always yields at least one piece.
proof fn lemma_group_nonempty(first: Option<u8>, pairs: Seq<(char, Option<u8>)>)
    ensures
        spec_group(first, pairs).len() >= 1,
    decreases pairs.len(),
{
    if pairs.len() > 0 {
        lemma_group_nonempty(first, pairs.drop_last());
    }
}

/// Split the tokenized prefix into range pieces.
fn group(first: Option<u8>, pairs: &Vec<(char, Option<u8>)>) -> (r: Vec<Piece>)
    ensures
        r@.map_values(|p: Piece| pview(p)) == spec_group(first, pairs@),
        r@.len() >= 1,
{
    let mut pieces: Vec<Piece> = Vec::new();
    let mut first_nums: Vec<Option<u8>> = Vec::new();
    first_nums.push(first);
    pieces.push(Piece { nums: first_nums, seps: Vec::new() });
    proof {
        assert(pieces@.map_values(|p: Piece| pview(p)) =~~= spec_group(
            first,
            pairs@.subrange(0, 0),
        ));
    }
    let n = pairs.len();
    let mut i: usize = 0;
    while i < n
        invariant
            n == pairs@.len(),
            0 <= i <= n,
            pieces@.len() >= 1,
            pieces@.map_values(|p: Piece| pview(p)) == spec_group(
                first,
                pairs@.subrange(0, i as int),
            ),
        decreases n - i,
    {
        let (sep, num) = pairs[i];
        if sep == ',' || sep == ';' {
            let mut nums: Vec<Option<u8>> = Vec::new();
            nums.push(num);
            pieces.push(Piece { nums, seps: Vec::new() });
        } else {
            let mut last = match pieces.pop() {
                Some(p) => p,
                None => Piece { nums: Vec::new(), seps: Vec::new() },
            };
            last.nums.push(num);
            last.seps.push(sep);
            pieces.push(last);
        }
        proof {
            let sub1 = pairs@.subrange(0, i as int + 1);
            assert(sub1.drop_last() =~= pairs@.subrange(0, i as int));
            assert(sub1.last() == pairs@[i as int]);
            lemma_group_nonempty(first, pairs@.subrange(0, i as int));
            assert(pieces@.map_values(|p: Piece| pview(p)) =~~= spec_group(first, sub1));
        }
        i = i + 1;
    }
    proof {
        assert(pairs@.subrange(0, n as int) =~= pairs@);
    }
    pieces
}

/// The first position in `[lo, hi)` where `seps` holds `c`; `hi` when none.
pub open spec fn sub_first_sep(seps: Seq<char>, lo: int, hi: int, c: char) -> int
    decreases hi - lo,
{
    if lo >= hi {
        hi
    } else if 0 <= lo < seps.len() && seps[lo] == c {
        lo
    } else {
        sub_first_sep(seps, lo + 1, hi, c)
    }
}

/// Whether `seps` holds `c` anywhere in `[lo, hi)`.
pub open spec fn sub_has_sep(seps: Seq<char>, lo: int, hi: int, c: char) -> bool {
    sub_first_sep(seps, lo, hi, c) < hi
}

/// A side of a piece, `nums[lo..hi]`, read as a single number: its one entry
/// when the side holds exactly one number that fits a byte, `None` otherwise.
pub open spec fn side_num(nums: Seq<Option<u8>>, lo: int, hi: int) -> Option<u8> {
    if hi - lo == 1 && 0 <= lo < nums.len() {
        nums[lo]
    } else {
        None
    }
}

/// Interpret one range piece against the running state: the current chapter,
/// and whether a bare number may still mean a whole chapter (cleared for
/// good the first time any verse-level information appears). Yields the
/// segment the piece denotes and the new state, or a parse error when a side
/// of the piece is not a single in-range number where one is required.
pub open spec fn spec_interpret_piece(
    nums: Seq<Option<u8>>,
    seps: Seq<char>,
    chapter: u8,
    flag: bool,
) -> Result<(PassageSegment, u8, bool), ParseError> {
    let n = nums.len() as int;
    let m = seps.len() as int;
    let dash = sub_first_sep(seps, 0, m, '-');
    if dash < m {
        // a range: split at the first dash
        if flag && !sub_has_sep(seps, 0, m, ':') {
            // no verse information anywhere yet: a range of whole chapters
            match (side_num(nums, 0, dash + 1), side_num(nums, dash + 1, n)) {
                (Some(l), Some(r)) => Ok((spec_full_chapter_range(l, r), r, true)),
                _ => Err(ParseError::MalformedNumber),
            }
        } else {
            let lcol = sub_first_sep(seps, 0, dash, ':');
            let rcol = sub_first_sep(seps, dash + 1, m, ':');
            if lcol < dash && rcol < m {
                // `c1:v1-c2:v2`
                match (
                    side_num(nums, 0, lcol + 1),
                    side_num(nums, lcol + 1, dash + 1),
                    side_num(nums, dash + 1, rcol + 1),
                    side_num(nums, rcol + 1, n),
                ) {
                    (Some(c1), Some(v1), Some(c2), Some(v2)) => Ok(
                        (spec_chapter_range(c1, v1, c2, v2), c2, false),
                    ),
                    _ => Err(ParseError::MalformedNumber),
                }
            } else if lcol < dash {
                // `c1:v1-v2`
                match (
                    side_num(nums, 0, lcol + 1),
                    side_num(nums, lcol + 1, dash + 1),
                    side_num(nums, dash + 1, n),
                ) {
                    (Some(c1), Some(v1), Some(v2)) => Ok(
                        (spec_chapter_verse_range(c1, v1, v2), c1, false),
                    ),
                    _ => Err(ParseError::MalformedNumber),
                }
            } else if rcol < m {
                // `v1-c2:v2`, starting in the current chapter
                match (
                    side_num(nums, 0, dash + 1),
                    side_num(nums, dash + 1, rcol + 1),
                    side_num(nums, rcol + 1, n),
                ) {
                    (Some(v1), Some(c2), Some(v2)) => Ok(
                        (spec_chapter_range(chapter, v1, c2, v2), c2, false),
                    ),
                    _ => Err(ParseError::MalformedNumber),
                }
            } else {
                // `v1-v2`, within the current chapter
                match (side_num(nums, 0, dash + 1), side_num(nums, dash + 1, n)) {
                    (Some(v1), Some(v2)) => Ok(
                        (spec_chapter_verse_range(chapter, v1, v2), chapter, false),
                    ),
                    _ => Err(ParseError::MalformedNumber),
                }
            }
        }
    } else {
        // not a range: `c:v`, a whole chapter, or a verse in the current one
        let col = sub_first_sep(seps, 0, m, ':');
        if col < m {
            match (side_num(nums, 0, col + 1), side_num(nums, col + 1, n)) {
                (Some(c), Some(v)) => Ok((spec_chapter_verse(c, v), c, false)),
                _ => Err(ParseError::MalformedNumber),
            }
        } else if n == 1 {
            match nums[0] {
                Some(x) => if flag {
                    Ok((spec_full_chapter(x), x, true))
                } else {
                    Ok((spec_chapter_verse(chapter, x), chapter, false))
                },
                None => Err(ParseError::MalformedNumber),
            }
        } else {
            Err(ParseError::MalformedNumber)
        }
    }
}

/// Interpret the range pieces in order, threading the running state through,
/// and stopping at the first malformed piece.
pub open spec fn spec_interpret(
    pieces: Seq<(Seq<Option<u8>>, Seq<char>)>,
    chapter: u8,
    flag: bool,
) -> Result<Seq<PassageSegment>, ParseError>
    decreases pieces.len(),
{
    if pieces.len() == 0 {
        Ok(Seq::empty())
    } else {
        match spec_interpret_piece(pieces[0].0, pieces[0].1, chapter, flag) {
            Err(e) => Err(e),
            Ok((seg, ch, fl)) => match spec_interpret(pieces.drop_first(), ch, fl) {
                Err(e) => Err(e),
                Ok(rest) => Ok(seq![seg] + rest),
            },
        }
    }
}

/// What parsing an input yields: the tokenized, normalized prefix is split
/// into range pieces and interpreted in order, starting in chapter 1 with
/// bare numbers still meaning whole chapters. An input with no
/// reference-shaped prefix is a `NoMatch`.
pub open spec fn spec_parse_segments(s: Seq<char>) -> Result<Seq<PassageSegment>, ParseError> {
    match spec_scan(s) {
        None => Err(ParseError::NoMatch),
        Some((first, pairs)) => spec_interpret(spec_group(first, pairs), 1u8, true),
    }
}

/// First position in `[lo, hi)` where `seps` holds `c`; `hi` when none.
fn find_sep(seps: &Vec<char>, lo: usize, hi: usize, c: char) -> (r: usize)
    requires
        lo <= hi <= seps@.len(),
    ensures
        r == sub_first_sep(seps@, lo as int, hi as int, c),
        lo <= r <= hi,
{
    let mut i = lo;
    while i < hi
        invariant
            lo <= i <= hi <= seps@.len(),
            sub_first_sep(seps@, lo as int, hi as int, c) == sub_first_sep(
                seps@,
                i as int,
                hi as int,
                c,
            ),
        decreases hi - i,
    {
        if seps[i] == c {
            return i;
        }
        i = i + 1;
    }
    i
}

/// A side of a piece read as a single number.
fn get_side(nums: &Vec<Option<u8>>, lo: usize, hi: usize) -> (r: Option<u8>)
    requires
        hi <= nums@.len(),
    ensures
        r == side_num(nums@, lo as int, hi as int),
{
    if lo < hi && hi - lo == 1 {
        nums[lo]
    } else {
        None
    }
}

/// Interpret one range piece against the running state.
fn interpret_piece(piece: &Piece, chapter: u8, flag: bool) -> (r: Result<
    (PassageSegment, u8, bool),
    ParseError,
>)
    requires
        piece.seps@.len() + 1 == piece.nums@.len(),
    ensures
        r == spec_interpret_piece(piece.nums@, piece.seps@, chapter, flag),
{
    let n = piece.nums.len();
    let m = piece.seps.len();
    let dash = find_sep(&piece.seps, 0, m, '-');
    if dash < m {
        if flag && find_sep(&piece.seps, 0, m, ':') == m {
            match (get_side(&piece.nums, 0, dash + 1), get_side(&piece.nums, dash + 1, n)) {
                (Some(l), Some(r)) => Ok((PassageSegment::full_chapter_range(l, r), r, true)),
                _ => Err(ParseError::MalformedNumber),
            }
        } else {
            let lcol = find_sep(&piece.seps, 0, dash, ':');
            let rcol = find_sep(&piece.seps, dash + 1, m, ':');
            if lcol < dash && rcol < m {
                match (
                    get_side(&piece.nums, 0, lcol + 1),
                    get_side(&piece.nums, lcol + 1, dash + 1),
                    get_side(&piece.nums, dash + 1, rcol + 1),
                    get_side(&piece.nums, rcol + 1, n),
                ) {
                    (Some(c1), Some(v1), Some(c2), Some(v2)) => Ok(
                        (PassageSegment::chapter_range(c1, v1, c2, v2), c2, false),
                    ),
                    _ => Err(ParseError::MalformedNumber),
                }
            } else if lcol < dash {
                match (
                    get_side(&piece.nums, 0, lcol + 1),
                    get_side(&piece.nums, lcol + 1, dash + 1),
                    get_side(&piece.nums, dash + 1, n),
                ) {
                    (Some(c1), Some(v1), Some(v2)) => Ok(
                        (PassageSegment::chapter_verse_range(c1, v1, v2), c1, false),
                    ),
                    _ => Err(ParseError::MalformedNumber),
                }
            } else if rcol < m {
                match (
                    get_side(&piece.nums, 0, dash + 1),
                    get_side(&piece.nums, dash + 1, rcol + 1),
                    get_side(&piece.nums, rcol + 1, n),
                ) {
                    (Some(v1), Some(c2), Some(v2)) => Ok(
                        (PassageSegment::chapter_range(chapter, v1, c2, v2), c2, false),
                    ),
                    _ => Err(ParseError::MalformedNumber),
                }
            } else {
                match (get_side(&piece.nums, 0, dash + 1), get_side(&piece.nums, dash + 1, n)) {
                    (Some(v1), Some(v2)) => Ok(
                        (PassageSegment::chapter_verse_range(chapter, v1, v2), chapter, false),
                    ),
                    _ => Err(ParseError::MalformedNumber),
                }
            }
        }
    } else {
        let col = find_sep(&piece.seps, 0, m, ':');
        if col < m {
            match (get_side(&piece.nums, 0, col + 1), get_side(&piece.nums, col + 1, n)) {
                (Some(c), Some(v)) => Ok((PassageSegment::chapter_verse(c, v), c, false)),
                _ => Err(ParseError::MalformedNumber),
            }
        } else if n == 1 {
            match piece.nums[0] {
                Some(x) => if flag {
                    Ok((PassageSegment::full_chapter(x), x, true))
                } else {
                    Ok((PassageSegment::chapter_verse(chapter, x), chapter, false))
                },
                None => Err(ParseError::MalformedNumber),
            }
        } else {
            Err(ParseError::MalformedNumber)
        }
    }
}

/// Every piece the grouping yields holds one more number than separators.
proof fn lemma_group_shape(first: Option<u8>, pairs: Seq<(char, Option<u8>)>)
    ensures
        forall|k: int|
            0 <= k < spec_group(first, pairs).len() ==> (#[trigger] spec_group(first, pairs)[k]).0.len()
                == spec_group(first, pairs)[k].1.len() + 1,
    decreases pairs.len(),
{
    if pairs.len() > 0 {
        lemma_group_shape(first, pairs.drop_last());
        lemma_group_nonempty(first, pairs.drop_last());
    }
}

/// Interpret the range pieces in order, threading the running state.
fn interpret(pieces: &Vec<Piece>) -> (r: Result<Vec<PassageSegment>, ParseError>)
    requires
        forall|k: int|
            0 <= k < pieces@.len() ==> (#[trigger] pieces@[k]).seps@.len() + 1
                == pieces@[k].nums@.len(),
    ensures
        ({
            let g = pieces@.map_values(|p: Piece| pview(p));
            match spec_interpret(g, 1u8, true) {
                Ok(segs) => r is Ok && r->Ok_0@ == segs,
                Err(e) => r == Err::<Vec<PassageSegment>, ParseError>(e),
            }
        }),
{
    let ghost g = pieces@.map_values(|p: Piece| pview(p));
    let n = pieces.len();
    let mut segs: Vec<PassageSegment> = Vec::new();
    let mut chapter: u8 = 1;
    let mut flag: bool = true;
    let mut i: usize = 0;
    proof {
        assert(g.skip(0) =~= g);
    }
    while i < n
        invariant
            n == pieces@.len(),
            0 <= i <= n,
            g == pieces@.map_values(|p: Piece| pview(p)),
            forall|k: int|
                0 <= k < pieces@.len() ==> (#[trigger] pieces@[k]).seps@.len() + 1
                    == pieces@[k].nums@.len(),
            ({
                match spec_interpret(g.skip(i as int), chapter, flag) {
                    Ok(tail) => spec_interpret(g, 1u8, true) == Ok::<
                        Seq<PassageSegment>,
                        ParseError,
                    >(segs@ + tail),
                    Err(e) => spec_interpret(g, 1u8, true) == Err::<Seq<PassageSegment>, ParseError>(
                        e,
                    ),
                }
            }),
        decreases n - i,
    {
        proof {
            assert(g.skip(i as int)[0] == g[i as int]);
            assert(g.skip(i as int).drop_first() =~= g.skip(i as int + 1));
            assert(g[i as int] == pview(pieces@[i as int]));
        }
        match interpret_piece(&pieces[i], chapter, flag) {
            Err(e) => {
                proof {
                    assert(spec_interpret(g.skip(i as int), chapter, flag) == Err::<
                        Seq<PassageSegment>,
                        ParseError,
                    >(e));
                }
                return Err(e);
            },
            Ok((seg, ch, fl)) => {
                proof {
                    assert(spec_interpret_piece(g.skip(i as int)[0].0, g.skip(i as int)[0].1, chapter, flag)
                        == Ok::<(PassageSegment, u8, bool), ParseError>((seg, ch, fl)));
                    assert(spec_interpret(g.skip(i as int), chapter, flag) == (match spec_interpret(
                        g.skip(i as int + 1),
                        ch,
                        fl,
                    ) {
                        Err(e2) => Err::<Seq<PassageSegment>, ParseError>(e2),
                        Ok(rest) => Ok::<Seq<PassageSegment>, ParseError>(seq![seg] + rest),
                    }));
                }
                let ghost segs0 = segs@;
                segs.push(seg);
                proof {
                    assert(segs@ =~= segs0 + seq![seg]);
                    if spec_interpret(g.skip(i as int + 1), ch, fl) is Ok {
                        let tail = spec_interpret(g.skip(i as int + 1), ch, fl)->Ok_0;
                        assert(segs@ + tail =~= segs0 + (seq![seg] + tail));
                    }
                }
                chapter = ch;
                flag = fl;
            },
        }
        i = i + 1;
    }
    proof {
        assert(g.skip(n as int) =~= Seq::<(Seq<Option<u8>>, Seq<char>)>::empty());
        assert(segs@ + Seq::<PassageSegment>::empty() =~= segs@);
    }
    Ok(segs)
}

impl PassageSegments {
    /// Parse a reference such as `"1,2-4,5:1-3,5,7-9,12-6:6,7:7-8:8"` into
    /// its ordered list of segments. Fails with `NoMatch` when the input has
    /// no reference-shaped prefix, and with `MalformedNumber` when a token of
    /// the matched prefix is not usable as a chapter or verse number.
    pub fn parse(input: &str) -> (r: Result<PassageSegments, ParseError>)
        ensures
            ({
                match spec_parse_segments(input@) {
                    Ok(segs) => r is Ok && r->Ok_0.0@ == segs,
                    Err(e) => r == Err::<PassageSegments, ParseError>(e),
                }
            }),
    {
        let v = chars_of(input);
        match scan(&v) {
            None => Err(ParseError::NoMatch),
            Some((first, pairs)) => {
                let pieces = group(first, &pairs);
                proof {
                    lemma_group_shape(first, pairs@);
                    assert(forall|k: int|
                        0 <= k < pieces@.len() ==> (#[trigger] pieces@[k]).seps@.len() + 1
                            == pieces@[k].nums@.len()) by {
                        assert(forall|k: int|
                            0 <= k < pieces@.len() ==> pview(#[trigger] pieces@[k]) == spec_group(
                                first,
                                pairs@,
                            )[k]);
                    }
                }
                match interpret(&pieces) {
                    Ok(segs) => Ok(PassageSegments(segs)),
                    Err(e) => Err(e),
                }
            },
        }
    }
}

/// Every list of segments a successful interpretation yields has exactly one
/// segment per range piece.
proof fn lemma_interpret_len(
    pieces: Seq<(Seq<Option<u8>>, Seq<char>)>,
    chapter: u8,
    flag: bool,
)
    requires
        spec_interpret(pieces, chapter, flag) is Ok,
    ensures
        spec_interpret(pieces, chapter, flag)->Ok_0.len() == pieces.len(),
    decreases pieces.len(),
{
    if pieces.len() > 0 {
        let piece = spec_interpret_piece(pieces[0].0, pieces[0].1, chapter, flag);
        let (seg, ch, fl) = piece->Ok_0;
        lemma_interpret_len(pieces.drop_first(), ch, fl);
    }
}

/// A successful parse always yields at least one segment: the matched prefix
/// holds at least one number, so there is at least one range piece.
pub proof fn lemma_parse_nonempty(s: Seq<char>)
    requires
        spec_parse_segments(s) is Ok,
    ensures
        spec_parse_segments(s)->Ok_0.len() >= 1,
{
    let (first, pairs) = spec_scan(s)->0;
    lemma_group_nonempty(first, pairs);
    lemma_interpret_len(spec_group(first, pairs), 1u8, true);
}

/// Parsing is deterministic: the outcome is a function of the input text
/// alone (each parse is pinned to `spec_parse_segments` of the input view),
/// so parsing the same string twice yields identical segment lists.
pub proof fn lemma_parse_deterministic(a: Seq<char>, b: Seq<char>)
    requires
        a == b,
    ensures
        spec_parse_segments(a) == spec_parse_segments(b),
{
}

impl PassageSegment {
    /// Parse a reference and keep its first segment.
    pub fn parse(input: &str) -> (r: Result<PassageSegment, ParseError>)
        ensures
            ({
                match spec_parse_segments(input@) {
                    Ok(segs) => r == Ok::<PassageSegment, ParseError>(segs[0]),
                    Err(e) => r == Err::<PassageSegment, ParseError>(e),
                }
            }),
    {
        proof {
            if spec_parse_segments(input@) is Ok {
                lemma_parse_nonempty(input@);
            }
        }
        match PassageSegments::parse(input) {
            Ok(segs) => if segs.0.len() >= 1 {
                Ok(segs.0[0])
            } else {
                Err(ParseError::NoMatch)
            },
            Err(e) => Err(e),
        }
    }
}

/// A run of digits has a nonnegative value.
proof fn lemma_digits_value_nonneg(s: Seq<char>, lo: int, hi: int)
    requires
        forall|k: int| lo <= k < hi ==> spec_is_digit(#[trigger] s[k]),
    ensures
        spec_digits_value(s, lo, hi) >= 0,
    decreases hi - lo,
{
    if hi > lo {
        lemma_digits_value_nonneg(s, lo, hi - 1);
    }
}

/// The value of the digit run starting at `pos`, when the run is nonempty
/// and its value fits a byte.
pub open spec fn spec_read_num(s: Seq<char>, pos: int) -> Option<u8> {
    let e = spec_digit_run_end(s, pos);
    if e > pos && spec_digits_value(s, pos, e) <= 255 {
        Some(spec_digits_value(s, pos, e) as u8)
    } else {
        None
    }
}

/// Read the digit run starting at `pos`: its value, if usable as a chapter
/// or verse number, and the position just past it.
fn read_number(v: &Vec<char>, pos: usize) -> (r: (Option<u8>, usize))
    requires
        pos <= v@.len(),
    ensures
        r.1 == spec_digit_run_end(v@, pos as int),
        pos <= r.1 <= v@.len(),
        r.0 == spec_read_num(v@, pos as int),
{
    let n = v.len();
    let mut i = pos;
    while i < n && '0' <= v[i] && v[i] <= '9'
        invariant
            pos <= i <= n,
            n == v@.len(),
            spec_digit_run_end(v@, pos as int) == spec_digit_run_end(v@, i as int),
        decreases n - i,
    {
        i = i + 1;
    }
    if i == pos {
        (None, i)
    } else {
        proof {
            lemma_digit_run_chars(v@, pos as int);
            assert(spec_is_digit(v@[pos as int]));
            lemma_digits_value_nonneg(v@, pos as int, i as int);
        }
        (token_value(v, pos, i), i)
    }
}

/// What strict parsing of the shape `chapter:verse` yields.
pub open spec fn spec_strict_chapter_verse(s: Seq<char>) -> Result<ChapterVerse, ParseError> {
    let e1 = spec_digit_run_end(s, 0);
    let p2 = e1 + 1;
    match (spec_read_num(s, 0), spec_read_num(s, p2)) {
        (Some(c), Some(v)) => if e1 < s.len() && s[e1] == ':' && spec_digit_run_end(s, p2)
            == s.len() {
            Ok(ChapterVerse { chapter: c, verse: v })
        } else {
            Err(ParseError::UnexpectedFormat)
        },
        _ => Err(ParseError::UnexpectedFormat),
    }
}

/// What strict parsing of the shape `chapter:start-end` yields.
pub open spec fn spec_strict_chapter_verse_range(s: Seq<char>) -> Result<
    ChapterVerseRange,
    ParseError,
> {
    let e1 = spec_digit_run_end(s, 0);
    let p2 = e1 + 1;
    let e2 = spec_digit_run_end(s, p2);
    let p3 = e2 + 1;
    match (spec_read_num(s, 0), spec_read_num(s, p2), spec_read_num(s, p3)) {
        (Some(c), Some(a), Some(b)) => if e1 < s.len() && s[e1] == ':' && e2 < s.len() && s[e2]
            == '-' && spec_digit_run_end(s, p3) == s.len() {
            Ok(ChapterVerseRange { chapter: c, verses: crate::segment::RangePair { start: a, end: b } })
        } else {
            Err(ParseError::UnexpectedFormat)
        },
        _ => Err(ParseError::UnexpectedFormat),
    }
}

/// What strict parsing of the shape `chapter-verse:chapter-verse` yields
/// (the display shape of a cross-chapter range).
pub open spec fn spec_strict_chapter_range(s: Seq<char>) -> Result<ChapterRange, ParseError> {
    let e1 = spec_digit_run_end(s, 0);
    let p2 = e1 + 1;
    let e2 = spec_digit_run_end(s, p2);
    let p3 = e2 + 1;
    let e3 = spec_digit_run_end(s, p3);
    let p4 = e3 + 1;
    match (spec_read_num(s, 0), spec_read_num(s, p2), spec_read_num(s, p3), spec_read_num(s, p4)) {
        (Some(sc), Some(sv), Some(ec), Some(ev)) => if e1 < s.len() && s[e1] == '-' && e2 < s.len()
            && s[e2] == ':' && e3 < s.len() && s[e3] == '-' && spec_digit_run_end(s, p4)
            == s.len() {
            Ok(ChapterRange {
                start: ChapterVerse { chapter: sc, verse: sv },
                end: ChapterVerse { chapter: ec, verse: ev },
            })
        } else {
            Err(ParseError::UnexpectedFormat)
        },
        _ => Err(ParseError::UnexpectedFormat),
    }
}

/// What strict parsing of a bare chapter number yields.
pub open spec fn spec_strict_full_chapter(s: Seq<char>) -> Result<FullChapter, ParseError> {
    match spec_read_num(s, 0) {
        Some(c) => if spec_digit_run_end(s, 0) == s.len() {
            Ok(FullChapter { chapter: c })
        } else {
            Err(ParseError::UnexpectedFormat)
        },
        None => Err(ParseError::UnexpectedFormat),
    }
}

/// What strict parsing of the shape `start-end` yields.
pub open spec fn spec_strict_full_chapter_range(s: Seq<char>) -> Result<
    FullChapterRange,
    ParseError,
> {
    let e1 = spec_digit_run_end(s, 0);
    let p2 = e1 + 1;
    match (spec_read_num(s, 0), spec_read_num(s, p2)) {
        (Some(a), Some(b)) => if e1 < s.len() && s[e1] == '-' && spec_digit_run_end(s, p2)
            == s.len() {
            Ok(FullChapterRange {
                start: FullChapter { chapter: a },
                end: FullChapter { chapter: b },
            })
        } else {
            Err(ParseError::UnexpectedFormat)
        },
        _ => Err(ParseError::UnexpectedFormat),
    }
}

/// A concrete segment shape that can be parsed from text: first against its
/// own strict shape, then forgivingly through the full reference parser.
pub trait ParsableSegment: Sized {
    /// what strict parsing yields on a given input
    spec fn spec_parse_strict(s: Seq<char>) -> Result<Self, ParseError>;

    /// what narrowing the erased union into this shape yields
    spec fn spec_narrow(p: PassageSegment) -> Result<Self, CoerceError>;

    /// Parse exactly this shape's notation, nothing more and nothing less.
    fn parse_strict(input: &str) -> (r: Result<Self, ParseError>)
        ensures
            r == Self::spec_parse_strict(input@),
    ;

    /// Narrow the erased union into this shape.
    fn narrow(p: PassageSegment) -> (r: Result<Self, CoerceError>)
        ensures
            r == Self::spec_narrow(p),
    ;

    /// Forgiving parse: try the strict shape first; failing that, parse a
    /// full reference - with all its tolerated notations - and coerce its
    /// single segment into this shape.
    fn parse(input: &str) -> (r: Result<Self, ParseError>)
        ensures
            r == (match Self::spec_parse_strict(input@) {
                Ok(seg) => Ok::<Self, ParseError>(seg),
                Err(_) => match spec_parse_segments(input@) {
                    Err(e) => Err::<Self, ParseError>(e),
                    Ok(segs) => if segs.len() != 1 {
                        Err::<Self, ParseError>(ParseError::NotSingleSegment)
                    } else {
                        match Self::spec_narrow(segs[0]) {
                            Ok(seg) => Ok::<Self, ParseError>(seg),
                            Err(ce) => Err::<Self, ParseError>(ParseError::Incompatible(ce)),
                        }
                    },
                },
            }),
    {
        match Self::parse_strict(input) {
            Ok(seg) => Ok(seg),
            Err(_) => match PassageSegments::parse(input) {
                Err(e) => Err(e),
                Ok(segs) => if segs.0.len() != 1 {
                    Err(ParseError::NotSingleSegment)
                } else {
                    match Self::narrow(segs.0[0]) {
                        Ok(seg) => Ok(seg),
                        Err(ce) => Err(ParseError::Incompatible(ce)),
                    }
                },
            },
        }
    }
}

impl ParsableSegment for ChapterVerse {
    open spec fn spec_parse_strict(s: Seq<char>) -> Result<ChapterVerse, ParseError> {
        spec_strict_chapter_verse(s)
    }

    open spec fn spec_narrow(p: PassageSegment) -> Result<ChapterVerse, CoerceError> {
        crate::narrow::spec_narrow_chapter_verse(p)
    }

    fn parse_strict(input: &str) -> Result<ChapterVerse, ParseError> {
        let v = chars_of(input);
        let (c_opt, e1) = read_number(&v, 0);
        if e1 < v.len() && v[e1] == ':' {
            let (v_opt, e2) = read_number(&v, e1 + 1);
            if e2 == v.len() {
                match (c_opt, v_opt) {
                    (Some(c), Some(vv)) => Ok(ChapterVerse::new(c, vv)),
                    _ => Err(ParseError::UnexpectedFormat),
                }
            } else {
                Err(ParseError::UnexpectedFormat)
            }
        } else {
            Err(ParseError::UnexpectedFormat)
        }
    }

    fn narrow(p: PassageSegment) -> Result<ChapterVerse, CoerceError> {
        ChapterVerse::try_from(p)
    }
}

impl ParsableSegment for ChapterVerseRange {
    open spec fn spec_parse_strict(s: Seq<char>) -> Result<ChapterVerseRange, ParseError> {
        spec_strict_chapter_verse_range(s)
    }

    open spec fn spec_narrow(p: PassageSegment) -> Result<ChapterVerseRange, CoerceError> {
        crate::narrow::spec_narrow_chapter_verse_range(p)
    }

    fn parse_strict(input: &str) -> Result<ChapterVerseRange, ParseError> {
        let v = chars_of(input);
        let (c_opt, e1) = read_number(&v, 0);
        if e1 < v.len() && v[e1] == ':' {
            let (a_opt, e2) = read_number(&v, e1 + 1);
            if e2 < v.len() && v[e2] == '-' {
                let (b_opt, e3) = read_number(&v, e2 + 1);
                if e3 == v.len() {
                    match (c_opt, a_opt, b_opt) {
                        (Some(c), Some(a), Some(b)) => Ok(ChapterVerseRange::new(c, a, b)),
                        _ => Err(ParseError::UnexpectedFormat),
                    }
                } else {
                    Err(ParseError::UnexpectedFormat)
                }
            } else {
                Err(ParseError::UnexpectedFormat)
            }
        } else {
            Err(ParseError::UnexpectedFormat)
        }
    }

    fn narrow(p: PassageSegment) -> Result<ChapterVerseRange, CoerceError> {
        ChapterVerseRange::try_from(p)
    }
}

impl ParsableSegment for ChapterRange {
    open spec fn spec_parse_strict(s: Seq<char>) -> Result<ChapterRange, ParseError> {
        spec_strict_chapter_range(s)
    }

    open spec fn spec_narrow(p: PassageSegment) -> Result<ChapterRange, CoerceError> {
        crate::narrow::spec_narrow_chapter_range(p)
    }

    fn parse_strict(input: &str) -> Result<ChapterRange, ParseError> {
        let v = chars_of(input);
        let (sc_opt, e1) = read_number(&v, 0);
        if e1 < v.len() && v[e1] == '-' {
            let (sv_opt, e2) = read_number(&v, e1 + 1);
            if e2 < v.len() && v[e2] == ':' {
                let (ec_opt, e3) = read_number(&v, e2 + 1);
                if e3 < v.len() && v[e3] == '-' {
                    let (ev_opt, e4) = read_number(&v, e3 + 1);
                    if e4 == v.len() {
                        match (sc_opt, sv_opt, ec_opt, ev_opt) {
                            (Some(sc), Some(sv), Some(ec), Some(ev)) => Ok(
                                ChapterRange::new(sc, sv, ec, ev),
                            ),
                            _ => Err(ParseError::UnexpectedFormat),
                        }
                    } else {
                        Err(ParseError::UnexpectedFormat)
                    }
                } else {
                    Err(ParseError::UnexpectedFormat)
                }
            } else {
                Err(ParseError::UnexpectedFormat)
            }
        } else {
            Err(ParseError::UnexpectedFormat)
        }
    }

    fn narrow(p: PassageSegment) -> Result<ChapterRange, CoerceError> {
        ChapterRange::try_from(p)
    }
}

impl ParsableSegment for FullChapter {
    open spec fn spec_parse_strict(s: Seq<char>) -> Result<FullChapter, ParseError> {
        spec_strict_full_chapter(s)
    }

    open spec fn spec_narrow(p: PassageSegment) -> Result<FullChapter, CoerceError> {
        crate::narrow::spec_narrow_full_chapter(p)
    }

    fn parse_strict(input: &str) -> Result<FullChapter, ParseError> {
        let v = chars_of(input);
        let (c_opt, e1) = read_number(&v, 0);
        if e1 == v.len() {
            match c_opt {
                Some(c) => Ok(FullChapter::new(c)),
                None => Err(ParseError::UnexpectedFormat),
            }
        } else {
            Err(ParseError::UnexpectedFormat)
        }
    }

    fn narrow(p: PassageSegment) -> Result<FullChapter, CoerceError> {
        FullChapter::try_from(p)
    }
}

impl ParsableSegment for FullChapterRange {
    open spec fn spec_parse_strict(s: Seq<char>) -> Result<FullChapterRange, ParseError> {
        spec_strict_full_chapter_range(s)
    }

    open spec fn spec_narrow(p: PassageSegment) -> Result<FullChapterRange, CoerceError> {
        crate::narrow::spec_narrow_full_chapter_range(p)
    }

    fn parse_strict(input: &str) -> Result<FullChapterRange, ParseError> {
        let v = chars_of(input);
        let (a_opt, e1) = read_number(&v, 0);
        if e1 < v.len() && v[e1] == '-' {
            let (b_opt, e2) = read_number(&v, e1 + 1);
            if e2 == v.len() {
                match (a_opt, b_opt) {
                    (Some(a), Some(b)) => Ok(FullChapterRange::new(a, b)),
                    _ => Err(ParseError::UnexpectedFormat),
                }
            } else {
                Err(ParseError::UnexpectedFormat)
            }
        } else {
            Err(ParseError::UnexpectedFormat)
        }
    }

    fn narrow(p: PassageSegment) -> Result<FullChapterRange, CoerceError> {
        FullChapterRange::try_from(p)
    }
}

impl BookPassageSegments {
    /// Parse a reference and qualify every parsed segment with a book
    /// identifier.
    pub fn parse(book: u8, segment_input: &str) -> (r: Result<BookPassageSegments, ParseError>)
        ensures
            ({
                match spec_parse_segments(segment_input@) {
                    Ok(segs) => r is Ok && r->Ok_0.book == book && r->Ok_0.segments.0@ == segs,
                    Err(e) => r == Err::<BookPassageSegments, ParseError>(e),
                }
            }),
    {
        match PassageSegments::parse(segment_input) {
            Ok(segments) => Ok(segments.with_book(book)),
            Err(e) => Err(e),
        }
    }
}

} // verus!
