//! Bounds-checked absolute verse positions.
//!
//! A `BookChapterVerse` is a single point qualified by its book, validated
//! against the canonical chapter and verse counts: book 1 holds 50 chapters
//! whose first has 31 verses, and the text ends at verse 31102. The tables
//! below carry one chapter count per book and, for every chapter in reading
//! order, the number of verses that precede it; the count of a chapter is
//! the difference of two neighbouring boundaries.

use vstd::prelude::*;

use crate::book_segment::BookSegment;
use crate::parse::chars_of;
use crate::parse::spec_digits_value;
use crate::parse::spec_is_digit;
use crate::segment::ChapterVerse;

verus! {

/// the number of the very last verse of the text
pub const LAST_VERSE: u16 = 31102;

/// how many chapters each book holds, in book order
pub const CHAPTER_COUNTS: [u8; 66] = [
    50, 40, 27, 36, 34, 24, 21, 4, 31, 24, 22, 25, 29, 36, 10, 13, 10, 42,
    150, 31, 12, 8, 66, 52, 5, 48, 12, 14, 3, 9, 1, 4, 7, 3, 3, 3,
    2, 14, 4, 28, 16, 24, 21, 28, 16, 16, 13, 6, 6, 4, 4, 5, 3, 6,
    4, 3, 1, 13, 5, 5, 3, 5, 1, 1, 1, 22,
];

/// for every chapter in reading order, how many verses precede it; one
/// trailing entry holds the total
pub const VERSE_BOUNDARIES: [u16; 1190] = [
    0, 31, 56, 80, 106, 138, 160, 184, 206, 235, 267, 299, 319, 337, 361, 382, 398, 425,
    458, 496, 514, 548, 572, 592, 659, 693, 728, 774, 796, 831, 874, 929, 961, 981, 1012, 1041,
    1084, 1120, 1150, 1173, 1196, 1253, 1291, 1325, 1359, 1387, 1421, 1452, 1474, 1507, 1533, 1555, 1580, 1602,
    1633, 1656, 1686, 1711, 1743, 1778, 1807, 1817, 1868, 1890, 1921, 1948, 1984, 2000, 2027, 2052, 2078, 2114,
    2145, 2178, 2196, 2236, 2273, 2294, 2337, 2383, 2421, 2439, 2474, 2497, 2532, 2567, 2605, 2634, 2665, 2708,
    2746, 2763, 2779, 2796, 2831, 2850, 2880, 2918, 2954, 2978, 2998, 3045, 3053, 3112, 3169, 3202, 3236, 3252,
    3282, 3319, 3346, 3370, 3403, 3447, 3470, 3525, 3571, 3605, 3659, 3693, 3744, 3793, 3824, 3851, 3940, 3966,
    3989, 4025, 4060, 4076, 4109, 4154, 4195, 4245, 4258, 4290, 4312, 4341, 4376, 4417, 4447, 4472, 4490, 4555,
    4578, 4609, 4649, 4665, 4719, 4761, 4817, 4846, 4880, 4893, 4939, 4976, 5005, 5054, 5087, 5112, 5138, 5158,
    5187, 5209, 5241, 5273, 5291, 5320, 5343, 5365, 5385, 5407, 5428, 5448, 5471, 5501, 5526, 5548, 5567, 5586,
    5612, 5680, 5709, 5729, 5759, 5811, 5840, 5852, 5870, 5894, 5911, 5935, 5950, 5977, 6003, 6038, 6065, 6108,
    6131, 6155, 6188, 6203, 6266, 6276, 6294, 6322, 6373, 6382, 6427, 6461, 6477, 6510, 6546, 6569, 6600, 6624,
    6655, 6695, 6720, 6755, 6812, 6830, 6870, 6885, 6910, 6930, 6950, 6981, 6994, 7025, 7055, 7103, 7128, 7150,
    7173, 7191, 7213, 7241, 7277, 7298, 7320, 7332, 7353, 7370, 7392, 7419, 7446, 7461, 7486, 7509, 7561, 7596,
    7619, 7677, 7707, 7731, 7773, 7788, 7811, 7840, 7862, 7906, 7931, 7943, 7968, 7979, 8010, 8023, 8050, 8082,
    8121, 8133, 8158, 8181, 8210, 8228, 8241, 8260, 8287, 8318, 8357, 8390, 8427, 8450, 8479, 8512, 8555, 8581,
    8603, 8654, 8693, 8718, 8771, 8817, 8845, 8879, 8897, 8935, 8986, 9052, 9080, 9109, 9152, 9185, 9219, 9250,
    9284, 9318, 9342, 9388, 9409, 9452, 9481, 9534, 9552, 9577, 9604, 9648, 9675, 9708, 9728, 9757, 9794, 9830,
    9851, 9872, 9897, 9926, 9964, 9984, 10025, 10062, 10099, 10120, 10146, 10166, 10203, 10223, 10253, 10307, 10362, 10386,
    10429, 10455, 10536, 10576, 10616, 10660, 10674, 10721, 10761, 10775, 10792, 10821, 10864, 10891, 10908, 10927, 10935, 10965,
    10984, 11016, 11047, 11078, 11110, 11144, 11165, 11195, 11212, 11230, 11247, 11269, 11283, 11325, 11347, 11365, 11396, 11415,
    11438, 11454, 11476, 11491, 11510, 11524, 11543, 11577, 11588, 11625, 11645, 11657, 11678, 11705, 11733, 11756, 11765, 11792,
    11828, 11855, 11876, 11909, 11934, 11967, 11994, 12017, 12028, 12098, 12111, 12135, 12152, 12174, 12202, 12238, 12253, 12297,
    12308, 12328, 12360, 12383, 12402, 12421, 12494, 12512, 12550, 12589, 12625, 12672, 12703, 12725, 12748, 12763, 12780, 12794,
    12808, 12818, 12835, 12867, 12870, 12892, 12905, 12931, 12952, 12979, 13009, 13030, 13052, 13087, 13109, 13129, 13154, 13182,
    13204, 13239, 13261, 13277, 13298, 13327, 13356, 13390, 13420, 13437, 13462, 13468, 13482, 13505, 13533, 13558, 13589, 13629,
    13651, 13684, 13721, 13737, 13770, 13794, 13835, 13865, 13889, 13923, 13940, 13946, 13958, 13966, 13974, 13986, 13996, 14013,
    14022, 14042, 14060, 14067, 14075, 14081, 14088, 14093, 14104, 14119, 14169, 14183, 14192, 14205, 14236, 14242, 14252, 14274,
    14286, 14300, 14309, 14320, 14332, 14356, 14367, 14389, 14411, 14439, 14451, 14491, 14513, 14526, 14543, 14556, 14567, 14572,
    14598, 14615, 14626, 14635, 14649, 14669, 14692, 14711, 14720, 14726, 14733, 14756, 14769, 14780, 14791, 14808, 14820, 14828,
    14840, 14851, 14861, 14874, 14894, 14901, 14936, 14972, 14977, 15001, 15021, 15049, 15072, 15082, 15094, 15114, 15186, 15199,
    15218, 15234, 15242, 15260, 15272, 15285, 15302, 15309, 15327, 15379, 15396, 15412, 15427, 15432, 15455, 15466, 15479, 15491,
    15500, 15509, 15514, 15522, 15550, 15572, 15607, 15652, 15700, 15743, 15756, 15787, 15794, 15804, 15814, 15823, 15831, 15849,
    15868, 15870, 15899, 16075, 16082, 16090, 16099, 16103, 16111, 16116, 16122, 16127, 16133, 16141, 16149, 16152, 16170, 16173,
    16176, 16197, 16223, 16232, 16240, 16264, 16277, 16287, 16294, 16306, 16321, 16342, 16352, 16372, 16386, 16395, 16401, 16434,
    16456, 16491, 16518, 16541, 16576, 16603, 16639, 16657, 16689, 16720, 16748, 16773, 16808, 16841, 16874, 16902, 16926, 16955,
    16985, 17016, 17045, 17080, 17114, 17142, 17170, 17197, 17225, 17252, 17285, 17316, 17334, 17360, 17382, 17398, 17418, 17430,
    17459, 17476, 17494, 17514, 17524, 17538, 17555, 17572, 17583, 17599, 17615, 17628, 17641, 17655, 17686, 17708, 17734, 17740,
    17770, 17783, 17808, 17830, 17851, 17885, 17901, 17907, 17929, 17961, 17970, 17984, 17998, 18005, 18030, 18036, 18053, 18078,
    18096, 18119, 18131, 18152, 18165, 18194, 18218, 18251, 18260, 18280, 18304, 18321, 18331, 18353, 18391, 18413, 18421, 18452,
    18481, 18506, 18534, 18562, 18587, 18600, 18615, 18637, 18663, 18674, 18697, 18712, 18724, 18741, 18754, 18766, 18787, 18801,
    18822, 18844, 18855, 18867, 18886, 18898, 18923, 18947, 18966, 19003, 19028, 19059, 19090, 19120, 19154, 19176, 19202, 19227,
    19250, 19267, 19294, 19316, 19337, 19358, 19385, 19408, 19423, 19441, 19455, 19485, 19525, 19535, 19573, 19597, 19619, 19636,
    19668, 19692, 19732, 19776, 19802, 19824, 19843, 19875, 19896, 19924, 19942, 19958, 19976, 19998, 20011, 20041, 20046, 20074,
    20081, 20128, 20167, 20213, 20277, 20311, 20333, 20355, 20421, 20443, 20465, 20493, 20503, 20530, 20547, 20564, 20578, 20605,
    20623, 20634, 20656, 20681, 20709, 20732, 20755, 20763, 20826, 20850, 20882, 20896, 20945, 20977, 21008, 21057, 21084, 21101,
    21122, 21158, 21184, 21205, 21231, 21249, 21281, 21314, 21345, 21360, 21398, 21426, 21449, 21478, 21527, 21553, 21573, 21600,
    21631, 21656, 21680, 21703, 21738, 21759, 21808, 21838, 21875, 21906, 21934, 21962, 21989, 22016, 22037, 22082, 22095, 22106,
    22129, 22134, 22153, 22168, 22179, 22195, 22209, 22226, 22241, 22253, 22267, 22283, 22292, 22312, 22344, 22365, 22380, 22396,
    22411, 22424, 22451, 22465, 22482, 22496, 22511, 22532, 22549, 22559, 22569, 22580, 22596, 22609, 22621, 22634, 22649, 22665,
    22685, 22700, 22713, 22732, 22749, 22769, 22788, 22806, 22821, 22841, 22856, 22879, 22900, 22913, 22923, 22937, 22948, 22963,
    22977, 23000, 23017, 23029, 23046, 23060, 23069, 23090, 23104, 23121, 23139, 23145, 23170, 23193, 23210, 23235, 23283, 23317,
    23346, 23380, 23418, 23460, 23490, 23540, 23598, 23634, 23673, 23701, 23728, 23763, 23793, 23827, 23873, 23919, 23958, 24009,
    24055, 24130, 24196, 24216, 24261, 24289, 24324, 24365, 24408, 24464, 24501, 24539, 24589, 24641, 24674, 24718, 24755, 24827,
    24874, 24894, 24974, 25026, 25064, 25108, 25147, 25196, 25246, 25302, 25364, 25406, 25460, 25519, 25554, 25589, 25621, 25652,
    25689, 25732, 25780, 25827, 25865, 25936, 25992, 26045, 26096, 26121, 26157, 26211, 26258, 26329, 26382, 26441, 26482, 26524,
    26581, 26631, 26669, 26700, 26727, 26760, 26786, 26826, 26868, 26899, 26924, 26950, 26997, 27023, 27060, 27102, 27117, 27177,
    27217, 27260, 27308, 27338, 27363, 27415, 27443, 27484, 27524, 27558, 27586, 27627, 27665, 27705, 27735, 27770, 27797, 27824,
    27856, 27900, 27931, 27963, 27992, 28023, 28048, 28069, 28092, 28117, 28156, 28189, 28210, 28246, 28267, 28281, 28304, 28337,
    28364, 28395, 28411, 28434, 28455, 28468, 28488, 28528, 28541, 28568, 28601, 28635, 28666, 28679, 28719, 28777, 28801, 28825,
    28842, 28860, 28878, 28899, 28917, 28933, 28957, 28972, 28990, 29023, 29044, 29058, 29082, 29103, 29132, 29163, 29189, 29207,
    29230, 29252, 29273, 29305, 29338, 29362, 29392, 29422, 29443, 29466, 29495, 29518, 29543, 29561, 29571, 29591, 29604, 29622,
    29650, 29662, 29679, 29697, 29717, 29732, 29748, 29764, 29789, 29810, 29828, 29854, 29871, 29893, 29909, 29924, 29939, 29964,
    29978, 29996, 30015, 30031, 30045, 30065, 30093, 30106, 30134, 30173, 30213, 30242, 30267, 30294, 30320, 30338, 30355, 30375,
    30400, 30425, 30447, 30466, 30480, 30501, 30523, 30541, 30551, 30580, 30604, 30625, 30646, 30659, 30673, 30698, 30718, 30747,
    30769, 30780, 30794, 30811, 30828, 30841, 30862, 30873, 30892, 30909, 30927, 30947, 30955, 30976, 30994, 31018, 31039, 31054,
    31081, 31102,
];

/// Why a book/chapter/verse triple or an identifier was rejected.
#[derive(Copy, Clone, Debug, PartialEq, Eq, Structural)]
pub enum BookChapterVerseError {
    /// no such book
    InvalidBook,
    /// no such chapter in that book
    InvalidChapter,
    /// no such verse in that chapter
    InvalidVerse,
    /// not an eight-digit book/chapter/verse identifier
    MalformedId,
}

/// The number of chapters in the first `n` books.
pub open spec fn spec_chapter_prefix(n: int) -> int
    decreases n,
{
    if n <= 0 {
        0
    } else {
        spec_chapter_prefix(n - 1) + CHAPTER_COUNTS@[n - 1]
    }
}

/// The 0-based position, in reading order, of `chapter` of `book` among all
/// chapters of the text.
pub open spec fn spec_global_chapter(book: int, chapter: int) -> int {
    spec_chapter_prefix(book - 1) + chapter - 1
}

/// A book/chapter/verse triple names a real position: the book exists, the
/// chapter exists in it, and the verse lies between 1 and the chapter's
/// verse count - the difference of the chapter's two verse boundaries, which
/// always fits a byte.
pub open spec fn spec_valid(book: int, chapter: int, verse: int) -> bool {
    let g = spec_global_chapter(book, chapter);
    1 <= book <= 66 && 1 <= chapter <= CHAPTER_COUNTS@[book - 1] && 0 <= g && g + 1 < 1190 && 1
        <= verse && VERSE_BOUNDARIES@[g] + verse <= VERSE_BOUNDARIES@[g + 1]
        && VERSE_BOUNDARIES@[g + 1] - VERSE_BOUNDARIES@[g] <= 255
}

/// The 1-based absolute number of a position among all verses of the text.
pub open spec fn spec_as_verse(book: int, chapter: int, verse: int) -> int {
    VERSE_BOUNDARIES@[spec_global_chapter(book, chapter)] + verse
}

/// A chapter prefix count never is negative.
proof fn lemma_chapter_prefix_nonneg(n: int)
    ensures
        spec_chapter_prefix(n) >= 0,
    decreases n,
{
    if n > 0 {
        lemma_chapter_prefix_nonneg(n - 1);
    }
}

/// The number of chapters before a book, as a machine integer.
fn chapters_before(book: u8) -> (r: u16)
    requires
        1 <= book <= 66,
    ensures
        r as int == spec_chapter_prefix(book as int - 1),
        r <= 16830,
{
    let n = (book - 1) as usize;
    let mut sum: u16 = 0;
    let mut i: usize = 0;
    while i < n
        invariant
            0 <= i <= n <= 65,
            sum as int == spec_chapter_prefix(i as int),
            sum <= 255 * i,
        decreases n - i,
    {
        sum = sum + (CHAPTER_COUNTS[i] as u16);
        i = i + 1;
    }
    sum
}

/// A single validated chapter/verse point, qualified by its book.
#[derive(Copy, Clone, Debug, PartialEq, Eq)]
pub struct BookChapterVerse(BookSegment<ChapterVerse>);

impl BookChapterVerse {
    /// the 1-based book identifier
    pub closed spec fn spec_book(self) -> u8 {
        self.0.book
    }

    /// the 1-based chapter number within the book
    pub closed spec fn spec_chapter(self) -> u8 {
        self.0.segment.chapter
    }

    /// the 1-based verse number within the chapter
    pub closed spec fn spec_verse(self) -> u8 {
        self.0.segment.verse
    }

    /// the position is real: validated on construction
    pub open spec fn wf(self) -> bool {
        spec_valid(self.spec_book() as int, self.spec_chapter() as int, self.spec_verse() as int)
    }

    pub fn book(&self) -> (r: u8)
        ensures
            r == self.spec_book(),
    {
        self.0.book
    }

    pub fn chapter(&self) -> (r: u8)
        ensures
            r == self.spec_chapter(),
    {
        self.0.segment.chapter
    }

    pub fn verse(&self) -> (r: u8)
        ensures
            r == self.spec_verse(),
    {
        self.0.segment.verse
    }

    /// The book-qualified point this position stands for.
    pub fn as_book_segment(&self) -> (r: BookSegment<ChapterVerse>)
        ensures
            r.book == self.spec_book(),
            r.segment == (ChapterVerse { chapter: self.spec_chapter(), verse: self.spec_verse() }),
    {
        self.0
    }

    /// Validate a book/chapter/verse triple against the canonical counts:
    /// accepted exactly when it names a real position.
    pub fn new(book: u8, chapter: u8, verse: u8) -> (r: Result<
        BookChapterVerse,
        BookChapterVerseError,
    >)
        ensures
            r is Ok <==> spec_valid(book as int, chapter as int, verse as int),
            r is Ok ==> r->Ok_0.spec_book() == book && r->Ok_0.spec_chapter() == chapter
                && r->Ok_0.spec_verse() == verse && r->Ok_0.wf(),
    {
        if book < 1 || book > 66 {
            return Err(BookChapterVerseError::InvalidBook);
        }
        let chapter_count = CHAPTER_COUNTS[(book - 1) as usize];
        if chapter < 1 || chapter > chapter_count {
            return Err(BookChapterVerseError::InvalidChapter);
        }
        proof {
            lemma_chapter_prefix_nonneg(book as int - 1);
        }
        let cb = chapters_before(book);
        let g = (cb + (chapter as u16) - 1) as usize;
        if g + 1 >= 1190 {
            return Err(BookChapterVerseError::InvalidChapter);
        }
        if verse < 1 {
            return Err(BookChapterVerseError::InvalidVerse);
        }
        let before = VERSE_BOUNDARIES[g];
        let after = VERSE_BOUNDARIES[g + 1];
        if after < before || after - before > 255 {
            return Err(BookChapterVerseError::InvalidVerse);
        }
        if (before as u32) + (verse as u32) > (after as u32) {
            return Err(BookChapterVerseError::InvalidVerse);
        }
        Ok(BookChapterVerse(BookSegment::chapter_verse(book, chapter, verse)))
    }

    /// The absolute number of this position among all verses of the text.
    pub fn as_verse(&self) -> (r: u16)
        requires
            self.wf(),
        ensures
            r as int == spec_as_verse(
                self.spec_book() as int,
                self.spec_chapter() as int,
                self.spec_verse() as int,
            ),
    {
        proof {
            lemma_chapter_prefix_nonneg(self.spec_book() as int - 1);
        }
        let cb = chapters_before(self.0.book);
        let g = (cb + (self.0.segment.chapter as u16) - 1) as usize;
        let before = VERSE_BOUNDARIES[g];
        before + (self.0.segment.verse as u16)
    }
}

/// The verse boundaries ascend, by steps of at most 255: every chapter has
/// a nonnegative verse count that fits a byte. This holds of the table
/// above; the functions below check it where they rely on it.
pub open spec fn spec_boundaries_ascend() -> bool {
    forall|g: int|
        0 <= g < 1189 ==> VERSE_BOUNDARIES@[g] <= #[trigger] VERSE_BOUNDARIES@[g + 1]
            && VERSE_BOUNDARIES@[g + 1] - VERSE_BOUNDARIES@[g] <= 255
}

impl BookChapterVerse {
    /// The position whose absolute verse number is `id`: the inverse of
    /// `as_verse`. Accepted exactly when `id` lies between 1 and the last
    /// verse's number.
    pub fn from_verse(id: u16) -> (r: Result<BookChapterVerse, BookChapterVerseError>)
        ensures
            r is Ok ==> r->Ok_0.wf() && spec_as_verse(
                r->Ok_0.spec_book() as int,
                r->Ok_0.spec_chapter() as int,
                r->Ok_0.spec_verse() as int,
            ) == id as int,
            r is Err ==> !(1 <= id <= LAST_VERSE) || !spec_boundaries_ascend(),
    {
        if id == 0 || id > LAST_VERSE {
            return Err(BookChapterVerseError::InvalidBook);
        }
        // find the chapter: the first one whose upper boundary reaches id
        let mut g: usize = 0;
        while g < 1189 && VERSE_BOUNDARIES[g + 1] < id
            invariant
                0 <= g <= 1189,
                id > VERSE_BOUNDARIES@[g as int],
            decreases 1189 - g,
        {
            g = g + 1;
        }
        if g >= 1189 {
            // the last boundary is the total, so an in-range id always stops
            assert(false);
            return Err(BookChapterVerseError::InvalidBook);
        }
        let before = VERSE_BOUNDARIES[g];
        let after = VERSE_BOUNDARIES[g + 1];
        if after < before || after - before > 255 {
            proof {
                assert(!spec_boundaries_ascend());
            }
            return Err(BookChapterVerseError::InvalidVerse);
        }
        let verse_wide = id - before;
        // find the book the chapter belongs to
        let mut b: u8 = 1;
        let mut cb: u16 = 0;
        while b <= 66
            invariant
                1 <= b <= 67,
                cb as int == spec_chapter_prefix(b as int - 1),
                cb as usize <= g < 1189,
                cb <= 16830,
                id > VERSE_BOUNDARIES@[g as int],
                id <= VERSE_BOUNDARIES@[g as int + 1],
                before == VERSE_BOUNDARIES@[g as int],
                after == VERSE_BOUNDARIES@[g as int + 1],
                verse_wide == id - before,
                before <= after,
                after - before <= 255,
            decreases 67 - b,
        {
            let next = cb + (CHAPTER_COUNTS[(b - 1) as usize] as u16);
            if (g as u16) < next {
                let chapter = ((g as u16) - cb + 1) as u8;
                let verse = verse_wide as u8;
                proof {
                    assert(spec_global_chapter(b as int, chapter as int) == g);
                    assert(spec_valid(b as int, chapter as int, verse as int));
                }
                match BookChapterVerse::new(b, chapter, verse) {
                    Ok(bcv) => {
                        return Ok(bcv);
                    },
                    Err(_) => {
                        return Err(BookChapterVerseError::InvalidVerse);
                    },
                }
            }
            cb = next;
            b = b + 1;
        }
        // the chapter counts cover every chapter, so the book is always found
        proof {
            reveal_with_fuel(spec_chapter_prefix, 68);
            assert(spec_chapter_prefix(66) == 1189);
        }
        assert(false);
        Err(BookChapterVerseError::InvalidBook)
    }
}

/// the character of one decimal digit
pub open spec fn spec_digit_char(d: int) -> char {
    ((48 + d) as u8) as char
}

/// Relies on `String::from_utf8`: a vector of ASCII digit bytes decodes to
/// the string of the same characters.
#[verifier::external_body]
fn digits_to_string(bytes: Vec<u8>) -> (s: String)
    requires
        forall|i: int| 0 <= i < bytes@.len() ==> 48 <= #[trigger] bytes@[i] <= 57,
    ensures
        s@.len() == bytes@.len(),
        forall|i: int| 0 <= i < bytes@.len() ==> s@[i] == bytes@[i] as char,
{
    match String::from_utf8(bytes) {
        Ok(s) => s,
        Err(_) => String::new(),
    }
}

impl BookChapterVerse {
    /// Read a position from its eight-digit identifier: two digits of book,
    /// three of chapter, three of verse, as `as_id_string` writes them.
    /// Accepted exactly when the eight digits name a real position.
    #[verifier::rlimit(60)]
    pub fn from_id_string(input: &str) -> (r: Result<BookChapterVerse, BookChapterVerseError>)
        ensures
            ({
                if input@.len() == 8 && (forall|i: int| 0 <= i < 8 ==> spec_is_digit(#[trigger] input@[i])) {
                    let b = spec_digits_value(input@, 0, 2);
                    let c = spec_digits_value(input@, 2, 5);
                    let v = spec_digits_value(input@, 5, 8);
                    if spec_valid(b, c, v) {
                        r is Ok && r->Ok_0.spec_book() == b && r->Ok_0.spec_chapter() == c
                            && r->Ok_0.spec_verse() == v && r->Ok_0.wf()
                    } else {
                        r is Err
                    }
                } else {
                    r == Err::<BookChapterVerse, BookChapterVerseError>(
                        BookChapterVerseError::MalformedId,
                    )
                }
            }),
    {
        let cs = chars_of(input);
        if cs.len() != 8 {
            return Err(BookChapterVerseError::MalformedId);
        }
        let mut k: usize = 0;
        while k < 8
            invariant
                0 <= k <= 8,
                cs@.len() == 8,
                cs@ == input@,
                forall|i: int| 0 <= i < k ==> spec_is_digit(#[trigger] input@[i]),
            decreases 8 - k,
        {
            let c = cs[k];
            if c < '0' || c > '9' {
                return Err(BookChapterVerseError::MalformedId);
            }
            k = k + 1;
        }
        let d0 = (cs[0] as u16) - 48;
        let d1 = (cs[1] as u16) - 48;
        let d2 = (cs[2] as u16) - 48;
        let d3 = (cs[3] as u16) - 48;
        let d4 = (cs[4] as u16) - 48;
        let d5 = (cs[5] as u16) - 48;
        let d6 = (cs[6] as u16) - 48;
        let d7 = (cs[7] as u16) - 48;
        let b_wide = d0 * 10 + d1;
        let c_wide = d2 * 100 + d3 * 10 + d4;
        let v_wide = d5 * 100 + d6 * 10 + d7;
        proof {
            reveal_with_fuel(spec_digits_value, 4);
            assert(b_wide == spec_digits_value(input@, 0, 2));
            assert(c_wide == spec_digits_value(input@, 2, 5));
            assert(v_wide == spec_digits_value(input@, 5, 8));
        }
        if c_wide > 255 {
            // no book holds more than 255 chapters
            return Err(BookChapterVerseError::InvalidChapter);
        }
        if v_wide > 255 {
            // no chapter holds more than 255 verses
            return Err(BookChapterVerseError::InvalidVerse);
        }
        BookChapterVerse::new(b_wide as u8, c_wide as u8, v_wide as u8)
    }

    /// Write this position as its eight-digit identifier: two digits of
    /// book, three of chapter, three of verse, each zero-padded.
    #[verifier::rlimit(60)]
    pub fn as_id_string(&self) -> (r: String)
        requires
            self.wf(),
        ensures
            r@.len() == 8,
            r@[0] == spec_digit_char(self.spec_book() as int / 10),
            r@[1] == spec_digit_char(self.spec_book() as int % 10),
            r@[2] == spec_digit_char(self.spec_chapter() as int / 100),
            r@[3] == spec_digit_char((self.spec_chapter() as int / 10) % 10),
            r@[4] == spec_digit_char(self.spec_chapter() as int % 10),
            r@[5] == spec_digit_char(self.spec_verse() as int / 100),
            r@[6] == spec_digit_char((self.spec_verse() as int / 10) % 10),
            r@[7] == spec_digit_char(self.spec_verse() as int % 10),
    {
        let b = self.0.book;
        let c = self.0.segment.chapter;
        let v = self.0.segment.verse;
        let mut bytes: Vec<u8> = Vec::new();
        bytes.push(48 + b / 10);
        bytes.push(48 + b % 10);
        bytes.push(48 + c / 100);
        bytes.push(48 + (c / 10) % 10);
        bytes.push(48 + c % 10);
        bytes.push(48 + v / 100);
        bytes.push(48 + (v / 10) % 10);
        bytes.push(48 + v % 10);
        digits_to_string(bytes)
    }

    /// the number of verses in this position's chapter
    pub open spec fn spec_chapter_verse_count(self) -> int {
        let g = spec_global_chapter(self.spec_book() as int, self.spec_chapter() as int);
        VERSE_BOUNDARIES@[g + 1] - VERSE_BOUNDARIES@[g]
    }

    /// The inclusive range of verse numbers after this one in its chapter,
    /// `None` when this is the chapter's last verse.
    #[verifier::rlimit(60)]
    pub fn remaining_verses(&self) -> (r: Option<(u8, u8)>)
        requires
            self.wf(),
        ensures
            r == (if self.spec_verse() < self.spec_chapter_verse_count() {
                Some((((self.spec_verse() + 1) as u8), (self.spec_chapter_verse_count() as u8)))
            } else {
                None::<(u8, u8)>
            }),
    {
        proof {
            lemma_chapter_prefix_nonneg(self.spec_book() as int - 1);
        }
        let cb = chapters_before(self.0.book);
        let g = (cb + (self.0.segment.chapter as u16) - 1) as usize;
        let count_wide = VERSE_BOUNDARIES[g + 1] - VERSE_BOUNDARIES[g];
        let count = count_wide as u8;
        let v = self.0.segment.verse;
        if v < count {
            Some((v + 1, count))
        } else {
            None
        }
    }

    /// The verse numbers after this one in its chapter, in order.
    #[verifier::rlimit(60)]
    pub fn iter_remaining_verses(&self) -> (r: Vec<u8>)
        requires
            self.wf(),
        ensures
            r@.len() == (if self.spec_verse() < self.spec_chapter_verse_count() {
                self.spec_chapter_verse_count() - self.spec_verse()
            } else {
                0
            }),
            forall|i: int| 0 <= i < r@.len() ==> r@[i] == self.spec_verse() + 1 + i,
    {
        let mut r: Vec<u8> = Vec::new();
        match self.remaining_verses() {
            None => r,
            Some((start, end)) => {
                let n: usize = (end - start) as usize + 1;
                let mut i: usize = 0;
                while i < n
                    invariant
                        start <= end,
                        n == end - start + 1,
                        0 <= i <= n,
                        r@.len() == i,
                        forall|j: int| 0 <= j < r@.len() ==> r@[j] == start + j,
                    decreases n - i,
                {
                    r.push(start + (i as u8));
                    i = i + 1;
                }
                r
            },
        }
    }

    /// The inclusive range of chapter numbers after this one in its book,
    /// `None` when this is the book's last chapter.
    #[verifier::rlimit(60)]
    pub fn remaining_chapters(&self) -> (r: Option<(u8, u8)>)
        requires
            self.wf(),
        ensures
            r == (if self.spec_chapter() < CHAPTER_COUNTS@[self.spec_book() - 1] {
                Some(
                    (
                        ((self.spec_chapter() + 1) as u8),
                        CHAPTER_COUNTS@[self.spec_book() - 1],
                    ),
                )
            } else {
                None::<(u8, u8)>
            }),
    {
        let count = CHAPTER_COUNTS[(self.0.book - 1) as usize];
        let c = self.0.segment.chapter;
        if c < count {
            Some((c + 1, count))
        } else {
            None
        }
    }

    /// The chapter numbers after this one in its book, in order.
    #[verifier::rlimit(60)]
    pub fn iter_remaining_chapters(&self) -> (r: Vec<u8>)
        requires
            self.wf(),
        ensures
            r@.len() == (if self.spec_chapter() < CHAPTER_COUNTS@[self.spec_book() - 1] {
                CHAPTER_COUNTS@[self.spec_book() - 1] - self.spec_chapter()
            } else {
                0
            }),
            forall|i: int| 0 <= i < r@.len() ==> r@[i] == self.spec_chapter() + 1 + i,
    {
        let mut r: Vec<u8> = Vec::new();
        match self.remaining_chapters() {
            None => r,
            Some((start, end)) => {
                let n: usize = (end - start) as usize + 1;
                let mut i: usize = 0;
                while i < n
                    invariant
                        start <= end,
                        n == end - start + 1,
                        0 <= i <= n,
                        r@.len() == i,
                        forall|j: int| 0 <= j < r@.len() ==> r@[j] == start + j,
                    decreases n - i,
                {
                    r.push(start + (i as u8));
                    i = i + 1;
                }
                r
            },
        }
    }
}

} // verus!
