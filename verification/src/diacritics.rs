//! The combining diacritics of a placeholder cell: which code point stands
//! for which number, and how the diacritics of a grapheme decode.
use vstd::prelude::*;

verus! {

/// The Unicode placeholder character marking cells that display fragments
/// of a virtually-placed kitty image.
pub const UNICODE_PLACEHOLDER: char = '\u{10EEEE}';

/// How many kitty diacritics there are. They stand for the numbers from 0.
pub const DIACRITIC_COUNT: usize = 297;

/// (row, column, most-significant-byte) as carried by one placeholder
/// grapheme, each `None` when the corresponding diacritic is absent.
pub type Diacritics = (Option<u32>, Option<u32>, Option<u32>);

/// The diacritic `c` stands for the number `v`.
pub open spec fn encodes(c: char, v: u32) -> bool {
    v < DIACRITIC_COUNT && DIACRITIC_VALUES@[v as int] == (c as u32, v)
}

/// The number that `c` stands for, if it is one of the kitty diacritics.
#[verifier::opaque]
pub open spec fn diacritic_number(c: char) -> Option<u32> {
    if exists|v: u32| encodes(c, v) {
        Some(choose|v: u32| encodes(c, v))
    } else {
        None
    }
}

/// What the `k`-th combining character of a grapheme says, counted from 0:
/// `None` when the grapheme has no such character.
pub open spec fn slot(grapheme: Seq<char>, k: int) -> Option<u32> {
    if k + 1 < grapheme.len() {
        diacritic_number(grapheme[k + 1])
    } else {
        None
    }
}

/// A placeholder grapheme: it starts with the placeholder character, and
/// carries no combining character outside the kitty set.
pub open spec fn is_placeholder(grapheme: Seq<char>) -> bool {
    &&& grapheme.len() > 0
    &&& grapheme[0] == UNICODE_PLACEHOLDER
    &&& forall|i: int|
        1 <= i < grapheme.len() ==> diacritic_number(#[trigger] grapheme[i]) is Some
}

/// The diacritics of a placeholder grapheme: those of its first three
/// combining characters. Any other grapheme has none.
pub open spec fn decoded(grapheme: Seq<char>) -> Option<Diacritics> {
    if is_placeholder(grapheme) {
        Some((slot(grapheme, 0), slot(grapheme, 1), slot(grapheme, 2)))
    } else {
        None
    }
}

/// The table lists the numbers in sequence: the entry at index `i` is for
/// the number `i`.
pub proof fn lemma_table_lists_numbers(i: int)
    requires
        0 <= i < DIACRITIC_COUNT,
    ensures
        DIACRITIC_VALUES@[i].1 == i,
{
}

/// Neighbouring entries of the table ascend.
proof fn lemma_table_step(i: int)
    requires
        0 <= i < DIACRITIC_COUNT - 1,
    ensures
        DIACRITIC_VALUES@[i].0 < DIACRITIC_VALUES@[i + 1].0,
{
}

/// The table is sorted by code point, without repetition.
pub proof fn lemma_table_sorted(i: int, j: int)
    requires
        0 <= i < j < DIACRITIC_COUNT,
    ensures
        DIACRITIC_VALUES@[i].0 < DIACRITIC_VALUES@[j].0,
    decreases j - i,
{
    lemma_table_step(i);
    if i + 1 < j {
        lemma_table_sorted(i + 1, j);
    }
}

/// A diacritic stands for one number only.
pub proof fn lemma_encodes_unique(c: char, v: u32, w: u32)
    requires
        encodes(c, v),
        encodes(c, w),
    ensures
        v == w,
        diacritic_number(c) == Some(v),
{
    reveal(diacritic_number);
    if v < w {
        lemma_table_sorted(v as int, w as int);
    }
    if w < v {
        lemma_table_sorted(w as int, v as int);
    }
    let chosen = choose|u: u32| encodes(c, u);
    if v < chosen {
        lemma_table_sorted(v as int, chosen as int);
    }
    if chosen < v {
        lemma_table_sorted(chosen as int, v as int);
    }
}

/// Look up the row/column/most-significant-byte value encoded by a kitty
/// placeholder diacritic.
pub fn diacritic_value(c: char) -> (value: Option<u32>)
    ensures
        value == diacritic_number(c),
        value matches Some(v) ==> encodes(c, v),
        forall|v: u32| #[trigger] encodes(c, v) ==> value == Some(v),
{
    let code: u32 = c as u32;
    let mut low: usize = 0;
    let mut high: usize = DIACRITIC_VALUES.len();
    while low < high
        invariant
            low <= high <= DIACRITIC_COUNT,
            code == c as u32,
            forall|i: int|
                0 <= i < low ==> #[trigger] DIACRITIC_VALUES@[i].0 < code,
            forall|i: int|
                high <= i < DIACRITIC_COUNT ==> #[trigger] DIACRITIC_VALUES@[i].0 > code,
        decreases high - low,
    {
        let mid: usize = low + (high - low) / 2;
        let entry = DIACRITIC_VALUES[mid];
        if entry.0 == code {
            proof {
                lemma_table_lists_numbers(mid as int);
                assert(encodes(c, entry.1));
                assert forall|v: u32| #[trigger] encodes(c, v) implies v == entry.1 by {
                    lemma_encodes_unique(c, v, entry.1);
                }
                lemma_encodes_unique(c, entry.1, entry.1);
            }
            return Some(entry.1);
        }
        if entry.0 < code {
            proof {
                assert forall|i: int| 0 <= i < mid + 1 implies #[trigger] DIACRITIC_VALUES@[i].0
                    < code by {
                    if i < mid {
                        lemma_table_sorted(i, mid as int);
                    }
                }
            }
            low = mid + 1;
        } else {
            proof {
                assert forall|i: int| mid <= i < DIACRITIC_COUNT implies
                    #[trigger] DIACRITIC_VALUES@[i].0 > code by {
                    if mid < i {
                        lemma_table_sorted(mid as int, i);
                    }
                }
            }
            high = mid;
        }
    }
    proof {
        assert forall|v: u32| !#[trigger] encodes(c, v) by {
            if encodes(c, v) {
                assert(DIACRITIC_VALUES@[v as int].0 == code);
            }
        }
        reveal(diacritic_number);
    }
    None
}

/// Decode the diacritics carried by a placeholder grapheme into
/// (row, column, most-significant-byte), each `None` when the
/// corresponding diacritic is absent. Returns `None` when the grapheme
/// does not start with [`UNICODE_PLACEHOLDER`] or carries a diacritic
/// outside the kitty set.
pub fn decode_diacritics(grapheme: &str) -> (diacritics: Option<Diacritics>)
    ensures
        diacritics == decoded(grapheme@),
{
    broadcast use {vstd::string::axiom_spec_iter, vstd::string::next_postcondition};

    let mut chars = grapheme.chars();
    match chars.next() {
        Some(c) => {
            if c != UNICODE_PLACEHOLDER {
                return None;
            }
        },
        None => {
            return None;
        },
    }
    let mut row: Option<u32> = None;
    let mut col: Option<u32> = None;
    let mut msb: Option<u32> = None;
    let ghost mut read: int = 1;
    assert(vstd::std_specs::iter::IteratorSpec::remaining(&chars) =~= grapheme@.skip(read));
    loop
        invariant
            1 <= read <= grapheme@.len(),
            grapheme@[0] == UNICODE_PLACEHOLDER,
            vstd::std_specs::iter::IteratorSpec::remaining(&chars) == grapheme@.skip(read),
            forall|i: int|
                1 <= i < read ==> diacritic_number(#[trigger] grapheme@[i]) is Some,
            row == slot(grapheme@.take(read), 0),
            col == slot(grapheme@.take(read), 1),
            msb == slot(grapheme@.take(read), 2),
        decreases grapheme@.len() - read,
    {
        let c = match chars.next() {
            Some(c) => c,
            None => {
                assert(grapheme@.take(read) =~= grapheme@);
                return Some((row, col, msb));
            },
        };
        assert(c == grapheme@[read]);
        let value = diacritic_value(c);
        if value.is_none() {
            return None;
        }
        if row.is_none() {
            row = value;
        } else if col.is_none() {
            col = value;
        } else if msb.is_none() {
            msb = value;
        }
        proof {
            assert(grapheme@.skip(read).drop_first() =~= grapheme@.skip(read + 1));
            read = read + 1;
        }
    }
}

/// (codepoint, row/column/most-significant-byte value) for the kitty
/// Unicode placeholder diacritics, sorted by codepoint for binary search.
/// Source: kitty's rowcolumn-diacritics.txt (Unicode 6.0.0 Mn/230/NSM
/// combining marks); index 0 -> U+0305, index 1 -> U+030D, ...
pub const DIACRITIC_VALUES: [(u32, u32); DIACRITIC_COUNT] = [
    (0x0305, 0),
    (0x030d, 1),
    (0x030e, 2),
    (0x0310, 3),
    (0x0312, 4),
    (0x033d, 5),
    (0x033e, 6),
    (0x033f, 7),
    (0x0346, 8),
    (0x034a, 9),
    (0x034b, 10),
    (0x034c, 11),
    (0x0350, 12),
    (0x0351, 13),
    (0x0352, 14),
    (0x0357, 15),
    (0x035b, 16),
    (0x0363, 17),
    (0x0364, 18),
    (0x0365, 19),
    (0x0366, 20),
    (0x0367, 21),
    (0x0368, 22),
    (0x0369, 23),
    (0x036a, 24),
    (0x036b, 25),
    (0x036c, 26),
    (0x036d, 27),
    (0x036e, 28),
    (0x036f, 29),
    (0x0483, 30),
    (0x0484, 31),
    (0x0485, 32),
    (0x0486, 33),
    (0x0487, 34),
    (0x0592, 35),
    (0x0593, 36),
    (0x0594, 37),
    (0x0595, 38),
    (0x0597, 39),
    (0x0598, 40),
    (0x0599, 41),
    (0x059c, 42),
    (0x059d, 43),
    (0x059e, 44),
    (0x059f, 45),
    (0x05a0, 46),
    (0x05a1, 47),
    (0x05a8, 48),
    (0x05a9, 49),
    (0x05ab, 50),
    (0x05ac, 51),
    (0x05af, 52),
    (0x05c4, 53),
    (0x0610, 54),
    (0x0611, 55),
    (0x0612, 56),
    (0x0613, 57),
    (0x0614, 58),
    (0x0615, 59),
    (0x0616, 60),
    (0x0617, 61),
    (0x0657, 62),
    (0x0658, 63),
    (0x0659, 64),
    (0x065a, 65),
    (0x065b, 66),
    (0x065d, 67),
    (0x065e, 68),
    (0x06d6, 69),
    (0x06d7, 70),
    (0x06d8, 71),
    (0x06d9, 72),
    (0x06da, 73),
    (0x06db, 74),
    (0x06dc, 75),
    (0x06df, 76),
    (0x06e0, 77),
    (0x06e1, 78),
    (0x06e2, 79),
    (0x06e4, 80),
    (0x06e7, 81),
    (0x06e8, 82),
    (0x06eb, 83),
    (0x06ec, 84),
    (0x0730, 85),
    (0x0732, 86),
    (0x0733, 87),
    (0x0735, 88),
    (0x0736, 89),
    (0x073a, 90),
    (0x073d, 91),
    (0x073f, 92),
    (0x0740, 93),
    (0x0741, 94),
    (0x0743, 95),
    (0x0745, 96),
    (0x0747, 97),
    (0x0749, 98),
    (0x074a, 99),
    (0x07eb, 100),
    (0x07ec, 101),
    (0x07ed, 102),
    (0x07ee, 103),
    (0x07ef, 104),
    (0x07f0, 105),
    (0x07f1, 106),
    (0x07f3, 107),
    (0x0816, 108),
    (0x0817, 109),
    (0x0818, 110),
    (0x0819, 111),
    (0x081b, 112),
    (0x081c, 113),
    (0x081d, 114),
    (0x081e, 115),
    (0x081f, 116),
    (0x0820, 117),
    (0x0821, 118),
    (0x0822, 119),
    (0x0823, 120),
    (0x0825, 121),
    (0x0826, 122),
    (0x0827, 123),
    (0x0829, 124),
    (0x082a, 125),
    (0x082b, 126),
    (0x082c, 127),
    (0x082d, 128),
    (0x0951, 129),
    (0x0953, 130),
    (0x0954, 131),
    (0x0f82, 132),
    (0x0f83, 133),
    (0x0f86, 134),
    (0x0f87, 135),
    (0x135d, 136),
    (0x135e, 137),
    (0x135f, 138),
    (0x17dd, 139),
    (0x193a, 140),
    (0x1a17, 141),
    (0x1a75, 142),
    (0x1a76, 143),
    (0x1a77, 144),
    (0x1a78, 145),
    (0x1a79, 146),
    (0x1a7a, 147),
    (0x1a7b, 148),
    (0x1a7c, 149),
    (0x1b6b, 150),
    (0x1b6d, 151),
    (0x1b6e, 152),
    (0x1b6f, 153),
    (0x1b70, 154),
    (0x1b71, 155),
    (0x1b72, 156),
    (0x1b73, 157),
    (0x1cd0, 158),
    (0x1cd1, 159),
    (0x1cd2, 160),
    (0x1cda, 161),
    (0x1cdb, 162),
    (0x1ce0, 163),
    (0x1dc0, 164),
    (0x1dc1, 165),
    (0x1dc3, 166),
    (0x1dc4, 167),
    (0x1dc5, 168),
    (0x1dc6, 169),
    (0x1dc7, 170),
    (0x1dc8, 171),
    (0x1dc9, 172),
    (0x1dcb, 173),
    (0x1dcc, 174),
    (0x1dd1, 175),
    (0x1dd2, 176),
    (0x1dd3, 177),
    (0x1dd4, 178),
    (0x1dd5, 179),
    (0x1dd6, 180),
    (0x1dd7, 181),
    (0x1dd8, 182),
    (0x1dd9, 183),
    (0x1dda, 184),
    (0x1ddb, 185),
    (0x1ddc, 186),
    (0x1ddd, 187),
    (0x1dde, 188),
    (0x1ddf, 189),
    (0x1de0, 190),
    (0x1de1, 191),
    (0x1de2, 192),
    (0x1de3, 193),
    (0x1de4, 194),
    (0x1de5, 195),
    (0x1de6, 196),
    (0x1dfe, 197),
    (0x20d0, 198),
    (0x20d1, 199),
    (0x20d4, 200),
    (0x20d5, 201),
    (0x20d6, 202),
    (0x20d7, 203),
    (0x20db, 204),
    (0x20dc, 205),
    (0x20e1, 206),
    (0x20e7, 207),
    (0x20e9, 208),
    (0x20f0, 209),
    (0x2cef, 210),
    (0x2cf0, 211),
    (0x2cf1, 212),
    (0x2de0, 213),
    (0x2de1, 214),
    (0x2de2, 215),
    (0x2de3, 216),
    (0x2de4, 217),
    (0x2de5, 218),
    (0x2de6, 219),
    (0x2de7, 220),
    (0x2de8, 221),
    (0x2de9, 222),
    (0x2dea, 223),
    (0x2deb, 224),
    (0x2dec, 225),
    (0x2ded, 226),
    (0x2dee, 227),
    (0x2def, 228),
    (0x2df0, 229),
    (0x2df1, 230),
    (0x2df2, 231),
    (0x2df3, 232),
    (0x2df4, 233),
    (0x2df5, 234),
    (0x2df6, 235),
    (0x2df7, 236),
    (0x2df8, 237),
    (0x2df9, 238),
    (0x2dfa, 239),
    (0x2dfb, 240),
    (0x2dfc, 241),
    (0x2dfd, 242),
    (0x2dfe, 243),
    (0x2dff, 244),
    (0xa66f, 245),
    (0xa67c, 246),
    (0xa67d, 247),
    (0xa6f0, 248),
    (0xa6f1, 249),
    (0xa8e0, 250),
    (0xa8e1, 251),
    (0xa8e2, 252),
    (0xa8e3, 253),
    (0xa8e4, 254),
    (0xa8e5, 255),
    (0xa8e6, 256),
    (0xa8e7, 257),
    (0xa8e8, 258),
    (0xa8e9, 259),
    (0xa8ea, 260),
    (0xa8eb, 261),
    (0xa8ec, 262),
    (0xa8ed, 263),
    (0xa8ee, 264),
    (0xa8ef, 265),
    (0xa8f0, 266),
    (0xa8f1, 267),
    (0xaab0, 268),
    (0xaab2, 269),
    (0xaab3, 270),
    (0xaab7, 271),
    (0xaab8, 272),
    (0xaabe, 273),
    (0xaabf, 274),
    (0xaac1, 275),
    (0xfe20, 276),
    (0xfe21, 277),
    (0xfe22, 278),
    (0xfe23, 279),
    (0xfe24, 280),
    (0xfe25, 281),
    (0xfe26, 282),
    (0x10a0f, 283),
    (0x10a38, 284),
    (0x1d185, 285),
    (0x1d186, 286),
    (0x1d187, 287),
    (0x1d188, 288),
    (0x1d189, 289),
    (0x1d1aa, 290),
    (0x1d1ab, 291),
    (0x1d1ac, 292),
    (0x1d1ad, 293),
    (0x1d242, 294),
    (0x1d243, 295),
    (0x1d244, 296),
];

} // verus!
