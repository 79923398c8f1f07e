//! Which characters are kitty diacritics, and what a grapheme decodes to.
use crate::diacritics::{DIACRITIC_COUNT, DIACRITIC_VALUES, UNICODE_PLACEHOLDER};
use vstd::prelude::*;

verus! {

/// The table entry of a character says which number it stands for.
proof fn lemma_entry(c: char, v: int)
    requires
        0 <= v < 297,
        DIACRITIC_VALUES@[v].0 == c as u32,
    ensures
        crate::diacritics::diacritic_number(c) == Some(v as u32),
{
    crate::diacritics::lemma_table_lists_numbers(v);
    crate::diacritics::lemma_encodes_unique(c, v as u32, v as u32);
}

/// The characters that stand for the numbers 0 to 47, in runs of
/// consecutive code points.
pub proof fn law_characters_for_0_to_47(c: char)
    ensures
        c as u32 == 0x0305 ==> crate::diacritics::diacritic_number(c) == Some(0u32),
        0x030d <= c as u32 <= 0x030e ==> crate::diacritics::diacritic_number(c) == Some(
            (c as u32 - 0x030d + 1) as u32,
        ),
        c as u32 == 0x0310 ==> crate::diacritics::diacritic_number(c) == Some(3u32),
        c as u32 == 0x0312 ==> crate::diacritics::diacritic_number(c) == Some(4u32),
        0x033d <= c as u32 <= 0x033f ==> crate::diacritics::diacritic_number(c) == Some(
            (c as u32 - 0x033d + 5) as u32,
        ),
        c as u32 == 0x0346 ==> crate::diacritics::diacritic_number(c) == Some(8u32),
        0x034a <= c as u32 <= 0x034c ==> crate::diacritics::diacritic_number(c) == Some(
            (c as u32 - 0x034a + 9) as u32,
        ),
        0x0350 <= c as u32 <= 0x0352 ==> crate::diacritics::diacritic_number(c) == Some(
            (c as u32 - 0x0350 + 12) as u32,
        ),
        c as u32 == 0x0357 ==> crate::diacritics::diacritic_number(c) == Some(15u32),
        c as u32 == 0x035b ==> crate::diacritics::diacritic_number(c) == Some(16u32),
        0x0363 <= c as u32 <= 0x036f ==> crate::diacritics::diacritic_number(c) == Some(
            (c as u32 - 0x0363 + 17) as u32,
        ),
        0x0483 <= c as u32 <= 0x0487 ==> crate::diacritics::diacritic_number(c) == Some(
            (c as u32 - 0x0483 + 30) as u32,
        ),
        0x0592 <= c as u32 <= 0x0595 ==> crate::diacritics::diacritic_number(c) == Some(
            (c as u32 - 0x0592 + 35) as u32,
        ),
        0x0597 <= c as u32 <= 0x0599 ==> crate::diacritics::diacritic_number(c) == Some(
            (c as u32 - 0x0597 + 39) as u32,
        ),
        0x059c <= c as u32 <= 0x05a1 ==> crate::diacritics::diacritic_number(c) == Some(
            (c as u32 - 0x059c + 42) as u32,
        ),
{
    let n = c as u32;
    if n == 0x0305 {
        lemma_entry(c, 0);
    }
    if 0x030d <= n <= 0x030e {
        lemma_entry(c, n - 0x030d + 1);
    }
    if n == 0x0310 {
        lemma_entry(c, 3);
    }
    if n == 0x0312 {
        lemma_entry(c, 4);
    }
    if 0x033d <= n <= 0x033f {
        lemma_entry(c, n - 0x033d + 5);
    }
    if n == 0x0346 {
        lemma_entry(c, 8);
    }
    if 0x034a <= n <= 0x034c {
        lemma_entry(c, n - 0x034a + 9);
    }
    if 0x0350 <= n <= 0x0352 {
        lemma_entry(c, n - 0x0350 + 12);
    }
    if n == 0x0357 {
        lemma_entry(c, 15);
    }
    if n == 0x035b {
        lemma_entry(c, 16);
    }
    if 0x0363 <= n <= 0x036f {
        lemma_entry(c, n - 0x0363 + 17);
    }
    if 0x0483 <= n <= 0x0487 {
        lemma_entry(c, n - 0x0483 + 30);
    }
    if 0x0592 <= n <= 0x0595 {
        lemma_entry(c, n - 0x0592 + 35);
    }
    if 0x0597 <= n <= 0x0599 {
        lemma_entry(c, n - 0x0597 + 39);
    }
    if 0x059c <= n <= 0x05a1 {
        lemma_entry(c, n - 0x059c + 42);
    }
}

/// The characters that stand for the numbers 48 to 94, in runs of
/// consecutive code points.
pub proof fn law_characters_for_48_to_94(c: char)
    ensures
        0x05a8 <= c as u32 <= 0x05a9 ==> crate::diacritics::diacritic_number(c) == Some(
            (c as u32 - 0x05a8 + 48) as u32,
        ),
        0x05ab <= c as u32 <= 0x05ac ==> crate::diacritics::diacritic_number(c) == Some(
            (c as u32 - 0x05ab + 50) as u32,
        ),
        c as u32 == 0x05af ==> crate::diacritics::diacritic_number(c) == Some(52u32),
        c as u32 == 0x05c4 ==> crate::diacritics::diacritic_number(c) == Some(53u32),
        0x0610 <= c as u32 <= 0x0617 ==> crate::diacritics::diacritic_number(c) == Some(
            (c as u32 - 0x0610 + 54) as u32,
        ),
        0x0657 <= c as u32 <= 0x065b ==> crate::diacritics::diacritic_number(c) == Some(
            (c as u32 - 0x0657 + 62) as u32,
        ),
        0x065d <= c as u32 <= 0x065e ==> crate::diacritics::diacritic_number(c) == Some(
            (c as u32 - 0x065d + 67) as u32,
        ),
        0x06d6 <= c as u32 <= 0x06dc ==> crate::diacritics::diacritic_number(c) == Some(
            (c as u32 - 0x06d6 + 69) as u32,
        ),
        0x06df <= c as u32 <= 0x06e2 ==> crate::diacritics::diacritic_number(c) == Some(
            (c as u32 - 0x06df + 76) as u32,
        ),
        c as u32 == 0x06e4 ==> crate::diacritics::diacritic_number(c) == Some(80u32),
        0x06e7 <= c as u32 <= 0x06e8 ==> crate::diacritics::diacritic_number(c) == Some(
            (c as u32 - 0x06e7 + 81) as u32,
        ),
        0x06eb <= c as u32 <= 0x06ec ==> crate::diacritics::diacritic_number(c) == Some(
            (c as u32 - 0x06eb + 83) as u32,
        ),
        c as u32 == 0x0730 ==> crate::diacritics::diacritic_number(c) == Some(85u32),
        0x0732 <= c as u32 <= 0x0733 ==> crate::diacritics::diacritic_number(c) == Some(
            (c as u32 - 0x0732 + 86) as u32,
        ),
        0x0735 <= c as u32 <= 0x0736 ==> crate::diacritics::diacritic_number(c) == Some(
            (c as u32 - 0x0735 + 88) as u32,
        ),
        c as u32 == 0x073a ==> crate::diacritics::diacritic_number(c) == Some(90u32),
        c as u32 == 0x073d ==> crate::diacritics::diacritic_number(c) == Some(91u32),
        0x073f <= c as u32 <= 0x0741 ==> crate::diacritics::diacritic_number(c) == Some(
            (c as u32 - 0x073f + 92) as u32,
        ),
{
    let n = c as u32;
    if 0x05a8 <= n <= 0x05a9 {
        lemma_entry(c, n - 0x05a8 + 48);
    }
    if 0x05ab <= n <= 0x05ac {
        lemma_entry(c, n - 0x05ab + 50);
    }
    if n == 0x05af {
        lemma_entry(c, 52);
    }
    if n == 0x05c4 {
        lemma_entry(c, 53);
    }
    if 0x0610 <= n <= 0x0617 {
        lemma_entry(c, n - 0x0610 + 54);
    }
    if 0x0657 <= n <= 0x065b {
        lemma_entry(c, n - 0x0657 + 62);
    }
    if 0x065d <= n <= 0x065e {
        lemma_entry(c, n - 0x065d + 67);
    }
    if 0x06d6 <= n <= 0x06dc {
        lemma_entry(c, n - 0x06d6 + 69);
    }
    if 0x06df <= n <= 0x06e2 {
        lemma_entry(c, n - 0x06df + 76);
    }
    if n == 0x06e4 {
        lemma_entry(c, 80);
    }
    if 0x06e7 <= n <= 0x06e8 {
        lemma_entry(c, n - 0x06e7 + 81);
    }
    if 0x06eb <= n <= 0x06ec {
        lemma_entry(c, n - 0x06eb + 83);
    }
    if n == 0x0730 {
        lemma_entry(c, 85);
    }
    if 0x0732 <= n <= 0x0733 {
        lemma_entry(c, n - 0x0732 + 86);
    }
    if 0x0735 <= n <= 0x0736 {
        lemma_entry(c, n - 0x0735 + 88);
    }
    if n == 0x073a {
        lemma_entry(c, 90);
    }
    if n == 0x073d {
        lemma_entry(c, 91);
    }
    if 0x073f <= n <= 0x0741 {
        lemma_entry(c, n - 0x073f + 92);
    }
}

/// The characters that stand for the numbers 95 to 140, in runs of
/// consecutive code points.
pub proof fn law_characters_for_95_to_140(c: char)
    ensures
        c as u32 == 0x0743 ==> crate::diacritics::diacritic_number(c) == Some(95u32),
        c as u32 == 0x0745 ==> crate::diacritics::diacritic_number(c) == Some(96u32),
        c as u32 == 0x0747 ==> crate::diacritics::diacritic_number(c) == Some(97u32),
        0x0749 <= c as u32 <= 0x074a ==> crate::diacritics::diacritic_number(c) == Some(
            (c as u32 - 0x0749 + 98) as u32,
        ),
        0x07eb <= c as u32 <= 0x07f1 ==> crate::diacritics::diacritic_number(c) == Some(
            (c as u32 - 0x07eb + 100) as u32,
        ),
        c as u32 == 0x07f3 ==> crate::diacritics::diacritic_number(c) == Some(107u32),
        0x0816 <= c as u32 <= 0x0819 ==> crate::diacritics::diacritic_number(c) == Some(
            (c as u32 - 0x0816 + 108) as u32,
        ),
        0x081b <= c as u32 <= 0x0823 ==> crate::diacritics::diacritic_number(c) == Some(
            (c as u32 - 0x081b + 112) as u32,
        ),
        0x0825 <= c as u32 <= 0x0827 ==> crate::diacritics::diacritic_number(c) == Some(
            (c as u32 - 0x0825 + 121) as u32,
        ),
        0x0829 <= c as u32 <= 0x082d ==> crate::diacritics::diacritic_number(c) == Some(
            (c as u32 - 0x0829 + 124) as u32,
        ),
        c as u32 == 0x0951 ==> crate::diacritics::diacritic_number(c) == Some(129u32),
        0x0953 <= c as u32 <= 0x0954 ==> crate::diacritics::diacritic_number(c) == Some(
            (c as u32 - 0x0953 + 130) as u32,
        ),
        0x0f82 <= c as u32 <= 0x0f83 ==> crate::diacritics::diacritic_number(c) == Some(
            (c as u32 - 0x0f82 + 132) as u32,
        ),
        0x0f86 <= c as u32 <= 0x0f87 ==> crate::diacritics::diacritic_number(c) == Some(
            (c as u32 - 0x0f86 + 134) as u32,
        ),
        0x135d <= c as u32 <= 0x135f ==> crate::diacritics::diacritic_number(c) == Some(
            (c as u32 - 0x135d + 136) as u32,
        ),
        c as u32 == 0x17dd ==> crate::diacritics::diacritic_number(c) == Some(139u32),
        c as u32 == 0x193a ==> crate::diacritics::diacritic_number(c) == Some(140u32),
{
    let n = c as u32;
    if n == 0x0743 {
        lemma_entry(c, 95);
    }
    if n == 0x0745 {
        lemma_entry(c, 96);
    }
    if n == 0x0747 {
        lemma_entry(c, 97);
    }
    if 0x0749 <= n <= 0x074a {
        lemma_entry(c, n - 0x0749 + 98);
    }
    if 0x07eb <= n <= 0x07f1 {
        lemma_entry(c, n - 0x07eb + 100);
    }
    if n == 0x07f3 {
        lemma_entry(c, 107);
    }
    if 0x0816 <= n <= 0x0819 {
        lemma_entry(c, n - 0x0816 + 108);
    }
    if 0x081b <= n <= 0x0823 {
        lemma_entry(c, n - 0x081b + 112);
    }
    if 0x0825 <= n <= 0x0827 {
        lemma_entry(c, n - 0x0825 + 121);
    }
    if 0x0829 <= n <= 0x082d {
        lemma_entry(c, n - 0x0829 + 124);
    }
    if n == 0x0951 {
        lemma_entry(c, 129);
    }
    if 0x0953 <= n <= 0x0954 {
        lemma_entry(c, n - 0x0953 + 130);
    }
    if 0x0f82 <= n <= 0x0f83 {
        lemma_entry(c, n - 0x0f82 + 132);
    }
    if 0x0f86 <= n <= 0x0f87 {
        lemma_entry(c, n - 0x0f86 + 134);
    }
    if 0x135d <= n <= 0x135f {
        lemma_entry(c, n - 0x135d + 136);
    }
    if n == 0x17dd {
        lemma_entry(c, 139);
    }
    if n == 0x193a {
        lemma_entry(c, 140);
    }
}

/// The characters that stand for the numbers 141 to 196, in runs of
/// consecutive code points.
pub proof fn law_characters_for_141_to_196(c: char)
    ensures
        c as u32 == 0x1a17 ==> crate::diacritics::diacritic_number(c) == Some(141u32),
        0x1a75 <= c as u32 <= 0x1a7c ==> crate::diacritics::diacritic_number(c) == Some(
            (c as u32 - 0x1a75 + 142) as u32,
        ),
        c as u32 == 0x1b6b ==> crate::diacritics::diacritic_number(c) == Some(150u32),
        0x1b6d <= c as u32 <= 0x1b73 ==> crate::diacritics::diacritic_number(c) == Some(
            (c as u32 - 0x1b6d + 151) as u32,
        ),
        0x1cd0 <= c as u32 <= 0x1cd2 ==> crate::diacritics::diacritic_number(c) == Some(
            (c as u32 - 0x1cd0 + 158) as u32,
        ),
        0x1cda <= c as u32 <= 0x1cdb ==> crate::diacritics::diacritic_number(c) == Some(
            (c as u32 - 0x1cda + 161) as u32,
        ),
        c as u32 == 0x1ce0 ==> crate::diacritics::diacritic_number(c) == Some(163u32),
        0x1dc0 <= c as u32 <= 0x1dc1 ==> crate::diacritics::diacritic_number(c) == Some(
            (c as u32 - 0x1dc0 + 164) as u32,
        ),
        0x1dc3 <= c as u32 <= 0x1dc9 ==> crate::diacritics::diacritic_number(c) == Some(
            (c as u32 - 0x1dc3 + 166) as u32,
        ),
        0x1dcb <= c as u32 <= 0x1dcc ==> crate::diacritics::diacritic_number(c) == Some(
            (c as u32 - 0x1dcb + 173) as u32,
        ),
        0x1dd1 <= c as u32 <= 0x1de6 ==> crate::diacritics::diacritic_number(c) == Some(
            (c as u32 - 0x1dd1 + 175) as u32,
        ),
{
    let n = c as u32;
    if n == 0x1a17 {
        lemma_entry(c, 141);
    }
    if 0x1a75 <= n <= 0x1a7c {
        lemma_entry(c, n - 0x1a75 + 142);
    }
    if n == 0x1b6b {
        lemma_entry(c, 150);
    }
    if 0x1b6d <= n <= 0x1b73 {
        lemma_entry(c, n - 0x1b6d + 151);
    }
    if 0x1cd0 <= n <= 0x1cd2 {
        lemma_entry(c, n - 0x1cd0 + 158);
    }
    if 0x1cda <= n <= 0x1cdb {
        lemma_entry(c, n - 0x1cda + 161);
    }
    if n == 0x1ce0 {
        lemma_entry(c, 163);
    }
    if 0x1dc0 <= n <= 0x1dc1 {
        lemma_entry(c, n - 0x1dc0 + 164);
    }
    if 0x1dc3 <= n <= 0x1dc9 {
        lemma_entry(c, n - 0x1dc3 + 166);
    }
    if 0x1dcb <= n <= 0x1dcc {
        lemma_entry(c, n - 0x1dcb + 173);
    }
    if 0x1dd1 <= n <= 0x1de6 {
        lemma_entry(c, n - 0x1dd1 + 175);
    }
}

/// The characters that stand for the numbers 197 to 244, in runs of
/// consecutive code points.
pub proof fn law_characters_for_197_to_244(c: char)
    ensures
        c as u32 == 0x1dfe ==> crate::diacritics::diacritic_number(c) == Some(197u32),
        0x20d0 <= c as u32 <= 0x20d1 ==> crate::diacritics::diacritic_number(c) == Some(
            (c as u32 - 0x20d0 + 198) as u32,
        ),
        0x20d4 <= c as u32 <= 0x20d7 ==> crate::diacritics::diacritic_number(c) == Some(
            (c as u32 - 0x20d4 + 200) as u32,
        ),
        0x20db <= c as u32 <= 0x20dc ==> crate::diacritics::diacritic_number(c) == Some(
            (c as u32 - 0x20db + 204) as u32,
        ),
        c as u32 == 0x20e1 ==> crate::diacritics::diacritic_number(c) == Some(206u32),
        c as u32 == 0x20e7 ==> crate::diacritics::diacritic_number(c) == Some(207u32),
        c as u32 == 0x20e9 ==> crate::diacritics::diacritic_number(c) == Some(208u32),
        c as u32 == 0x20f0 ==> crate::diacritics::diacritic_number(c) == Some(209u32),
        0x2cef <= c as u32 <= 0x2cf1 ==> crate::diacritics::diacritic_number(c) == Some(
            (c as u32 - 0x2cef + 210) as u32,
        ),
        0x2de0 <= c as u32 <= 0x2dff ==> crate::diacritics::diacritic_number(c) == Some(
            (c as u32 - 0x2de0 + 213) as u32,
        ),
{
    let n = c as u32;
    if n == 0x1dfe {
        lemma_entry(c, 197);
    }
    if 0x20d0 <= n <= 0x20d1 {
        lemma_entry(c, n - 0x20d0 + 198);
    }
    if 0x20d4 <= n <= 0x20d7 {
        lemma_entry(c, n - 0x20d4 + 200);
    }
    if 0x20db <= n <= 0x20dc {
        lemma_entry(c, n - 0x20db + 204);
    }
    if n == 0x20e1 {
        lemma_entry(c, 206);
    }
    if n == 0x20e7 {
        lemma_entry(c, 207);
    }
    if n == 0x20e9 {
        lemma_entry(c, 208);
    }
    if n == 0x20f0 {
        lemma_entry(c, 209);
    }
    if 0x2cef <= n <= 0x2cf1 {
        lemma_entry(c, n - 0x2cef + 210);
    }
    if 0x2de0 <= n <= 0x2dff {
        lemma_entry(c, n - 0x2de0 + 213);
    }
}

/// The characters that stand for the numbers 245 to 293, in runs of
/// consecutive code points.
pub proof fn law_characters_for_245_to_293(c: char)
    ensures
        c as u32 == 0xa66f ==> crate::diacritics::diacritic_number(c) == Some(245u32),
        0xa67c <= c as u32 <= 0xa67d ==> crate::diacritics::diacritic_number(c) == Some(
            (c as u32 - 0xa67c + 246) as u32,
        ),
        0xa6f0 <= c as u32 <= 0xa6f1 ==> crate::diacritics::diacritic_number(c) == Some(
            (c as u32 - 0xa6f0 + 248) as u32,
        ),
        0xa8e0 <= c as u32 <= 0xa8f1 ==> crate::diacritics::diacritic_number(c) == Some(
            (c as u32 - 0xa8e0 + 250) as u32,
        ),
        c as u32 == 0xaab0 ==> crate::diacritics::diacritic_number(c) == Some(268u32),
        0xaab2 <= c as u32 <= 0xaab3 ==> crate::diacritics::diacritic_number(c) == Some(
            (c as u32 - 0xaab2 + 269) as u32,
        ),
        0xaab7 <= c as u32 <= 0xaab8 ==> crate::diacritics::diacritic_number(c) == Some(
            (c as u32 - 0xaab7 + 271) as u32,
        ),
        0xaabe <= c as u32 <= 0xaabf ==> crate::diacritics::diacritic_number(c) == Some(
            (c as u32 - 0xaabe + 273) as u32,
        ),
        c as u32 == 0xaac1 ==> crate::diacritics::diacritic_number(c) == Some(275u32),
        0xfe20 <= c as u32 <= 0xfe26 ==> crate::diacritics::diacritic_number(c) == Some(
            (c as u32 - 0xfe20 + 276) as u32,
        ),
        c as u32 == 0x10a0f ==> crate::diacritics::diacritic_number(c) == Some(283u32),
        c as u32 == 0x10a38 ==> crate::diacritics::diacritic_number(c) == Some(284u32),
        0x1d185 <= c as u32 <= 0x1d189 ==> crate::diacritics::diacritic_number(c) == Some(
            (c as u32 - 0x1d185 + 285) as u32,
        ),
        0x1d1aa <= c as u32 <= 0x1d1ad ==> crate::diacritics::diacritic_number(c) == Some(
            (c as u32 - 0x1d1aa + 290) as u32,
        ),
{
    let n = c as u32;
    if n == 0xa66f {
        lemma_entry(c, 245);
    }
    if 0xa67c <= n <= 0xa67d {
        lemma_entry(c, n - 0xa67c + 246);
    }
    if 0xa6f0 <= n <= 0xa6f1 {
        lemma_entry(c, n - 0xa6f0 + 248);
    }
    if 0xa8e0 <= n <= 0xa8f1 {
        lemma_entry(c, n - 0xa8e0 + 250);
    }
    if n == 0xaab0 {
        lemma_entry(c, 268);
    }
    if 0xaab2 <= n <= 0xaab3 {
        lemma_entry(c, n - 0xaab2 + 269);
    }
    if 0xaab7 <= n <= 0xaab8 {
        lemma_entry(c, n - 0xaab7 + 271);
    }
    if 0xaabe <= n <= 0xaabf {
        lemma_entry(c, n - 0xaabe + 273);
    }
    if n == 0xaac1 {
        lemma_entry(c, 275);
    }
    if 0xfe20 <= n <= 0xfe26 {
        lemma_entry(c, n - 0xfe20 + 276);
    }
    if n == 0x10a0f {
        lemma_entry(c, 283);
    }
    if n == 0x10a38 {
        lemma_entry(c, 284);
    }
    if 0x1d185 <= n <= 0x1d189 {
        lemma_entry(c, n - 0x1d185 + 285);
    }
    if 0x1d1aa <= n <= 0x1d1ad {
        lemma_entry(c, n - 0x1d1aa + 290);
    }
}

/// The characters that stand for the numbers 294 to 296, in runs of
/// consecutive code points.
pub proof fn law_characters_for_294_to_296(c: char)
    ensures
        0x1d242 <= c as u32 <= 0x1d244 ==> crate::diacritics::diacritic_number(c) == Some(
            (c as u32 - 0x1d242 + 294) as u32,
        ),
{
    let n = c as u32;
    if 0x1d242 <= n <= 0x1d244 {
        lemma_entry(c, n - 0x1d242 + 294);
    }
}

/// A number belongs to one character only, and there are no numbers from
/// 297 up: what is not listed above stands for nothing.
pub proof fn law_one_character_for_each_number(c: char, d: char, v: u32)
    requires
        crate::diacritics::diacritic_number(c) == Some(v),
    ensures
        v < 297,
        DIACRITIC_COUNT == 297,
        crate::diacritics::diacritic_number(d) == Some(v) ==> c == d,
{
    reveal(crate::diacritics::diacritic_number);
    assert(crate::diacritics::encodes(c, v));
    if crate::diacritics::diacritic_number(d) == Some(v) {
        assert(crate::diacritics::encodes(d, v));
    }
}

/// Diacritics are numbered in the order of their code points.
pub proof fn law_numbers_follow_code_points(c: char, d: char, v: u32, w: u32)
    requires
        crate::diacritics::diacritic_number(c) == Some(v),
        crate::diacritics::diacritic_number(d) == Some(w),
    ensures
        v < w <==> (c as u32) < (d as u32),
{
    reveal(crate::diacritics::diacritic_number);
    assert(crate::diacritics::encodes(c, v));
    assert(crate::diacritics::encodes(d, w));
    if v < w {
        crate::diacritics::lemma_table_sorted(v as int, w as int);
    }
    if w < v {
        crate::diacritics::lemma_table_sorted(w as int, v as int);
    }
}

/// The number of the character in place `k` of a grapheme; none where the
/// grapheme is shorter.
pub open spec fn number_in_place(grapheme: Seq<char>, k: int) -> Option<u32> {
    if k < grapheme.len() {
        crate::diacritics::diacritic_number(grapheme[k])
    } else {
        None
    }
}

/// A grapheme decodes if and only if it starts with U+10EEEE and every
/// further character is a kitty diacritic; its second character then gives
/// the row, its third the column and its fourth the most significant byte.
pub proof fn law_decoding(grapheme: Seq<char>)
    ensures
        UNICODE_PLACEHOLDER as u32 == 0x10EEEE,
        crate::diacritics::decoded(grapheme) is Some <==> {
            &&& grapheme.len() > 0
            &&& grapheme[0] == '\u{10EEEE}'
            &&& forall|i: int|
                1 <= i < grapheme.len() ==> crate::diacritics::diacritic_number(
                    #[trigger] grapheme[i],
                ) is Some
        },
        crate::diacritics::decoded(grapheme) matches Some((row, col, msb)) ==> {
            &&& row == number_in_place(grapheme, 1)
            &&& col == number_in_place(grapheme, 2)
            &&& msb == number_in_place(grapheme, 3)
            &&& row is Some <==> grapheme.len() > 1
            &&& col is Some <==> grapheme.len() > 2
            &&& msb is Some <==> grapheme.len() > 3
        },
{
    if crate::diacritics::decoded(grapheme) is Some {
        if grapheme.len() > 1 {
            assert(crate::diacritics::diacritic_number(grapheme[1]) is Some);
        }
        if grapheme.len() > 2 {
            assert(crate::diacritics::diacritic_number(grapheme[2]) is Some);
        }
        if grapheme.len() > 3 {
            assert(crate::diacritics::diacritic_number(grapheme[3]) is Some);
        }
    }
}

/// Appending one kitty diacritic to a placeholder fills the first absent
/// value and keeps the present ones.
pub proof fn law_appending_a_diacritic(grapheme: Seq<char>, c: char, v: u32)
    requires
        crate::diacritics::decoded(grapheme) is Some,
        crate::diacritics::diacritic_number(c) == Some(v),
    ensures
        crate::diacritics::decoded(grapheme.push(c)) == Some(
            match crate::diacritics::decoded(grapheme)->0 {
                (None, _, _) => (Some(v), None::<u32>, None::<u32>),
                (row, None, _) => (row, Some(v), None::<u32>),
                (row, col, None) => (row, col, Some(v)),
                full => full,
            },
        ),
{
    law_decoding(grapheme);
    law_decoding(grapheme.push(c));
    let longer = grapheme.push(c);
    assert forall|i: int| 1 <= i < longer.len() implies crate::diacritics::diacritic_number(
        #[trigger] longer[i],
    ) is Some by {
        if i < grapheme.len() {
            assert(longer[i] == grapheme[i]);
        }
    }
}

} // verus!
