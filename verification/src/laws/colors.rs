//! What a color encodes, and when two colors are the same.
use crate::color::{ColorAttribute, SrgbaTuple};
use vstd::prelude::*;

verus! {

/// A palette color encodes its index, so that every id below 256 has its
/// own palette color.
pub proof fn law_palette_color_encodes_its_index(i: u8, j: u8)
    ensures
        crate::color::id_bits(ColorAttribute::PaletteIndex(i)) matches Some(v) && v == i,
        crate::color::id_bits(ColorAttribute::PaletteIndex(i)) == crate::color::id_bits(
            ColorAttribute::PaletteIndex(j),
        ) <==> i == j,
{
}

/// An id below 256 is that of a palette color.
pub proof fn law_small_ids_have_a_palette_color(id: u32)
    requires
        id < 256,
    ensures
        crate::color::id_bits(ColorAttribute::PaletteIndex(id as u8)) == Some(id),
{
}

/// The default color encodes no id, and every other color encodes one.
pub proof fn law_only_the_default_color_encodes_nothing(color: ColorAttribute)
    ensures
        crate::color::id_bits(color) is None <==> color == ColorAttribute::Default,
{
}

/// Of a true color, the id depends on the levels of red, green and blue
/// alone: neither the fallback nor alpha matters.
pub proof fn law_fallback_and_alpha_do_not_matter(s: SrgbaTuple, t: SrgbaTuple, i: u8)
    requires
        crate::component::level(s.0) == crate::component::level(t.0),
        crate::component::level(s.1) == crate::component::level(t.1),
        crate::component::level(s.2) == crate::component::level(t.2),
    ensures
        crate::color::id_bits(ColorAttribute::TrueColorWithPaletteFallback(s, i))
            == crate::color::id_bits(ColorAttribute::TrueColorWithDefaultFallback(t)),
        crate::color::id_bits(ColorAttribute::TrueColorWithDefaultFallback(s))
            == crate::color::id_bits(ColorAttribute::TrueColorWithDefaultFallback(t)),
{
}

/// Where the levels of a true color are bytes, the id is the number with
/// red, green and blue as its digits to the base 256.
pub proof fn law_true_color_digits(color: SrgbaTuple)
    requires
        crate::component::level(color.0) < 256,
        crate::component::level(color.1) < 256,
        crate::component::level(color.2) < 256,
    ensures
        crate::color::id_bits(ColorAttribute::TrueColorWithDefaultFallback(color)) matches Some(v)
            && {
            &&& v / 0x1_0000 == crate::component::level(color.0)
            &&& v / 0x100 % 0x100 == crate::component::level(color.1)
            &&& v % 0x100 == crate::component::level(color.2)
        },
{
    let r = crate::component::level(color.0);
    let g = crate::component::level(color.1);
    let b = crate::component::level(color.2);
    assert(((r << 16) | (g << 8) | b) == r * 0x1_0000 + g * 0x100 + b) by (bit_vector)
        requires
            r < 256,
            g < 256,
            b < 256,
    ;
}

/// Levels beyond a byte run over into the digits above.
pub proof fn law_true_color_overflow(color: SrgbaTuple)
    ensures
        crate::color::id_bits(ColorAttribute::TrueColorWithDefaultFallback(color)) matches Some(v)
            && {
            let r = crate::component::level(color.0);
            let g = crate::component::level(color.1);
            let b = crate::component::level(color.2);
            &&& v % 0x100 == b % 0x100
            &&& v / 0x100 % 0x100 == (g | (b / 0x100)) % 0x100
            &&& v / 0x1_0000 == (r | (g / 0x100) | (b / 0x1_0000)) % 0x1_0000
        },
{
    let r = crate::component::level(color.0);
    let g = crate::component::level(color.1);
    let b = crate::component::level(color.2);
    let v = (r << 16) | (g << 8) | b;
    assert(v % 0x100 == b % 0x100) by (bit_vector)
        requires
            v == (r << 16) | (g << 8) | b,
    ;
    assert(v / 0x100 % 0x100 == (g | (b / 0x100)) % 0x100) by (bit_vector)
        requires
            v == (r << 16) | (g << 8) | b,
    ;
    assert(v / 0x1_0000 == (r | (g / 0x100) | (b / 0x1_0000)) % 0x1_0000) by (bit_vector)
        requires
            v == (r << 16) | (g << 8) | b,
    ;
}

/// Two components are the same number if and only if they have one bit
/// pattern that is not a NaN, or are the two zeros.
pub proof fn law_same_number(a: u32, b: u32)
    ensures
        crate::component::same_number(a, b) <==> {
            ||| a == b && (a <= 0x7f80_0000 || 0x8000_0000 <= a <= 0xff80_0000)
            ||| a == 0 && b == 0x8000_0000
            ||| a == 0x8000_0000 && b == 0
        },
{
}

/// Palette colors are the same if and only if their indices are; true
/// colors, if and only if all four components are the same numbers, and the
/// fallbacks agree.
pub proof fn law_same_color_within_a_kind(s: SrgbaTuple, t: SrgbaTuple, i: u8, j: u8)
    ensures
        crate::color::same_color(ColorAttribute::PaletteIndex(i), ColorAttribute::PaletteIndex(j))
            <==> i == j,
        crate::color::same_color(ColorAttribute::Default, ColorAttribute::Default),
        crate::color::same_color(
            ColorAttribute::TrueColorWithDefaultFallback(s),
            ColorAttribute::TrueColorWithDefaultFallback(t),
        ) <==> {
            &&& crate::component::same_number(s.0, t.0)
            &&& crate::component::same_number(s.1, t.1)
            &&& crate::component::same_number(s.2, t.2)
            &&& crate::component::same_number(s.3, t.3)
        },
        crate::color::same_color(
            ColorAttribute::TrueColorWithPaletteFallback(s, i),
            ColorAttribute::TrueColorWithPaletteFallback(t, j),
        ) <==> i == j && crate::color::same_color(
            ColorAttribute::TrueColorWithDefaultFallback(s),
            ColorAttribute::TrueColorWithDefaultFallback(t),
        ),
{
}

/// Colors of different kinds are never the same, even where they encode the
/// same id.
pub proof fn law_kinds_of_color_differ(a: ColorAttribute, b: ColorAttribute)
    requires
        crate::color::same_color(a, b),
    ensures
        a is PaletteIndex <==> b is PaletteIndex,
        a is Default <==> b is Default,
        a is TrueColorWithPaletteFallback <==> b is TrueColorWithPaletteFallback,
        a is TrueColorWithDefaultFallback <==> b is TrueColorWithDefaultFallback,
{
}

/// A non-negative component is put together from its exponent and its
/// significand, which is normal wherever the exponent allows.
pub proof fn law_component_parts(bits: u32)
    requires
        bits <= 0x7f80_0000,
    ensures
        bits == (crate::component::exponent(bits) + 149) * 0x80_0000
            + crate::component::significand(bits),
        crate::component::significand(bits) < 0x100_0000,
        crate::component::exponent(bits) >= -149,
        crate::component::exponent(bits) == -149 || crate::component::significand(bits)
            >= 0x80_0000,
{
}

/// The spacing is the power of two that leaves 24 significant bits.
pub proof fn law_spacing(x: nat)
    ensures
        exists|k: nat| crate::component::spacing(x) == #[trigger]
            vstd::arithmetic::power2::pow2(k),
        x < crate::component::spacing(x) * 0x100_0000,
        crate::component::spacing(x) > 1 ==> crate::component::spacing(x) * 0x80_0000 <= x,
    decreases x,
{
    crate::component::lemma_spacing(x);
    if x < 0x100_0000 {
        vstd::arithmetic::power2::lemma2_to64();
        assert(crate::component::spacing(x) == vstd::arithmetic::power2::pow2(0));
    } else {
        law_spacing(x / 2);
        let k = choose|k: nat|
            crate::component::spacing(x / 2) == #[trigger] vstd::arithmetic::power2::pow2(k);
        vstd::arithmetic::power2::lemma_pow2_unfold(k + 1);
        assert(crate::component::spacing(x) == vstd::arithmetic::power2::pow2(k + 1));
    }
}

/// Rounding yields a multiple of the spacing that is nearest to the number,
/// and of two such the one with an even quotient.
pub proof fn law_rounding(x: nat)
    ensures
        ({
            let unit = crate::component::spacing(x) as int;
            let r = crate::component::rounded(x) as int;
            &&& r % unit == 0
            &&& -unit <= 2 * (r - x) <= unit
            &&& (2 * (r - x) == unit || 2 * (x - r) == unit) ==> r / unit % 2 == 0
        }),
{
    crate::component::lemma_spacing(x);
    crate::component::lemma_rounded(x);
    let unit = crate::component::spacing(x) as int;
    let below = x as int / unit;
    vstd::arithmetic::div_mod::lemma_fundamental_div_mod(x as int, unit);
    assert(unit * below == below * unit) by (nonlinear_arith);
    assert((below + 1) * unit == below * unit + unit) by (nonlinear_arith);
    vstd::arithmetic::div_mod::lemma_fundamental_div_mod_converse(below * unit, unit, below, 0);
    vstd::arithmetic::div_mod::lemma_fundamental_div_mod_converse(
        (below + 1) * unit,
        unit,
        below + 1,
        0,
    );
}

/// NaN and negative components have level 0, and infinity has the largest.
pub proof fn law_level_of_exceptional_components(bits: u32)
    ensures
        bits > 0x7f80_0000 ==> crate::component::level(bits) == 0,
        crate::component::level(0x7f80_0000) == 0xffff_ffff,
{
    law_level(0x7f80_0000);
    let p = vstd::arithmetic::power2::pow2(105);
    vstd::arithmetic::power2::lemma2_to64();
    vstd::arithmetic::power2::lemma_pow2_strictly_increases(10, 105);
    let x = 255 * crate::component::significand(0x7f80_0000);
    let r = crate::component::rounded(x);
    crate::component::lemma_rounded(x);
    crate::component::lemma_spacing(x);
    assert(r * p > 0xffff_ffff) by (nonlinear_arith)
        requires
            r >= 0x4000_0000,
            p >= 1024,
    ;
}

/// The level of a non-negative component is the integer nearest to its
/// single precision product with 255, halves upward, as far as it fits.
pub proof fn law_level(bits: u32)
    requires
        bits <= 0x7f80_0000,
    ensures
        ({
            let n = crate::component::level(bits) as int;
            let r = crate::component::rounded(255 * crate::component::significand(bits)) as int;
            let e = crate::component::exponent(bits);
            if e >= 0 {
                let scaled = r * vstd::arithmetic::power2::pow2(e as nat);
                n == if scaled < 0xffff_ffff { scaled } else { 0xffff_ffff }
            } else {
                let one = vstd::arithmetic::power2::pow2((-e) as nat) as int;
                &&& 2 * n * one - one <= 2 * r
                &&& n < 0xffff_ffff ==> 2 * r < 2 * n * one + one
            }
        }),
{
    let r = crate::component::rounded(255 * crate::component::significand(bits)) as int;
    let e = crate::component::exponent(bits);
    if e < 0 {
        let one = vstd::arithmetic::power2::pow2((-e) as nat) as int;
        vstd::arithmetic::power2::lemma_pow2_pos((-e) as nat);
        let q = (2 * r + one) / (2 * one);
        vstd::arithmetic::div_mod::lemma_fundamental_div_mod(2 * r + one, 2 * one);
        vstd::arithmetic::div_mod::lemma_mod_bound(2 * r + one, 2 * one);
        assert((2 * one) * q == 2 * q * one) by (nonlinear_arith);
        let n = crate::component::level(bits) as int;
        assert(n <= q);
        assert(2 * n * one <= 2 * q * one) by (nonlinear_arith)
            requires
                n <= q,
                one > 0,
        ;
    }
}

} // verus!
