//! Color components. A component is a single precision number, nominally
//! between 0 and 1, held by its IEEE 754 binary32 bit pattern. The two
//! operations here are the comparison of two components and the scaling of
//! one to a level between 0 and 255, both worked out in integer arithmetic.
use vstd::prelude::*;

verus! {

/// The sign bit of a component.
pub const SIGN_BIT: u32 = 0x8000_0000;

/// The bit pattern of positive infinity. Larger magnitudes are not numbers.
pub const INFINITY: u32 = 0x7f80_0000;

/// One more than the largest fraction field: the implicit leading bit.
pub const HIDDEN_BIT: u32 = 0x80_0000;

/// One more than the largest significand.
pub const SIGNIFICAND_LIMIT: u64 = 0x100_0000;

/// The bit pattern without its sign bit.
pub open spec fn magnitude(bits: u32) -> u32 {
    bits % SIGN_BIT
}

pub open spec fn is_nan(bits: u32) -> bool {
    magnitude(bits) > INFINITY
}

/// Two components compare equal: neither is NaN, and they are the same
/// number, where the two zeros are one number.
pub open spec fn same_number(a: u32, b: u32) -> bool {
    &&& !is_nan(a)
    &&& !is_nan(b)
    &&& a == b || (magnitude(a) == 0 && magnitude(b) == 0)
}

/// The exponent field.
pub open spec fn exponent_field(bits: u32) -> int {
    (magnitude(bits) / HIDDEN_BIT) as int
}

/// The integer significand: a non-negative finite component is the number
/// `significand(bits) * 2^exponent(bits)`.
pub open spec fn significand(bits: u32) -> nat {
    let fraction = (bits % HIDDEN_BIT) as nat;
    if exponent_field(bits) == 0 {
        fraction
    } else {
        fraction + HIDDEN_BIT as nat
    }
}

/// The exponent that belongs to [`significand`].
pub open spec fn exponent(bits: u32) -> int {
    if exponent_field(bits) == 0 {
        -149
    } else {
        exponent_field(bits) - 150
    }
}

/// The distance between neighbouring numbers of 24 significant bits around
/// `x`: 1 below 2^24, and twice as large from each power of two to the next.
pub open spec fn spacing(x: nat) -> nat
    decreases x,
{
    if x < SIGNIFICAND_LIMIT {
        1
    } else {
        2 * spacing(x / 2)
    }
}

/// `x` rounded to 24 significant bits, ties to an even significand: the
/// significand of a single precision product whose exact value is `x`, up
/// to a common power of two. (Products too small to keep 24 bits lie far
/// below one half.)
pub open spec fn rounded(x: nat) -> nat {
    let unit = spacing(x);
    let below = x / unit;
    let rest = x % unit;
    if 2 * rest < unit || (2 * rest == unit && below % 2 == 0) {
        below * unit
    } else {
        (below + 1) * unit
    }
}

/// `m * 2^e` rounded to the nearest integer, halves upward.
pub open spec fn nearest_integer(m: nat, e: int) -> nat {
    if e >= 0 {
        m * vstd::arithmetic::power2::pow2(e as nat)
    } else {
        let one = vstd::arithmetic::power2::pow2((-e) as nat);
        (2 * m + one) / (2 * one)
    }
}

/// The level of a component: its single precision product with 255, rounded
/// to the nearest integer (halves away from zero) and clamped to what a
/// `u32` holds. Negative components and NaN have level 0, and infinity, like
/// every product beyond the range, has the largest level.
pub open spec fn level(bits: u32) -> u32 {
    if is_nan(bits) || bits >= SIGN_BIT {
        0
    } else {
        let n = nearest_integer(rounded(255 * significand(bits)), exponent(bits));
        if n > u32::MAX {
            u32::MAX
        } else {
            n as u32
        }
    }
}

/// Compare two components as numbers.
pub fn component_eq(a: u32, b: u32) -> (equal: bool)
    ensures
        equal == same_number(a, b),
{
    let ma: u32 = a % SIGN_BIT;
    let mb: u32 = b % SIGN_BIT;
    ma <= INFINITY && mb <= INFINITY && (a == b || (ma == 0 && mb == 0))
}

/// Bounds on the spacing: it is at least 1, at most 2^8 below 2^32, and no
/// number of more than 24 bits is less than 2^23 spacings.
pub proof fn lemma_spacing(x: nat)
    ensures
        spacing(x) >= 1,
        x < 0x1_0000_0000 ==> spacing(x) <= 256,
        spacing(x) > 1 ==> spacing(x) * 0x80_0000 <= x,
    decreases x,
{
    reveal_with_fuel(spacing, 10);
    if x >= SIGNIFICAND_LIMIT {
        lemma_spacing(x / 2);
    }
}

/// Rounding moves a number by at most half the spacing.
pub proof fn lemma_rounded(x: nat)
    ensures
        2 * rounded(x) <= 2 * x + spacing(x),
        2 * x <= 2 * rounded(x) + spacing(x),
{
    lemma_spacing(x);
    let unit = spacing(x);
    let below = x / unit;
    let rest = x % unit;
    vstd::arithmetic::div_mod::lemma_fundamental_div_mod(x as int, unit as int);
    assert(unit * below == below * unit) by (nonlinear_arith);
    assert((below + 1) * unit == below * unit + unit) by (nonlinear_arith);
}

/// A non-negative finite component differs from `v / 255` by no more than a
/// quarter of the step between two such numbers.
pub open spec fn near_byte(bits: u32, v: u8) -> bool {
    &&& bits < INFINITY
    &&& exponent(bits) < 0
    &&& {
        let one = vstd::arithmetic::power2::pow2((-exponent(bits)) as nat);
        (4 * v - 1) * one <= 4 * (255 * significand(bits)) <= (4 * v + 1) * one
    }
}

/// A component made from a byte scales back to that byte: whatever lies
/// near `v / 255` has level `v`.
pub proof fn lemma_level_near_byte(bits: u32, v: u8)
    requires
        near_byte(bits, v),
    ensures
        level(bits) == v,
{
    let one = vstd::arithmetic::power2::pow2((-exponent(bits)) as nat) as int;
    vstd::arithmetic::power2::lemma_pow2_pos((-exponent(bits)) as nat);
    let x = 255 * significand(bits);
    let u = spacing(x) as int;
    let r = rounded(x) as int;
    lemma_spacing(x);
    lemma_rounded(x);
    assert((4 * v - 1) * one == 4 * (v * one) - one) by (nonlinear_arith);
    assert((4 * v + 1) * one == 4 * (v * one) + one) by (nonlinear_arith);
    assert(v * one <= 255 * one) by (nonlinear_arith)
        requires
            v <= 255,
            one > 0,
    ;
    if u == 1 {
        assert(x % 1 == 0 && x / 1 == x);
        assert(r == x);
    }
    let rest = 2 * r + one - 2 * (v * one);
    assert(0 <= rest < 2 * one);
    assert(v * (2 * one) == 2 * (v * one)) by (nonlinear_arith);
    vstd::arithmetic::div_mod::lemma_fundamental_div_mod_converse(
        2 * r + one,
        2 * one,
        v as int,
        rest,
    );
}

/// A non-negative finite component is a nearest single precision number to
/// `v / 255`: it is off by at most half a unit in its last place.
pub open spec fn nearest_to_byte(bits: u32, v: u8) -> bool {
    &&& bits < INFINITY
    &&& exponent(bits) < 0
    &&& {
        let one = vstd::arithmetic::power2::pow2((-exponent(bits)) as nat);
        -255 <= 2 * (255 * significand(bits) - v * one) <= 255
    }
}

/// The single precision quotient of a byte and 255 lies near the exact one,
/// so that it scales back to the byte.
pub proof fn lemma_nearest_is_near(bits: u32, v: u8)
    requires
        nearest_to_byte(bits, v),
    ensures
        near_byte(bits, v),
        level(bits) == v,
{
    let k = (-exponent(bits)) as nat;
    let one = vstd::arithmetic::power2::pow2(k) as int;
    vstd::arithmetic::power2::lemma2_to64();
    if k > 9 {
        vstd::arithmetic::power2::lemma_pow2_strictly_increases(9, k);
    }
    if k < 9 {
        vstd::arithmetic::power2::lemma_pow2_strictly_increases(k, 9);
        assert(v * one <= 255 * 512) by (nonlinear_arith)
            requires
                v <= 255,
                0 <= one <= 512,
        ;
    }
    assert((4 * v - 1) * one == 4 * (v * one) - one) by (nonlinear_arith);
    assert((4 * v + 1) * one == 4 * (v * one) + one) by (nonlinear_arith);
    lemma_level_near_byte(bits, v);
}

/// The component is a number from 0 to 1; both zeros count.
pub open spec fn in_unit_range(bits: u32) -> bool {
    bits <= 0x3f80_0000 || bits == SIGN_BIT
}

/// The level of a component between 0 and 1 is a byte.
pub proof fn lemma_unit_level(bits: u32)
    requires
        in_unit_range(bits),
    ensures
        level(bits) <= 255,
{
    if bits < SIGN_BIT {
        let k = (-exponent(bits)) as nat;
        let one = vstd::arithmetic::power2::pow2(k) as int;
        vstd::arithmetic::power2::lemma2_to64();
        if k > 24 {
            vstd::arithmetic::power2::lemma_pow2_strictly_increases(24, k);
        }
        let x = 255 * significand(bits);
        lemma_spacing(x);
        lemma_rounded(x);
        assert(2 * one * 256 == 512 * one);
        vstd::arithmetic::div_mod::lemma_multiply_divide_lt(
            2 * rounded(x) + one,
            2 * one,
            256,
        );
    }
}

/// Components that compare equal have the same level.
pub proof fn lemma_same_number_same_level(a: u32, b: u32)
    requires
        same_number(a, b),
    ensures
        level(a) == level(b),
{
    vstd::arithmetic::power2::lemma_pow2_pos(149);
    let one = vstd::arithmetic::power2::pow2(149) as int;
    vstd::arithmetic::div_mod::lemma_basic_div(one, 2 * one);
    assert(level(0) == 0);
}

/// Round a product to 24 significant bits.
fn round_product(x: u64) -> (r: u64)
    requires
        x < 0x1_0000_0000,
    ensures
        r == rounded(x as nat),
        r <= 0x1_0000_0080,
{
    let mut unit: u64 = 1;
    let mut top: u64 = x;
    assert(x as nat / 1 == x as nat);
    while top >= SIGNIFICAND_LIMIT
        invariant
            x < 0x1_0000_0000,
            unit >= 1,
            top == x / unit,
            spacing(x as nat) == unit * spacing(top as nat),
            unit <= 256,
        decreases top,
    {
        let ghost old_unit = unit;
        proof {
            lemma_spacing(x as nat);
            lemma_spacing((top / 2) as nat);
            let s = spacing((top / 2) as nat);
            assert(spacing(top as nat) == 2 * s);
            assert(unit * (2 * s) == (2 * unit) * s) by (nonlinear_arith);
            assert(2 * unit <= (2 * unit) * s) by (nonlinear_arith)
                requires
                    s >= 1,
            ;
            vstd::arithmetic::div_mod::lemma_div_denominator(x as int, unit as int, 2);
            assert(unit * 2 == 2 * unit);
        }
        top = top / 2;
        unit = unit * 2;
    }
    assert(spacing(top as nat) == 1);
    assert(unit * 1 == unit);
    proof {
        lemma_rounded(x as nat);
        lemma_spacing(x as nat);
    }
    let rest: u64 = x % unit;
    proof {
        vstd::arithmetic::div_mod::lemma_fundamental_div_mod(x as int, unit as int);
        assert(unit * top == top * unit) by (nonlinear_arith);
        assert((top + 1) * unit == top * unit + unit) by (nonlinear_arith);
    }
    if 2 * rest < unit || (2 * rest == unit && top % 2 == 0) {
        top * unit
    } else {
        (top + 1) * unit
    }
}

/// Scale a component to a level: multiply it by 255 in single precision and
/// round to the nearest integer.
pub fn component_level(bits: u32) -> (scaled: u32)
    ensures
        scaled == level(bits),
{
    if bits > INFINITY {
        return 0;
    }
    let field: u32 = bits / HIDDEN_BIT;
    let fraction: u32 = bits % HIDDEN_BIT;
    let m: u64 = if field == 0 {
        fraction as u64
    } else {
        fraction as u64 + HIDDEN_BIT as u64
    };
    let product: u64 = round_product(255 * m);
    proof {
        vstd::arithmetic::power2::lemma2_to64();
        vstd::arithmetic::power2::lemma2_to64_rest();
        assert(magnitude(bits) == bits);
        assert(m == significand(bits));
        lemma_rounded((255 * m) as nat);
        lemma_spacing((255 * m) as nat);
    }
    if field >= 152 {
        proof {
            let e = exponent(bits) as nat;
            if e > 2 {
                vstd::arithmetic::power2::lemma_pow2_strictly_increases(2, e);
            }
            let p = vstd::arithmetic::power2::pow2(e);
            assert(product * p >= 0x1_0000_0000) by (nonlinear_arith)
                requires
                    product >= 0x4000_0000,
                    p >= 4,
            ;
        }
        u32::MAX
    } else if field >= 150 {
        let n: u64 = if field == 150 { product } else { product * 2 };
        proof {
            let p = vstd::arithmetic::power2::pow2(exponent(bits) as nat);
            assert(n == product * p) by (nonlinear_arith)
                requires
                    p == 1 && n == product || p == 2 && n == product * 2,
            ;
        }
        if n > u32::MAX as u64 {
            u32::MAX
        } else {
            n as u32
        }
    } else if field < 118 {
        proof {
            let k = (-exponent(bits)) as nat;
            if k > 33 {
                vstd::arithmetic::power2::lemma_pow2_strictly_increases(33, k);
            }
            let one = vstd::arithmetic::power2::pow2(k) as int;
            vstd::arithmetic::div_mod::lemma_basic_div(2 * product + one, 2 * one);
        }
        0
    } else {
        let k: u64 = 150 - field as u64;
        proof {
            if k < 32 {
                vstd::arithmetic::power2::lemma_pow2_strictly_increases(k as nat, 32);
            }
            vstd::bits::lemma_u64_shl_is_mul(1, k);
        }
        let one: u64 = 1u64 << k;
        let n: u64 = (2 * product + one) / (2 * one);
        if n > u32::MAX as u64 {
            u32::MAX
        } else {
            n as u32
        }
    }
}

} // verus!
