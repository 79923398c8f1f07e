use kitty_placeholders::color::{color_to_id_bits, ColorAttribute, SrgbaTuple};
use kitty_placeholders::component::{component_eq, component_level};

fn srgba(r: f32, g: f32, b: f32, a: f32) -> SrgbaTuple {
    SrgbaTuple(r.to_bits(), g.to_bits(), b.to_bits(), a.to_bits())
}

fn native_level(x: f32) -> u32 {
    (x * 255.0).round() as u32
}

#[test]
fn known_levels() {
    assert_eq!(component_level(0.0f32.to_bits()), 0);
    assert_eq!(component_level(1.0f32.to_bits()), 255);
    assert_eq!(component_level(0.5f32.to_bits()), 128);
    assert_eq!(component_level(0.25f32.to_bits()), 64);
    assert_eq!(component_level(2.0f32.to_bits()), 510);
    assert_eq!(component_level((-1.0f32).to_bits()), 0);
    assert_eq!(component_level((-0.0f32).to_bits()), 0);
    assert_eq!(component_level(f32::NAN.to_bits()), 0);
    assert_eq!(component_level(f32::INFINITY.to_bits()), u32::MAX);
    assert_eq!(component_level(f32::NEG_INFINITY.to_bits()), 0);
    assert_eq!(component_level(f32::MAX.to_bits()), u32::MAX);
    assert_eq!(component_level(f32::MIN_POSITIVE.to_bits()), 0);
    assert_eq!(component_level(1), 0);
}

#[test]
fn bytes_scale_back() {
    for v in 0..=255u32 {
        let x = v as f32 / 255.0;
        assert_eq!(component_level(x.to_bits()), v);
    }
}

#[test]
fn levels_agree_with_single_precision_arithmetic() {
    let mut bits: u32 = 0;
    loop {
        assert_eq!(component_level(bits), native_level(f32::from_bits(bits)));
        match bits.checked_add(3989) {
            Some(next) => bits = next,
            None => break,
        }
    }
}

#[test]
fn levels_agree_around_halves() {
    for v in 0..1000u32 {
        let middle = ((v as f32 + 0.5) / 255.0).to_bits();
        for bits in middle - 40..=middle + 40 {
            assert_eq!(component_level(bits), native_level(f32::from_bits(bits)));
        }
    }
}

#[test]
fn levels_agree_at_the_ends_of_the_range() {
    for middle in [
        16843009.0f32.to_bits(),
        33686018.0f32.to_bits(),
        (0.5f32 / 255.0).to_bits(),
        0x7f80_0000,
        0x8000_0000,
        0x0080_0000,
    ] {
        for bits in middle - 300..=middle + 300 {
            assert_eq!(component_level(bits), native_level(f32::from_bits(bits)));
        }
    }
}

#[test]
fn components_compare_as_numbers() {
    let samples = [
        0.0f32,
        -0.0,
        1.0,
        -1.0,
        0.5,
        f32::MIN_POSITIVE,
        f32::INFINITY,
        f32::NEG_INFINITY,
        f32::NAN,
    ];
    for a in samples {
        for b in samples {
            assert_eq!(component_eq(a.to_bits(), b.to_bits()), a == b);
        }
    }
    assert!(!component_eq(0x7fc0_0001, 0x7fc0_0001));
    assert!(!component_eq(0xffc0_0001, 0xffc0_0001));
}

#[test]
fn palette_colors_encode_their_index() {
    assert_eq!(color_to_id_bits(&ColorAttribute::PaletteIndex(0)), Some(0));
    assert_eq!(color_to_id_bits(&ColorAttribute::PaletteIndex(42)), Some(42));
    assert_eq!(color_to_id_bits(&ColorAttribute::PaletteIndex(255)), Some(255));
}

#[test]
fn true_colors_encode_their_rgb_value() {
    let color = srgba(18.0 / 255.0, 52.0 / 255.0, 86.0 / 255.0, 1.0);
    assert_eq!(
        color_to_id_bits(&ColorAttribute::TrueColorWithDefaultFallback(color)),
        Some(0x123456)
    );
    assert_eq!(
        color_to_id_bits(&ColorAttribute::TrueColorWithPaletteFallback(color, 3)),
        Some(0x123456)
    );
    let white = srgba(1.0, 1.0, 1.0, 0.0);
    assert_eq!(
        color_to_id_bits(&ColorAttribute::TrueColorWithDefaultFallback(white)),
        Some(0xffffff)
    );
}

#[test]
fn components_above_one_spill_over() {
    let color = srgba(0.0, 0.0, 2.0, 1.0);
    assert_eq!(
        color_to_id_bits(&ColorAttribute::TrueColorWithDefaultFallback(color)),
        Some(510)
    );
}

#[test]
fn components_up_to_one_have_byte_levels() {
    let one = 1.0f32.to_bits();
    for bits in one - 1000..=one {
        assert_eq!(component_level(bits), 255);
    }
    for bits in (0..=one).step_by(65537) {
        assert!(component_level(bits) <= 255);
    }
}

#[test]
fn default_color_encodes_nothing() {
    assert_eq!(color_to_id_bits(&ColorAttribute::Default), None);
}

#[test]
fn colors_compare_by_kind_and_content() {
    let a = srgba(0.1, 0.2, 0.3, 1.0);
    let b = srgba(0.1, 0.2, 0.3, 0.5);
    let nan = srgba(f32::NAN, 0.2, 0.3, 1.0);
    let default = ColorAttribute::TrueColorWithDefaultFallback;
    assert!(default(a) == default(a));
    assert!(default(a) != default(b));
    assert!(default(nan) != default(nan));
    assert!(default(srgba(0.0, 0.0, 0.0, 0.0)) == default(srgba(-0.0, 0.0, 0.0, 0.0)));
    assert!(default(a) != ColorAttribute::TrueColorWithPaletteFallback(a, 1));
    assert!(
        ColorAttribute::TrueColorWithPaletteFallback(a, 1)
            == ColorAttribute::TrueColorWithPaletteFallback(a, 1)
    );
    assert!(
        ColorAttribute::TrueColorWithPaletteFallback(a, 1)
            != ColorAttribute::TrueColorWithPaletteFallback(a, 2)
    );
    assert!(ColorAttribute::PaletteIndex(1) == ColorAttribute::PaletteIndex(1));
    assert!(ColorAttribute::PaletteIndex(1) != ColorAttribute::PaletteIndex(2));
    assert!(ColorAttribute::Default == ColorAttribute::Default);
    assert!(ColorAttribute::Default != ColorAttribute::PaletteIndex(0));
}
