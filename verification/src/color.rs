//! Cell colors, and the image and placement ids that they encode.
use crate::component::{component_eq, component_level};
use vstd::prelude::*;

verus! {

/// A color in the sRGB space: red, green, blue and alpha, each component a
/// single precision number given by its bit pattern.
#[derive(Debug, Clone, Copy)]
pub struct SrgbaTuple(pub u32, pub u32, pub u32, pub u32);

/// The color of a cell's text or of its underline.
#[derive(Debug, Clone, Copy)]
pub enum ColorAttribute {
    /// A true color, with a palette entry for terminals without it.
    TrueColorWithPaletteFallback(SrgbaTuple, u8),
    /// A true color, with the default color for terminals without it.
    TrueColorWithDefaultFallback(SrgbaTuple),
    /// An entry of the 256-color palette.
    PaletteIndex(u8),
    /// No color was set.
    Default,
}

/// Two colors are the same component by component, as numbers.
pub open spec fn same_srgba(a: SrgbaTuple, b: SrgbaTuple) -> bool {
    &&& crate::component::same_number(a.0, b.0)
    &&& crate::component::same_number(a.1, b.1)
    &&& crate::component::same_number(a.2, b.2)
    &&& crate::component::same_number(a.3, b.3)
}

/// Two color attributes are of one kind and agree in what they hold.
pub open spec fn same_color(a: ColorAttribute, b: ColorAttribute) -> bool {
    match (a, b) {
        (
            ColorAttribute::TrueColorWithPaletteFallback(s, i),
            ColorAttribute::TrueColorWithPaletteFallback(t, j),
        ) => same_srgba(s, t) && i == j,
        (
            ColorAttribute::TrueColorWithDefaultFallback(s),
            ColorAttribute::TrueColorWithDefaultFallback(t),
        ) => same_srgba(s, t),
        (ColorAttribute::PaletteIndex(i), ColorAttribute::PaletteIndex(j)) => i == j,
        (ColorAttribute::Default, ColorAttribute::Default) => true,
        _ => false,
    }
}

impl PartialEq for SrgbaTuple {
    fn eq(&self, other: &Self) -> (equal: bool) {
        component_eq(self.0, other.0) && component_eq(self.1, other.1) && component_eq(
            self.2,
            other.2,
        ) && component_eq(self.3, other.3)
    }
}

impl vstd::std_specs::cmp::PartialEqSpecImpl for SrgbaTuple {
    open spec fn obeys_eq_spec() -> bool {
        true
    }

    open spec fn eq_spec(&self, other: &Self) -> bool {
        same_srgba(*self, *other)
    }
}

impl PartialEq for ColorAttribute {
    fn eq(&self, other: &Self) -> (equal: bool) {
        match (self, other) {
            (
                ColorAttribute::TrueColorWithPaletteFallback(s, i),
                ColorAttribute::TrueColorWithPaletteFallback(t, j),
            ) => *s == *t && *i == *j,
            (
                ColorAttribute::TrueColorWithDefaultFallback(s),
                ColorAttribute::TrueColorWithDefaultFallback(t),
            ) => *s == *t,
            (ColorAttribute::PaletteIndex(i), ColorAttribute::PaletteIndex(j)) => *i == *j,
            (ColorAttribute::Default, ColorAttribute::Default) => true,
            _ => false,
        }
    }
}

impl vstd::std_specs::cmp::PartialEqSpecImpl for ColorAttribute {
    open spec fn obeys_eq_spec() -> bool {
        true
    }

    open spec fn eq_spec(&self, other: &Self) -> bool {
        same_color(*self, *other)
    }
}

/// The 24-bit RGB value of a color, from the levels of its components.
pub open spec fn rgb_bits(color: SrgbaTuple) -> u32 {
    (crate::component::level(color.0) << 16) | (crate::component::level(color.1) << 8)
        | crate::component::level(color.2)
}

/// The id bits that a color encodes; an unset color encodes none.
pub open spec fn id_bits(color: ColorAttribute) -> Option<u32> {
    match color {
        ColorAttribute::PaletteIndex(i) => Some(i as u32),
        ColorAttribute::TrueColorWithPaletteFallback(rgba, _) => Some(rgb_bits(rgba)),
        ColorAttribute::TrueColorWithDefaultFallback(rgba) => Some(rgb_bits(rgba)),
        ColorAttribute::Default => None,
    }
}

/// Map a foreground/underline color to the low 24 bits of an image id,
/// per the placeholder protocol: the palette index in 256-color mode, or
/// the 24-bit RGB value in true color mode. Returns `None` when the color
/// is the default (unset), which cannot encode an id.
pub fn color_to_id_bits(color: &ColorAttribute) -> (bits: Option<u32>)
    ensures
        bits == id_bits(*color),
        *color matches ColorAttribute::PaletteIndex(i) ==> bits == Some(i as u32),
        *color is Default <==> bits is None,
{
    match color {
        ColorAttribute::PaletteIndex(i) => Some(*i as u32),
        ColorAttribute::TrueColorWithPaletteFallback(SrgbaTuple(r, g, b, _), _)
        | ColorAttribute::TrueColorWithDefaultFallback(SrgbaTuple(r, g, b, _)) => Some(
            (component_level(*r) << 16) | (component_level(*g) << 8) | component_level(*b),
        ),
        ColorAttribute::Default => None,
    }
}

} // verus!
