//! Unicode placeholders of the kitty graphics protocol: a register of
//! virtual image placements, and the resolution of placeholder cells
//! against it.

pub mod color;
pub mod component;
pub mod diacritics;
pub mod laws;
pub mod placements;
pub mod screen;
pub mod terminal;
