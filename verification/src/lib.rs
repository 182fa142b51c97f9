/// The output stage: base64, PNG encoding, the interpolation flag, and
/// the whole palette-swap pipeline.
pub mod codec;
/// The fixed-point gamma table shared by luminance and blending.
pub mod gamma;
/// The rectangular pixel grid and its raw RGBA byte layout.
pub mod grid;
/// Proof functions stating the laws the pipeline obeys.
pub mod laws;
/// Palette extraction: luminance keys, search, sorted insertion.
pub mod palette;
/// The remapper: index rescaling, rounding, gamma-correct blending.
pub mod remap;

use vstd::prelude::*;

verus! {

/// A single RGBA pixel: four 8-bit channels. Equality is exact and
/// componentwise.
#[derive(Clone, Copy, PartialEq, Eq, Structural, Debug)]
pub struct Pixel {
    pub r: u8,
    pub g: u8,
    pub b: u8,
    pub a: u8,
}

impl Pixel {
    /// The fully transparent zero pixel, used for untouched output texels.
    pub fn transparent() -> (p: Pixel)
        ensures
            p == (Pixel { r: 0, g: 0, b: 0, a: 0 }),
    {
        Pixel { r: 0, g: 0, b: 0, a: 0 }
    }
}

} // verus!
