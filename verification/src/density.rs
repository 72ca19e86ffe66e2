use vstd::prelude::*;

verus! {

/// Unit of the pixel density stored in the JFIF APP0 segment.
#[derive(Copy, Clone, Debug, PartialEq, Eq, Structural)]
pub enum PixelDensityUnit {
    /// No units
    PixelAspectRatio,
    /// Pixels per inch
    Inches,
    /// Pixels per centimeter
    Centimeters,
}

impl PixelDensityUnit {
    /// The code that JFIF stores for this unit.
    pub open spec fn spec_code(self) -> u8 {
        match self {
            PixelDensityUnit::PixelAspectRatio => 0,
            PixelDensityUnit::Inches => 1,
            PixelDensityUnit::Centimeters => 2,
        }
    }

    /// The code that JFIF stores for this unit (0, 1 or 2).
    pub fn code(self) -> (c: u8)
        ensures
            c == self.spec_code(),
    {
        match self {
            PixelDensityUnit::PixelAspectRatio => 0,
            PixelDensityUnit::Inches => 1,
            PixelDensityUnit::Centimeters => 2,
        }
    }
}

/// Pixel density of an image, as written to the JFIF APP0 segment.
#[derive(Copy, Clone, Debug, PartialEq, Eq, Structural)]
pub struct PixelDensity {
    pub unit: PixelDensityUnit,
    pub x: u16,
    pub y: u16,
}

impl Default for PixelDensity {
    /// A 1x1 pixel aspect ratio.
    fn default() -> (d: Self)
        ensures
            d == (PixelDensity { unit: PixelDensityUnit::PixelAspectRatio, x: 1, y: 1 }),
    {
        Self { unit: PixelDensityUnit::PixelAspectRatio, x: 1, y: 1 }
    }
}

} // verus!
