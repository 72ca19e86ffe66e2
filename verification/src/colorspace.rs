//! Color spaces known to libjpeg, and how many components each one has.
use vstd::prelude::*;

verus! {

/// Color space of input pixels or of the encoded JPEG.
#[allow(non_camel_case_types)]
#[derive(Copy, Clone, Debug, PartialEq, Eq, Hash, Structural)]
pub enum ColorSpace {
    JCS_UNKNOWN,
    JCS_GRAYSCALE,
    JCS_RGB,
    JCS_YCbCr,
    JCS_CMYK,
    JCS_YCCK,
    JCS_EXT_RGB,
    JCS_EXT_RGBX,
    JCS_EXT_BGR,
    JCS_EXT_BGRX,
    JCS_EXT_XBGR,
    JCS_EXT_XRGB,
    JCS_EXT_RGBA,
    JCS_EXT_BGRA,
    JCS_EXT_ABGR,
    JCS_EXT_ARGB,
    JCS_RGB565,
}

/// Number of bytes (components) per pixel in the given color space.
pub open spec fn spec_num_components(cs: ColorSpace) -> nat {
    match cs {
        ColorSpace::JCS_UNKNOWN => 0,
        ColorSpace::JCS_GRAYSCALE => 1,
        ColorSpace::JCS_RGB | ColorSpace::JCS_YCbCr => 3,
        ColorSpace::JCS_CMYK | ColorSpace::JCS_YCCK => 4,
        ColorSpace::JCS_EXT_RGB | ColorSpace::JCS_EXT_BGR => 3,
        ColorSpace::JCS_RGB565 => 3,
        _ => 4,
    }
}

impl ColorSpace {
    /// Number of components of a pixel in this color space.
    pub fn num_components(self) -> (n: usize)
        ensures
            n == spec_num_components(self),
    {
        match self {
            ColorSpace::JCS_UNKNOWN => 0,
            ColorSpace::JCS_GRAYSCALE => 1,
            ColorSpace::JCS_RGB | ColorSpace::JCS_YCbCr => 3,
            ColorSpace::JCS_CMYK | ColorSpace::JCS_YCCK => 4,
            ColorSpace::JCS_EXT_RGB | ColorSpace::JCS_EXT_BGR => 3,
            ColorSpace::JCS_RGB565 => 3,
            _ => 4,
        }
    }
}

} // verus!
