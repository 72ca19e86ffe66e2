//! Type-safe JPEG configuration types.
use vstd::prelude::*;
use crate::binary32::{bits_in_quality_range, quality_in_range};
use crate::colorspace::{ColorSpace, spec_num_components};
use crate::compress::ScanMode;
use crate::qtable::QTable;
use crate::text::{decimal_chars, push_decimal};

verus! {

/// Complete type-safe JPEG configuration. Dimensions are given at encode
/// time, so one configuration can serve many images.
#[derive(Clone, Debug)]
pub struct JpegConfig {
    /// Input mode (scanline vs raw MCU)
    pub input: JpegInput,
    /// Compression mode (sequential vs progressive)
    pub compression: CompressionMode,
    /// Quantization table configuration
    pub qtables: QTableConfig,
    /// Quality (0-100) as the bit pattern of an IEEE-754 binary32 number
    pub quality: u32,
    /// Huffman coding optimization
    pub optimize_coding: bool,
    /// Scan optimization mode (MozJPEG specific)
    pub scan_mode: ScanMode,
    /// Clamp quantization table values to 1-255 (8-bit DQT precision)
    pub force_8bit_quantization: bool,
}

/// Encoding presets that balance speed, file size, and quality.
#[derive(Clone, Copy, Debug, PartialEq, Eq, Structural)]
pub enum Preset {
    /// No progressive mode, no Huffman optimization, no scan optimization.
    SequentialFastest,
    /// Sequential JPEG with Huffman optimization.
    SequentialBalanced,
    /// Progressive JPEG with Huffman optimization (recommended default).
    ProgressiveBalanced,
    /// Progressive, Huffman and scan optimization (mozjpeg defaults).
    ProgressiveSmallest,
}

impl Preset {
    pub open spec fn spec_is_progressive(self) -> bool {
        self == Preset::ProgressiveBalanced || self == Preset::ProgressiveSmallest
    }

    pub open spec fn spec_has_huffman_opt(self) -> bool {
        self != Preset::SequentialFastest
    }

    pub open spec fn spec_has_optimize_scans(self) -> bool {
        self == Preset::ProgressiveSmallest
    }

    pub open spec fn spec_compression_mode(self) -> CompressionMode {
        match self {
            Preset::SequentialFastest | Preset::SequentialBalanced => CompressionMode::Sequential,
            Preset::ProgressiveBalanced => CompressionMode::Progressive {
                optimize_scans: false,
                use_scans_in_trellis: false,
            },
            Preset::ProgressiveSmallest => CompressionMode::Progressive {
                optimize_scans: true,
                use_scans_in_trellis: true,
            },
        }
    }

    /// Returns true if this preset uses progressive encoding.
    pub fn is_progressive(self) -> (r: bool)
        ensures
            r == self.spec_is_progressive(),
    {
        matches!(self, Preset::ProgressiveBalanced | Preset::ProgressiveSmallest)
    }

    /// Returns true if Huffman table optimization is enabled.
    pub fn has_huffman_opt(self) -> (r: bool)
        ensures
            r == self.spec_has_huffman_opt(),
    {
        !matches!(self, Preset::SequentialFastest)
    }

    /// Returns true if optimize_scans is enabled.
    pub fn has_optimize_scans(self) -> (r: bool)
        ensures
            r == self.spec_has_optimize_scans(),
    {
        matches!(self, Preset::ProgressiveSmallest)
    }

    /// Get the compression mode for this preset
    fn compression_mode(self) -> (m: CompressionMode)
        ensures
            m == self.spec_compression_mode(),
    {
        match self {
            Preset::SequentialFastest | Preset::SequentialBalanced => CompressionMode::Sequential,
            Preset::ProgressiveBalanced => CompressionMode::Progressive {
                optimize_scans: false,
                use_scans_in_trellis: false,
            },
            Preset::ProgressiveSmallest => CompressionMode::Progressive {
                optimize_scans: true,
                use_scans_in_trellis: true,
            },
        }
    }

    /// Get whether to enable Huffman coding optimization
    fn optimize_coding(self) -> (r: bool)
        ensures
            r == self.spec_has_huffman_opt(),
    {
        self.has_huffman_opt()
    }
}

/// The configuration of a preset: RGB to YCbCr 4:2:0 input, quantization
/// from the quality, the preset's compression mode and Huffman setting.
pub open spec fn spec_from_preset(preset: Preset, quality: u32) -> JpegConfig {
    JpegConfig {
        input: default_scanline_input(),
        compression: preset.spec_compression_mode(),
        qtables: QTableConfig::FromQuality,
        quality,
        optimize_coding: preset.spec_has_huffman_opt(),
        scan_mode: ScanMode::Auto,
        force_8bit_quantization: false,
    }
}

/// How the subsampling modes fit together: chroma is sampled once per
/// `h x v` luma pixels, where `(h, v)` are the luma sampling factors and both
/// chroma components are sampled 1x1; the MCU is `8h x 8v` pixels; a chroma
/// plane is the luma size divided by `h` and `v`; and 4:4:4 keeps full size.
pub proof fn lemma_subsampling_consistent(sub: ChromaSubsampling, width: usize, height: usize)
    ensures
        ({
            let f = sub.spec_sampling_factors();
            &&& f.len() == 3
            &&& f[1] == (1u8, 1u8) && f[2] == (1u8, 1u8)
            &&& 1 <= f[0].0 <= 4 && 1 <= f[0].1 <= 2
            &&& sub.spec_mcu_size() == ((8 * f[0].0) as usize, (8 * f[0].1) as usize)
            &&& sub.spec_chroma_size(width, height).0 as int == width as int / f[0].0 as int
            &&& sub.spec_chroma_size(width, height).1 as int == height as int / f[0].1 as int
            &&& (sub == ChromaSubsampling::Yuv444) == (f[0] == (1u8, 1u8))
            &&& (sub == ChromaSubsampling::Yuv422) == (f[0] == (2u8, 1u8))
            &&& (sub == ChromaSubsampling::Yuv420) == (f[0] == (2u8, 2u8))
            &&& (sub == ChromaSubsampling::Yuv411) == (f[0] == (4u8, 1u8))
        }),
{
    let f = sub.spec_sampling_factors();
    match sub {
        ChromaSubsampling::Yuv444 => {
            assert(f[0] == (1u8, 1u8));
            assert(width as int / 1int == width) by (nonlinear_arith);
            assert(height as int / 1int == height) by (nonlinear_arith);
        },
        ChromaSubsampling::Yuv422 => {
            assert(f[0] == (2u8, 1u8));
            assert(height as int / 1int == height) by (nonlinear_arith);
        },
        ChromaSubsampling::Yuv420 => {
            assert(f[0] == (2u8, 2u8));
        },
        ChromaSubsampling::Yuv411 => {
            assert(f[0] == (4u8, 1u8));
            assert(height as int / 1int == height) by (nonlinear_arith);
        },
    }
}

/// The convenience constructors give sequential, Huffman-optimized
/// configurations that keep the input and quality asked for, with
/// quantization from the quality, automatic scan mode and no 8-bit clamping.
pub proof fn lemma_sequential_config_optimizes_huffman(input: JpegInput, quality: u32)
    ensures
        sequential_config(input, quality).optimize_coding,
        sequential_config(input, quality).compression == CompressionMode::Sequential,
        sequential_config(input, quality).input == input,
        sequential_config(input, quality).quality == quality,
        sequential_config(input, quality).qtables is FromQuality,
        sequential_config(input, quality).scan_mode == ScanMode::Auto,
        !sequential_config(input, quality).force_8bit_quantization,
{
}

/// Only RGB to YCbCr converts pixels: every other scanline mode takes pixels
/// in the color space it encodes, and RGB to YCbCr takes RGB and encodes
/// YCbCr. The number of components per pixel is kept by every mode.
pub proof fn lemma_scanline_color_spaces(sc: ScanlineConfig)
    ensures
        sc is RgbToYCbCr ==> sc.spec_input_color_space() == ColorSpace::JCS_RGB
            && sc.spec_jpeg_color_space() == ColorSpace::JCS_YCbCr,
        !(sc is RgbToYCbCr) ==> sc.spec_input_color_space() == sc.spec_jpeg_color_space(),
        sc is YCbCrToYCbCr ==> sc.spec_input_color_space() == ColorSpace::JCS_YCbCr,
        sc is RgbToRgb ==> sc.spec_input_color_space() == ColorSpace::JCS_RGB,
        sc is Grayscale ==> sc.spec_input_color_space() == ColorSpace::JCS_GRAYSCALE,
        sc is CmykToCmyk ==> sc.spec_input_color_space() == ColorSpace::JCS_CMYK,
        spec_num_components(sc.spec_input_color_space()) == spec_num_components(sc.spec_jpeg_color_space()),
{
}

/// A raw MCU configuration is accepted exactly when the image size is a
/// multiple of the MCU size and every plane has the size the subsampling
/// gives it: the luma plane the image size, each chroma plane the chroma
/// size (for grayscale, the one plane the image size, in 8x8 blocks).
pub proof fn lemma_raw_mcu_validate_accepts(c: RawMcuConfig, width: usize, height: usize)
    ensures
        (spec_raw_mcu_validate(c, width, height) is Ok) == (match c {
            RawMcuConfig::YCbCr { subsampling, y_size, cb_size, cr_size } => {
                &&& width % subsampling.spec_mcu_size().0 == 0
                &&& height % subsampling.spec_mcu_size().1 == 0
                &&& y_size.0 == width && y_size.1 == height
                &&& cb_size.0 == subsampling.spec_chroma_size(width, height).0
                &&& cb_size.1 == subsampling.spec_chroma_size(width, height).1
                &&& cr_size.0 == subsampling.spec_chroma_size(width, height).0
                &&& cr_size.1 == subsampling.spec_chroma_size(width, height).1
            },
            RawMcuConfig::Grayscale { size } => {
                &&& width % 8 == 0 && height % 8 == 0
                &&& size.0 == width && size.1 == height
            },
        }),
{
}

/// A preset's flags describe the configuration it gives: progressive exactly
/// when `is_progressive`, with scan optimization and scans in trellis both
/// exactly when `has_optimize_scans`, and Huffman optimization exactly when
/// `has_huffman_opt`. The presets are ordered: scan optimization implies
/// progressive, which implies Huffman optimization.
pub proof fn lemma_preset_flags(preset: Preset, quality: u32)
    ensures
        ({
            let c = spec_from_preset(preset, quality);
            &&& (c.compression is Progressive) == preset.spec_is_progressive()
            &&& (c.compression matches CompressionMode::Progressive { optimize_scans: o, use_scans_in_trellis: u }
                ==> o == preset.spec_has_optimize_scans() && u == preset.spec_has_optimize_scans())
            &&& (c.compression matches CompressionMode::Progressive { optimize_scans: true, .. })
                == preset.spec_has_optimize_scans()
            &&& c.optimize_coding == preset.spec_has_huffman_opt()
            &&& c.quality == quality
        }),
        preset.spec_has_optimize_scans() ==> preset.spec_is_progressive(),
        preset.spec_is_progressive() ==> preset.spec_has_huffman_opt(),
{
}

/// Input mode: scanline vs raw MCU
#[derive(Clone, Copy, Debug)]
pub enum JpegInput {
    /// Interleaved pixels; the library handles conversion and downsampling.
    Scanlines(ScanlineConfig),
    /// Pre-downsampled component planes; the library only encodes.
    RawMcu(RawMcuConfig),
}

/// Scanline mode configurations (valid input to JPEG color space combinations)
#[derive(Clone, Copy, Debug, PartialEq, Eq, Structural)]
pub enum ScanlineConfig {
    /// RGB input, YCbCr JPEG (most common)
    RgbToYCbCr { subsampling: ChromaSubsampling, smoothing: u8 },
    /// RGB input, RGB JPEG (no conversion)
    RgbToRgb,
    /// YCbCr input, YCbCr JPEG (downsampling only)
    YCbCrToYCbCr { subsampling: ChromaSubsampling, smoothing: u8 },
    /// Grayscale input, grayscale JPEG
    Grayscale,
    /// CMYK input, CMYK JPEG
    CmykToCmyk,
}

impl ScanlineConfig {
    pub open spec fn spec_smoothing_factor(self) -> Option<u8> {
        match self {
            ScanlineConfig::RgbToYCbCr { smoothing, .. } => Some(smoothing),
            ScanlineConfig::YCbCrToYCbCr { smoothing, .. } => Some(smoothing),
            _ => None,
        }
    }

    pub open spec fn spec_subsampling(self) -> Option<ChromaSubsampling> {
        match self {
            ScanlineConfig::RgbToYCbCr { subsampling, .. } => Some(subsampling),
            ScanlineConfig::YCbCrToYCbCr { subsampling, .. } => Some(subsampling),
            _ => None,
        }
    }

    pub open spec fn spec_input_color_space(self) -> ColorSpace {
        match self {
            ScanlineConfig::RgbToYCbCr { .. } => ColorSpace::JCS_RGB,
            ScanlineConfig::RgbToRgb => ColorSpace::JCS_RGB,
            ScanlineConfig::YCbCrToYCbCr { .. } => ColorSpace::JCS_YCbCr,
            ScanlineConfig::Grayscale => ColorSpace::JCS_GRAYSCALE,
            ScanlineConfig::CmykToCmyk => ColorSpace::JCS_CMYK,
        }
    }

    pub open spec fn spec_jpeg_color_space(self) -> ColorSpace {
        match self {
            ScanlineConfig::RgbToYCbCr { .. } => ColorSpace::JCS_YCbCr,
            ScanlineConfig::RgbToRgb => ColorSpace::JCS_RGB,
            ScanlineConfig::YCbCrToYCbCr { .. } => ColorSpace::JCS_YCbCr,
            ScanlineConfig::Grayscale => ColorSpace::JCS_GRAYSCALE,
            ScanlineConfig::CmykToCmyk => ColorSpace::JCS_CMYK,
        }
    }

    /// The smoothing factor of the YCbCr modes; `None` for the others.
    pub fn smoothing_factor(&self) -> (r: Option<u8>)
        ensures
            r == self.spec_smoothing_factor(),
    {
        match self {
            ScanlineConfig::RgbToYCbCr { smoothing, .. } => Some(*smoothing),
            ScanlineConfig::YCbCrToYCbCr { smoothing, .. } => Some(*smoothing),
            _ => None,
        }
    }

    /// Set smoothing factor; no effect on RGB, grayscale or CMYK modes.
    pub fn set_smoothing(&mut self, value: u8)
        ensures
            *final(self) == (match *old(self) {
                ScanlineConfig::RgbToYCbCr { subsampling, .. } => ScanlineConfig::RgbToYCbCr { subsampling, smoothing: value },
                ScanlineConfig::YCbCrToYCbCr { subsampling, .. } => ScanlineConfig::YCbCrToYCbCr { subsampling, smoothing: value },
                other => other,
            }),
    {
        match self {
            ScanlineConfig::RgbToYCbCr { smoothing, .. } => {
                *smoothing = value;
            },
            ScanlineConfig::YCbCrToYCbCr { smoothing, .. } => {
                *smoothing = value;
            },
            _ => {},
        }
    }

    /// The chroma subsampling of the YCbCr modes; `None` for the others.
    pub fn subsampling(&self) -> (r: Option<ChromaSubsampling>)
        ensures
            r == self.spec_subsampling(),
    {
        match self {
            ScanlineConfig::RgbToYCbCr { subsampling, .. } => Some(*subsampling),
            ScanlineConfig::YCbCrToYCbCr { subsampling, .. } => Some(*subsampling),
            _ => None,
        }
    }

    /// Color space of the input pixels.
    pub fn input_color_space(&self) -> (r: ColorSpace)
        ensures
            r == self.spec_input_color_space(),
    {
        match self {
            ScanlineConfig::RgbToYCbCr { .. } => ColorSpace::JCS_RGB,
            ScanlineConfig::RgbToRgb => ColorSpace::JCS_RGB,
            ScanlineConfig::YCbCrToYCbCr { .. } => ColorSpace::JCS_YCbCr,
            ScanlineConfig::Grayscale => ColorSpace::JCS_GRAYSCALE,
            ScanlineConfig::CmykToCmyk => ColorSpace::JCS_CMYK,
        }
    }

    /// Color space of the encoded JPEG.
    pub fn jpeg_color_space(&self) -> (r: ColorSpace)
        ensures
            r == self.spec_jpeg_color_space(),
    {
        match self {
            ScanlineConfig::RgbToYCbCr { .. } => ColorSpace::JCS_YCbCr,
            ScanlineConfig::RgbToRgb => ColorSpace::JCS_RGB,
            ScanlineConfig::YCbCrToYCbCr { .. } => ColorSpace::JCS_YCbCr,
            ScanlineConfig::Grayscale => ColorSpace::JCS_GRAYSCALE,
            ScanlineConfig::CmykToCmyk => ColorSpace::JCS_CMYK,
        }
    }
}

/// Raw MCU mode configurations (pre-downsampled components)
#[derive(Clone, Copy, Debug)]
pub enum RawMcuConfig {
    /// Pre-downsampled Y, Cb and Cr planes.
    YCbCr {
        subsampling: ChromaSubsampling,
        y_size: (usize, usize),
        cb_size: (usize, usize),
        cr_size: (usize, usize),
    },
    /// A single grayscale plane; both sizes must be multiples of 8.
    Grayscale { size: (usize, usize) },
}

/// What validating a raw MCU configuration against an image size gives.
pub open spec fn spec_raw_mcu_validate(c: RawMcuConfig, width: usize, height: usize) -> Result<(), ConfigError> {
    match c {
        RawMcuConfig::YCbCr { subsampling, y_size, cb_size, cr_size } => {
            let mcu = subsampling.spec_mcu_size();
            let expected = subsampling.spec_chroma_size(width, height);
            if width % mcu.0 != 0 || height % mcu.1 != 0 {
                Err(ConfigError::InvalidMcuDimensions { width, height, mcu_size: mcu })
            } else if y_size != (width, height) {
                Err(ConfigError::InvalidComponentSize { component: "Y", expected: (width, height), actual: y_size })
            } else if cb_size != expected {
                Err(ConfigError::InvalidComponentSize { component: "Cb", expected, actual: cb_size })
            } else if cr_size != expected {
                Err(ConfigError::InvalidComponentSize { component: "Cr", expected, actual: cr_size })
            } else {
                Ok(())
            }
        },
        RawMcuConfig::Grayscale { size } => {
            if width % 8 != 0 || height % 8 != 0 {
                Err(ConfigError::InvalidMcuDimensions { width, height, mcu_size: (8, 8) })
            } else if size != (width, height) {
                Err(ConfigError::InvalidComponentSize { component: "Y", expected: (width, height), actual: size })
            } else {
                Ok(())
            }
        },
    }
}

impl RawMcuConfig {
    /// Validate MCU dimensions: image dimensions are multiples of the MCU
    /// size and component sizes match the subsampling ratios.
    pub fn validate(&self, width: usize, height: usize) -> (r: Result<(), ConfigError>)
        ensures
            r == spec_raw_mcu_validate(*self, width, height),
    {
        match self {
            RawMcuConfig::YCbCr { subsampling, y_size, cb_size, cr_size } => {
                let mcu_size = subsampling.mcu_size();
                if width % mcu_size.0 != 0 || height % mcu_size.1 != 0 {
                    return Err(ConfigError::InvalidMcuDimensions { width, height, mcu_size });
                }
                if y_size.0 != width || y_size.1 != height {
                    return Err(ConfigError::InvalidComponentSize {
                        component: "Y",
                        expected: (width, height),
                        actual: *y_size,
                    });
                }
                let expected_cb_size = subsampling.chroma_size(width, height);
                if cb_size.0 != expected_cb_size.0 || cb_size.1 != expected_cb_size.1 {
                    return Err(ConfigError::InvalidComponentSize {
                        component: "Cb",
                        expected: expected_cb_size,
                        actual: *cb_size,
                    });
                }
                if cr_size.0 != expected_cb_size.0 || cr_size.1 != expected_cb_size.1 {
                    return Err(ConfigError::InvalidComponentSize {
                        component: "Cr",
                        expected: expected_cb_size,
                        actual: *cr_size,
                    });
                }
                Ok(())
            },
            RawMcuConfig::Grayscale { size } => {
                if width % 8 != 0 || height % 8 != 0 {
                    return Err(ConfigError::InvalidMcuDimensions { width, height, mcu_size: (8, 8) });
                }
                if size.0 != width || size.1 != height {
                    return Err(ConfigError::InvalidComponentSize {
                        component: "Y",
                        expected: (width, height),
                        actual: *size,
                    });
                }
                Ok(())
            },
        }
    }
}

/// Chroma subsampling modes
#[derive(Clone, Copy, Debug, PartialEq, Eq, Structural)]
pub enum ChromaSubsampling {
    /// 4:4:4 - no subsampling
    Yuv444,
    /// 4:2:2 - half-width chroma
    Yuv422,
    /// 4:2:0 - half-width, half-height chroma
    Yuv420,
    /// 4:1:1 - quarter-width chroma
    Yuv411,
}

impl ChromaSubsampling {
    /// Sampling factors `(h, v)` of Y, Cb and Cr.
    pub open spec fn spec_sampling_factors(self) -> Seq<(u8, u8)> {
        match self {
            ChromaSubsampling::Yuv444 => seq![(1u8, 1u8), (1u8, 1u8), (1u8, 1u8)],
            ChromaSubsampling::Yuv422 => seq![(2u8, 1u8), (1u8, 1u8), (1u8, 1u8)],
            ChromaSubsampling::Yuv420 => seq![(2u8, 2u8), (1u8, 1u8), (1u8, 1u8)],
            ChromaSubsampling::Yuv411 => seq![(4u8, 1u8), (1u8, 1u8), (1u8, 1u8)],
        }
    }

    /// MCU size in pixels: eight times the largest factor in each direction.
    pub open spec fn spec_mcu_size(self) -> (usize, usize) {
        let f = self.spec_sampling_factors();
        let max_h = if f[0].0 >= f[1].0 && f[0].0 >= f[2].0 { f[0].0 } else if f[1].0 >= f[2].0 { f[1].0 } else { f[2].0 };
        let max_v = if f[0].1 >= f[1].1 && f[0].1 >= f[2].1 { f[0].1 } else if f[1].1 >= f[2].1 { f[1].1 } else { f[2].1 };
        ((max_h * 8) as usize, (max_v * 8) as usize)
    }

    pub open spec fn spec_chroma_size(self, luma_width: usize, luma_height: usize) -> (usize, usize) {
        match self {
            ChromaSubsampling::Yuv444 => (luma_width, luma_height),
            ChromaSubsampling::Yuv422 => ((luma_width / 2) as usize, luma_height),
            ChromaSubsampling::Yuv420 => ((luma_width / 2) as usize, (luma_height / 2) as usize),
            ChromaSubsampling::Yuv411 => ((luma_width / 4) as usize, luma_height),
        }
    }

    /// Get component sampling factors as (h, v) for [Y, Cb, Cr]
    pub fn sampling_factors(&self) -> (r: [(u8, u8); 3])
        ensures
            r@ == self.spec_sampling_factors(),
    {
        let r = match self {
            ChromaSubsampling::Yuv444 => [(1, 1), (1, 1), (1, 1)],
            ChromaSubsampling::Yuv422 => [(2, 1), (1, 1), (1, 1)],
            ChromaSubsampling::Yuv420 => [(2, 2), (1, 1), (1, 1)],
            ChromaSubsampling::Yuv411 => [(4, 1), (1, 1), (1, 1)],
        };
        assert(r@ =~= self.spec_sampling_factors());
        r
    }

    /// Get MCU (Minimum Coded Unit) size in pixels
    pub fn mcu_size(&self) -> (r: (usize, usize))
        ensures
            r == self.spec_mcu_size(),
    {
        let factors = self.sampling_factors();
        let mut max_h: u8 = factors[0].0;
        let mut max_v: u8 = factors[0].1;
        if factors[1].0 > max_h {
            max_h = factors[1].0;
        }
        if factors[2].0 > max_h {
            max_h = factors[2].0;
        }
        if factors[1].1 > max_v {
            max_v = factors[1].1;
        }
        if factors[2].1 > max_v {
            max_v = factors[2].1;
        }
        ((max_h as usize) * 8, (max_v as usize) * 8)
    }

    /// Calculate chroma component size given luma size
    pub fn chroma_size(&self, luma_width: usize, luma_height: usize) -> (r: (usize, usize))
        ensures
            r == self.spec_chroma_size(luma_width, luma_height),
    {
        match self {
            ChromaSubsampling::Yuv444 => (luma_width, luma_height),
            ChromaSubsampling::Yuv422 => (luma_width / 2, luma_height),
            ChromaSubsampling::Yuv420 => (luma_width / 2, luma_height / 2),
            ChromaSubsampling::Yuv411 => (luma_width / 4, luma_height),
        }
    }
}

/// Compression mode (sequential vs progressive)
#[derive(Clone, Copy, Debug, PartialEq, Eq, Structural)]
pub enum CompressionMode {
    /// Sequential JPEG
    Sequential,
    /// Progressive JPEG, with MozJPEG's scan options
    Progressive { optimize_scans: bool, use_scans_in_trellis: bool },
}

impl CompressionMode {
    /// Returns `true` if this is progressive mode, `false` for sequential.
    pub fn is_progressive(&self) -> (r: bool)
        ensures
            r == (*self is Progressive),
    {
        matches!(self, CompressionMode::Progressive { .. })
    }
}

/// Quantization table configuration
#[derive(Clone, Debug)]
pub enum QTableConfig {
    /// Standard JPEG Annex K tables scaled by quality
    FromQuality,
    /// Explicit table assignment
    Explicit { luma: QTableChoice, chroma: Option<QTableChoice> },
}

/// How to select/provide a quantization table
#[derive(Clone, Debug)]
pub enum QTableChoice {
    /// Use quality parameter to generate tables
    FromQuality,
    /// Use a custom quantization table
    Custom(Box<QTable>),
}

/// Configuration errors
#[derive(Clone, Copy, Debug, PartialEq, Eq)]
#[non_exhaustive]
pub enum ConfigError {
    /// Width or height is zero.
    InvalidDimensions { width: usize, height: usize },
    /// Quality (binary32 bit pattern) not in 0.0 to 100.0.
    InvalidQuality(u32),
    /// Image dimensions are not multiples of the MCU size.
    InvalidMcuDimensions { width: usize, height: usize, mcu_size: (usize, usize) },
    /// A component plane's size does not match the subsampling ratio.
    InvalidComponentSize { component: &'static str, expected: (usize, usize), actual: (usize, usize) },
    /// Wrong input mode for this encoder type.
    WrongInputMode,
}

/// Warning that a configured smoothing factor has no effect.
#[derive(Clone, Copy, Debug, PartialEq, Eq, Structural)]
pub enum SmoothingWarning {
    /// 4:4:4 has no downsampling to smooth.
    NoDownsampling,
    /// RGB and grayscale have no chroma subsampling.
    NoChromaSubsampling,
}

/// The default scanline input: RGB converted to YCbCr 4:2:0, no smoothing.
pub open spec fn default_scanline_input() -> JpegInput {
    JpegInput::Scanlines(ScanlineConfig::RgbToYCbCr { subsampling: ChromaSubsampling::Yuv420, smoothing: 0 })
}

/// A sequential, Huffman-optimized configuration with this input.
pub open spec fn sequential_config(input: JpegInput, quality: u32) -> JpegConfig {
    JpegConfig {
        input,
        compression: CompressionMode::Sequential,
        qtables: QTableConfig::FromQuality,
        quality,
        optimize_coding: true,
        scan_mode: ScanMode::Auto,
        force_8bit_quantization: false,
    }
}

impl JpegConfig {
    /// Config from a preset with the given quality (binary32 bit pattern).
    pub fn from_preset(preset: Preset, quality: u32) -> (c: Self)
        ensures
            c == spec_from_preset(preset, quality),
    {
        Self {
            input: JpegInput::Scanlines(
                ScanlineConfig::RgbToYCbCr { subsampling: ChromaSubsampling::Yuv420, smoothing: 0 },
            ),
            compression: preset.compression_mode(),
            qtables: QTableConfig::FromQuality,
            quality,
            optimize_coding: preset.optimize_coding(),
            scan_mode: ScanMode::Auto,
            force_8bit_quantization: false,
        }
    }

    /// RGB to YCbCr 4:2:0, sequential, Huffman-optimized.
    pub fn rgb_to_ycbcr_420(quality: u32) -> (c: Self)
        ensures
            c == sequential_config(default_scanline_input(), quality),
            c.optimize_coding,
            c.compression == CompressionMode::Sequential,
            c.quality == quality,
            c.qtables is FromQuality,
            c.scan_mode == ScanMode::Auto,
            !c.force_8bit_quantization,
            c.input == JpegInput::Scanlines(ScanlineConfig::RgbToYCbCr { subsampling: ChromaSubsampling::Yuv420, smoothing: 0 }),
    {
        Self {
            input: JpegInput::Scanlines(
                ScanlineConfig::RgbToYCbCr { subsampling: ChromaSubsampling::Yuv420, smoothing: 0 },
            ),
            compression: CompressionMode::Sequential,
            qtables: QTableConfig::FromQuality,
            quality,
            optimize_coding: true,
            scan_mode: ScanMode::Auto,
            force_8bit_quantization: false,
        }
    }

    /// RGB to YCbCr 4:4:4, sequential, Huffman-optimized.
    pub fn rgb_to_ycbcr_444(quality: u32) -> (c: Self)
        ensures
            c == sequential_config(
                JpegInput::Scanlines(ScanlineConfig::RgbToYCbCr { subsampling: ChromaSubsampling::Yuv444, smoothing: 0 }),
                quality,
            ),
            c.optimize_coding,
            c.compression == CompressionMode::Sequential,
            c.quality == quality,
            c.qtables is FromQuality,
            c.scan_mode == ScanMode::Auto,
            !c.force_8bit_quantization,
            c.input == JpegInput::Scanlines(ScanlineConfig::RgbToYCbCr { subsampling: ChromaSubsampling::Yuv444, smoothing: 0 }),
    {
        Self {
            input: JpegInput::Scanlines(
                ScanlineConfig::RgbToYCbCr { subsampling: ChromaSubsampling::Yuv444, smoothing: 0 },
            ),
            compression: CompressionMode::Sequential,
            qtables: QTableConfig::FromQuality,
            quality,
            optimize_coding: true,
            scan_mode: ScanMode::Auto,
            force_8bit_quantization: false,
        }
    }

    /// RGB to RGB, sequential, Huffman-optimized.
    pub fn rgb_to_rgb(quality: u32) -> (c: Self)
        ensures
            c == sequential_config(JpegInput::Scanlines(ScanlineConfig::RgbToRgb), quality),
            c.optimize_coding,
            c.compression == CompressionMode::Sequential,
            c.quality == quality,
            c.qtables is FromQuality,
            c.scan_mode == ScanMode::Auto,
            !c.force_8bit_quantization,
            c.input == JpegInput::Scanlines(ScanlineConfig::RgbToRgb),
    {
        Self {
            input: JpegInput::Scanlines(ScanlineConfig::RgbToRgb),
            compression: CompressionMode::Sequential,
            qtables: QTableConfig::FromQuality,
            quality,
            optimize_coding: true,
            scan_mode: ScanMode::Auto,
            force_8bit_quantization: false,
        }
    }

    /// Grayscale, sequential, Huffman-optimized.
    pub fn grayscale(quality: u32) -> (c: Self)
        ensures
            c == sequential_config(JpegInput::Scanlines(ScanlineConfig::Grayscale), quality),
            c.optimize_coding,
            c.compression == CompressionMode::Sequential,
            c.quality == quality,
            c.qtables is FromQuality,
            c.scan_mode == ScanMode::Auto,
            !c.force_8bit_quantization,
            c.input == JpegInput::Scanlines(ScanlineConfig::Grayscale),
    {
        Self {
            input: JpegInput::Scanlines(ScanlineConfig::Grayscale),
            compression: CompressionMode::Sequential,
            qtables: QTableConfig::FromQuality,
            quality,
            optimize_coding: true,
            scan_mode: ScanMode::Auto,
            force_8bit_quantization: false,
        }
    }

    /// Validate configuration (non-dimensional checks): the quality must be
    /// a number in `0.0..=100.0`.
    pub fn validate(&self) -> (r: Result<(), ConfigError>)
        ensures
            r == (if bits_in_quality_range(self.quality) { Ok(()) } else { Err(ConfigError::InvalidQuality(self.quality)) }),
    {
        if !quality_in_range(self.quality) {
            return Err(ConfigError::InvalidQuality(self.quality));
        }
        Ok(())
    }

    /// The warning to print when a smoothing factor is set where it has no effect.
    pub fn smoothing_warning(&self) -> (w: Option<SmoothingWarning>)
        ensures
            w == (match self.input {
                JpegInput::Scanlines(sc) => match (sc.spec_smoothing_factor(), sc.spec_subsampling()) {
                    (Some(s), Some(ChromaSubsampling::Yuv444)) if s > 0 => Some(SmoothingWarning::NoDownsampling),
                    (Some(s), None) if s > 0 => Some(SmoothingWarning::NoChromaSubsampling),
                    _ => None,
                },
                _ => None,
            }),
    {
        if let JpegInput::Scanlines(ref scanline) = self.input {
            if let Some(smoothing) = scanline.smoothing_factor() {
                if smoothing > 0 {
                    match scanline.subsampling() {
                        Some(ChromaSubsampling::Yuv444) => {
                            return Some(SmoothingWarning::NoDownsampling);
                        },
                        None => {
                            return Some(SmoothingWarning::NoChromaSubsampling);
                        },
                        _ => {},
                    }
                }
            }
        }
        None
    }

    /// Validate configuration with dimensions.
    pub fn validate_with_dimensions(&self, width: usize, height: usize) -> (r: Result<(), ConfigError>)
        ensures
            r == spec_validate_with_dimensions(*self, width, height),
    {
        self.validate()?;
        if width == 0 || height == 0 {
            return Err(ConfigError::InvalidDimensions { width, height });
        }
        if let JpegInput::RawMcu(ref raw) = self.input {
            raw.validate(width, height)?;
        }
        Ok(())
    }

    /// Enable progressive mode with default options.
    pub fn with_progressive(self) -> (c: Self)
        ensures
            c == (JpegConfig {
                compression: CompressionMode::Progressive { optimize_scans: false, use_scans_in_trellis: false },
                ..self
            }),
    {
        let mut c = self;
        c.compression = CompressionMode::Progressive { optimize_scans: false, use_scans_in_trellis: false };
        c
    }

    /// Set quality (binary32 bit pattern).
    pub fn with_quality(self, quality: u32) -> (c: Self)
        ensures
            c == (JpegConfig { quality, ..self }),
    {
        let mut c = self;
        c.quality = quality;
        c
    }

    /// Set smoothing factor (only effective for scanline modes with subsampling).
    pub fn with_smoothing(self, smoothing: u8) -> (c: Self)
        ensures
            c == (match self.input {
                JpegInput::Scanlines(ScanlineConfig::RgbToYCbCr { subsampling, .. }) => JpegConfig {
                    input: JpegInput::Scanlines(ScanlineConfig::RgbToYCbCr { subsampling, smoothing }),
                    ..self
                },
                JpegInput::Scanlines(ScanlineConfig::YCbCrToYCbCr { subsampling, .. }) => JpegConfig {
                    input: JpegInput::Scanlines(ScanlineConfig::YCbCrToYCbCr { subsampling, smoothing }),
                    ..self
                },
                _ => self,
            }),
    {
        let mut c = self;
        if let JpegInput::Scanlines(ref mut scanline) = c.input {
            scanline.set_smoothing(smoothing);
        }
        c
    }

    /// Clamp quantization table values to 1-255 (8-bit range).
    pub fn with_force_8bit_quantization(self, force: bool) -> (c: Self)
        ensures
            c == (JpegConfig { force_8bit_quantization: force, ..self }),
    {
        let mut c = self;
        c.force_8bit_quantization = force;
        c
    }
}

/// What validating a configuration against an image size gives.
pub open spec fn spec_validate_with_dimensions(c: JpegConfig, width: usize, height: usize) -> Result<(), ConfigError> {
    if !bits_in_quality_range(c.quality) {
        Err(ConfigError::InvalidQuality(c.quality))
    } else if width == 0 || height == 0 {
        Err(ConfigError::InvalidDimensions { width, height })
    } else {
        match c.input {
            JpegInput::RawMcu(raw) => spec_raw_mcu_validate(raw, width, height),
            _ => Ok(()),
        }
    }
}

/// `a×b`.
pub open spec fn times_text(a: usize, b: usize) -> Seq<char> {
    decimal_chars(a as nat) + "×"@ + decimal_chars(b as nat)
}

/// The message of a configuration error, with `quality` as the text of an
/// invalid quality.
pub open spec fn error_message(e: ConfigError, quality: Seq<char>) -> Seq<char> {
    match e {
        ConfigError::InvalidDimensions { width, height } =>
            "Invalid dimensions: "@ + times_text(width, height) + " (must be > 0)"@,
        ConfigError::InvalidQuality(_) => "Invalid quality: "@ + quality + " (must be 0-100)"@,
        ConfigError::InvalidMcuDimensions { width, height, mcu_size } =>
            "Invalid MCU dimensions: "@ + times_text(width, height) + " must be multiples of "@
                + times_text(mcu_size.0, mcu_size.1),
        ConfigError::InvalidComponentSize { component, expected, actual } =>
            "Invalid "@ + component@ + " component size: expected "@ + times_text(expected.0, expected.1)
                + ", got "@ + times_text(actual.0, actual.1),
        ConfigError::WrongInputMode => "Wrong input mode for this encoder type"@,
    }
}

fn push_times(s: &mut String, a: usize, b: usize)
    ensures
        final(s)@ == old(s)@ + times_text(a, b),
{
    push_decimal(s, a as u64);
    s.append("×");
    push_decimal(s, b as u64);
    assert(final(s)@ =~= old(s)@ + times_text(a, b));
}

impl ConfigError {
    /// The error's message. `quality_text` is how the quality of
    /// `InvalidQuality` is written.
    pub fn message(&self, quality_text: &str) -> (r: String)
        ensures
            r@ == error_message(*self, quality_text@),
    {
        let mut r = String::new();
        match self {
            ConfigError::InvalidDimensions { width, height } => {
                r.append("Invalid dimensions: ");
                push_times(&mut r, *width, *height);
                r.append(" (must be > 0)");
            },
            ConfigError::InvalidQuality(_) => {
                r.append("Invalid quality: ");
                r.append(quality_text);
                r.append(" (must be 0-100)");
            },
            ConfigError::InvalidMcuDimensions { width, height, mcu_size } => {
                r.append("Invalid MCU dimensions: ");
                push_times(&mut r, *width, *height);
                r.append(" must be multiples of ");
                push_times(&mut r, mcu_size.0, mcu_size.1);
            },
            ConfigError::InvalidComponentSize { component, expected, actual } => {
                r.append("Invalid ");
                r.append(*component);
                r.append(" component size: expected ");
                push_times(&mut r, expected.0, expected.1);
                r.append(", got ");
                push_times(&mut r, actual.0, actual.1);
            },
            ConfigError::WrongInputMode => {
                r.append("Wrong input mode for this encoder type");
            },
        }
        assert(r@ =~= error_message(*self, quality_text@));
        r
    }
}

} // verus!
