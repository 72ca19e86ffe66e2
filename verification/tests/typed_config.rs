use mozjpeg_verus::typed::{
    ChromaSubsampling, CompressionMode, ConfigError, JpegConfig, JpegInput, Preset, QTableConfig,
    RawMcuConfig, ScanlineConfig, SmoothingWarning,
};
use mozjpeg_verus::{ColorSpace, ScanMode};

fn q(value: f32) -> u32 {
    value.to_bits()
}

#[test]
fn config_validation_invalid_dimensions() {
    let config = JpegConfig {
        input: JpegInput::Scanlines(ScanlineConfig::Grayscale),
        compression: CompressionMode::Sequential,
        qtables: QTableConfig::FromQuality,
        quality: q(85.0),
        optimize_coding: true,
        scan_mode: ScanMode::Auto,
        force_8bit_quantization: false,
    };

    let result = config.create_encoder(0, 0);
    assert!(result.is_err());
    match result {
        Err(ConfigError::InvalidDimensions { .. }) => {}
        _ => panic!("Expected InvalidDimensions error"),
    }
}

#[test]
fn config_validation_invalid_quality() {
    let config = JpegConfig {
        input: JpegInput::Scanlines(ScanlineConfig::Grayscale),
        compression: CompressionMode::Sequential,
        qtables: QTableConfig::FromQuality,
        quality: q(150.0),
        optimize_coding: true,
        scan_mode: ScanMode::Auto,
        force_8bit_quantization: false,
    };

    let result = config.validate();
    assert!(result.is_err());
    match result {
        Err(ConfigError::InvalidQuality(_)) => {}
        _ => panic!("Expected InvalidQuality error"),
    }
}

#[test]
fn config_builder_style() {
    let config = JpegConfig::rgb_to_ycbcr_420(q(85.0)).with_progressive().with_smoothing(25);
    assert!(matches!(config.compression, CompressionMode::Progressive { .. }));
    match config.input {
        JpegInput::Scanlines(ScanlineConfig::RgbToYCbCr { subsampling, smoothing }) => {
            assert_eq!(subsampling, ChromaSubsampling::Yuv420);
            assert_eq!(smoothing, 25);
        }
        _ => panic!("Expected RgbToYCbCr scanline config"),
    }
    assert!(config.create_encoder(64, 64).is_ok());
}

#[test]
fn chroma_subsampling_mcu_sizes() {
    assert_eq!(ChromaSubsampling::Yuv444.mcu_size(), (8, 8));
    assert_eq!(ChromaSubsampling::Yuv422.mcu_size(), (16, 8));
    assert_eq!(ChromaSubsampling::Yuv420.mcu_size(), (16, 16));
    assert_eq!(ChromaSubsampling::Yuv411.mcu_size(), (32, 8));
}

#[test]
fn chroma_subsampling_chroma_sizes() {
    assert_eq!(ChromaSubsampling::Yuv444.chroma_size(640, 480), (640, 480));
    assert_eq!(ChromaSubsampling::Yuv422.chroma_size(640, 480), (320, 480));
    assert_eq!(ChromaSubsampling::Yuv420.chroma_size(640, 480), (320, 240));
    assert_eq!(ChromaSubsampling::Yuv411.chroma_size(640, 480), (160, 480));
}

#[test]
fn chroma_size_rounds_down() {
    assert_eq!(ChromaSubsampling::Yuv420.chroma_size(641, 481), (320, 240));
    assert_eq!(ChromaSubsampling::Yuv411.chroma_size(643, 3), (160, 3));
}

#[test]
fn sampling_factors_per_mode() {
    assert_eq!(ChromaSubsampling::Yuv444.sampling_factors(), [(1, 1), (1, 1), (1, 1)]);
    assert_eq!(ChromaSubsampling::Yuv422.sampling_factors(), [(2, 1), (1, 1), (1, 1)]);
    assert_eq!(ChromaSubsampling::Yuv420.sampling_factors(), [(2, 2), (1, 1), (1, 1)]);
    assert_eq!(ChromaSubsampling::Yuv411.sampling_factors(), [(4, 1), (1, 1), (1, 1)]);
}

#[test]
fn config_convenience_constructors() {
    let config1 = JpegConfig::rgb_to_ycbcr_420(q(85.0));
    assert!(config1.validate().is_ok());

    let config2 = JpegConfig::rgb_to_ycbcr_444(q(85.0));
    assert!(config2.validate().is_ok());

    let config3 = JpegConfig::rgb_to_rgb(q(85.0));
    assert!(config3.validate().is_ok());

    let config4 = JpegConfig::grayscale(q(85.0));
    assert!(config4.validate().is_ok());
}

#[test]
fn raw_mcu_validation_invalid_dimensions() {
    let config = JpegConfig {
        input: JpegInput::RawMcu(RawMcuConfig::YCbCr {
            subsampling: ChromaSubsampling::Yuv420,
            y_size: (641, 480),
            cb_size: (320, 240),
            cr_size: (320, 240),
        }),
        compression: CompressionMode::Sequential,
        qtables: QTableConfig::FromQuality,
        quality: q(85.0),
        optimize_coding: true,
        scan_mode: ScanMode::Auto,
        force_8bit_quantization: false,
    };

    let result = config.create_mcu_planar_encoder(641, 480);
    assert!(result.is_err());
    match result {
        Err(ConfigError::InvalidMcuDimensions { .. }) => {}
        _ => panic!("Expected InvalidMcuDimensions error"),
    }
}

#[test]
fn raw_mcu_component_size_errors() {
    let good = RawMcuConfig::YCbCr {
        subsampling: ChromaSubsampling::Yuv420,
        y_size: (640, 480),
        cb_size: (320, 240),
        cr_size: (320, 240),
    };
    assert_eq!(good.validate(640, 480), Ok(()));

    let bad_cb = RawMcuConfig::YCbCr {
        subsampling: ChromaSubsampling::Yuv420,
        y_size: (640, 480),
        cb_size: (320, 480),
        cr_size: (320, 240),
    };
    assert_eq!(
        bad_cb.validate(640, 480),
        Err(ConfigError::InvalidComponentSize { component: "Cb", expected: (320, 240), actual: (320, 480) })
    );

    let bad_y = RawMcuConfig::YCbCr {
        subsampling: ChromaSubsampling::Yuv420,
        y_size: (624, 480),
        cb_size: (320, 240),
        cr_size: (320, 240),
    };
    assert_eq!(
        bad_y.validate(640, 480),
        Err(ConfigError::InvalidComponentSize { component: "Y", expected: (640, 480), actual: (624, 480) })
    );

    let gray = RawMcuConfig::Grayscale { size: (60, 64) };
    assert_eq!(
        gray.validate(60, 64),
        Err(ConfigError::InvalidMcuDimensions { width: 60, height: 64, mcu_size: (8, 8) })
    );
}

#[test]
fn scanline_config_color_spaces() {
    assert_eq!(
        ScanlineConfig::RgbToYCbCr { subsampling: ChromaSubsampling::Yuv420, smoothing: 0 }.input_color_space(),
        ColorSpace::JCS_RGB
    );
    assert_eq!(
        ScanlineConfig::RgbToYCbCr { subsampling: ChromaSubsampling::Yuv420, smoothing: 0 }.jpeg_color_space(),
        ColorSpace::JCS_YCbCr
    );
    assert_eq!(ScanlineConfig::RgbToRgb.input_color_space(), ColorSpace::JCS_RGB);
    assert_eq!(ScanlineConfig::RgbToRgb.jpeg_color_space(), ColorSpace::JCS_RGB);
    assert_eq!(ScanlineConfig::Grayscale.input_color_space(), ColorSpace::JCS_GRAYSCALE);
}

#[test]
fn scanline_config_smoothing_accessors() {
    let mut c = ScanlineConfig::YCbCrToYCbCr { subsampling: ChromaSubsampling::Yuv422, smoothing: 3 };
    assert_eq!(c.smoothing_factor(), Some(3));
    assert_eq!(c.subsampling(), Some(ChromaSubsampling::Yuv422));
    c.set_smoothing(40);
    assert_eq!(c.smoothing_factor(), Some(40));

    let mut g = ScanlineConfig::Grayscale;
    g.set_smoothing(40);
    assert_eq!(g, ScanlineConfig::Grayscale);
    assert_eq!(g.smoothing_factor(), None);
    assert_eq!(g.subsampling(), None);
}

fn check_preset(preset: Preset, quality: f32) -> JpegConfig {
    let config = JpegConfig::from_preset(preset, q(quality));
    assert!(config.validate().is_ok());
    assert_eq!(config.quality, q(quality));
    assert!(config.clone().create_encoder(64, 64).is_ok());
    config
}

#[test]
fn preset_sequential_fastest() {
    let config = check_preset(Preset::SequentialFastest, 75.0);
    assert!(!config.optimize_coding);
    assert!(matches!(config.compression, CompressionMode::Sequential));
}

#[test]
fn preset_sequential_balanced() {
    let config = check_preset(Preset::SequentialBalanced, 85.0);
    assert!(config.optimize_coding);
    assert!(matches!(config.compression, CompressionMode::Sequential));
}

#[test]
fn preset_progressive_balanced() {
    let config = check_preset(Preset::ProgressiveBalanced, 85.0);
    assert!(config.optimize_coding);
    assert!(matches!(
        config.compression,
        CompressionMode::Progressive { optimize_scans: false, use_scans_in_trellis: false }
    ));
}

#[test]
fn preset_progressive_smallest() {
    let config = check_preset(Preset::ProgressiveSmallest, 75.0);
    assert!(config.optimize_coding);
    assert!(matches!(
        config.compression,
        CompressionMode::Progressive { optimize_scans: true, use_scans_in_trellis: true }
    ));
}

#[test]
fn presets_produce_different_configs() {
    let quality = q(85.0);

    let fastest = JpegConfig::from_preset(Preset::SequentialFastest, quality);
    let sequential = JpegConfig::from_preset(Preset::SequentialBalanced, quality);
    let progressive = JpegConfig::from_preset(Preset::ProgressiveBalanced, quality);
    let smallest = JpegConfig::from_preset(Preset::ProgressiveSmallest, quality);

    assert_eq!(fastest.quality, quality);
    assert_eq!(sequential.quality, quality);
    assert_eq!(progressive.quality, quality);
    assert_eq!(smallest.quality, quality);

    assert!(!fastest.optimize_coding);
    assert!(sequential.optimize_coding);
    assert!(progressive.optimize_coding);
    assert!(smallest.optimize_coding);

    assert!(matches!(fastest.compression, CompressionMode::Sequential));
    assert!(matches!(sequential.compression, CompressionMode::Sequential));
    assert!(matches!(progressive.compression, CompressionMode::Progressive { optimize_scans: false, .. }));
    assert!(matches!(smallest.compression, CompressionMode::Progressive { optimize_scans: true, .. }));

    for config in &[&fastest, &sequential, &progressive, &smallest] {
        match &config.input {
            JpegInput::Scanlines(ScanlineConfig::RgbToYCbCr { subsampling, .. }) => {
                assert_eq!(*subsampling, ChromaSubsampling::Yuv420);
            }
            _ => panic!("Expected RgbToYCbCr scanline config"),
        }
    }
}

#[test]
fn preset_flags() {
    assert!(!Preset::SequentialFastest.is_progressive());
    assert!(!Preset::SequentialBalanced.is_progressive());
    assert!(Preset::ProgressiveBalanced.is_progressive());
    assert!(Preset::ProgressiveSmallest.is_progressive());
    assert!(!Preset::SequentialFastest.has_huffman_opt());
    assert!(Preset::SequentialBalanced.has_huffman_opt());
    assert!(Preset::ProgressiveSmallest.has_optimize_scans());
    assert!(!Preset::ProgressiveBalanced.has_optimize_scans());
}

#[test]
fn force_8bit_default_is_false() {
    let config = JpegConfig::from_preset(Preset::ProgressiveBalanced, q(85.0));
    assert!(!config.force_8bit_quantization);

    let config = JpegConfig::rgb_to_ycbcr_420(q(85.0));
    assert!(!config.force_8bit_quantization);

    let config = JpegConfig::grayscale(q(85.0));
    assert!(!config.force_8bit_quantization);
}

#[test]
fn force_8bit_builder_method() {
    let config =
        JpegConfig::from_preset(Preset::ProgressiveBalanced, q(85.0)).with_force_8bit_quantization(true);
    assert!(config.force_8bit_quantization);

    let config = config.with_force_8bit_quantization(false);
    assert!(!config.force_8bit_quantization);
}

#[test]
fn quality_edges_validate() {
    assert!(JpegConfig::grayscale(q(0.0)).validate().is_ok());
    assert!(JpegConfig::grayscale(q(-0.0)).validate().is_ok());
    assert!(JpegConfig::grayscale(q(100.0)).validate().is_ok());
    assert_eq!(
        JpegConfig::grayscale(q(100.00001)).validate(),
        Err(ConfigError::InvalidQuality(q(100.00001)))
    );
    assert!(JpegConfig::grayscale(q(-0.5)).validate().is_err());
    assert!(JpegConfig::grayscale(f32::NAN.to_bits()).validate().is_err());
    assert!(JpegConfig::grayscale(q(f32::INFINITY)).validate().is_err());
    assert_eq!(
        JpegConfig::grayscale(q(50.0)).with_quality(q(101.0)).validate(),
        Err(ConfigError::InvalidQuality(q(101.0)))
    );
}

#[test]
fn wrong_input_mode_errors() {
    let raw = JpegConfig {
        input: JpegInput::RawMcu(RawMcuConfig::Grayscale { size: (64, 64) }),
        ..JpegConfig::grayscale(q(80.0))
    };
    assert!(matches!(raw.clone().create_encoder(64, 64), Err(ConfigError::WrongInputMode)));
    assert!(raw.create_mcu_planar_encoder(64, 64).is_ok());
    assert!(matches!(
        JpegConfig::grayscale(q(80.0)).create_mcu_planar_encoder(64, 64),
        Err(ConfigError::WrongInputMode)
    ));
}

#[test]
fn smoothing_warnings() {
    let c = JpegConfig::rgb_to_ycbcr_444(q(80.0)).with_smoothing(10);
    assert_eq!(c.smoothing_warning(), Some(SmoothingWarning::NoDownsampling));
    let c = JpegConfig::rgb_to_ycbcr_420(q(80.0)).with_smoothing(10);
    assert_eq!(c.smoothing_warning(), None);
    let c = JpegConfig::rgb_to_ycbcr_444(q(80.0));
    assert_eq!(c.smoothing_warning(), None);
}

#[test]
fn config_error_messages() {
    assert_eq!(
        ConfigError::InvalidDimensions { width: 0, height: 7 }.message(""),
        "Invalid dimensions: 0×7 (must be > 0)"
    );
    assert_eq!(ConfigError::InvalidQuality(q(150.0)).message("150"), "Invalid quality: 150 (must be 0-100)");
    assert_eq!(
        ConfigError::InvalidMcuDimensions { width: 641, height: 480, mcu_size: (16, 16) }.message(""),
        "Invalid MCU dimensions: 641×480 must be multiples of 16×16"
    );
    assert_eq!(
        ConfigError::InvalidComponentSize { component: "Cb", expected: (320, 240), actual: (320, 480) }.message(""),
        "Invalid Cb component size: expected 320×240, got 320×480"
    );
    assert_eq!(ConfigError::WrongInputMode.message(""), "Wrong input mode for this encoder type");
}

#[test]
fn grayscale_raw_mcu_checks_image_and_plane_size() {
    let gray = RawMcuConfig::Grayscale { size: (640, 480) };
    assert_eq!(gray.validate(640, 480), Ok(()));
    assert_eq!(
        gray.validate(641, 480),
        Err(ConfigError::InvalidMcuDimensions { width: 641, height: 480, mcu_size: (8, 8) })
    );
    assert_eq!(
        gray.validate(648, 480),
        Err(ConfigError::InvalidComponentSize { component: "Y", expected: (648, 480), actual: (640, 480) })
    );
}

#[test]
fn create_encoder_checks_quality() {
    let config = JpegConfig {
        input: JpegInput::Scanlines(ScanlineConfig::Grayscale),
        compression: CompressionMode::Sequential,
        qtables: QTableConfig::FromQuality,
        quality: q(150.0),
        optimize_coding: true,
        scan_mode: ScanMode::Auto,
        force_8bit_quantization: false,
    };
    assert!(matches!(config.clone().create_encoder(64, 64), Err(ConfigError::InvalidQuality(b)) if b == q(150.0)));
    assert!(matches!(config.create_encoder(0, 64), Err(ConfigError::InvalidQuality(_))));
}
