use mozjpeg_verus::compress::{
    check_start, icc_profile_markers, image_dimension, plan_config, write_buffer_capacity, CompInfo, ConfigStep, PendingConfig,
    RawDataError, ScanlineError, StartError,
};
use mozjpeg_verus::typed::{JpegConfig, RawWriteError};
use mozjpeg_verus::{ColorSpace, Compress, CompressStarted, PixelDensity, PixelDensityUnit, QTable, ScanMode};

fn q(value: f32) -> u32 {
    value.to_bits()
}

fn comp(h: i32, v: i32, wb: u32, hb: u32) -> CompInfo {
    CompInfo { h_samp_factor: h, v_samp_factor: v, width_in_blocks: wb, height_in_blocks: hb }
}

fn steps_and_pending(setup: impl Fn(&mut Compress)) -> (Vec<ConfigStep>, Compress) {
    let mut c = Compress::new(ColorSpace::JCS_RGB);
    setup(&mut c);
    let steps = c.apply_pending_config();
    (steps, c)
}

#[test]
fn scan_mode_does_not_reset_quality() {
    let (steps1, c1) = steps_and_pending(|c| {
        c.set_size(64, 64);
        c.set_quality(q(50.0));
        c.set_scan_optimization_mode(ScanMode::Auto);
    });
    let (steps2, c2) = steps_and_pending(|c| {
        c.set_size(64, 64);
        c.set_scan_optimization_mode(ScanMode::Auto);
        c.set_quality(q(50.0));
    });
    assert_eq!(steps1, steps2);
    assert_eq!(
        steps1,
        vec![ConfigStep::ImageWidth, ConfigStep::ImageHeight, ConfigStep::ScanMode, ConfigStep::Defaults, ConfigStep::Quality]
    );
    assert_eq!(c1.pending().quality, Some((50, false)));
    assert_eq!(c2.pending().quality, Some((50, false)));
}

#[test]
fn scan_mode_does_not_reset_smoothing() {
    let (steps1, c1) = steps_and_pending(|c| {
        c.set_size(64, 64);
        c.set_smoothing_factor(80);
        c.set_scan_optimization_mode(ScanMode::Auto);
    });
    let (steps2, c2) = steps_and_pending(|c| {
        c.set_size(64, 64);
        c.set_scan_optimization_mode(ScanMode::Auto);
        c.set_smoothing_factor(80);
    });
    assert_eq!(steps1, steps2);
    let defaults = steps1.iter().position(|s| *s == ConfigStep::Defaults).unwrap();
    let smoothing = steps1.iter().position(|s| *s == ConfigStep::Smoothing).unwrap();
    assert!(defaults < smoothing);
    assert_eq!(c1.pending().smoothing_factor, Some(80));
    assert_eq!(c2.pending().smoothing_factor, Some(80));
}

#[test]
fn fastest_defaults_does_not_reset_settings() {
    let (steps1, c1) = steps_and_pending(|c| {
        c.set_size(64, 64);
        c.set_quality(q(60.0));
        c.set_smoothing_factor(30);
        c.set_fastest_defaults();
    });
    let (steps2, _) = steps_and_pending(|c| {
        c.set_size(64, 64);
        c.set_fastest_defaults();
        c.set_quality(q(60.0));
        c.set_smoothing_factor(30);
    });
    assert_eq!(steps1, steps2);
    assert_eq!(
        steps1,
        vec![
            ConfigStep::ImageWidth,
            ConfigStep::ImageHeight,
            ConfigStep::FastestProfile,
            ConfigStep::Defaults,
            ConfigStep::Quality,
            ConfigStep::Smoothing,
        ]
    );
    assert_eq!(c1.pending().smoothing_factor, Some(30));
}

#[test]
fn pixel_density_preserved_across_scan_mode() {
    let (steps, c) = steps_and_pending(|c| {
        c.set_size(64, 64);
        c.set_pixel_density(PixelDensity { unit: PixelDensityUnit::Inches, x: 300, y: 300 });
        c.set_scan_optimization_mode(ScanMode::Auto);
    });
    assert_eq!(
        steps,
        vec![
            ConfigStep::ImageWidth,
            ConfigStep::ImageHeight,
            ConfigStep::ScanMode,
            ConfigStep::Defaults,
            ConfigStep::PixelDensity,
        ]
    );
    assert_eq!(c.pending().pixel_density, Some(PixelDensity { unit: PixelDensityUnit::Inches, x: 300, y: 300 }));
}

#[test]
fn progressive_mode_preserved_across_scan_mode() {
    let (steps, _) = steps_and_pending(|c| {
        c.set_size(64, 64);
        c.set_progressive_mode();
        c.set_scan_optimization_mode(ScanMode::Auto);
    });
    assert_eq!(
        steps,
        vec![
            ConfigStep::ImageWidth,
            ConfigStep::ImageHeight,
            ConfigStep::ScanMode,
            ConfigStep::Defaults,
            ConfigStep::Progression,
        ]
    );
}

#[test]
fn lazy_config_order_independence_comprehensive() {
    let (normal, _) = steps_and_pending(|c| {
        c.set_size(64, 64);
        c.set_color_space(ColorSpace::JCS_YCbCr);
        c.set_quality(q(75.0));
        c.set_smoothing_factor(20);
        c.set_chroma_sampling_pixel_sizes((2, 2), (2, 2));
        c.set_scan_optimization_mode(ScanMode::Auto);
    });
    let (reversed, _) = steps_and_pending(|c| {
        c.set_scan_optimization_mode(ScanMode::Auto);
        c.set_chroma_sampling_pixel_sizes((2, 2), (2, 2));
        c.set_smoothing_factor(20);
        c.set_quality(q(75.0));
        c.set_color_space(ColorSpace::JCS_YCbCr);
        c.set_size(64, 64);
    });
    let (interleaved, _) = steps_and_pending(|c| {
        c.set_scan_optimization_mode(ScanMode::Auto);
        c.set_size(64, 64);
        c.set_smoothing_factor(20);
        c.set_color_space(ColorSpace::JCS_YCbCr);
        c.set_chroma_sampling_pixel_sizes((2, 2), (2, 2));
        c.set_quality(q(75.0));
    });
    assert_eq!(normal, reversed, "normal vs reversed should match");
    assert_eq!(normal, interleaved, "normal vs interleaved should match");
}

#[test]
fn lazy_config_order_independence() {
    let mut a = Compress::new(ColorSpace::JCS_RGB);
    a.set_size(64, 48);
    a.set_color_space(ColorSpace::JCS_YCbCr);
    a.set_smoothing_factor(20);
    a.set_chroma_sampling_pixel_sizes((2, 2), (2, 2));
    a.set_progressive_mode();
    a.set_quality(q(80.0));
    a.set_scan_optimization_mode(ScanMode::AllComponentsTogether);
    a.set_raw_data_in(false);

    let mut b = Compress::new(ColorSpace::JCS_RGB);
    b.set_raw_data_in(false);
    b.set_scan_optimization_mode(ScanMode::AllComponentsTogether);
    b.set_quality(q(80.0));
    b.set_progressive_mode();
    b.set_chroma_sampling_pixel_sizes((2, 2), (2, 2));
    b.set_smoothing_factor(20);
    b.set_color_space(ColorSpace::JCS_YCbCr);
    b.set_size(64, 48);

    let steps_a = a.apply_pending_config();
    let steps_b = b.apply_pending_config();
    assert_eq!(steps_a, steps_b);
    assert_eq!(
        steps_a,
        vec![
            ConfigStep::ImageWidth,
            ConfigStep::ImageHeight,
            ConfigStep::ColorSpace,
            ConfigStep::ScanMode,
            ConfigStep::Defaults,
            ConfigStep::Quality,
            ConfigStep::Smoothing,
            ConfigStep::Progression,
            ConfigStep::RawDataIn,
            ConfigStep::SamplingFactors,
        ]
    );
}

#[test]
fn deprecated_components_mut_applies_pending_config() {
    let (steps, c) = steps_and_pending(|c| {
        c.set_size(64, 64);
        c.set_color_space(ColorSpace::JCS_YCbCr);
        c.set_quality(q(85.0));
        c.set_smoothing_factor(50);
    });
    assert_eq!(
        steps,
        vec![
            ConfigStep::ImageWidth,
            ConfigStep::ImageHeight,
            ConfigStep::ColorSpace,
            ConfigStep::Quality,
            ConfigStep::Smoothing,
        ]
    );
    assert_eq!(c.pending().smoothing_factor, Some(50));
}

#[test]
fn deprecated_components_mut_incremental_updates() {
    let (_, mut c) = steps_and_pending(|c| {
        c.set_size(64, 64);
        c.set_quality(q(85.0));
    });
    c.set_smoothing_factor(75);
    c.set_optimize_coding(true);
    assert_eq!(c.apply_pending_config(), vec![ConfigStep::Smoothing, ConfigStep::OptimizeCoding]);
    assert_eq!(c.pending().smoothing_factor, Some(75));
    assert_eq!(c.pending().optimize_coding, Some(true));
}

#[test]
fn deprecated_components_mut_multiple_calls() {
    let (_, mut c) = steps_and_pending(|c| {
        c.set_size(64, 64);
        c.set_quality(q(70.0));
    });
    c.set_smoothing_factor(30);
    assert_eq!(c.apply_pending_config(), vec![ConfigStep::Smoothing]);
    c.set_optimize_coding(true);
    assert_eq!(c.apply_pending_config(), vec![ConfigStep::OptimizeCoding]);
    assert_eq!(c.pending().smoothing_factor, Some(30));
}

#[test]
fn raw_changes_preserved_after_deprecated_api() {
    let (_, mut c) = steps_and_pending(|c| {
        c.set_size(64, 64);
        c.set_color_space(ColorSpace::JCS_YCbCr);
    });
    // Component changes made now are kept: what follows neither re-runs
    // the defaults nor sets sampling factors.
    c.set_smoothing_factor(50);
    c.set_quality(q(75.0));
    assert_eq!(c.apply_pending_config(), vec![ConfigStep::Quality, ConfigStep::Smoothing]);
}

#[test]
fn reapplying_is_a_no_op_and_changes_apply_alone() {
    let mut c = Compress::new(ColorSpace::JCS_RGB);
    c.set_size(32, 32);
    c.set_quality(q(70.0));
    c.set_scan_optimization_mode(ScanMode::Auto);
    assert!(!c.apply_pending_config().is_empty());
    assert!(c.apply_pending_config().is_empty());

    c.set_smoothing_factor(10);
    assert_eq!(c.apply_pending_config(), vec![ConfigStep::Smoothing]);

    c.set_quality(q(70.0));
    assert!(c.apply_pending_config().is_empty());

    c.set_scan_optimization_mode(ScanMode::ScanPerComponent);
    assert_eq!(
        c.apply_pending_config(),
        vec![ConfigStep::ScanMode, ConfigStep::Defaults, ConfigStep::Quality, ConfigStep::Smoothing]
    );
}

#[test]
fn fastest_defaults_rerun_defaults_once() {
    let mut c = Compress::new(ColorSpace::JCS_GRAYSCALE);
    c.set_fastest_defaults();
    c.set_optimize_coding(true);
    c.set_pixel_density(PixelDensity { unit: PixelDensityUnit::Inches, x: 300, y: 300 });
    assert_eq!(
        c.apply_pending_config(),
        vec![ConfigStep::FastestProfile, ConfigStep::Defaults, ConfigStep::PixelDensity, ConfigStep::OptimizeCoding]
    );
    assert!(c.apply_pending_config().is_empty());
}

#[test]
fn quality_is_rounded_half_away_from_zero() {
    let mut c = Compress::new(ColorSpace::JCS_RGB);
    c.set_quality(q(84.5));
    assert_eq!(c.pending().quality, Some((85, false)));
    c.set_quality_force_8bit(q(84.49), true);
    assert_eq!(c.pending().quality, Some((84, true)));
    c.set_quality(q(-0.5));
    assert_eq!(c.pending().quality, Some((-1, false)));
    c.set_quality(f32::NAN.to_bits());
    assert_eq!(c.pending().quality, Some((0, false)));
    c.set_quality(q(1.0e20));
    assert_eq!(c.pending().quality, Some((i32::MAX, false)));
}

#[test]
fn qtables_and_flags_are_recorded() {
    let mut t = QTable { coeffs: [16; 64] };
    t.coeffs[0] = 3;
    let mut c = Compress::new(ColorSpace::JCS_RGB);
    c.set_luma_qtable(&t);
    c.set_chroma_qtable_force_8bit(&t, false);
    c.set_optimize_scans(true);
    c.set_use_scans_in_trellis(false);
    assert_eq!(c.pending().luma_qtable.map(|(x, f)| (x.coeffs[0], f)), Some((3, true)));
    assert_eq!(c.pending().chroma_qtable.map(|(x, f)| (x.coeffs[1], f)), Some((16, false)));
    assert_eq!(
        c.apply_pending_config(),
        vec![ConfigStep::LumaQTable, ConfigStep::ChromaQTable, ConfigStep::OptimizeScans, ConfigStep::UseScansInTrellis]
    );
    let mut u = t;
    u.coeffs[63] = 1;
    assert!(!t.same_as(&u));
    assert!(t.same_as(&t));
    c.set_luma_qtable(&u);
    assert_eq!(c.apply_pending_config(), vec![ConfigStep::LumaQTable]);
}

#[test]
fn chroma_sampling_pixel_sizes_to_factors() {
    let mut c = Compress::new(ColorSpace::JCS_RGB);
    c.set_chroma_sampling_pixel_sizes((2, 2), (2, 2));
    assert_eq!(c.pending().subsampling, Some(vec![(2, 2), (1, 1), (1, 1)]));
    c.set_chroma_sampling_pixel_sizes((2, 1), (2, 1));
    assert_eq!(c.pending().subsampling, Some(vec![(2, 1), (1, 1), (1, 1)]));
    c.set_chroma_sampling_pixel_sizes((1, 1), (1, 1));
    assert_eq!(c.pending().subsampling, Some(vec![(1, 1), (1, 1), (1, 1)]));
    c.set_chroma_sampling_pixel_sizes((4, 2), (2, 2));
    assert_eq!(c.pending().subsampling, Some(vec![(4, 2), (1, 1), (2, 1)]));
}

#[test]
fn plan_between_two_configurations() {
    let mut p = PendingConfig::new();
    let s = p.duplicate();
    assert!(plan_config(&p, &s).is_empty());
    p.progressive_mode = true;
    p.width = Some(8);
    assert_eq!(plan_config(&p, &s), vec![ConfigStep::ImageWidth, ConfigStep::Progression]);
    assert!(plan_config(&p, &p.duplicate()).is_empty());
}

#[test]
fn start_checks() {
    let good = [comp(2, 2, 8, 8), comp(1, 1, 4, 4), comp(1, 1, 4, 4)];
    assert_eq!(check_start(0, 10, &good), Err(StartError::InvalidDimensions { width: 0, height: 10 }));
    assert_eq!(check_start(70000, 10, &good), Err(StartError::DimensionsTooLarge { width: 70000, height: 10 }));
    let zero = [comp(2, 2, 8, 8), comp(0, 1, 4, 4), comp(5, 1, 4, 4)];
    assert_eq!(check_start(64, 64, &zero), Err(StartError::InvalidSamplingFactors { component: 1, h: 0, v: 1 }));
    let big = [comp(2, 2, 8, 8), comp(1, 5, 4, 4)];
    assert_eq!(check_start(64, 64, &big), Err(StartError::SamplingFactorsTooLarge { component: 1, h: 1, v: 5 }));
    let no_h = [comp(2, 1, 8, 8), comp(2, 2, 4, 4)];
    assert_eq!(check_start(64, 64, &no_h), Err(StartError::NoUnitHorizontalFactor));
    let no_v = [comp(1, 2, 8, 8), comp(2, 2, 4, 4)];
    assert_eq!(check_start(64, 64, &no_v), Err(StartError::NoUnitVerticalFactor));
    assert_eq!(check_start(64, 64, &good), Ok(4096));
    assert_eq!(check_start(512, 512, &good), Ok(32768));
    assert_eq!(check_start(1000, 1000, &good), Ok(65536));
    assert_eq!(write_buffer_capacity(300, 300), 12288);
}

#[test]
fn start_error_messages() {
    assert_eq!(
        StartError::InvalidDimensions { width: 0, height: 10 }.message(),
        "invalid dimensions: 0x10 (both must be > 0)"
    );
    assert_eq!(
        StartError::DimensionsTooLarge { width: 70000, height: 10 }.message(),
        "dimensions 70000x10 exceed JPEG maximum of 65535"
    );
    assert_eq!(
        StartError::InvalidSamplingFactors { component: 1, h: 0, v: -3 }.message(),
        "component 1 has invalid sampling factors: h=0, v=-3 (must be > 0)"
    );
    assert_eq!(
        StartError::SamplingFactorsTooLarge { component: 2, h: 1, v: 5 }.message(),
        "component 2 has sampling factors h=1, v=5 (max is 4)"
    );
    assert_eq!(StartError::NoUnitHorizontalFactor.message(), "at least one h_samp_factor must be 1");
    assert_eq!(StartError::NoUnitVerticalFactor.message(), "at least one v_samp_factor must be 1");
    assert_eq!(
        ScanlineError::StrideTooSmall { stride: 100, byte_width: 192 }.message(),
        "stride (100) must be >= byte_width (192)"
    );
    assert_eq!(
        RawWriteError::ComponentCount { expected: 3, got: 1 }.message(),
        "Expected 3 components, got 1"
    );
    assert_eq!(
        RawWriteError::Data(RawDataError::BitmapTooSmall { component: 0, row_stride: 16, col_stride: 16, got: 255 })
            .message(),
        "Bitmap too small. Expected 16x16, got 255"
    );
}

fn rgb_started(width: u32, height: u32, raw: bool) -> CompressStarted {
    CompressStarted::new(width, height, 3, raw, 2, vec![comp(2, 2, 8, 8), comp(1, 1, 4, 4), comp(1, 1, 4, 4)])
}

#[test]
fn scanline_batches() {
    let s = rgb_started(64, 40, false);
    let data = vec![0u8; 64 * 3 * 40];
    let batches = s.write_scanlines(&data).unwrap();
    assert_eq!(batches.len(), 3);
    assert_eq!(batches[0].len(), 16);
    assert_eq!(batches[1][0], 16 * 192);
    assert_eq!(batches[2].as_slice(), (32..40).map(|r| r * 192).collect::<Vec<usize>>().as_slice());

    let four = s.write_scanlines(&data[..768]).unwrap();
    assert_eq!(four.len(), 1);
    assert_eq!(four[0].as_slice(), &[0, 192, 384, 576]);

    assert!(s.write_scanlines(&data[..191]).unwrap().is_empty());

    let exact = s.write_scanlines(&data[..32 * 192]).unwrap();
    assert_eq!(exact.len(), 2);
    assert_eq!(exact[1].len(), 16);
    assert_eq!(exact[1][15], 31 * 192);
}

#[test]
fn strided_scanlines() {
    let s = rgb_started(64, 4, false);
    let data = vec![0u8; 200 * 3 + 192];
    let batches = s.write_scanlines_strided(&data, 200).unwrap();
    assert_eq!(batches.len(), 1);
    assert_eq!(batches[0].as_slice(), &[0, 200, 400, 600]);
    assert_eq!(
        s.write_scanlines_strided(&data, 100),
        Err(ScanlineError::StrideTooSmall { stride: 100, byte_width: 192 })
    );
    let raw = rgb_started(64, 4, true);
    assert_eq!(raw.write_scanlines(&data), Err(ScanlineError::InvalidInput));
}

#[test]
fn next_scanline_bookkeeping() {
    let mut s = rgb_started(64, 4, false);
    assert!(s.can_write_more_lines());
    s.set_next_scanline(3);
    assert!(s.can_write_more_lines());
    s.set_next_scanline(4);
    assert!(!s.can_write_more_lines());
    assert_eq!(s.components().len(), 3);
    assert_eq!(s.components()[0].row_stride(), 64);
    assert_eq!(s.components()[1].col_stride(), 32);
}

fn raw_started(raw: bool) -> CompressStarted {
    CompressStarted::new(16, 16, 3, raw, 2, vec![comp(2, 2, 2, 2), comp(1, 1, 1, 1), comp(1, 1, 1, 1)])
}

#[test]
fn raw_data_checks() {
    let y = vec![0u8; 256];
    let cb = vec![0u8; 64];
    let cr = vec![0u8; 64];
    let s = raw_started(true);
    assert_eq!(s.raw_data_check(&[&y, &cb, &cr]), Ok(16));
    assert_eq!(s.write_raw_data(&[&y, &cb, &cr]), 16);
    assert_eq!(
        s.raw_data_check(&[&y[..255], &cb, &cr]),
        Err(RawDataError::BitmapTooSmall { component: 0, row_stride: 16, col_stride: 16, got: 255 })
    );
    assert_eq!(s.raw_data_check(&[&y, &cb]), Err(RawDataError::TooManyComponents { declared: 3, got: 2 }));
    assert_eq!(raw_started(false).raw_data_check(&[&y, &cb, &cr]), Err(RawDataError::RawDataNotSet));
}

#[test]
fn raw_data_rows_per_mcu_row() {
    let y = vec![0u8; 256];
    let cb = vec![0u8; 64];
    let cr = vec![0u8; 64];
    let s = raw_started(true);
    assert_eq!(s.raw_data_rows(0, &[&y, &cb, &cr]), Ok(vec![(0, 16), (0, 8), (0, 8)]));
    assert_eq!(s.raw_data_rows(16, &[&y, &cb, &cr]), Err(RawDataError::ComponentTooShort { component: 0 }));
    assert_eq!(s.raw_data_rows(32, &[&y, &cb, &cr]), Err(RawDataError::RowsExhausted { component: 0 }));
}

#[test]
fn icc_profile_markers_split_and_label() {
    let s = rgb_started(8, 8, false);
    let markers = s.write_icc_profile(&[1, 2, 3]);
    assert_eq!(markers.len(), 1);
    let mut expected = b"ICC_PROFILE\0".to_vec();
    expected.extend_from_slice(&[1, 1, 1, 2, 3]);
    assert_eq!(markers[0], expected);

    let big: Vec<u8> = (0..65519 + 10).map(|i| (i % 251) as u8).collect();
    let markers = icc_profile_markers(&big);
    assert_eq!(markers.len(), 2);
    assert_eq!(markers[0].len(), 14 + 65519);
    assert_eq!(&markers[0][12..14], &[1, 2]);
    assert_eq!(&markers[1][12..14], &[2, 2]);
    assert_eq!(markers[1].len(), 14 + 10);
    let mut joined = markers[0][14..].to_vec();
    joined.extend_from_slice(&markers[1][14..]);
    assert_eq!(joined, big);
    assert!(icc_profile_markers(&[]).is_empty());
}

#[test]
fn scanline_encoder_setup() {
    let enc = JpegConfig::rgb_to_ycbcr_420(q(85.0)).create_encoder(64, 64).unwrap();
    assert_eq!(
        enc.setup_steps(),
        &[
            ConfigStep::ImageWidth,
            ConfigStep::ImageHeight,
            ConfigStep::ColorSpace,
            ConfigStep::ScanMode,
            ConfigStep::Defaults,
            ConfigStep::Quality,
            ConfigStep::Smoothing,
            ConfigStep::OptimizeCoding,
        ]
    );
    assert_eq!(enc.component_factors(), Some([(2, 2), (1, 1), (1, 1)]));
    assert_eq!(enc.compress().input_color_space(), ColorSpace::JCS_RGB);
    let (mut c, _, _, _) = enc.into_parts();
    assert!(c.apply_pending_config().is_empty());

    let rgb = JpegConfig::rgb_to_rgb(q(85.0)).create_encoder(64, 64).unwrap();
    assert!(rgb.setup_steps().is_empty());
    assert_eq!(rgb.component_factors(), None);
    let (mut c, _, _, _) = rgb.into_parts();
    assert_eq!(
        c.apply_pending_config(),
        vec![
            ConfigStep::ImageWidth,
            ConfigStep::ImageHeight,
            ConfigStep::ColorSpace,
            ConfigStep::ScanMode,
            ConfigStep::Defaults,
            ConfigStep::Quality,
            ConfigStep::OptimizeCoding,
        ]
    );
}

#[test]
fn started_encoders_write() {
    let enc = JpegConfig::rgb_to_ycbcr_420(q(85.0)).create_encoder(64, 40).unwrap();
    let started = enc.start(rgb_started(64, 40, false));
    let data = vec![0u8; 64 * 3 * 40];
    assert_eq!(started.write_scanlines(&data).unwrap().len(), 3);
    assert_eq!(started.config().quality, q(85.0));

    let raw_config = JpegConfig {
        input: mozjpeg_verus::typed::JpegInput::RawMcu(mozjpeg_verus::typed::RawMcuConfig::YCbCr {
            subsampling: mozjpeg_verus::typed::ChromaSubsampling::Yuv420,
            y_size: (16, 16),
            cb_size: (8, 8),
            cr_size: (8, 8),
        }),
        ..JpegConfig::rgb_to_ycbcr_420(q(85.0))
    };
    let raw_enc = raw_config.create_mcu_planar_encoder(16, 16).unwrap();
    assert_eq!(raw_enc.component_factors(), Some([(2, 2), (1, 1), (1, 1)]));
    let raw = raw_enc.start(raw_started(true));
    let y = vec![0u8; 256];
    let cb = vec![0u8; 64];
    assert_eq!(raw.write_raw_data(&[&y]), Err(RawWriteError::ComponentCount { expected: 3, got: 1 }));
    assert_eq!(raw.write_raw_data(&[&y, &cb, &cb]), Ok(16));
    assert_eq!(
        raw.write_raw_data(&[&y, &cb, &cb[..10]]),
        Err(RawWriteError::Data(RawDataError::BitmapTooSmall { component: 2, row_stride: 8, col_stride: 8, got: 10 }))
    );
}

#[test]
fn encoder_apply_pending_config_after_setup() {
    let mut enc = JpegConfig::rgb_to_ycbcr_444(q(60.0)).create_encoder(8, 8).unwrap();
    assert!(!enc.setup_steps().is_empty());
    assert!(enc.apply_pending_config().is_empty());

    let raw_config = JpegConfig {
        input: mozjpeg_verus::typed::JpegInput::RawMcu(mozjpeg_verus::typed::RawMcuConfig::Grayscale { size: (16, 8) }),
        ..JpegConfig::grayscale(q(60.0))
    };
    let mut raw = raw_config.create_mcu_planar_encoder(16, 8).unwrap();
    assert!(raw.setup_steps().is_empty());
    assert_eq!(raw.component_factors(), None);
    assert_eq!(
        raw.apply_pending_config(),
        vec![
            ConfigStep::ImageWidth,
            ConfigStep::ImageHeight,
            ConfigStep::ScanMode,
            ConfigStep::Defaults,
            ConfigStep::Quality,
            ConfigStep::OptimizeCoding,
            ConfigStep::RawDataIn,
        ]
    );
    assert!(raw.apply_pending_config().is_empty());
}

#[test]
fn typed_writers_need_every_row() {
    let enc = JpegConfig::rgb_to_ycbcr_420(q(85.0)).create_encoder(64, 64).unwrap();
    let started = enc.start(rgb_started(64, 64, false));
    let short = vec![0u8; 208 * 10];
    assert_eq!(
        started.write_scanlines_strided(&short, 208),
        Err(ScanlineError::BufferTooSmall { len: 2080, stride: 208, rows: 64 })
    );
    let full = vec![0u8; 208 * 64];
    assert_eq!(started.write_scanlines_strided(&full, 208).unwrap().len(), 4);
    assert_eq!(
        started.write_scanlines(&full[..192 * 63]),
        Err(ScanlineError::BufferTooSmall { len: 192 * 63, stride: 192, rows: 64 })
    );
    assert_eq!(started.write_scanlines(&full[..192 * 64]).unwrap().len(), 4);
    assert_eq!(
        ScanlineError::BufferTooSmall { len: 2080, stride: 208, rows: 64 }.message(),
        "data buffer too small: 2080 bytes for 64 rows of 208 bytes"
    );
}

#[test]
fn oversized_dimensions_are_kept_and_refused() {
    let big: usize = 70000;
    let mut c = Compress::new(ColorSpace::JCS_RGB);
    c.set_size(big, 8);
    assert_eq!(c.pending().width, Some(big));
    let good = [comp(2, 2, 8, 8), comp(1, 1, 4, 4), comp(1, 1, 4, 4)];
    let w = image_dimension(big);
    assert_eq!(w, 70000);
    assert_eq!(check_start(w, image_dimension(8), &good), Err(StartError::DimensionsTooLarge { width: 70000, height: 8 }));
    if usize::BITS > 32 {
        let huge = (u32::MAX as usize) + 9;
        assert_eq!(image_dimension(huge), u32::MAX);
        assert!(matches!(check_start(image_dimension(huge), 8, &good), Err(StartError::DimensionsTooLarge { .. })));
    }
}

#[test]
fn raw_write_progress() {
    let mut s = raw_started(true);
    assert_eq!(s.after_raw_write(0, 0), Some(false));
    assert_eq!(s.after_raw_write(8, 8), None);
    assert!(s.can_write_more_lines());
    assert_eq!(s.after_raw_write(16, 8), Some(true));
    assert!(!s.can_write_more_lines());
}

/// The components libjpeg gives RGB input once its defaults ran.
fn default_rgb_components() -> [CompInfo; 3] {
    [comp(2, 2, 8, 8), comp(1, 1, 4, 4), comp(1, 1, 4, 4)]
}

fn start_error_of(c: &Compress, comps: &[CompInfo]) -> Option<String> {
    let p = c.pending();
    let w = image_dimension(p.width.unwrap_or(0));
    let h = image_dimension(p.height.unwrap_or(0));
    check_start(w, h, comps).err().map(|e| e.message())
}

#[test]
fn zero_width_returns_error() {
    let mut comp = Compress::new(ColorSpace::JCS_RGB);
    comp.set_size(0, 64);
    let result = start_error_of(&comp, &default_rgb_components());
    assert!(result.is_some(), "Zero width should return error");
    assert!(result.as_ref().unwrap().contains("invalid dimensions"), "{:?}", result);
}

#[test]
fn zero_height_returns_error() {
    let mut comp = Compress::new(ColorSpace::JCS_RGB);
    comp.set_size(64, 0);
    let result = start_error_of(&comp, &default_rgb_components());
    assert!(result.is_some(), "Zero height should return error");
    assert!(result.as_ref().unwrap().contains("invalid dimensions"), "{:?}", result);
}

#[test]
fn very_large_dimensions_returns_error() {
    let mut comp = Compress::new(ColorSpace::JCS_RGB);
    comp.set_size(100000, 100000);
    let result = start_error_of(&comp, &default_rgb_components());
    assert!(result.is_some(), "Very large dimensions should return error");
    assert!(result.as_ref().unwrap().contains("exceed JPEG maximum"), "{:?}", result);
}

#[test]
fn invalid_sampling_factor_zero_returns_error() {
    let mut comp = Compress::new(ColorSpace::JCS_RGB);
    comp.set_size(64, 64);
    comp.set_color_space(ColorSpace::JCS_YCbCr);
    let mut comps = default_rgb_components();
    comps[0].h_samp_factor = 0;
    let result = start_error_of(&comp, &comps);
    assert!(result.is_some(), "Invalid sampling factor should return error");
    assert!(result.as_ref().unwrap().contains("sampling factors"), "{:?}", result);
}

#[test]
fn stride_smaller_than_width() {
    let started = rgb_started(64, 64, false);
    let result = started.write_scanlines_strided(&[128u8; 1000], 10);
    assert_eq!(result, Err(ScanlineError::StrideTooSmall { stride: 10, byte_width: 192 }));
}

#[test]
fn quality_out_of_range() {
    let mut comp = Compress::new(ColorSpace::JCS_RGB);
    comp.set_size(8, 8);
    comp.set_quality(q(-50.0));
    assert_eq!(comp.pending().quality, Some((-50, false)));
    assert!(start_error_of(&comp, &default_rgb_components()).is_none());
    comp.set_quality(q(150.0));
    assert_eq!(comp.pending().quality, Some((150, false)));
    assert!(comp.apply_pending_config().contains(&ConfigStep::Quality));
}

#[test]
fn double_call_idempotent() {
    let mut comp = Compress::new(ColorSpace::JCS_RGB);
    comp.set_size(64, 64);
    comp.set_quality(q(85.0));
    comp.set_smoothing_factor(50);

    comp.set_scan_optimization_mode(ScanMode::Auto);
    let after_first = comp.pending_plan();
    let quality = comp.pending().quality;

    comp.set_scan_optimization_mode(ScanMode::Auto);
    assert_eq!(comp.pending_plan(), after_first);
    assert_eq!(comp.pending().quality, quality);
    comp.apply_pending_config();
    comp.set_scan_optimization_mode(ScanMode::Auto);
    assert!(comp.apply_pending_config().is_empty());
}
