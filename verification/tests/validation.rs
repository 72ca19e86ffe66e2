use mozjpeg_verus::compress::CompInfo;
use mozjpeg_verus::validation::{ConfigOperation, ConfigTracker, ValidationWarning};
use mozjpeg_verus::{ColorSpace, Compress, ScanMode};

fn comp_at(h: i32, v: i32) -> CompInfo {
    CompInfo { h_samp_factor: h, v_samp_factor: v, width_in_blocks: 8, height_in_blocks: 8 }
}

/// A compression with nothing left to apply: validation compares what
/// libjpeg holds as it is.
fn settled() -> Compress {
    let mut c = Compress::new(ColorSpace::JCS_YCbCr);
    c.apply_pending_config();
    c
}

#[test]
fn detect_subsampling_reset() {
    let mut comp = Compress::new(ColorSpace::JCS_RGB);
    comp.set_size(64, 64);
    comp.set_color_space(ColorSpace::JCS_YCbCr);

    let mut tracker = ConfigTracker::new();
    tracker.record_size(64, 64);

    // Set subsampling BEFORE scan mode (wrong order - will be reset): the
    // configuration is applied, then the components are edited directly.
    comp.apply_pending_config();
    let components = [comp_at(2, 1), comp_at(1, 1), comp_at(1, 1)];
    tracker.record_subsampling([2, 1, 1, 1, 1, 1]);

    comp.set_scan_optimization_mode(ScanMode::Auto);
    tracker.record_scan_mode(ScanMode::Auto);

    // Should detect that subsampling was reset
    let result = tracker.validate(&comp, 0, false, &components);
    assert!(result.is_err(), "Should detect subsampling reset");

    let warnings = result.unwrap_err();
    assert_eq!(warnings.len(), 1);
    assert_eq!(warnings[0].setting, "subsampling_factors");
    assert!(warnings[0].cause.contains("jpeg_set_defaults"));
    assert_eq!(warnings[0].expected, "[2, 1, 1, 1, 1, 1]");
    assert_eq!(warnings[0].actual, "[2, 2, 1, 1, 1, 1]");
}

#[test]
fn validate_sees_configured_values_through_pending_defaults() {
    let mut comp = Compress::new(ColorSpace::JCS_RGB);
    comp.apply_pending_config();
    comp.set_scan_optimization_mode(ScanMode::Auto);
    comp.set_smoothing_factor(40);
    comp.set_chroma_sampling_pixel_sizes((2, 1), (2, 1));

    let mut tracker = ConfigTracker::new();
    tracker.record_scan_mode(ScanMode::Auto);
    tracker.record_smoothing(40);
    tracker.record_subsampling([2, 1, 1, 1, 1, 1]);
    tracker.record_raw_data_in(true);

    // libjpeg holds other values now; the pending configuration sets the
    // smoothing and sampling factors, and the defaults turn raw data off.
    let held = [comp_at(1, 1), comp_at(1, 1), comp_at(1, 1)];
    let warnings = tracker.validate(&comp, 3, true, &held).unwrap_err();
    assert_eq!(warnings.len(), 1);
    assert_eq!(warnings[0].setting, "raw_data_in");
    assert_eq!(warnings[0].actual, "false");
    assert_eq!(warnings[0].cause, "unknown cause");
}

#[test]
fn order_check_warns_about_problems() {
    let mut tracker = ConfigTracker::new();

    tracker.record_smoothing(50);
    tracker.record_subsampling([2, 1, 1, 1, 1, 1]);
    tracker.record_scan_mode(ScanMode::Auto);

    let warnings = tracker.check_order();

    assert!(!warnings.is_empty(), "Should warn about ordering issues");

    let subsampling_warning = warnings.iter().find(|w| w.contains("subsampling"));
    assert!(subsampling_warning.is_some(), "Should warn about subsampling");
}

#[test]
fn order_check_exact_messages() {
    let mut tracker = ConfigTracker::default();
    tracker.record_size(64, 64);
    tracker.record_smoothing(50);
    tracker.record_raw_data_in(true);
    tracker.record_progressive();
    tracker.record_subsampling([2, 1, 1, 1, 1, 1]);
    tracker.record_scan_mode(ScanMode::Auto);
    tracker.record_raw_data_in(true);
    let warnings = tracker.check_order();
    assert_eq!(
        warnings,
        vec![
            "smoothing_factor set before set_scan_optimization_mode() at step 2. It may be reset (but is preserved on this branch with the fix).".to_string(),
            "progressive mode set before set_scan_optimization_mode() at step 4. It may be affected!".to_string(),
            "subsampling_factors set before set_scan_optimization_mode() at step 5. They WILL be reset!".to_string(),
        ]
    );
}

#[test]
fn order_check_quiet_without_scan_mode_or_when_settings_follow_it() {
    let mut tracker = ConfigTracker::new();
    tracker.record_smoothing(50);
    tracker.record_subsampling([2, 2, 1, 1, 1, 1]);
    assert!(tracker.check_order().is_empty());

    let mut tracker = ConfigTracker::new();
    tracker.record_scan_mode(ScanMode::ScanPerComponent);
    tracker.record_smoothing(50);
    tracker.record_raw_data_in(true);
    assert!(tracker.check_order().is_empty());
}

#[test]
fn validate_reports_every_reset_in_order() {
    let mut tracker = ConfigTracker::new();
    tracker.record_smoothing(50);
    tracker.record_raw_data_in(true);
    tracker.record_subsampling([2, 1, 1, 1, 1, 1]);
    tracker.record_scan_mode(ScanMode::Auto);

    let components = [comp_at(2, 2), comp_at(1, 1), comp_at(1, 1)];
    let warnings = tracker.validate(&settled(), 0, false, &components).unwrap_err();
    assert_eq!(warnings.len(), 3);
    assert_eq!(
        warnings[0],
        ValidationWarning {
            setting: "smoothing_factor".to_string(),
            expected: "50".to_string(),
            actual: "0".to_string(),
            cause: "likely reset by set_scan_optimization_mode() which calls jpeg_set_defaults()".to_string(),
        }
    );
    assert_eq!(warnings[1].setting, "raw_data_in");
    assert_eq!(warnings[1].expected, "true");
    assert_eq!(warnings[1].actual, "false");
    assert_eq!(warnings[2].setting, "subsampling_factors");
    assert_eq!(
        warnings[1].to_string(),
        "raw_data_in: expected 'true', got 'false' - likely reset by set_scan_optimization_mode() which calls jpeg_set_defaults()"
    );
}

#[test]
fn validate_unknown_cause_and_matching_state() {
    let mut tracker = ConfigTracker::new();
    tracker.record_scan_mode(ScanMode::Auto);
    tracker.record_smoothing(7);

    // The smoothing factor was set after the scan mode: a mismatch has no
    // known cause.
    let warnings = tracker.validate(&settled(), 300, false, &[]).unwrap_err();
    assert_eq!(warnings.len(), 1);
    assert_eq!(warnings[0].actual, "44");
    assert_eq!(warnings[0].cause, "unknown cause");

    // 263 is 7 once cut to a byte, as the comparison reads it.
    assert!(tracker.validate(&settled(), 263, true, &[]).is_ok());
    assert!(tracker.validate(&settled(), 7, false, &[comp_at(1, 1)]).is_ok());
}

#[test]
fn operation_log_and_descriptions() {
    let mut tracker = ConfigTracker::new();
    tracker.record_size(640, 480);
    tracker.record_quality(85.0f32.to_bits());
    tracker.record_scan_mode(ScanMode::AllComponentsTogether);
    tracker.record_subsampling([2, 2, 1, 1, 1, 1]);
    tracker.record_progressive();
    let log = tracker.operation_log();
    assert_eq!(log.len(), 5);
    assert!(matches!(log[0], ConfigOperation::SetSize(640, 480)));
    assert_eq!(log[0].describe(""), "set_size(640, 480)");
    assert_eq!(log[1].describe("85"), "set_quality(85)");
    assert_eq!(log[2].describe(""), "set_scan_optimization_mode(AllComponentsTogether)");
    assert_eq!(log[3].describe(""), "set_subsampling([2, 2, 1, 1, 1, 1])");
    assert_eq!(log[4].describe(""), "set_progressive_mode()");
    assert_eq!(ConfigOperation::SetSmoothing(9).describe(""), "set_smoothing_factor(9)");
    assert_eq!(ConfigOperation::SetRawDataIn(false).describe(""), "set_raw_data_in(false)");
}

#[test]
fn operations_compare_qualities_as_numbers() {
    let nan = ConfigOperation::SetQuality(f32::NAN.to_bits());
    assert!(nan != nan);
    assert!(ConfigOperation::SetQuality(0.0f32.to_bits()) == ConfigOperation::SetQuality((-0.0f32).to_bits()));
    assert!(ConfigOperation::SetQuality(85.0f32.to_bits()) != ConfigOperation::SetQuality(85.5f32.to_bits()));
    assert!(ConfigOperation::SetSubsampling([2, 1, 1, 1, 1, 1]) == ConfigOperation::SetSubsampling([2, 1, 1, 1, 1, 1]));
    assert!(ConfigOperation::SetSize(1, 2) != ConfigOperation::SetSize(2, 1));
    assert!(ConfigOperation::SetProgressive != ConfigOperation::SetScanMode(ScanMode::Auto));
}
