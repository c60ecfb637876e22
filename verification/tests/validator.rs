//! Tests of pixel validation against raw RGBA output buffers.

use sl_gem::OutputValidator;
use sl_gem::PixelValidator;
use sl_gem::ValidationResult;

// A 2x2 RGBA buffer: red, green / blue, white.
fn sample_buffer() -> Vec<u8> {
    vec![
        255, 0, 0, 255, //
        0, 255, 0, 255, //
        0, 0, 255, 255, //
        255, 255, 255, 255,
    ]
}

#[test]
fn test_matching_pixels_pass() {
    let mut validator = PixelValidator::new();
    validator.add_point(0, 0, [255, 0, 0, 255]);
    validator.add_point(1, 0, [0, 255, 0, 255]);
    validator.add_point(1, 1, [255, 255, 255, 255]);

    let result = validator.validate(&sample_buffer(), 2, 2);
    assert!(result.success);
    assert!(result.error_message.is_none());
    assert!(result.diff_points.is_empty());
}

#[test]
fn test_mismatching_pixels_are_listed() {
    let mut validator = PixelValidator::new();
    validator.add_point(0, 0, [255, 0, 0, 255]);
    validator.add_point(0, 1, [255, 0, 0, 255]); // actually blue
    validator.add_point(1, 1, [0, 0, 0, 255]); // actually white

    let result = validator.validate(&sample_buffer(), 2, 2);
    assert!(!result.success);
    assert!(result.error_message.is_some());
    assert_eq!(result.diff_points, vec![(0, 1), (1, 1)]);
}

#[test]
fn test_tolerance_boundary() {
    let mut close = PixelValidator::new();
    close.add_point(0, 0, [250, 0, 0, 255]);
    assert!(close.validate(&sample_buffer(), 2, 2).success);

    let mut strict = PixelValidator::new();
    strict.add_point(0, 0, [250, 0, 0, 255]);
    strict.set_tolerance(4);
    assert!(!strict.validate(&sample_buffer(), 2, 2).success);
}

#[test]
fn test_short_buffer_fails() {
    let mut validator = PixelValidator::new();
    validator.add_point(0, 0, [255, 0, 0, 255]);

    let result = validator.validate(&sample_buffer(), 4, 4);
    assert!(!result.success);
    assert!(result.error_message.is_some());
    assert!(result.diff_points.is_empty());
}

#[test]
fn test_out_of_range_point_fails() {
    let mut validator = PixelValidator::new();
    validator.add_point(2, 0, [255, 0, 0, 255]);

    let result = validator.validate(&sample_buffer(), 2, 2);
    assert!(!result.success);
    assert!(result.diff_points.is_empty());
}

#[test]
fn test_validation_result_constructors() {
    let ok = ValidationResult::success();
    assert!(ok.success && ok.error_message.is_none() && ok.diff_points.is_empty());

    let bad = ValidationResult::failure("no output");
    assert!(!bad.success);
    assert_eq!(bad.error_message.as_deref(), Some("no output"));

    let diff = ValidationResult::with_diff_points("off", vec![(3, 4)]);
    assert!(!diff.success);
    assert_eq!(diff.diff_points, vec![(3, 4)]);
}
