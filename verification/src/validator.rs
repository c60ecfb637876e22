//! Validation of rendered output: checking chosen pixels of a raw RGBA
//! byte buffer against expected colours, channel by channel, within a
//! tolerance.

use vstd::prelude::*;

verus! {

/// The outcome of validating one output buffer: a success flag, an error
/// message when validation failed, and the coordinates whose colour did
/// not match.
#[derive(Debug)]
pub struct ValidationResult {
    pub success: bool,
    pub error_message: Option<String>,
    pub diff_points: Vec<(u32, u32)>,
}

impl Clone for ValidationResult {
    fn clone(&self) -> (r: Self) {
        ValidationResult {
            success: self.success,
            error_message: self.error_message.clone(),
            diff_points: self.diff_points.clone(),
        }
    }
}

impl ValidationResult {
    /// A passing result.
    pub fn success() -> (r: Self)
        ensures
            r.success,
            r.error_message is None,
            r.diff_points@.len() == 0,
    {
        Self { success: true, error_message: None, diff_points: Vec::new() }
    }

    /// A failing result that carries only a message.
    pub fn failure(message: &str) -> (r: Self)
        ensures
            !r.success,
            r.error_message matches Some(m) && m@ == message@,
            r.diff_points@.len() == 0,
    {
        Self { success: false, error_message: Some(message.to_string()), diff_points: Vec::new() }
    }

    /// A failing result that names the mismatching pixels.
    pub fn with_diff_points(message: &str, diff_points: Vec<(u32, u32)>) -> (r: Self)
        ensures
            !r.success,
            r.error_message matches Some(m) && m@ == message@,
            r.diff_points == diff_points,
    {
        Self { success: false, error_message: Some(message.to_string()), diff_points }
    }
}

/// A pluggable check of one rendered output buffer; the harness around a
/// renderer supplies its own implementations.
pub trait OutputValidator {
    fn validate(&self, output: &[u8], width: u32, height: u32) -> ValidationResult;
}

/// Whether two channel values agree within `tolerance`.
pub open spec fn spec_channel_close(expected: u8, actual: u8, tolerance: u8) -> bool {
    if expected >= actual {
        expected - actual <= tolerance
    } else {
        actual - expected <= tolerance
    }
}

/// The index of pixel `(x, y)`'s first byte in a `width`-wide RGBA buffer.
pub open spec fn spec_pixel_base(width: u32, x: u32, y: u32) -> int {
    4 * (y * width + x)
}

/// Whether the pixel at `(x, y)` of `output` agrees with `expected` on all
/// four channels within `tolerance`.
pub open spec fn spec_pixel_close(
    output: Seq<u8>,
    width: u32,
    x: u32,
    y: u32,
    expected: [u8; 4],
    tolerance: u8,
) -> bool {
    let base = spec_pixel_base(width, x, y);
    &&& spec_channel_close(expected[0], output[base + 0], tolerance)
    &&& spec_channel_close(expected[1], output[base + 1], tolerance)
    &&& spec_channel_close(expected[2], output[base + 2], tolerance)
    &&& spec_channel_close(expected[3], output[base + 3], tolerance)
}

/// The points among the first `n` whose pixel does not match its expected
/// colour, in their original order.
pub open spec fn spec_mismatches(
    points: Seq<(u32, u32)>,
    colors: Seq<[u8; 4]>,
    output: Seq<u8>,
    width: u32,
    tolerance: u8,
) -> Seq<(u32, u32)>
    decreases points.len(),
{
    if points.len() == 0 {
        Seq::empty()
    } else {
        let rest = spec_mismatches(points.drop_last(), colors, output, width, tolerance);
        let i = points.len() - 1;
        if spec_pixel_close(output, width, points[i].0, points[i].1, colors[i], tolerance) {
            rest
        } else {
            rest.push(points[i])
        }
    }
}

/// A validator of single pixels: each registered point must show its
/// expected colour within the tolerance. The two lists run in step: entry
/// `i` of `expected_colors` belongs to entry `i` of `points`.
pub struct PixelValidator {
    pub points: Vec<(u32, u32)>,
    pub expected_colors: Vec<[u8; 4]>,
    pub tolerance: u8,
}

impl PixelValidator {
    /// The two lists must pair up.
    pub open spec fn wf(self) -> bool {
        self.points@.len() == self.expected_colors@.len()
    }

    /// A validator with no points and the default tolerance of five.
    pub fn new() -> (r: Self)
        ensures
            r.wf(),
            r.points@.len() == 0,
            r.tolerance == 5,
    {
        Self { points: Vec::new(), expected_colors: Vec::new(), tolerance: 5 }
    }

    /// Registers one point and the colour it must show.
    pub fn add_point(&mut self, x: u32, y: u32, color: [u8; 4])
        ensures
            final(self).points@ == old(self).points@.push((x, y)),
            final(self).expected_colors@ == old(self).expected_colors@.push(color),
            final(self).tolerance == old(self).tolerance,
            old(self).wf() ==> final(self).wf(),
    {
        self.points.push((x, y));
        self.expected_colors.push(color);
    }

    /// Sets the per-channel tolerance.
    pub fn set_tolerance(&mut self, tolerance: u8)
        ensures
            *final(self) == (PixelValidator { tolerance, ..*old(self) }),
    {
        self.tolerance = tolerance;
    }

    /// Checks every registered point against `output`, a `width` by
    /// `height` RGBA buffer. A buffer too short for the extent, or a point
    /// outside it, fails outright; otherwise the result lists exactly the
    /// points whose colour is off by more than the tolerance on some
    /// channel, and succeeds exactly when there are none.
    pub fn check_pixels(&self, output: &[u8], width: u32, height: u32) -> (r: ValidationResult)
        requires
            self.wf(),
        ensures
            output@.len() < 4 * width * height ==> !r.success && r.diff_points@.len() == 0,
            (output@.len() >= 4 * width * height && (exists|i: int|
                0 <= i < self.points@.len() && !(self.points@[i].0 < width && self.points@[i].1
                    < height))) ==> !r.success && r.diff_points@.len() == 0,
            (output@.len() >= 4 * width * height && (forall|i: int|
                0 <= i < self.points@.len() ==> self.points@[i].0 < width && self.points@[i].1
                    < height)) ==> {
                &&& r.diff_points@ == spec_mismatches(
                    self.points@,
                    self.expected_colors@,
                    output@,
                    width,
                    self.tolerance,
                )
                &&& r.success == (r.diff_points@.len() == 0)
            },
            r.success ==> r.error_message is None,
            !r.success ==> r.error_message is Some,
    {
        proof {
            assert(4 * (width as int) * (height as int) <= u128::MAX) by (nonlinear_arith)
                requires
                    width <= u32::MAX,
                    height <= u32::MAX,
            ;
        }
        let needed: u128 = 4 * (width as u128) * (height as u128);
        if (output.len() as u128) < needed {
            return ValidationResult::failure("the output buffer is too short for the extent");
        }
        let mut diff_points: Vec<(u32, u32)> = Vec::new();
        let mut i: usize = 0;
        while i < self.points.len()
            invariant
                self.wf(),
                i <= self.points@.len(),
                output@.len() >= 4 * width * height,
                output@.len() <= usize::MAX,
                forall|j: int|
                    0 <= j < i ==> self.points@[j].0 < width && self.points@[j].1 < height,
                diff_points@ == spec_mismatches(
                    self.points@.take(i as int),
                    self.expected_colors@,
                    output@,
                    width,
                    self.tolerance,
                ),
            decreases self.points@.len() - i,
        {
            let (x, y) = self.points[i];
            if x >= width || y >= height {
                return ValidationResult::failure("a checked point lies outside the extent");
            }
            let expected = self.expected_colors[i];
            proof {
                assert(4 * ((y as int) * (width as int) + (x as int)) + 4 <= 4 * (width as int)
                    * (height as int)) by (nonlinear_arith)
                    requires
                        x < width,
                        y < height,
                ;
            }
            let base: usize = 4 * ((y as usize) * (width as usize) + (x as usize));
            let close = channel_close(expected[0], output[base], self.tolerance)
                && channel_close(expected[1], output[base + 1], self.tolerance)
                && channel_close(expected[2], output[base + 2], self.tolerance)
                && channel_close(expected[3], output[base + 3], self.tolerance);
            if !close {
                diff_points.push(self.points[i]);
            }
            proof {
                assert(self.points@.take(i + 1).drop_last() =~= self.points@.take(i as int));
                assert(self.points@.take(i + 1).last() == self.points@[i as int]);
            }
            i = i + 1;
        }
        proof {
            assert(self.points@.take(self.points@.len() as int) =~= self.points@);
        }
        if diff_points.len() == 0 {
            ValidationResult::success()
        } else {
            ValidationResult::with_diff_points("some pixels show the wrong colour", diff_points)
        }
    }
}

/// Whether two channel values agree within `tolerance`; see
/// [`spec_channel_close`].
fn channel_close(expected: u8, actual: u8, tolerance: u8) -> (r: bool)
    ensures
        r == spec_channel_close(expected, actual, tolerance),
{
    if expected >= actual {
        expected - actual <= tolerance
    } else {
        actual - expected <= tolerance
    }
}

impl OutputValidator for PixelValidator {
    /// As [`PixelValidator::check_pixels`]; a validator whose two lists
    /// have drifted apart reports failure rather than checking anything.
    fn validate(&self, output: &[u8], width: u32, height: u32) -> ValidationResult {
        if self.points.len() != self.expected_colors.len() {
            return ValidationResult::failure("points and expected colours do not pair up");
        }
        self.check_pixels(output, width, height)
    }
}

} // verus!
