//! Startup settings read from the environment: whether the view is native,
//! where a screenshot goes, and the frame numbers of the capture jobs. The
//! caller reads the variables; these functions decide from their values.
use vstd::prelude::*;
use crate::text::{eq_ignore_ascii_case, eq_ignoring_ascii_case, parse_u32, parsed_u32, str_equal};

verus! {

/// Frame on which the single screenshot is taken unless configured.
pub const DEFAULT_SCREENSHOT_FRAME: u32 = 120;
/// Last simulation frame of a frame-sequence capture unless configured.
pub const DEFAULT_FRAME_END: u32 = 180;
/// Spacing of saved frames in a sequence capture unless configured.
pub const DEFAULT_FRAME_STEP: u32 = 2;

/// A numeric setting: the value when it reads as a `u32`, else the default.
pub open spec fn setting_value(value: Option<Seq<char>>, default: u32) -> u32 {
    match value {
        Some(v) => match parsed_u32(v) {
            Some(x) => x,
            None => default,
        },
        None => default,
    }
}

pub open spec fn text_of(value: Option<&str>) -> Option<Seq<char>> {
    match value {
        Some(v) => Some(v@),
        None => None,
    }
}

/// Whether an offline capture was asked for: a screenshot, a frame
/// sequence, or a staged scene.
pub fn capture_mode(screenshot: bool, frame_sequence: bool, scene: bool) -> (r: bool)
    ensures
        r == (screenshot || frame_sequence || scene),
{
    screenshot || frame_sequence || scene
}

/// Whether the 1280x800 design should map one-to-one onto the monitor's
/// pixels: asked for by `1` or any letter case of `true`, and never during
/// an offline capture.
pub fn native_mode_from(capture: bool, value: Option<&str>) -> (r: bool)
    ensures
        r == (!capture && match value {
            Some(v) => v@ == "1"@ || eq_ignoring_ascii_case(v@, "true"@),
            None => false,
        }),
{
    if capture {
        return false;
    }
    match value {
        Some(v) => str_equal(v, "1") || eq_ignore_ascii_case(v, "true"),
        None => false,
    }
}

/// The screenshot path: the primary variable if set, else the alternative.
pub fn screenshot_path_from(primary: Option<String>, fallback: Option<String>) -> (r: Option<String>)
    ensures
        r == if primary is Some {
            primary
        } else {
            fallback
        },
{
    match primary {
        Some(p) => Some(p),
        None => fallback,
    }
}

/// A numeric setting, falling back to `default` when absent or unreadable.
pub fn setting_or(value: Option<&str>, default: u32) -> (r: u32)
    ensures
        r == setting_value(text_of(value), default),
{
    match value {
        Some(v) => match parse_u32(v) {
            Some(x) => x,
            None => default,
        },
        None => default,
    }
}

/// The frame on which the single screenshot is taken.
pub fn screenshot_frame_target(value: Option<&str>) -> (r: u32)
    ensures
        r == setting_value(text_of(value), DEFAULT_SCREENSHOT_FRAME),
{
    setting_or(value, DEFAULT_SCREENSHOT_FRAME)
}

/// End frame and step of a frame-sequence capture; a step of zero is
/// raised to one.
pub fn frame_capture_settings(end: Option<&str>, step: Option<&str>) -> (r: (u32, u32))
    ensures
        r.0 == setting_value(text_of(end), DEFAULT_FRAME_END),
        r.1 == if setting_value(text_of(step), DEFAULT_FRAME_STEP) == 0 {
            1
        } else {
            setting_value(text_of(step), DEFAULT_FRAME_STEP)
        },
        r.1 >= 1,
{
    let end_frame = setting_or(end, DEFAULT_FRAME_END);
    let s = setting_or(step, DEFAULT_FRAME_STEP);
    let step = if s < 1 {
        1
    } else {
        s
    };
    (end_frame, step)
}

} // verus!
