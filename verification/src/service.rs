//! What a request for a chart asks for: the size of the picture, the time
//! window and the step between the samples to fetch.

use crate::time::{TimeRange, Timestamp};
use vstd::prelude::*;

verus! {

/// Width of the picture where the request names none.
pub const DEFAULT_WIDTH: u32 = 800;

/// Height of the picture where the request names none.
pub const DEFAULT_HEIGHT: u32 = 480;

/// Length of the time window in seconds: one hour.
pub const WINDOW_SECONDS: i64 = 3600;

/// The parameters of a request, as far as it gives them.
#[derive(Clone, Copy, Debug, PartialEq, Eq, Structural)]
pub struct QueryParams {
    pub w: Option<u32>,
    pub h: Option<u32>,
}

impl QueryParams {
    /// Width of the picture: the one asked for, else the default.
    pub fn width(&self) -> (w: u32)
        ensures
            w == match self.w {
                Some(asked) => asked,
                None => DEFAULT_WIDTH,
            },
    {
        match self.w {
            Some(asked) => asked,
            None => DEFAULT_WIDTH,
        }
    }

    /// Height of the picture: the one asked for, else the default.
    pub fn height(&self) -> (h: u32)
        ensures
            h == match self.h {
                Some(asked) => asked,
                None => DEFAULT_HEIGHT,
            },
    {
        match self.h {
            Some(asked) => asked,
            None => DEFAULT_HEIGHT,
        }
    }
}

/// A canvas of `width` by `height` pixels can be made: neither side is zero
/// and its bytes can be counted in 32 bits.
pub open spec fn drawable(width: u32, height: u32) -> bool {
    width > 0 && height > 0 && width * height * 3 <= u32::MAX
}

/// Tells whether a canvas of `width` by `height` pixels can be made.
pub fn fits(width: u32, height: u32) -> (b: bool)
    ensures
        b == drawable(width, height),
{
    if width == 0 || height == 0 {
        return false;
    }
    assert(width * height <= 0xFFFF_FFFF * 0xFFFF_FFFF) by (nonlinear_arith)
        requires
            width <= 0xFFFF_FFFF,
            height <= 0xFFFF_FFFF,
    ;
    let pixels: u64 = (width as u64) * (height as u64);
    pixels <= (u32::MAX / 3) as u64
}

/// The window of one hour that ends at `end`, `None` where the hour before
/// `end` cannot be counted in 64 bits.
pub fn window_before(end: Timestamp) -> (r: Option<TimeRange>)
    ensures
        match r {
            Some(range) => {
                &&& range.end == end
                &&& range.start.nanos == end.nanos
                &&& range.start.secs == end.secs - WINDOW_SECONDS
            },
            None => end.secs - WINDOW_SECONDS < i64::MIN,
        },
{
    if end.secs < i64::MIN + WINDOW_SECONDS {
        None
    } else {
        Some(TimeRange { start: Timestamp { secs: end.secs - WINDOW_SECONDS, nanos: end.nanos }, end })
    }
}

/// The step of `query_step`: the whole seconds of the window, cut to 32
/// bits, divided by the width.
pub open spec fn step_of(range: TimeRange, width: u32) -> int {
    (range.seconds() % 0x1_0000_0000) / (width as int)
}

/// Seconds between two samples to ask the backend for, so that a picture
/// `width` pixels wide gets one sample per pixel.
pub fn query_step(range: &TimeRange, width: u32) -> (step: u32)
    requires
        width > 0,
    ensures
        step == step_of(*range, width),
{
    let seconds = range.num_seconds();
    let rest: i128 = seconds % 0x1_0000_0000;
    let low: i128 = if rest < 0 {
        rest + 0x1_0000_0000
    } else {
        rest
    };
    (low as u32) / width
}

} // verus!
