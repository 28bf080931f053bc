//! The piecewise transfer curve between sRGB and linear colour channels.
//!
//! Either direction follows a straight line near zero and a power curve
//! above a knee. Which of the two applies to a channel is decided here. A
//! colour has four channels, red, green, blue and alpha; the curve applies
//! to the first three, and alpha follows neither part of it.

use vstd::prelude::*;
use crate::ieee::{greater, is_greater};

verus! {

/// Pattern of `0.04045`: above it an sRGB channel is on the power curve.
pub const SRGB_KNEE: u32 = 0x3D25_AEE6;

/// Pattern of `0.0031308`: above it a linear channel is on the power curve.
pub const LINEAR_KNEE: u32 = 0x3B4D_2E1C;

/// The part of the transfer curve on which a channel lies.
#[derive(Clone, Copy, Debug, PartialEq, Eq)]
pub enum Segment {
    /// At the knee or below it, and for NaN: the channel is divided or
    /// multiplied by `12.92`.
    Line,
    /// Above the knee: the channel goes through the power curve.
    Power,
}

/// The part of the curve for a channel against a knee.
pub open spec fn segment_above(channel: u32, knee: u32) -> Segment {
    if greater(channel, knee) {
        Segment::Power
    } else {
        Segment::Line
    }
}

/// The part of the curve by which an sRGB channel becomes linear:
/// `((c + 0.055) / 1.055) ^ 2.4` above `0.04045`, `c / 12.92` otherwise.
pub fn srgb_segment(channel: u32) -> (r: Segment)
    ensures
        r == segment_above(channel, SRGB_KNEE),
{
    if is_greater(channel, SRGB_KNEE) {
        Segment::Power
    } else {
        Segment::Line
    }
}

/// The part of the curve by which a linear channel becomes sRGB:
/// `1.055 * c ^ (1 / 2.4) - 0.055` above `0.0031308`, `12.92 * c` otherwise.
pub fn linear_segment(channel: u32) -> (r: Segment)
    ensures
        r == segment_above(channel, LINEAR_KNEE),
{
    if is_greater(channel, LINEAR_KNEE) {
        Segment::Power
    } else {
        Segment::Line
    }
}

/// The parts of the curve for the red, green and blue channels of a
/// colour against a knee. Alpha, the fourth channel, has none.
pub open spec fn segments_above(color: Seq<u32>, knee: u32) -> Seq<Segment> {
    Seq::new(3, |i: int| segment_above(color[i], knee))
}

/// The parts of the curve by which an sRGB colour becomes linear, for its
/// red, green and blue channels. Alpha stays as it is.
pub fn srgb_segments(color: &[u32; 4]) -> (r: [Segment; 3])
    ensures
        r@ == segments_above(color@, SRGB_KNEE),
{
    let r = [srgb_segment(color[0]), srgb_segment(color[1]), srgb_segment(color[2])];
    assert(r@ =~= segments_above(color@, SRGB_KNEE));
    r
}

/// The parts of the curve by which a linear colour becomes sRGB, for its
/// red, green and blue channels. Alpha stays as it is.
pub fn linear_segments(color: &[u32; 4]) -> (r: [Segment; 3])
    ensures
        r@ == segments_above(color@, LINEAR_KNEE),
{
    let r = [linear_segment(color[0]), linear_segment(color[1]), linear_segment(color[2])];
    assert(r@ =~= segments_above(color@, LINEAR_KNEE));
    r
}

} // verus!
