//! Decoded video frames and the producer-side computations: the frame-rate
//! fallback, frame pacing durations, buffer recycling and the conversion of
//! packed RGB pixel data to packed RGBA.
//!
//! Time is measured in integer units; a session picks how many units make one
//! second (its time base), and frame rates are carried in thousandths of a
//! frame per second so that rates such as 29.97 fps stay exact.

use vstd::prelude::*;

verus! {

/// The number of bytes one pixel occupies in the packed RGBA layout
/// that decoded frames are converted to.
pub const BYTES_PER_PIXEL: usize = 4;

/// The rate assumed when the container reports none: 30 frames per second,
/// in thousandths of a frame per second.
pub const DEFAULT_MILLI_FPS: u32 = 30_000;

/// The finest time base a session may use: one unit is then a nanosecond.
pub const MAX_UNITS_PER_SECOND: u64 = 1_000_000_000;

/// One decoded frame, owned by exactly one side at a time; the bounded
/// frame channel is the only handoff point from producer to consumer.
pub struct Frame {
    /// Presentation time of the frame, in time units from the start of
    /// the session's stream.
    pub timestamp: u64,
    /// Packed RGBA pixel data, exactly `width * height * 4` bytes.
    pub pixels: Vec<u8>,
    pub width: u32,
    pub height: u32,
    /// The source's frame rate, in thousandths of a frame per second.
    pub milli_fps: u32,
    /// Position of the frame in decode order, starting at 0 each session.
    pub index: u64,
}

/// How many bytes one frame of the given dimensions occupies.
pub open spec fn spec_frame_bytes(width: u32, height: u32) -> int {
    width * height * (BYTES_PER_PIXEL as int)
}

impl Frame {
    pub open spec fn wf(self) -> bool {
        &&& self.milli_fps >= 1
        &&& self.pixels@.len() == spec_frame_bytes(self.width, self.height)
    }
}

/// What `frame_rate_or_default` returns: the reported rate, unless the
/// container reports a rate that is zero, negative or beyond `u32`, in
/// which case the default applies.
pub open spec fn spec_frame_rate_or_default(reported_milli_fps: i64) -> u32 {
    if reported_milli_fps <= 0 || reported_milli_fps > u32::MAX {
        DEFAULT_MILLI_FPS
    } else {
        reported_milli_fps as u32
    }
}

/// Normalizes the frame rate a container reports, falling back to the
/// default rate when the report is zero, negative or out of range.
pub fn frame_rate_or_default(reported_milli_fps: i64) -> (rate: u32)
    ensures
        rate == spec_frame_rate_or_default(reported_milli_fps),
        rate >= 1,
{
    if reported_milli_fps <= 0 || reported_milli_fps > u32::MAX as i64 {
        DEFAULT_MILLI_FPS
    } else {
        reported_milli_fps as u32
    }
}

/// How long one frame holds the display, in time units: one second's worth
/// of units divided by the frame rate, and never less than one unit.
pub open spec fn spec_frame_duration(units_per_second: u64, milli_fps: u32) -> int {
    let d = units_per_second * 1000 / (milli_fps as int);
    if d < 1 {
        1
    } else {
        d
    }
}

/// Computes the display duration of one frame in time units.
pub fn frame_duration(units_per_second: u64, milli_fps: u32) -> (duration: u64)
    requires
        1 <= units_per_second <= MAX_UNITS_PER_SECOND,
        milli_fps >= 1,
    ensures
        duration == spec_frame_duration(units_per_second, milli_fps),
        duration >= 1,
{
    let scaled: u64 = units_per_second * 1000;
    let d: u64 = scaled / (milli_fps as u64);
    if d < 1 {
        1
    } else {
        d
    }
}

/// A zero-filled sequence: the contents of a freshly allocated buffer.
pub open spec fn spec_zero_bytes(len: int) -> Seq<u8> {
    Seq::new(len as nat, |i: int| 0u8)
}

/// Obtains a buffer for one frame: a recycled buffer is reused as it is
/// when its size is right; otherwise a zero-filled buffer of exactly the
/// requested size is freshly allocated. The second result says whether
/// the recycled buffer was reused.
pub fn prepare_buffer(recycled: Option<Vec<u8>>, len: usize) -> (result: (Vec<u8>, bool))
    ensures
        result.0@.len() == len,
        result.1 == (recycled matches Some(b) && b@.len() == len),
        result.1 ==> result.0 == recycled.unwrap(),
        !result.1 ==> result.0@ == spec_zero_bytes(len as int),
{
    match recycled {
        Some(buffer) => {
            if buffer.len() == len {
                (buffer, true)
            } else {
                (vec![0u8; len], false)
            }
        },
        None => (vec![0u8; len], false),
    }
}

/// The packed RGBA image that packed RGB pixel data converts to: byte `i`
/// is 255 on every fourth position (the alpha channel) and otherwise the
/// matching channel byte of pixel `i / 4`.
pub open spec fn spec_rgba(rgb: Seq<u8>) -> Seq<u8> {
    Seq::new(
        (rgb.len() / 3 * 4) as nat,
        |i: int|
            if i % 4 == 3 {
                255u8
            } else {
                rgb[i / 4 * 3 + i % 4]
            },
    )
}

/// Converts packed RGB bytes to packed RGBA in `out`: each pixel's three
/// channels are copied byte for byte and the alpha channel is fixed at 255.
/// `out` keeps its allocation, so a recycled buffer is reused in place.
pub fn convert_rgb_to_rgba(rgb: &Vec<u8>, out: &mut Vec<u8>)
    requires
        rgb@.len() % 3 == 0,
        rgb@.len() / 3 * 4 <= usize::MAX,
    ensures
        final(out)@ == spec_rgba(rgb@),
{
    let pixel_count: usize = rgb.len() / 3;
    out.clear();
    let mut p: usize = 0;
    while p < pixel_count
        invariant
            pixel_count == rgb@.len() / 3,
            rgb@.len() % 3 == 0,
            pixel_count * 4 <= usize::MAX,
            p <= pixel_count,
            out@ =~= spec_rgba(rgb@).take(4 * p),
        decreases pixel_count - p,
    {
        assert(3 * p + 2 < rgb@.len());
        out.push(rgb[3 * p]);
        out.push(rgb[3 * p + 1]);
        out.push(rgb[3 * p + 2]);
        out.push(255u8);
        assert(out@ =~= spec_rgba(rgb@).take(4 * (p + 1)));
        p = p + 1;
    }
    assert(final(out)@ =~= spec_rgba(rgb@));
}

} // verus!
