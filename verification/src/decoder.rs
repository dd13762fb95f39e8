//! Decoded video frames as the pipeline passes them on.
use vstd::prelude::*;

verus! {

/// Pixel layout of a decoded frame.
#[derive(Clone, Copy, Debug, PartialEq, Eq, Structural)]
pub enum FrameFormat {
    RGB24,
    YUV420,
}

/// One decoded frame.
///
/// The presentation time in seconds is an `f64`; it is carried as its
/// IEEE-754 bit pattern (`f64::to_bits`), which nothing here interprets.
pub struct Frame {
    pub data: Vec<u8>,
    pub width: u32,
    pub height: u32,
    pub timestamp_bits: u64,
    pub format: FrameFormat,
}

} // verus!
