//! Streaming buffer pipeline for live broadcast audio: transport ingestion with
//! threshold-triggered dispatch, a one-shot startup primer, a bounded playback
//! queue with a silence-padding real-time read, and the shutdown sequence.
use vstd::prelude::*;

pub mod decode_steps;
pub mod error;
pub mod lifecycle;
pub mod payload;
pub mod pipeline;
pub mod playback;
pub mod primer;
pub mod transport;

verus! {

/// The fixed sample rate of the broadcast's audio, in samples per second per channel.
pub const YOUTUBE_TS_SAMPLE_RATE: u32 = 22050;

/// The fixed channel count: interleaved stereo.
pub const CHANNELS: u32 = 2;

/// The number of interleaved samples in `seconds` of audio.
pub fn samples_for_seconds(seconds: u32) -> (r: u64)
    ensures
        r == seconds as int * YOUTUBE_TS_SAMPLE_RATE as int * CHANNELS as int,
{
    let s = seconds as u64;
    assert(s * 22050 <= 0xffff_ffffu64 * 22050) by (nonlinear_arith)
        requires
            s <= 0xffff_ffffu64,
    ;
    let per_channel = s * YOUTUBE_TS_SAMPLE_RATE as u64;
    per_channel * CHANNELS as u64
}

} // verus!
