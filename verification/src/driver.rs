//! The driver entry-point table, as one injectable interface.
//!
//! The platform sound driver is not linked at build time: its entry points
//! are resolved dynamically, once, by a concrete adapter that implements
//! [`Driver`] and is handed to every stream. All driver calls in the
//! library go through this one interface; no component resolves symbols
//! itself. [`crate::sim::SimDriver`] implements it as a verified
//! in-memory device.
//!
//! Call convention (mirroring the driver's own): each method returns a
//! signed integer; a non-negative value is the result, a negative value is
//! the negated platform error code. Nothing is assumed of what an adapter
//! returns: every caller in the library checks the value it gets back.

use vstd::prelude::*;

verus! {

/// Direction of one hardware stream.
#[derive(Clone, Copy, Debug, PartialEq, Eq, Structural)]
pub enum Direction {
    Playback,
    Capture,
}

/// Search policy when a requested parameter value is unavailable:
/// the only supported mode substitutes the nearest available value.
#[derive(Clone, Copy, Debug, PartialEq, Eq, Structural)]
pub enum ValueOr {
    Nearest,
}

/// The resolved table of driver entry points for one stream.
///
/// One instance owns one driver-level stream and at most one live
/// hardware-parameter object (either the one being negotiated or a
/// current-parameter query); `hw_params_free` releases whichever is live.
pub trait Driver {
    /// Open the stream on the named device; entry point `snd_pcm_open`.
    fn open(&mut self, device: &str, dir: Direction) -> i64;

    /// Close the stream; entry point `snd_pcm_close`.
    fn close(&mut self) -> i64;

    /// Allocate a parameter object initialized to the full range the
    /// device reports as possible; entry point `snd_pcm_hw_params_any`.
    fn hw_params_any(&mut self) -> i64;

    /// Allocate a read-only parameter object describing the configuration
    /// actually in effect; entry point `snd_pcm_hw_params_current`.
    fn hw_params_current(&mut self) -> i64;

    /// Pin the channel count on the live parameter object; entry point
    /// `snd_pcm_hw_params_set_channels`.
    fn hw_set_channels(&mut self, channels: u32) -> i64;

    /// Constrain the sample rate, substituting the nearest available
    /// value; entry point `snd_pcm_hw_params_set_rate_near`.
    fn hw_set_rate_near(&mut self, rate: u32, policy: ValueOr) -> i64;

    /// Pin the sample format to 16-bit signed, native endianness; entry
    /// point `snd_pcm_hw_params_set_format`. The adapter chooses the
    /// platform's native byte order itself.
    fn hw_set_format_s16(&mut self) -> i64;

    /// Pin interleaved read/write access; entry point
    /// `snd_pcm_hw_params_set_access`.
    fn hw_set_access_interleaved(&mut self) -> i64;

    /// Commit the live parameter object to the stream; entry point
    /// `snd_pcm_hw_params`.
    fn hw_params_apply(&mut self) -> i64;

    /// Release the live parameter object; entry point
    /// `snd_pcm_hw_params_free`.
    fn hw_params_free(&mut self) -> i64;

    /// Read the negotiated channel count from the live parameter object;
    /// entry point `snd_pcm_hw_params_get_channels`.
    fn hw_get_channels(&mut self) -> i64;

    /// Read the negotiated sample rate from the live parameter object;
    /// entry point `snd_pcm_hw_params_get_rate`.
    fn hw_get_rate(&mut self) -> i64;

    /// Read the negotiated buffer size in frames from the live parameter
    /// object; entry point `snd_pcm_hw_params_get_buffer_size`.
    fn hw_get_buffer_size(&mut self) -> i64;

    /// Read the negotiated period size in frames from the live parameter
    /// object; entry point `snd_pcm_hw_params_get_period_size`.
    fn hw_get_period_size(&mut self) -> i64;

    /// Prepare the stream for I/O; entry point `snd_pcm_prepare`.
    fn prepare(&mut self) -> i64;

    /// Start the stream; entry point `snd_pcm_start`.
    fn start(&mut self) -> i64;

    /// Frames that can be written or read without blocking; entry points
    /// `snd_pcm_status` and `snd_pcm_status_get_avail`.
    fn avail(&mut self) -> i64;

    /// Write the first `frames` frames of `buf` (interleaved samples) to
    /// the stream, returning the number of frames actually written; entry
    /// point `snd_pcm_writei`.
    fn writei(&mut self, buf: &Vec<i16>, frames: usize) -> i64;

    /// Read up to one buffer of interleaved samples from the stream,
    /// returning the number of frames read; entry point `snd_pcm_readi`.
    fn readi(&mut self, buf: &mut Vec<i16>) -> i64;

    /// Recover the stream after an underrun or overrun; `err` is the
    /// platform error code being recovered from and `silent` asks the
    /// driver not to report the recovery; entry point `snd_pcm_recover`.
    fn recover(&mut self, err: i32, silent: bool) -> i64;
}

/// A caller-supplied sample source for playback: called once per sample
/// slot (channels times frames), in playback order.
pub trait Generator {
    /// Produce the next 16-bit signed sample.
    fn next_sample(&mut self) -> i16;
}

/// The hardware configuration actually in effect on a configured stream.
///
/// Obtained by a fresh query after the parameters are committed, because
/// nearest-value negotiation means the effective values may differ from
/// the requested ones; all downstream buffer sizing uses these values.
#[derive(Clone, Copy, Debug, PartialEq, Eq, Structural)]
pub struct CurrentParams {
    /// Effective channel count.
    pub channels: u32,
    /// Effective sample rate in Hz.
    pub rate: u32,
    /// Buffer size in frames.
    pub buffer_size: u64,
    /// Period size in frames.
    pub period_size: u64,
}

} // verus!
