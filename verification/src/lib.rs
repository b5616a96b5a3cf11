//! Low-latency linear PCM playback and capture against a platform sound
//! driver whose entry points are resolved dynamically at process start.
//!
//! The driver is reached through one injected function table (the
//! [`driver::Driver`] trait): a platform adapter resolves the real entry
//! points once and implements it, and [`sim::SimDriver`] is a verified
//! in-memory device for exercising the stream logic without hardware.
//! Failed driver calls surface as structured [`error::Error`] values; the
//! buffer accounting and the underrun-recovery protocol live in
//! [`engine`] as pure, exactly specified logic.

pub mod driver;
pub mod engine;
pub mod error;
pub mod sim;

use vstd::prelude::*;

use crate::driver::{CurrentParams, Direction, Driver, Generator, ValueOr};
use crate::engine::{frames_needed, sample_buffer_len, write_step, WriteAction, WriteState};
use crate::error::{check_return, Error, ErrorKind, EINVAL, EPIPE};

verus! {

/// The sample rate the convenience streams request, in Hz.
pub const HZ_48K: u32 = 48_000;

/// Largest period size, in frames, the library accepts from a driver.
pub const MAX_PERIOD: u64 = 0x10_0000;

/// Open a stream on the named device, translating a failure into a
/// structured error that identifies the open call.
pub fn open_stream<D: Driver>(driver: &mut D, device: &str, dir: Direction) -> (r: Result<
    i64,
    Error,
>)
    ensures
        r matches Ok(n) ==> n >= 0,
        r matches Err(e) ==> e.func@ == "snd_pcm_open"@ && (e.kind matches ErrorKind::Sys(_)),
{
    let ret = driver.open(device, dir);
    check_return("snd_pcm_open", ret)
}

/// Prepare a playback stream for I/O; required before any write.
pub fn prepare<D: Driver>(driver: &mut D) -> (r: Result<i64, Error>)
    ensures
        r matches Ok(n) ==> n >= 0,
        r matches Err(e) ==> e.func@ == "snd_pcm_prepare"@ && (e.kind matches ErrorKind::Sys(_)),
{
    let ret = driver.prepare();
    check_return("snd_pcm_prepare", ret)
}

/// Start a capture stream; required before any read.
pub fn start<D: Driver>(driver: &mut D) -> (r: Result<i64, Error>)
    ensures
        r matches Ok(n) ==> n >= 0,
        r matches Err(e) ==> e.func@ == "snd_pcm_start"@ && (e.kind matches ErrorKind::Sys(_)),
{
    let ret = driver.start();
    check_return("snd_pcm_start", ret)
}

/// Frames that can be written or read without blocking, from a fresh
/// driver status query; used to compute the outstanding buffered frames.
pub fn available_frames<D: Driver>(driver: &mut D) -> (r: Result<i64, Error>)
    ensures
        r matches Ok(n) ==> n >= 0,
        r matches Err(e) ==> e.func@ == "snd_pcm_status"@ && (e.kind matches ErrorKind::Sys(_)),
{
    let ret = driver.avail();
    check_return("snd_pcm_status", ret)
}

/// Translate a failed driver return from inside a negotiation and release
/// the live parameter object: the release that must happen on this, as on
/// every, exit path.
fn fail_releasing<D: Driver>(driver: &mut D, func: &'static str, ret: i64) -> (e: Error)
    requires
        ret < 0,
    ensures
        e.func@ == func@,
        e.kind matches ErrorKind::Sys(_),
{
    let e = match check_return(func, ret) {
        Err(e) => e,
        Ok(_) => {
            proof {
                assert(false);
            }
            Error::new(func, EINVAL)
        },
    };
    driver.hw_params_free();
    e
}

/// The fixed-rate policy of the convenience streams: after nearest-value
/// negotiation the effective rate must still be exactly 48 kHz, else the
/// stream would play at the wrong speed.
fn rate_matches_policy(rate: i64) -> (ok: bool)
    ensures
        ok == (rate == HZ_48K as i64),
{
    rate == HZ_48K as i64
}

/// Negotiate the hardware configuration the convenience streams use:
/// mono or stereo, 48 kHz under the nearest-value policy, 16-bit native
/// endianness, interleaved access; then commit it to the stream.
///
/// A parameter object is allocated first, and on every exit path —
/// success, a refused constraint, or a refused commit — it is released
/// exactly once before the function returns. Any failure propagates as a
/// structured error naming the driver call that refused.
pub fn set_settings<D: Driver>(driver: &mut D, stereo: bool) -> (r: Result<(), Error>)
    ensures
        r matches Err(e) ==> (e.kind matches ErrorKind::Sys(_)) && (e.func@
            == "snd_pcm_hw_params_any"@ || e.func@ == "snd_pcm_hw_params_set_channels"@ || e.func@
            == "snd_pcm_hw_params_set_rate_near"@ || e.func@ == "snd_pcm_hw_params_get_rate"@
            || e.func@ == "snd_pcm_hw_params_set_format"@ || e.func@
            == "snd_pcm_hw_params_set_access"@ || e.func@ == "snd_pcm_hw_params"@ || e.func@
            == "snd_pcm_hw_params_free"@),
{
    let ret = driver.hw_params_any();
    if ret < 0 {
        // Allocation itself failed: no object exists, nothing to release.
        return Err(match check_return("snd_pcm_hw_params_any", ret) {
            Err(e) => e,
            Ok(_) => {
                proof {
                    assert(false);
                }
                Error::new("snd_pcm_hw_params_any", EINVAL)
            },
        });
    }
    let ret = driver.hw_set_channels(if stereo {
        2
    } else {
        1
    });
    if ret < 0 {
        return Err(fail_releasing(driver, "snd_pcm_hw_params_set_channels", ret));
    }
    let ret = driver.hw_set_rate_near(HZ_48K, ValueOr::Nearest);
    if ret < 0 {
        return Err(fail_releasing(driver, "snd_pcm_hw_params_set_rate_near", ret));
    }
    let rate = driver.hw_get_rate();
    if rate < 0 {
        return Err(fail_releasing(driver, "snd_pcm_hw_params_get_rate", rate));
    }
    if !rate_matches_policy(rate) {
        let e = Error::new("snd_pcm_hw_params_get_rate", EINVAL);
        driver.hw_params_free();
        return Err(e);
    }
    let ret = driver.hw_set_format_s16();
    if ret < 0 {
        return Err(fail_releasing(driver, "snd_pcm_hw_params_set_format", ret));
    }
    let ret = driver.hw_set_access_interleaved();
    if ret < 0 {
        return Err(fail_releasing(driver, "snd_pcm_hw_params_set_access", ret));
    }
    let ret = driver.hw_params_apply();
    if ret < 0 {
        return Err(fail_releasing(driver, "snd_pcm_hw_params", ret));
    }
    let ret = driver.hw_params_free();
    if ret < 0 {
        return Err(match check_return("snd_pcm_hw_params_free", ret) {
            Err(e) => e,
            Ok(_) => {
                proof {
                    assert(false);
                }
                Error::new("snd_pcm_hw_params_free", EINVAL)
            },
        });
    }
    Ok(())
}

/// Validate the values a current-parameter query reported, before
/// anything is sized by them: the exact acceptance ranges, with the
/// refusing field's query operation named in the error.
fn validate_current(channels: i64, rate: i64, buffer_size: i64, period_size: i64) -> (r: Result<
    CurrentParams,
    Error,
>)
    requires
        0 <= channels,
        0 <= rate,
        0 <= buffer_size,
        0 <= period_size,
    ensures
        !(1 <= channels <= 8) ==> (r matches Err(e) && e.func@
            == "snd_pcm_hw_params_get_channels"@ && e.kind == ErrorKind::Sys(EINVAL)),
        1 <= channels <= 8 && !(1 <= period_size <= MAX_PERIOD) ==> (r matches Err(e) && e.func@
            == "snd_pcm_hw_params_get_period_size"@ && e.kind == ErrorKind::Sys(EINVAL)),
        1 <= channels <= 8 && 1 <= period_size <= MAX_PERIOD && rate > u32::MAX ==> (r
            matches Err(e) && e.func@ == "snd_pcm_hw_params_get_rate"@ && e.kind == ErrorKind::Sys(
            EINVAL,
        )),
        1 <= channels <= 8 && 1 <= period_size <= MAX_PERIOD && rate <= u32::MAX ==> (r
            matches Ok(p) && p.channels == channels && p.rate == rate && p.buffer_size
            == buffer_size && p.period_size == period_size),
{
    if channels < 1 || channels > 8 {
        return Err(Error::new("snd_pcm_hw_params_get_channels", EINVAL));
    }
    if period_size < 1 || period_size > MAX_PERIOD as i64 {
        return Err(Error::new("snd_pcm_hw_params_get_period_size", EINVAL));
    }
    if rate > u32::MAX as i64 {
        return Err(Error::new("snd_pcm_hw_params_get_rate", EINVAL));
    }
    Ok(
        CurrentParams {
            channels: channels as u32,
            rate: rate as u32,
            buffer_size: buffer_size as u64,
            period_size: period_size as u64,
        },
    )
}

/// Query the configuration actually in effect on a configured stream: a
/// fresh, read-only parameter object is allocated, read, and released on
/// every exit path. The effective values — not the requested ones — are
/// what all downstream buffer sizing uses, after validation by
/// [`validate_current`].
pub fn query_current_params<D: Driver>(driver: &mut D) -> (r: Result<CurrentParams, Error>)
    ensures
        r matches Ok(p) ==> 1 <= p.channels <= 8 && 1 <= p.period_size <= MAX_PERIOD,
        r matches Err(e) ==> (e.kind matches ErrorKind::Sys(_)) && (e.func@
            == "snd_pcm_hw_params_current"@ || e.func@ == "snd_pcm_hw_params_get_channels"@
            || e.func@ == "snd_pcm_hw_params_get_rate"@ || e.func@
            == "snd_pcm_hw_params_get_buffer_size"@ || e.func@
            == "snd_pcm_hw_params_get_period_size"@ || e.func@ == "snd_pcm_hw_params_free"@),
{
    let ret = driver.hw_params_current();
    if ret < 0 {
        return Err(match check_return("snd_pcm_hw_params_current", ret) {
            Err(e) => e,
            Ok(_) => {
                proof {
                    assert(false);
                }
                Error::new("snd_pcm_hw_params_current", EINVAL)
            },
        });
    }
    let channels = driver.hw_get_channels();
    if channels < 0 {
        return Err(fail_releasing(driver, "snd_pcm_hw_params_get_channels", channels));
    }
    let rate = driver.hw_get_rate();
    if rate < 0 {
        return Err(fail_releasing(driver, "snd_pcm_hw_params_get_rate", rate));
    }
    let buffer_size = driver.hw_get_buffer_size();
    if buffer_size < 0 {
        return Err(fail_releasing(driver, "snd_pcm_hw_params_get_buffer_size", buffer_size));
    }
    let period_size = driver.hw_get_period_size();
    if period_size < 0 {
        return Err(fail_releasing(driver, "snd_pcm_hw_params_get_period_size", period_size));
    }
    let ret = driver.hw_params_free();
    if ret < 0 {
        return Err(match check_return("snd_pcm_hw_params_free", ret) {
            Err(e) => e,
            Ok(_) => {
                proof {
                    assert(false);
                }
                Error::new("snd_pcm_hw_params_free", EINVAL)
            },
        });
    }
    validate_current(channels, rate, buffer_size, period_size)
}

/// One open playback stream, its scratch sample buffer, and the injected
/// driver table it exclusively owns.
///
/// The stream is closed by [`Speaker::close`], which consumes the value:
/// after the single close, no operation on the stream can even be
/// written.
pub struct Speaker<D: Driver> {
    /// The injected driver table; owns the open driver-level stream.
    pub driver: D,
    /// Effective period size in frames.
    pub period: u64,
    /// Effective channel count.
    pub channels: u32,
    /// Target latency in frames: twice the period, so at least one period
    /// of look-ahead stays buffered.
    pub target: u64,
    /// Scratch buffer of interleaved samples, sized once to twice the
    /// period times the channel count and reused across updates.
    pub buffer: Vec<i16>,
    /// A double underrun was hit: the stream performs no further writes.
    pub fatal: bool,
}

impl<D: Driver> Speaker<D> {
    /// Well-formedness: the buffer is sized from the effective values and
    /// the target latency is twice the period.
    pub open spec fn wf(&self) -> bool {
        &&& 1 <= self.channels <= 8
        &&& 1 <= self.period <= MAX_PERIOD
        &&& self.target == 2 * self.period
        &&& self.buffer@.len() == 2 * self.period * self.channels
    }

    /// Connect to a new speaker on the default output device, negotiating
    /// mono or stereo 48 kHz 16-bit interleaved playback, and size the
    /// sample buffer from the effective configuration.
    ///
    /// Only speaker 0 exists. On any driver failure the stream handle is
    /// closed before this returns.
    pub fn new(speaker: u16, stereo: bool, driver: D) -> (r: Option<Speaker<D>>)
        ensures
            speaker != 0 ==> r is None,
            r matches Some(s) ==> s.wf() && !s.fatal && (forall|i: int|
                0 <= i < s.buffer@.len() ==> s.buffer@[i] == 0i16),
    {
        if speaker != 0 {
            return None;
        }
        let mut driver = driver;
        match open_stream(&mut driver, "default", Direction::Playback) {
            Err(_) => {
                return None;
            },
            Ok(_) => {},
        }
        match set_settings(&mut driver, stereo) {
            Err(_) => {
                driver.close();
                return None;
            },
            Ok(_) => {},
        }
        let params = match query_current_params(&mut driver) {
            Err(_) => {
                driver.close();
                return None;
            },
            Ok(p) => p,
        };
        let period = params.period_size;
        let channels = params.channels;
        proof {
            assert(period * channels <= 0x10_0000 * 8) by (nonlinear_arith)
                requires
                    1 <= period <= 0x10_0000,
                    1 <= channels <= 8,
            ;
        }
        let len = sample_buffer_len(period as usize, channels as usize);
        let buffer: Vec<i16> = vec![0i16; len];
        match prepare(&mut driver) {
            Err(_) => {
                driver.close();
                return None;
            },
            Ok(_) => {},
        }
        Some(
            Speaker {
                driver,
                period,
                channels,
                target: 2 * period,
                buffer,
                fatal: false,
            },
        )
    }

    /// Get the number of connected speakers.
    pub fn num(&self) -> (n: u16)
        ensures
            n == 1,
    {
        1
    }

    /// Frames the hardware has not yet consumed, computed from a fresh
    /// driver status query; never more than the stream's frame capacity.
    pub fn left(&mut self) -> (r: Result<u64, Error>)
        requires
            old(self).wf(),
        ensures
            final(self).wf(),
            final(self).period == old(self).period,
            final(self).channels == old(self).channels,
            final(self).target == old(self).target,
            final(self).buffer@ == old(self).buffer@,
            final(self).fatal == old(self).fatal,
            r matches Ok(n) ==> n <= final(self).target,
            r matches Err(e) ==> e.func@ == "snd_pcm_status"@ && (e.kind matches ErrorKind::Sys(
                _,
            )),
    {
        let avail = match available_frames(&mut self.driver) {
            Err(e) => {
                return Err(e);
            },
            Ok(n) => n,
        };
        Ok(engine::outstanding_frames(self.target, avail as u64))
    }

    /// Generate and push data to the speaker output: query how many
    /// frames are outstanding, refill the buffer up to the target with
    /// one generated sample per slot, and issue the write, recovering
    /// from a single underrun as the write protocol prescribes. Call this
    /// in a loop.
    ///
    /// After a double underrun the stream is fatal: every further update
    /// returns the underrun error without touching the driver.
    pub fn update<G: Generator>(&mut self, generator: &mut G) -> (r: Result<(), Error>)
        requires
            old(self).wf(),
        ensures
            final(self).wf(),
            final(self).period == old(self).period,
            final(self).channels == old(self).channels,
            final(self).target == old(self).target,
            old(self).fatal ==> (r matches Err(_)) && final(self).fatal,
            r matches Ok(_) ==> !final(self).fatal,
            !old(self).fatal && final(self).fatal ==> (r matches Err(e) && e.kind
                matches ErrorKind::Sys(_)),
            r matches Err(e) ==> (e.func@ == "snd_pcm_status"@ || e.func@ == "snd_pcm_writei"@
                || e.func@ == "snd_pcm_recover"@),
    {
        if self.fatal {
            return Err(Error::new("snd_pcm_writei", EPIPE));
        }
        let left = match self.left() {
            Err(e) => {
                return Err(e);
            },
            Ok(l) => l,
        };
        let needed = frames_needed(self.target, left);
        let cap = self.buffer.len();
        proof {
            assert(needed * self.channels <= 2 * self.period * self.channels) by (nonlinear_arith)
                requires
                    needed <= 2 * self.period,
                    1 <= self.channels,
            ;
            assert(needed * self.channels <= cap);
        }
        let samples = (needed as usize) * (self.channels as usize);
        let mut i: usize = 0;
        while i < samples
            invariant
                i <= samples,
                samples <= self.buffer@.len(),
                self.wf(),
                !self.fatal,
                self.period == old(self).period,
                self.channels == old(self).channels,
                self.target == old(self).target,
                needed * self.channels <= self.buffer@.len(),
                needed <= self.target,
            decreases samples - i,
        {
            let v = generator.next_sample();
            self.buffer[i] = v;
            i += 1;
        }
        self.push(needed)
    }

    /// Push `frames` frames of the scratch buffer to the speaker output,
    /// running the underrun protocol: a short or failed write triggers
    /// exactly one silent recovery and one retried identical write; a
    /// short retry is a fatal double underrun and the stream stops.
    fn push(&mut self, frames: u64) -> (r: Result<(), Error>)
        requires
            old(self).wf(),
            !old(self).fatal,
            frames * old(self).channels <= old(self).buffer@.len(),
        ensures
            final(self).wf(),
            final(self).period == old(self).period,
            final(self).channels == old(self).channels,
            final(self).target == old(self).target,
            final(self).buffer@ == old(self).buffer@,
            r matches Ok(_) ==> !final(self).fatal,
            final(self).fatal ==> (r matches Err(e) && e.kind matches ErrorKind::Sys(_)),
            r matches Err(e) ==> (e.func@ == "snd_pcm_writei"@ || e.func@ == "snd_pcm_recover"@),
    {
        let w = self.driver.writei(&self.buffer, frames as usize);
        let written: u64 = if w < 0 {
            0
        } else {
            w as u64
        };
        let (state, action) = write_step(WriteState::Normal, frames, written);
        match action {
            WriteAction::Done => Ok(()),
            WriteAction::RecoverAndRetry => {
                let rr = self.driver.recover(EPIPE, true);
                if rr < 0 {
                    // Recovery itself failed: surface it as fatal.
                    self.fatal = true;
                    return Err(match check_return("snd_pcm_recover", rr) {
                        Err(e) => e,
                        Ok(_) => {
                            proof {
                                assert(false);
                            }
                            Error::new("snd_pcm_recover", EINVAL)
                        },
                    });
                }
                let w2 = self.driver.writei(&self.buffer, frames as usize);
                let written2: u64 = if w2 < 0 {
                    0
                } else {
                    w2 as u64
                };
                let (_, action2) = write_step(state, frames, written2);
                match action2 {
                    WriteAction::Done => Ok(()),
                    _ => {
                        // Double underrun: stop rather than risk an
                        // inconsistent stream state.
                        self.fatal = true;
                        Err(Error::new("snd_pcm_writei", EPIPE))
                    },
                }
            },
            WriteAction::Escalate => {
                proof {
                    assert(false);
                }
                Err(Error::new("snd_pcm_writei", EPIPE))
            },
        }
    }

    /// Close the stream. Consumes the speaker — the single close the
    /// lifecycle allows — and hands the driver table back.
    pub fn close(self) -> (d: D) {
        let mut driver = self.driver;
        driver.close();
        driver
    }
}

/// One open capture stream and the injected driver table it exclusively
/// owns. Closed by [`Microphone::close`], which consumes the value.
pub struct Microphone<D: Driver> {
    /// The injected driver table; owns the open driver-level stream.
    pub pcm: D,
    /// Effective channel count of the capture stream.
    pub channels: u32,
}

impl<D: Driver> Microphone<D> {
    /// Well-formedness: the channel count came from a validated
    /// current-parameter query.
    pub open spec fn wf(&self) -> bool {
        1 <= self.channels <= 8
    }

    /// Create a new microphone on the default capture device, negotiating
    /// mono or stereo 48 kHz 16-bit interleaved capture, record the
    /// effective channel count, and start the stream. Only microphone 0
    /// exists. On any driver failure the stream handle is closed before
    /// this returns.
    pub fn new(microphone: u16, stereo: bool, driver: D) -> (r: Option<Microphone<D>>)
        ensures
            microphone != 0 ==> r is None,
            r matches Some(m) ==> m.wf(),
    {
        if microphone != 0 {
            return None;
        }
        let mut driver = driver;
        match open_stream(&mut driver, "plughw:0,0", Direction::Capture) {
            Err(_) => {
                return None;
            },
            Ok(_) => {},
        }
        match set_settings(&mut driver, stereo) {
            Err(_) => {
                driver.close();
                return None;
            },
            Ok(_) => {},
        }
        let params = match query_current_params(&mut driver) {
            Err(_) => {
                driver.close();
                return None;
            },
            Ok(p) => p,
        };
        match start(&mut driver) {
            Err(_) => {
                driver.close();
                return None;
            },
            Ok(_) => {},
        }
        Some(Microphone { pcm: driver, channels: params.channels })
    }

    /// Get the number of connected microphones.
    pub fn num(&self) -> (n: u16)
        ensures
            n == 1,
    {
        1
    }

    /// Pull data from the microphone input: one read call per update,
    /// with no recovery or retry — a short read is not a fault; the
    /// caller decides how to handle partial data. The frame count comes
    /// from [`engine::read_result_frames`], whose contract states the
    /// by-design degradation: a failed read is zero frames, and a
    /// successful count is clamped so that, at the stream's channel
    /// count, it never exceeds the buffer's sample capacity.
    pub fn update(&mut self, buffer: &mut Vec<i16>) -> (r: usize)
        requires
            old(self).wf(),
        ensures
            final(self).wf(),
            final(self).channels == old(self).channels,
            r * final(self).channels <= final(buffer)@.len(),
    {
        let ret = self.pcm.readi(buffer);
        engine::read_result_frames(ret, buffer.len(), self.channels)
    }

    /// Close the stream. Consumes the microphone — the single close the
    /// lifecycle allows — and hands the driver table back.
    pub fn close(self) -> (d: D) {
        let mut driver = self.pcm;
        driver.close();
        driver
    }
}

} // verus!
