//! A verified in-memory sound device.
//!
//! `SimDriver` implements the [`crate::driver::Driver`] table as a healthy
//! simulated device: it models one stream, one live hardware-parameter
//! object, and a fill level for the stream buffer, and it counts the
//! allocation, release, write, recovery and close calls it receives so a
//! caller can observe the stream protocols from outside. Every method has
//! an exact contract; the negotiation laws at the end are proved from the
//! same definitions those contracts use.

use vstd::prelude::*;

use crate::driver::{Direction, Driver, ValueOr};
use crate::error::{Error, ErrorKind, EBADFD, EBUSY, EINVAL, ENOENT, EPIPE};

verus! {

/// Lowest sample rate the simulated device supports, in Hz.
pub const SIM_MIN_RATE: u32 = 8000;

/// Highest sample rate the simulated device supports, in Hz.
pub const SIM_MAX_RATE: u32 = 192000;

/// Period size of the simulated device, in frames.
pub const SIM_PERIOD: u64 = 1024;

/// Equality of two string slices as equality of their character
/// sequences.
fn str_eq(a: &str, b: &str) -> (r: bool)
    ensures
        r == (a@ == b@),
{
    let sa = a.to_owned();
    let sb = b.to_owned();
    sa == sb
}

/// A counter that sticks at its maximum instead of wrapping.
pub open spec fn spec_bump(c: u64) -> u64 {
    if c < u64::MAX {
        (c + 1) as u64
    } else {
        c
    }
}

fn bump(c: u64) -> (r: u64)
    ensures
        r == spec_bump(c),
{
    if c < u64::MAX {
        c + 1
    } else {
        c
    }
}

/// The simulated device's state.
#[derive(Clone, Copy, Debug)]
pub struct SimDriver {
    /// A stream is open.
    pub opened: bool,
    /// Direction of the open stream.
    pub dir: Direction,
    /// A hardware-parameter object is live (negotiation or current query).
    pub hw_live: bool,
    /// A configuration has been committed to the stream.
    pub applied: bool,
    /// The stream is prepared for I/O.
    pub prepared: bool,
    /// The stream is started.
    pub started: bool,
    /// Negotiated channel count.
    pub channels: u32,
    /// Negotiated sample rate in Hz.
    pub rate: u32,
    /// The sample format has been pinned.
    pub format_set: bool,
    /// Interleaved access has been pinned.
    pub access_set: bool,
    /// Period size in frames.
    pub period: u64,
    /// Stream buffer size in frames.
    pub buffer: u64,
    /// Frames queued in the stream buffer and not yet consumed.
    pub fill: u64,
    /// Parameter objects allocated so far.
    pub allocs: u64,
    /// Parameter objects released so far.
    pub frees: u64,
    /// Recovery calls so far.
    pub recovers: u64,
    /// Write calls so far.
    pub writes: u64,
    /// Close calls so far.
    pub closes: u64,
}

impl SimDriver {
    /// The state invariant every reachable simulated device satisfies.
    pub open spec fn wf(&self) -> bool {
        &&& self.period == SIM_PERIOD
        &&& self.buffer == 2 * SIM_PERIOD
        &&& self.fill <= self.buffer
        &&& 1 <= self.channels <= 2
        &&& SIM_MIN_RATE <= self.rate <= SIM_MAX_RATE
    }

    /// A fresh, healthy device with nothing open.
    pub fn new() -> (d: SimDriver)
        ensures
            d.wf(),
            !d.opened,
            !d.hw_live,
            !d.applied,
            !d.prepared,
            !d.started,
            d.channels == 2,
            d.rate == 48000,
            d.fill == 0,
            d.allocs == 0,
            d.frees == 0,
            d.recovers == 0,
            d.writes == 0,
            d.closes == 0,
    {
        SimDriver {
            opened: false,
            dir: Direction::Playback,
            hw_live: false,
            applied: false,
            prepared: false,
            started: false,
            channels: 2,
            rate: 48000,
            format_set: false,
            access_set: false,
            period: SIM_PERIOD,
            buffer: 2 * SIM_PERIOD,
            fill: 0,
            allocs: 0,
            frees: 0,
            recovers: 0,
            writes: 0,
            closes: 0,
        }
    }

    /// The device names the simulated machine knows.
    pub open spec fn spec_known_device(device: Seq<char>) -> bool {
        device == "default"@ || device == "plughw:0,0"@
    }
}

/// Free frame space of the stream buffer.
pub open spec fn spec_space(s: SimDriver) -> int {
    if s.fill <= s.buffer {
        s.buffer - s.fill
    } else {
        0
    }
}

/// The stream accepts writes in this state.
pub open spec fn spec_can_write(s: SimDriver) -> bool {
    s.opened && s.applied && s.prepared && 1 <= s.channels <= 2
}

/// Frames the device accepts from a write of `frames` frames: as many as
/// fit in the free space, clamped to what a signed return can carry.
pub open spec fn spec_accept(s: SimDriver, frames: int) -> int {
    let a = if frames < spec_space(s) {
        frames
    } else {
        spec_space(s)
    };
    if a > 0x7fff_ffff_ffff_ffff {
        0x7fff_ffff_ffff_ffff
    } else {
        a
    }
}

impl Driver for SimDriver {
    fn open(&mut self, device: &str, dir: Direction) -> (r: i64)
        ensures
            old(self).opened ==> r == -(EBUSY as i64) && *final(self) == *old(self),
            !old(self).opened && SimDriver::spec_known_device(device@) ==> r == 0 && *final(self)
                == (SimDriver { opened: true, dir, ..*old(self) }),
            !old(self).opened && !SimDriver::spec_known_device(device@) ==> r == -(ENOENT as i64)
                && *final(self) == *old(self),
    {
        if self.opened {
            -(EBUSY as i64)
        } else if str_eq(device, "default") || str_eq(device, "plughw:0,0") {
            self.opened = true;
            self.dir = dir;
            0
        } else {
            -(ENOENT as i64)
        }
    }

    fn close(&mut self) -> (r: i64)
        ensures
            old(self).opened ==> r == 0 && *final(self) == (SimDriver {
                opened: false,
                applied: false,
                prepared: false,
                started: false,
                closes: spec_bump(old(self).closes),
                ..*old(self)
            }),
            !old(self).opened ==> r == -(EBADFD as i64) && *final(self) == (SimDriver {
                closes: spec_bump(old(self).closes),
                ..*old(self)
            }),
    {
        self.closes = bump(self.closes);
        if self.opened {
            self.opened = false;
            self.applied = false;
            self.prepared = false;
            self.started = false;
            0
        } else {
            -(EBADFD as i64)
        }
    }

    fn hw_params_any(&mut self) -> (r: i64)
        ensures
            !old(self).opened ==> r == -(EBADFD as i64) && *final(self) == *old(self),
            old(self).opened && old(self).hw_live ==> r == -(EBUSY as i64) && *final(self) == *old(self),
            old(self).opened && !old(self).hw_live ==> r == 0 && *final(self) == (SimDriver {
                hw_live: true,
                channels: 2,
                rate: 48000,
                format_set: false,
                access_set: false,
                allocs: spec_bump(old(self).allocs),
                ..*old(self)
            }),
    {
        if !self.opened {
            -(EBADFD as i64)
        } else if self.hw_live {
            -(EBUSY as i64)
        } else {
            self.hw_live = true;
            self.channels = 2;
            self.rate = 48000;
            self.format_set = false;
            self.access_set = false;
            self.allocs = bump(self.allocs);
            0
        }
    }

    fn hw_params_current(&mut self) -> (r: i64)
        ensures
            !(old(self).opened && old(self).applied) ==> r == -(EBADFD as i64) && *final(self)
                == *old(self),
            old(self).opened && old(self).applied && old(self).hw_live ==> r == -(EBUSY as i64)
                && *final(self) == *old(self),
            old(self).opened && old(self).applied && !old(self).hw_live ==> r == 0 && *final(self)
                == (SimDriver { hw_live: true, allocs: spec_bump(old(self).allocs), ..*old(self) }),
    {
        if !(self.opened && self.applied) {
            -(EBADFD as i64)
        } else if self.hw_live {
            -(EBUSY as i64)
        } else {
            self.hw_live = true;
            self.allocs = bump(self.allocs);
            0
        }
    }

    fn hw_set_channels(&mut self, channels: u32) -> (r: i64)
        ensures
            !old(self).hw_live ==> r == -(EBADFD as i64) && *final(self) == *old(self),
            old(self).hw_live && channels_supported(channels) ==> r == 0 && *final(self)
                == (SimDriver { channels, ..*old(self) }),
            old(self).hw_live && !channels_supported(channels) ==> r == -(EINVAL as i64) && *final(self) == *old(self),
    {
        if !self.hw_live {
            -(EBADFD as i64)
        } else if 1 <= channels && channels <= 2 {
            self.channels = channels;
            0
        } else {
            -(EINVAL as i64)
        }
    }

    fn hw_set_rate_near(&mut self, rate: u32, policy: ValueOr) -> (r: i64)
        ensures
            !old(self).hw_live ==> r == -(EBADFD as i64) && *final(self) == *old(self),
            old(self).hw_live ==> r == 0 && *final(self) == (SimDriver {
                rate: spec_nearest_rate(rate),
                ..*old(self)
            }),
    {
        if !self.hw_live {
            -(EBADFD as i64)
        } else {
            self.rate = if rate < SIM_MIN_RATE {
                SIM_MIN_RATE
            } else if rate > SIM_MAX_RATE {
                SIM_MAX_RATE
            } else {
                rate
            };
            0
        }
    }

    fn hw_set_format_s16(&mut self) -> (r: i64)
        ensures
            !old(self).hw_live ==> r == -(EBADFD as i64) && *final(self) == *old(self),
            old(self).hw_live ==> r == 0 && *final(self) == (SimDriver {
                format_set: true,
                ..*old(self)
            }),
    {
        if !self.hw_live {
            -(EBADFD as i64)
        } else {
            self.format_set = true;
            0
        }
    }

    fn hw_set_access_interleaved(&mut self) -> (r: i64)
        ensures
            !old(self).hw_live ==> r == -(EBADFD as i64) && *final(self) == *old(self),
            old(self).hw_live ==> r == 0 && *final(self) == (SimDriver {
                access_set: true,
                ..*old(self)
            }),
    {
        if !self.hw_live {
            -(EBADFD as i64)
        } else {
            self.access_set = true;
            0
        }
    }

    fn hw_params_apply(&mut self) -> (r: i64)
        ensures
            !(old(self).opened && old(self).hw_live) ==> r == -(EBADFD as i64) && *final(self)
                == *old(self),
            old(self).opened && old(self).hw_live ==> r == 0 && *final(self) == (SimDriver {
                applied: true,
                prepared: false,
                started: false,
                fill: 0,
                ..*old(self)
            }),
    {
        if !(self.opened && self.hw_live) {
            -(EBADFD as i64)
        } else {
            self.applied = true;
            self.prepared = false;
            self.started = false;
            self.fill = 0;
            0
        }
    }

    fn hw_params_free(&mut self) -> (r: i64)
        ensures
            !old(self).hw_live ==> r == -(EBADFD as i64) && *final(self) == *old(self),
            old(self).hw_live ==> r == 0 && *final(self) == (SimDriver {
                hw_live: false,
                frees: spec_bump(old(self).frees),
                ..*old(self)
            }),
    {
        if !self.hw_live {
            -(EBADFD as i64)
        } else {
            self.hw_live = false;
            self.frees = bump(self.frees);
            0
        }
    }

    fn hw_get_channels(&mut self) -> (r: i64)
        ensures
            *final(self) == *old(self),
            !old(self).hw_live ==> r == -(EBADFD as i64),
            old(self).hw_live ==> r == old(self).channels as i64,
    {
        if !self.hw_live {
            -(EBADFD as i64)
        } else {
            self.channels as i64
        }
    }

    fn hw_get_rate(&mut self) -> (r: i64)
        ensures
            *final(self) == *old(self),
            !old(self).hw_live ==> r == -(EBADFD as i64),
            old(self).hw_live ==> r == old(self).rate as i64,
    {
        if !self.hw_live {
            -(EBADFD as i64)
        } else {
            self.rate as i64
        }
    }

    fn hw_get_buffer_size(&mut self) -> (r: i64)
        ensures
            *final(self) == *old(self),
            !old(self).hw_live ==> r == -(EBADFD as i64),
            old(self).hw_live ==> r == old(self).buffer as i64 || r == 0x7fff_ffff_ffff_ffff,
            old(self).hw_live && old(self).buffer <= 0x7fff_ffff_ffff_ffff ==> r == old(self).buffer as i64,
    {
        if !self.hw_live {
            -(EBADFD as i64)
        } else if self.buffer <= 0x7fff_ffff_ffff_ffffu64 {
            self.buffer as i64
        } else {
            0x7fff_ffff_ffff_ffff
        }
    }

    fn hw_get_period_size(&mut self) -> (r: i64)
        ensures
            *final(self) == *old(self),
            !old(self).hw_live ==> r == -(EBADFD as i64),
            old(self).hw_live && old(self).period <= 0x7fff_ffff_ffff_ffff ==> r == old(self).period as i64,
    {
        if !self.hw_live {
            -(EBADFD as i64)
        } else if self.period <= 0x7fff_ffff_ffff_ffffu64 {
            self.period as i64
        } else {
            0x7fff_ffff_ffff_ffff
        }
    }

    fn prepare(&mut self) -> (r: i64)
        ensures
            !(old(self).opened && old(self).applied) ==> r == -(EBADFD as i64) && *final(self)
                == *old(self),
            old(self).opened && old(self).applied ==> r == 0 && *final(self) == (SimDriver {
                prepared: true,
                ..*old(self)
            }),
    {
        if !(self.opened && self.applied) {
            -(EBADFD as i64)
        } else {
            self.prepared = true;
            0
        }
    }

    fn start(&mut self) -> (r: i64)
        ensures
            !(old(self).opened && old(self).applied) ==> r == -(EBADFD as i64) && *final(self)
                == *old(self),
            old(self).opened && old(self).applied ==> r == 0 && *final(self) == (SimDriver {
                started: true,
                ..*old(self)
            }),
    {
        if !(self.opened && self.applied) {
            -(EBADFD as i64)
        } else {
            self.started = true;
            0
        }
    }

    fn avail(&mut self) -> (r: i64)
        ensures
            *final(self) == *old(self),
            !(old(self).opened && old(self).applied) ==> r == -(EBADFD as i64),
            old(self).opened && old(self).applied && spec_space(*old(self))
                <= 0x7fff_ffff_ffff_ffff ==> r == spec_space(*old(self)),
    {
        if !(self.opened && self.applied) {
            -(EBADFD as i64)
        } else {
            let space: u64 = if self.fill <= self.buffer {
                self.buffer - self.fill
            } else {
                0
            };
            if space <= 0x7fff_ffff_ffff_ffffu64 {
                space as i64
            } else {
                0x7fff_ffff_ffff_ffff
            }
        }
    }

    fn writei(&mut self, buf: &Vec<i16>, frames: usize) -> (r: i64)
        ensures
            !spec_can_write(*old(self)) ==> r == -(EPIPE as i64) && *final(self) == (SimDriver {
                writes: spec_bump(old(self).writes),
                ..*old(self)
            }),
            spec_can_write(*old(self)) && buf@.len() < frames * old(self).channels ==> r
                == -(EINVAL as i64) && *final(self) == (SimDriver {
                writes: spec_bump(old(self).writes),
                ..*old(self)
            }),
            spec_can_write(*old(self)) && buf@.len() >= frames * old(self).channels ==> r
                == spec_accept(*old(self), frames as int) && *final(self) == (SimDriver {
                writes: spec_bump(old(self).writes),
                fill: (old(self).fill + spec_accept(*old(self), frames as int)) as u64,
                ..*old(self)
            }),
    {
        self.writes = bump(self.writes);
        if !(self.opened && self.applied && self.prepared) || self.channels < 1 || self.channels
            > 2 {
            return -(EPIPE as i64);
        }
        let ch = self.channels as usize;
        if buf.len() / ch < frames {
            proof {
                let len = buf@.len() as int;
                let c = self.channels as int;
                assert(len < frames * c) by (nonlinear_arith)
                    requires
                        len / c < frames,
                        1 <= c <= 2,
                ;
            }
            return -(EINVAL as i64);
        }
        proof {
            let len = buf@.len() as int;
            let c = self.channels as int;
            assert(len >= frames * c) by (nonlinear_arith)
                requires
                    len / c >= frames,
                    1 <= c <= 2,
            ;
        }
        let space: u64 = if self.fill <= self.buffer {
            self.buffer - self.fill
        } else {
            0
        };
        let req: u64 = if (frames as u64) < space {
            frames as u64
        } else {
            space
        };
        let accept: u64 = if req > 0x7fff_ffff_ffff_ffffu64 {
            0x7fff_ffff_ffff_ffffu64
        } else {
            req
        };
        self.fill = self.fill + accept;
        accept as i64
    }

    fn readi(&mut self, buf: &mut Vec<i16>) -> (r: i64)
        ensures
            final(buf)@ == old(buf)@,
            *final(self) == *old(self),
            !(old(self).opened && old(self).started) ==> r == -(EBADFD as i64),
            old(self).opened && old(self).started ==> r == 0,
    {
        if !(self.opened && self.started) {
            -(EBADFD as i64)
        } else {
            0
        }
    }

    fn recover(&mut self, err: i32, silent: bool) -> (r: i64)
        ensures
            !old(self).opened ==> r == -(EBADFD as i64) && *final(self) == (SimDriver {
                recovers: spec_bump(old(self).recovers),
                ..*old(self)
            }),
            old(self).opened ==> r == 0 && *final(self) == (SimDriver {
                fill: 0,
                prepared: true,
                recovers: spec_bump(old(self).recovers),
                ..*old(self)
            }),
    {
        self.recovers = bump(self.recovers);
        if !self.opened {
            -(EBADFD as i64)
        } else {
            self.fill = 0;
            self.prepared = true;
            0
        }
    }
}

/// The channel counts the simulated device supports.
pub open spec fn channels_supported(ch: u32) -> bool {
    1 <= ch <= 2
}

/// The sample rates the simulated device supports.
pub open spec fn rate_supported(r: u32) -> bool {
    SIM_MIN_RATE <= r <= SIM_MAX_RATE
}

/// The rate the simulated device substitutes for a request under the
/// nearest-value search policy.
pub open spec fn spec_nearest_rate(r: u32) -> u32 {
    if r < SIM_MIN_RATE {
        SIM_MIN_RATE
    } else if r > SIM_MAX_RATE {
        SIM_MAX_RATE
    } else {
        r
    }
}

/// Distance between two rates.
pub open spec fn rate_distance(a: u32, b: u32) -> int {
    if a >= b {
        a - b
    } else {
        b - a
    }
}

/// Law (nearest-value negotiation): the substituted rate is supported,
/// a supported request is kept exactly, and no supported rate lies
/// closer to the request than the substituted one.
pub proof fn lemma_nearest_rate(req: u32)
    ensures
        rate_supported(spec_nearest_rate(req)),
        rate_supported(req) ==> spec_nearest_rate(req) == req,
        forall|s: u32|
            rate_supported(s) ==> rate_distance(spec_nearest_rate(req), req) <= rate_distance(
                s,
                req,
            ),
{
}

/// What the simulated device negotiates for a request: the exact channel
/// count when it is supported (with the nearest supported rate), and a
/// refusal otherwise.
pub open spec fn sim_negotiates(channels: u32, rate: u32) -> Option<(u32, u32)> {
    if channels_supported(channels) {
        Some((channels, spec_nearest_rate(rate)))
    } else {
        None
    }
}

/// The negotiation sequence — allocate, constrain, commit, release — run
/// against the simulated device, with the negotiation laws as its
/// contract: every supported channel count negotiates and commits, the
/// effective values are the requested channel count and the nearest
/// supported rate, and on both the success and the failure path the
/// parameter object is released exactly once.
pub fn negotiate(d: &mut SimDriver, channels: u32, rate: u32) -> (r: Result<(u32, u32), Error>)
    requires
        old(d).opened,
        !old(d).hw_live,
    ensures
        final(d).allocs == spec_bump(old(d).allocs),
        final(d).frees == spec_bump(old(d).frees),
        !final(d).hw_live,
        channels_supported(channels) ==> (r matches Ok(p) && p.0 == channels && p.1
            == spec_nearest_rate(rate) && final(d).applied),
        !channels_supported(channels) ==> (r matches Err(e) && e.func@
            == "snd_pcm_hw_params_set_channels"@ && e.kind == ErrorKind::Sys(EINVAL)
            && final(d).applied == old(d).applied),
{
    let ret = d.hw_params_any();
    assert(ret == 0);
    let ret = d.hw_set_channels(channels);
    if ret < 0 {
        let e = match crate::error::check_return("snd_pcm_hw_params_set_channels", ret) {
            Err(e) => e,
            Ok(_) => {
                proof {
                    assert(false);
                }
                Error::new("snd_pcm_hw_params_set_channels", EINVAL)
            },
        };
        d.hw_params_free();
        return Err(e);
    }
    let ret = d.hw_set_rate_near(rate, ValueOr::Nearest);
    assert(ret == 0);
    let ret = d.hw_set_format_s16();
    assert(ret == 0);
    let ret = d.hw_set_access_interleaved();
    assert(ret == 0);
    let ret = d.hw_params_apply();
    assert(ret == 0);
    let got_channels = d.hw_get_channels();
    let got_rate = d.hw_get_rate();
    let ret = d.hw_params_free();
    assert(ret == 0);
    Ok((got_channels as u32, got_rate as u32))
}

/// Law (negotiation success): every supported channel count negotiates
/// and commits, the effective channel count is the requested one, and the
/// effective rate is within the nearest-value tolerance: exact for a
/// supported request, else the nearest supported value.
pub proof fn lemma_valid_negotiation(channels: u32, rate: u32)
    requires
        channels_supported(channels),
    ensures
        sim_negotiates(channels, rate) matches Some(p) && p.0 == channels && p.1
            == spec_nearest_rate(rate),
        rate_supported(rate) ==> sim_negotiates(channels, rate) == Some((channels, rate)),
        !rate_supported(rate) ==> (sim_negotiates(channels, rate) matches Some(p) && forall|s: u32|
            rate_supported(s) ==> rate_distance(p.1, rate) <= rate_distance(s, rate)),
{
    lemma_nearest_rate(rate);
}

} // verus!
