use wavy::driver::{Direction, Driver, Generator, ValueOr};
use wavy::error::{ErrorKind, ENOENT, EPIPE};
use wavy::sim::SimDriver;
use wavy::{open_stream, query_current_params, set_settings, Microphone, Speaker};

/// A generator returning a constant sample value of 0.
struct Silence;

impl Generator for Silence {
    fn next_sample(&mut self) -> i16 {
        0
    }
}

/// A driver that behaves like the simulated device, except that it can be
/// told to refuse the rate constraint or to cut the next write calls
/// short, so the recovery protocol can be observed from outside.
struct Rigged {
    pub inner: SimDriver,
    pub refuse_rate: bool,
    pub short_writes_left: u32,
}

impl Rigged {
    fn healthy() -> Rigged {
        Rigged { inner: SimDriver::new(), refuse_rate: false, short_writes_left: 0 }
    }
}

impl Driver for Rigged {
    fn open(&mut self, device: &str, dir: Direction) -> i64 {
        self.inner.open(device, dir)
    }
    fn close(&mut self) -> i64 {
        self.inner.close()
    }
    fn hw_params_any(&mut self) -> i64 {
        self.inner.hw_params_any()
    }
    fn hw_params_current(&mut self) -> i64 {
        self.inner.hw_params_current()
    }
    fn hw_set_channels(&mut self, channels: u32) -> i64 {
        self.inner.hw_set_channels(channels)
    }
    fn hw_set_rate_near(&mut self, rate: u32, policy: ValueOr) -> i64 {
        if self.refuse_rate {
            -22
        } else {
            self.inner.hw_set_rate_near(rate, policy)
        }
    }
    fn hw_set_format_s16(&mut self) -> i64 {
        self.inner.hw_set_format_s16()
    }
    fn hw_set_access_interleaved(&mut self) -> i64 {
        self.inner.hw_set_access_interleaved()
    }
    fn hw_params_apply(&mut self) -> i64 {
        self.inner.hw_params_apply()
    }
    fn hw_params_free(&mut self) -> i64 {
        self.inner.hw_params_free()
    }
    fn hw_get_channels(&mut self) -> i64 {
        self.inner.hw_get_channels()
    }
    fn hw_get_rate(&mut self) -> i64 {
        self.inner.hw_get_rate()
    }
    fn hw_get_buffer_size(&mut self) -> i64 {
        self.inner.hw_get_buffer_size()
    }
    fn hw_get_period_size(&mut self) -> i64 {
        self.inner.hw_get_period_size()
    }
    fn prepare(&mut self) -> i64 {
        self.inner.prepare()
    }
    fn start(&mut self) -> i64 {
        self.inner.start()
    }
    fn avail(&mut self) -> i64 {
        self.inner.avail()
    }
    fn writei(&mut self, buf: &Vec<i16>, frames: usize) -> i64 {
        let r = self.inner.writei(buf, frames);
        if self.short_writes_left > 0 {
            self.short_writes_left -= 1;
            if r > 0 {
                r - 1
            } else {
                r
            }
        } else {
            r
        }
    }
    fn readi(&mut self, buf: &mut Vec<i16>) -> i64 {
        self.inner.readi(buf)
    }
    fn recover(&mut self, err: i32, silent: bool) -> i64 {
        self.inner.recover(err, silent)
    }
}

#[test]
fn broken_pcm_name() {
    let mut d = SimDriver::new();
    let e = open_stream(&mut d, "this_PCM_does_not_exist", Direction::Playback)
        .err()
        .unwrap();
    assert_eq!(e.func(), "snd_pcm_open");
    assert_eq!(e.errno().unwrap(), ENOENT);
}

#[test]
fn open_valid_device_succeeds() {
    let mut d = SimDriver::new();
    assert_eq!(open_stream(&mut d, "default", Direction::Playback).unwrap(), 0);
    assert!(d.opened);
}

#[test]
fn negotiation_valid_combo_reports_effective_values() {
    let mut d = SimDriver::new();
    assert_eq!(open_stream(&mut d, "default", Direction::Playback).unwrap(), 0);
    set_settings(&mut d, true).unwrap();
    let p = query_current_params(&mut d).unwrap();
    // Exact match: every requested value was supported.
    assert_eq!(p.channels, 2);
    assert_eq!(p.rate, 48_000);
    assert_eq!(p.period_size, 1024);
    assert_eq!(p.buffer_size, 2048);
}

#[test]
fn rate_negotiation_substitutes_nearest() {
    let mut d = SimDriver::new();
    assert_eq!(open_stream(&mut d, "default", Direction::Playback).unwrap(), 0);
    assert_eq!(d.hw_params_any(), 0);
    // A supported rate is kept exactly.
    assert_eq!(d.hw_set_rate_near(44_100, ValueOr::Nearest), 0);
    assert_eq!(d.hw_get_rate(), 44_100);
    // An unsupported rate becomes the nearest supported one.
    assert_eq!(d.hw_set_rate_near(1_000, ValueOr::Nearest), 0);
    assert_eq!(d.hw_get_rate(), 8_000);
    assert_eq!(d.hw_set_rate_near(1_000_000, ValueOr::Nearest), 0);
    assert_eq!(d.hw_get_rate(), 192_000);
    assert_eq!(d.hw_params_free(), 0);
}

#[test]
fn negotiation_release_on_success() {
    let mut d = SimDriver::new();
    assert_eq!(open_stream(&mut d, "default", Direction::Playback).unwrap(), 0);
    set_settings(&mut d, false).unwrap();
    // Exactly one parameter object was allocated and exactly one released.
    assert_eq!(d.allocs, 1);
    assert_eq!(d.frees, 1);
}

#[test]
fn negotiation_release_on_failure() {
    let mut d = Rigged::healthy();
    d.refuse_rate = true;
    assert_eq!(open_stream(&mut d, "default", Direction::Playback).unwrap(), 0);
    let e = set_settings(&mut d, false).unwrap_err();
    assert_eq!(e.func(), "snd_pcm_hw_params_set_rate_near");
    assert_eq!(e.errno(), Some(22));
    // The failed negotiation still released its parameter object, once.
    assert_eq!(d.inner.allocs, 1);
    assert_eq!(d.inner.frees, 1);
}

#[test]
fn negotiate_supported_combo_commits() {
    let mut d = SimDriver::new();
    assert_eq!(open_stream(&mut d, "default", Direction::Playback).unwrap(), 0);
    let (ch, rate) = wavy::sim::negotiate(&mut d, 2, 44_100).unwrap();
    assert_eq!(ch, 2);
    assert_eq!(rate, 44_100);
    assert!(d.applied);
    assert_eq!(d.allocs, 1);
    assert_eq!(d.frees, 1);
}

#[test]
fn negotiate_unsupported_channels_still_releases() {
    let mut d = SimDriver::new();
    assert_eq!(open_stream(&mut d, "default", Direction::Playback).unwrap(), 0);
    let e = wavy::sim::negotiate(&mut d, 9, 48_000).unwrap_err();
    assert_eq!(e.func(), "snd_pcm_hw_params_set_channels");
    assert_eq!(e.errno(), Some(22));
    assert!(!d.applied);
    assert_eq!(d.allocs, 1);
    assert_eq!(d.frees, 1);
}

#[test]
fn speaker_buffer_sized_stereo() {
    let s = Speaker::new(0, true, SimDriver::new()).unwrap();
    // 2 x 1024 frames x 2 channels.
    assert_eq!(s.buffer.len(), 4096);
    assert_eq!(s.channels, 2);
    assert_eq!(s.period, 1024);
}

#[test]
fn speaker_buffer_sized_mono() {
    let s = Speaker::new(0, false, SimDriver::new()).unwrap();
    // 2 x 1024 frames x 1 channel.
    assert_eq!(s.buffer.len(), 2048);
    assert_eq!(s.channels, 1);
}

#[test]
fn speaker_only_index_zero_exists() {
    assert!(Speaker::new(1, false, SimDriver::new()).is_none());
    let s = Speaker::new(0, false, SimDriver::new()).unwrap();
    assert_eq!(s.num(), 1);
}

#[test]
fn speaker_hundred_updates_no_error() {
    let mut s = Speaker::new(0, false, SimDriver::new()).unwrap();
    let mut g = Silence;
    for _ in 0..100 {
        s.update(&mut g).unwrap();
    }
    assert!(!s.fatal);
    let d = s.close();
    assert_eq!(d.closes, 1);
    assert!(!d.opened);
}

#[test]
fn outstanding_never_exceeds_capacity() {
    let mut s = Speaker::new(0, false, SimDriver::new()).unwrap();
    let mut g = Silence;
    assert_eq!(s.left().unwrap(), 0);
    for _ in 0..10 {
        s.update(&mut g).unwrap();
        let left = s.left().unwrap();
        assert!(left <= s.target);
    }
    assert_eq!(s.left().unwrap(), s.target);
}

#[test]
fn single_underrun_recovers_with_one_retry() {
    let mut s = Speaker::new(0, false, Rigged::healthy()).unwrap();
    s.driver.short_writes_left = 1;
    let mut g = Silence;
    assert!(s.update(&mut g).is_ok());
    // Exactly one recovery call and exactly one retried write.
    assert_eq!(s.driver.inner.recovers, 1);
    assert_eq!(s.driver.inner.writes, 2);
    assert!(!s.fatal);
}

#[test]
fn double_underrun_is_fatal_and_stops_writes() {
    let mut s = Speaker::new(0, false, Rigged::healthy()).unwrap();
    s.driver.short_writes_left = 2;
    let mut g = Silence;
    let e = s.update(&mut g).unwrap_err();
    assert_eq!(e.func(), "snd_pcm_writei");
    assert_eq!(e.errno(), Some(EPIPE));
    assert!(s.fatal);
    assert_eq!(s.driver.inner.recovers, 1);
    assert_eq!(s.driver.inner.writes, 2);
    // A fatal stream performs no further driver calls at all.
    assert!(s.update(&mut g).is_err());
    assert_eq!(s.driver.inner.recovers, 1);
    assert_eq!(s.driver.inner.writes, 2);
}

#[test]
fn speaker_close_happens_once() {
    let s = Speaker::new(0, false, SimDriver::new()).unwrap();
    // `close` consumes the speaker: a second close, or any later use,
    // does not type-check. Exactly one driver-level close is issued.
    let d = s.close();
    assert_eq!(d.closes, 1);
    assert!(!d.opened);
}

#[test]
fn microphone_reads_degrade_to_zero() {
    let mut m = Microphone::new(0, false, SimDriver::new()).unwrap();
    assert_eq!(m.num(), 1);
    let mut buf = vec![0i16; 2048];
    // The healthy simulated device has no data yet; a failed or empty
    // read surfaces as zero frames, never as an error.
    assert_eq!(m.update(&mut buf), 0);
    assert_eq!(buf.len(), 2048);
    let d = m.close();
    assert_eq!(d.closes, 1);
}

#[test]
fn microphone_only_index_zero_exists() {
    assert!(Microphone::new(3, true, SimDriver::new()).is_none());
}

#[test]
fn speaker_buffer_starts_zeroed() {
    let s = Speaker::new(0, true, SimDriver::new()).unwrap();
    assert!(s.buffer.iter().all(|&x| x == 0));
}

#[test]
fn microphone_stream_open_and_started() {
    let m = Microphone::new(0, true, SimDriver::new()).unwrap();
    assert!(m.pcm.opened);
    assert!(m.pcm.started);
    assert_eq!(m.channels, 2);
}

#[test]
fn capture_path_never_recovers_or_writes() {
    let mut m = Microphone::new(0, false, SimDriver::new()).unwrap();
    let mut buf = vec![7i16; 64];
    for _ in 0..5 {
        assert_eq!(m.update(&mut buf), 0);
    }
    // One read call per update, and never a recovery, retry or write.
    assert_eq!(m.pcm.recovers, 0);
    assert_eq!(m.pcm.writes, 0);
}

#[test]
fn lifecycle_out_of_order_is_translated() {
    let mut d = SimDriver::new();
    // Nothing is open yet: each lifecycle call fails with a structured
    // error naming its own entry point.
    let e = wavy::prepare(&mut d).unwrap_err();
    assert_eq!(e.func(), "snd_pcm_prepare");
    assert_eq!(e.errno(), Some(77));
    let e = wavy::start(&mut d).unwrap_err();
    assert_eq!(e.func(), "snd_pcm_start");
    let e = wavy::available_frames(&mut d).unwrap_err();
    assert_eq!(e.func(), "snd_pcm_status");
}

#[test]
fn error_kind_distinguishes_unsupported() {
    let mut d = SimDriver::new();
    let e = open_stream(&mut d, "nope", Direction::Capture).unwrap_err();
    assert!(matches!(e.kind(), ErrorKind::Sys(_)));
    assert_eq!(e.errno(), Some(ENOENT));
}
