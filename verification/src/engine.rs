//! Buffer accounting and the playback protocols, as pure logic.
//!
//! The streaming engine's decisions — how many frames to refill, how a
//! short write escalates, when a negotiation releases its parameter
//! object — are functions from plain values to plain values. They live
//! here with exact contracts; the driver-calling code in the crate root
//! only carries their results to and from the driver.

use vstd::prelude::*;

verus! {

/// Number of samples in the scratch buffer of one playback stream: twice
/// the negotiated period length in frames, times the channel count, so
/// there is always at least one period of look-ahead buffered.
pub fn sample_buffer_len(period: usize, channels: usize) -> (n: usize)
    requires
        period * channels <= usize::MAX / 2,
    ensures
        n == 2 * period * channels,
{
    proof {
        assert(2 * (period * channels) == 2 * period * channels) by (nonlinear_arith);
    }
    2 * (period * channels)
}

/// Frames the hardware has not yet consumed: the fixed target latency
/// minus the driver-reported available count, floored at zero. Never
/// exceeds the target, which is the stream's frame capacity.
pub fn outstanding_frames(target: u64, avail: u64) -> (r: u64)
    ensures
        r == if avail < target {
            (target - avail) as u64
        } else {
            0u64
        },
        r <= target,
{
    if avail < target {
        target - avail
    } else {
        0
    }
}

/// Frames needed to refill the stream up to its capacity: the capacity
/// minus the outstanding count, floored at zero.
pub fn frames_needed(target: u64, outstanding: u64) -> (r: u64)
    ensures
        r == if outstanding < target {
            (target - outstanding) as u64
        } else {
            0u64
        },
        r <= target,
{
    if outstanding < target {
        target - outstanding
    } else {
        0
    }
}

/// Frames obtained by a capture read, from the driver's raw return: a
/// failed read degrades to zero frames — by design not an error; the
/// caller inspects returned counts only — and a successful count is
/// clamped so that, at `channels` samples per frame, it never exceeds a
/// buffer of `samples` samples.
pub fn read_result_frames(ret: i64, samples: usize, channels: u32) -> (r: usize)
    requires
        1 <= channels,
    ensures
        ret < 0 ==> r == 0,
        ret >= 0 ==> r == if ret <= samples as int / channels as int {
            ret as int
        } else {
            samples as int / channels as int
        },
        r * channels <= samples,
{
    if ret < 0 {
        return 0;
    }
    let cap: usize = samples / (channels as usize);
    let r: usize = if (ret as u64) >= (cap as u64) {
        cap
    } else {
        ret as usize
    };
    proof {
        let s = samples as int;
        let c = channels as int;
        assert((s / c) * c <= s) by (nonlinear_arith)
            requires
                s >= 0,
                c >= 1,
        ;
        assert(r * c <= (s / c) * c) by (nonlinear_arith)
            requires
                r <= s / c,
                c >= 1,
                r >= 0,
        ;
    }
    r
}

/// Phase of the playback write protocol for one stream.
#[derive(Clone, Copy, Debug, PartialEq, Eq, Structural)]
pub enum WriteState {
    /// The stream is healthy; a write may be issued.
    Normal,
    /// A write came up short; one recovery and one retried write follow.
    Recovering,
    /// The retried write also came up short: a double underrun. The
    /// protocol admits no further step for this stream.
    Fatal,
}

/// What the engine does next after a write call returned.
#[derive(Clone, Copy, Debug, PartialEq, Eq, Structural)]
pub enum WriteAction {
    /// The write was complete; the cycle is done.
    Done,
    /// The write was short: issue one recovery call, then retry the
    /// identical write exactly once.
    RecoverAndRetry,
    /// The retried write was also short: stop, reporting a fatal double
    /// underrun, rather than loop.
    Escalate,
}

/// The protocol's transition: given the phase and a write that put
/// `written` of `requested` frames, the next phase and the action.
pub open spec fn spec_write_step(state: WriteState, requested: u64, written: u64) -> (
    WriteState,
    WriteAction,
) {
    if written >= requested {
        (WriteState::Normal, WriteAction::Done)
    } else if state == WriteState::Normal {
        (WriteState::Recovering, WriteAction::RecoverAndRetry)
    } else {
        (WriteState::Fatal, WriteAction::Escalate)
    }
}

/// One step of the playback write protocol. A short write in the normal
/// phase asks for one recovery and one retry; a short write in the
/// recovering phase escalates. The fatal phase admits no step.
pub fn write_step(state: WriteState, requested: u64, written: u64) -> (r: (
    WriteState,
    WriteAction,
))
    requires
        state != WriteState::Fatal,
    ensures
        r == spec_write_step(state, requested, written),
{
    if written >= requested {
        (WriteState::Normal, WriteAction::Done)
    } else if state == WriteState::Normal {
        (WriteState::Recovering, WriteAction::RecoverAndRetry)
    } else {
        (WriteState::Fatal, WriteAction::Escalate)
    }
}

/// The actions one update cycle performs after its first write returned
/// `w1` of `requested` frames and — only if a retry was issued at all —
/// the retried write returned `w2`.
pub open spec fn spec_push_actions(requested: u64, w1: u64, w2: u64) -> Seq<WriteAction> {
    let (s1, a1) = spec_write_step(WriteState::Normal, requested, w1);
    if s1 == WriteState::Normal {
        seq![a1]
    } else {
        let (s2, a2) = spec_write_step(s1, requested, w2);
        seq![a1, a2]
    }
}

/// Law (underrun recovery): a complete first write asks for no recovery;
/// a short first write asks for exactly one recovery-and-retry; the
/// protocol escalates — and only escalates — when the retried write is
/// also short, and an escalation is always the last action, so no further
/// write follows it.
pub proof fn lemma_underrun_protocol(requested: u64, w1: u64, w2: u64)
    ensures
        spec_push_actions(requested, w1, w2).filter(|a: WriteAction| a == WriteAction::RecoverAndRetry).len()
            == if w1 < requested {
            1int
        } else {
            0int
        },
        spec_push_actions(requested, w1, w2).contains(WriteAction::Escalate) <==> (w1 < requested
            && w2 < requested),
        spec_push_actions(requested, w1, w2).contains(WriteAction::Escalate)
            ==> spec_push_actions(requested, w1, w2).last() == WriteAction::Escalate,
{
    let acts = spec_push_actions(requested, w1, w2);
    if w1 >= requested {
        assert(acts =~= seq![WriteAction::Done]);
        reveal_with_fuel(Seq::filter, 2);
        assert(acts.filter(|a: WriteAction| a == WriteAction::RecoverAndRetry).len() == 0);
        assert(!acts.contains(WriteAction::Escalate));
    } else {
        let second = if w2 >= requested {
            WriteAction::Done
        } else {
            WriteAction::Escalate
        };
        assert(acts =~= seq![WriteAction::RecoverAndRetry, second]);
        reveal_with_fuel(Seq::filter, 3);
        assert(acts.filter(|a: WriteAction| a == WriteAction::RecoverAndRetry).len() == 1);
        if w2 < requested {
            assert(acts[1] == WriteAction::Escalate);
            assert(acts.contains(WriteAction::Escalate));
        } else {
            assert(forall|i: int| 0 <= i < acts.len() ==> acts[i] != WriteAction::Escalate);
        }
    }
}

/// One negotiation run, after the parameter object is allocated, as the
/// sequence of its remaining driver calls: `outcomes[i]` tells whether
/// the i-th call succeeded. The run stops at the first failure; this
/// counts the release calls the run performs on that path.
pub open spec fn release_calls(outcomes: Seq<bool>) -> nat
    decreases outcomes.len(),
{
    if outcomes.len() == 0 {
        1nat
    } else if !outcomes[0] {
        1nat
    } else {
        release_calls(outcomes.drop_first())
    }
}

/// Law (release invariant): every negotiation run — success, or failure
/// at any step — releases the parameter object exactly once.
pub proof fn lemma_release_invariant(outcomes: Seq<bool>)
    ensures
        release_calls(outcomes) == 1,
    decreases outcomes.len(),
{
    if outcomes.len() == 0 {
    } else if !outcomes[0] {
    } else {
        lemma_release_invariant(outcomes.drop_first());
    }
}

} // verus!
