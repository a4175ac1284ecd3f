//! The bookkeeping of a playing stream: a song is decoded into one run of
//! interleaved samples, and each time the audio device asks for samples the
//! stream hands out the next ones, moves its position and tells how many whole
//! seconds have been played.

use vstd::prelude::*;

verus! {

/// The whole seconds that `samples` interleaved samples last, at
/// `samples_per_sec` samples a second (the sample rate times the channels).
pub open spec fn seconds_played(samples: nat, samples_per_sec: nat) -> nat {
    samples / samples_per_sec
}

/// `symphonia`'s `TimeBase::calc_time` with a numerator of one and
/// `samples_per_sec` as the denominator, keeping the whole seconds. Its source
/// divides exactly (in integers, or in floating point where the dividend has
/// fewer than 52 bits, where the truncated quotient is exact), so the seconds
/// are the floor of the quotient; it asserts a denominator above zero.
#[verifier::external_body]
fn calc_seconds(samples: u64, samples_per_sec: u32) -> (secs: u64)
    requires
        samples_per_sec > 0,
    ensures
        secs == seconds_played(samples as nat, samples_per_sec as nat),
{
    let time_base = symphonia::core::units::TimeBase { numer: 1, denom: samples_per_sec };
    time_base.calc_time(samples).seconds
}

/// `samples_per_sec * secs` is below 2^96.
proof fn lemma_step_fits(samples_per_sec: u32, secs: u64)
    ensures
        samples_per_sec * secs <= 0xffff_ffffu128 * 0xffff_ffff_ffff_ffffu128,
{
    assert(samples_per_sec * secs <= 0xffff_ffffu128 * 0xffff_ffff_ffff_ffffu128) by (nonlinear_arith)
        requires
            samples_per_sec <= 0xffff_ffffu32,
            secs <= 0xffff_ffff_ffff_ffffu64,
    ;
}

/// The position after a fast-forward of `secs` seconds: that many seconds of
/// samples further on, or the greatest position when that does not fit (a
/// position past the end ends the stream either way).
pub open spec fn forward_position(offset: nat, samples_per_sec: nat, secs: nat) -> nat {
    if offset + samples_per_sec * secs <= usize::MAX {
        offset + samples_per_sec * secs
    } else {
        usize::MAX as nat
    }
}

/// The position after a rewind of `secs` seconds: that many seconds of samples
/// back, or the start.
pub open spec fn backward_position(offset: nat, samples_per_sec: nat, secs: nat) -> nat {
    if offset >= samples_per_sec * secs {
        (offset - samples_per_sec * secs) as nat
    } else {
        0
    }
}

/// Moves the position forward (see `forward_position`).
pub fn seek_forward(offset: usize, samples_per_sec: u32, secs: u64) -> (r: usize)
    ensures
        r == forward_position(offset as nat, samples_per_sec as nat, secs as nat),
{
    proof {
        lemma_step_fits(samples_per_sec, secs);
    }
    let step: u128 = (samples_per_sec as u128) * (secs as u128);
    let target: u128 = (offset as u128) + step;
    if target > usize::MAX as u128 {
        usize::MAX
    } else {
        target as usize
    }
}

/// Moves the position back (see `backward_position`).
pub fn seek_backward(offset: usize, samples_per_sec: u32, secs: u64) -> (r: usize)
    ensures
        r == backward_position(offset as nat, samples_per_sec as nat, secs as nat),
{
    proof {
        lemma_step_fits(samples_per_sec, secs);
    }
    let step: u128 = (samples_per_sec as u128) * (secs as u128);
    if (offset as u128) < step {
        0
    } else {
        ((offset as u128) - step) as usize
    }
}

/// What the stream does when the device asks for samples.
#[derive(Clone, Copy, Debug, PartialEq, Eq, Structural)]
pub struct PlaybackStep {
    /// Everything has been played: the stream reports its end and copies nothing.
    pub ended: bool,
    /// How many samples to copy, from the old position on.
    pub copied: usize,
    /// The position after.
    pub offset: usize,
    /// The whole seconds played, to report, when they are due.
    pub progress: Option<u64>,
}

/// Whether seconds played are reported: when they differ from the last report,
/// or, with `only_later`, when they are later than it.
pub open spec fn progress_due(reported: u64, now: u64, only_later: bool) -> bool {
    if only_later {
        reported < now
    } else {
        reported != now
    }
}

/// The step of a stream at `offset` in a song of `len` samples, when the device
/// asks for `wanted` of them: past the end it ends; otherwise it copies what is
/// left up to `wanted`. When the song runs out within the request, the position
/// is set one past the end before the copied samples are added to it, as the
/// stream's playback loop does. The seconds at the new position are reported
/// when `progress_due` says so.
pub open spec fn playback_plan(
    offset: nat,
    reported: u64,
    len: nat,
    wanted: nat,
    samples_per_sec: nat,
    only_later: bool,
) -> (bool, nat, nat, Option<nat>) {
    if offset >= len {
        (true, 0, offset, None)
    } else {
        let left = (len - offset) as nat;
        let copied = if wanted < left {
            wanted
        } else {
            left
        };
        let new_offset = if wanted <= left {
            offset + wanted
        } else {
            len + 1 + left
        };
        let secs = seconds_played(new_offset, samples_per_sec);
        (
            false,
            copied,
            new_offset,
            if progress_due(reported, secs as u64, only_later) {
                Some(secs)
            } else {
                None
            },
        )
    }
}

/// Serves one request of the device (see `playback_plan`).
pub fn playback_step(
    offset: usize,
    reported: u64,
    len: usize,
    wanted: usize,
    samples_per_sec: u32,
    only_later: bool,
) -> (r: PlaybackStep)
    requires
        samples_per_sec > 0,
        len <= isize::MAX,
    ensures
        ({
            let plan = playback_plan(
                offset as nat,
                reported,
                len as nat,
                wanted as nat,
                samples_per_sec as nat,
                only_later,
            );
            &&& r.ended == plan.0
            &&& r.copied == plan.1
            &&& r.offset == plan.2
            &&& match plan.3 {
                Some(s) => r.progress == Some(s as u64),
                None => r.progress is None,
            }
        }),
{
    if offset >= len {
        return PlaybackStep { ended: true, copied: 0, offset, progress: None };
    }
    let left = len - offset;
    let copied = if wanted < left {
        wanted
    } else {
        left
    };
    let new_offset = if wanted <= left {
        offset + wanted
    } else {
        len + 1 + left
    };
    let secs = calc_seconds(new_offset as u64, samples_per_sec);
    let due = if only_later {
        reported < secs
    } else {
        reported != secs
    };
    PlaybackStep {
        ended: false,
        copied,
        offset: new_offset,
        progress: if due {
            Some(secs)
        } else {
            None
        },
    }
}

/// A rewind by as many seconds as a fast-forward brings the stream back to where
/// it was, when the fast-forward's target fits in a position.
pub proof fn lemma_rewind_undoes_fast_forward(offset: nat, samples_per_sec: nat, secs: nat)
    requires
        offset + samples_per_sec * secs <= usize::MAX,
    ensures
        backward_position(forward_position(offset, samples_per_sec, secs), samples_per_sec, secs)
            == offset,
{
}

/// A rewind never moves the stream forward, and a fast-forward never moves it back.
pub proof fn lemma_seeks_are_monotonic(offset: nat, samples_per_sec: nat, secs: nat)
    requires
        offset <= usize::MAX,
    ensures
        backward_position(offset, samples_per_sec, secs) <= offset,
        forward_position(offset, samples_per_sec, secs) >= offset,
{
    assert(samples_per_sec * secs >= 0) by (nonlinear_arith);
}

/// The seconds reported over a run of device requests for `wanted[0]`,
/// `wanted[1]`, ... samples, with no seek in between, starting at `offset` with
/// `reported` as the last report.
pub open spec fn run_reports(
    offset: nat,
    reported: u64,
    len: nat,
    wanted: Seq<nat>,
    samples_per_sec: nat,
    only_later: bool,
) -> Seq<nat>
    decreases wanted.len(),
{
    if wanted.len() == 0 {
        seq![]
    } else {
        let step = playback_plan(offset, reported, len, wanted[0], samples_per_sec, only_later);
        let next_reported = match step.3 {
            Some(secs) => secs as u64,
            None => reported,
        };
        let rest = run_reports(
            step.2,
            next_reported,
            len,
            wanted.drop_first(),
            samples_per_sec,
            only_later,
        );
        match step.3 {
            Some(secs) => seq![secs] + rest,
            None => rest,
        }
    }
}

/// Over a run without seeks, the stream reports strictly increasing seconds,
/// each later than the last report before the run, once the last report is not
/// ahead of the position (as at the start, where zero is reported); a stream
/// past its end reports nothing more.
pub proof fn lemma_run_reports_increase(
    offset: nat,
    reported: u64,
    len: nat,
    wanted: Seq<nat>,
    samples_per_sec: nat,
    only_later: bool,
)
    requires
        samples_per_sec > 0,
        len <= isize::MAX,
        offset <= usize::MAX,
        reported <= seconds_played(offset, samples_per_sec),
    ensures
        forall|i: int|
            0 <= i < run_reports(offset, reported, len, wanted, samples_per_sec, only_later).len()
                ==> #[trigger] run_reports(
                offset,
                reported,
                len,
                wanted,
                samples_per_sec,
                only_later,
            )[i] > reported,
        forall|i: int, j: int|
            0 <= i < j < run_reports(offset, reported, len, wanted, samples_per_sec, only_later).len()
                ==> #[trigger] run_reports(
                offset,
                reported,
                len,
                wanted,
                samples_per_sec,
                only_later,
            )[i] < #[trigger] run_reports(offset, reported, len, wanted, samples_per_sec, only_later)[j],
        offset >= len ==> run_reports(offset, reported, len, wanted, samples_per_sec, only_later).len()
            == 0,
    decreases wanted.len(),
{
    if wanted.len() > 0 {
        let r = samples_per_sec;
        let step = playback_plan(offset, reported, len, wanted[0], r, only_later);
        let next_reported = match step.3 {
            Some(secs) => secs as u64,
            None => reported,
        };
        assert(step.2 <= usize::MAX);
        let x = step.2;
        assert(x / r <= x) by (nonlinear_arith)
            requires
                r > 0,
        ;
        if offset < len {
            vstd::arithmetic::div_mod::lemma_div_is_ordered(offset as int, x as int, r as int);
        }
        assert(next_reported <= seconds_played(step.2, r));
        let rest = run_reports(step.2, next_reported, len, wanted.drop_first(), r, only_later);
        let res = run_reports(offset, reported, len, wanted, r, only_later);
        lemma_run_reports_increase(step.2, next_reported, len, wanted.drop_first(), r, only_later);
        match step.3 {
            Some(secs) => {
                assert(secs as u64 == secs);
                assert(secs > reported);
                assert(res == seq![secs] + rest);
                assert forall|i: int| 0 <= i < res.len() implies #[trigger] res[i] > reported by {
                    if i > 0 {
                        assert(res[i] == rest[i - 1]);
                    }
                }
                assert forall|i: int, j: int| 0 <= i < j < res.len() implies #[trigger] res[i]
                    < #[trigger] res[j] by {
                    assert(res[j] == rest[j - 1]);
                    if i > 0 {
                        assert(res[i] == rest[i - 1]);
                    }
                }
            },
            None => {
                assert(res == rest);
            },
        }
    }
}

} // verus!
