//! Fixed-rate frame clock.
//!
//! All instants are nanoseconds on a monotonic clock; the caller reads the
//! clock and passes the instants in. `update` keeps a drift-free nominal
//! schedule: the target time always advances by exactly one frame duration,
//! never re-anchored to `now`, so transient overruns are absorbed by the
//! following shorter sleeps and the long-run rate stays nominal.

use vstd::arithmetic::mul::*;
use vstd::prelude::*;

verus! {

/// Nominal duration of one frame at 60 Hz, in nanoseconds.
pub const FRAME_DURATION_NS: u64 = 16666666;

pub struct FrameTimes {
    pub frame_duration: u64,
    pub last_time: u64,
    pub target_time: u64,
}

impl FrameTimes {
    pub fn new(frame_duration: u64, now: u64) -> (r: FrameTimes)
        requires
            now + frame_duration <= u64::MAX,
        ensures
            r.frame_duration == frame_duration,
            r.last_time == now,
            r.target_time == now + frame_duration,
    {
        FrameTimes { frame_duration, last_time: now, target_time: now + frame_duration }
    }

    /// Re-anchor the schedule at `now`. Called whenever wall-clock continuity
    /// was broken (cartridge load, long hotkey stall).
    pub fn reset(&mut self, now: u64)
        requires
            now + old(self).frame_duration <= u64::MAX,
        ensures
            final(self).frame_duration == old(self).frame_duration,
            final(self).last_time == now,
            final(self).target_time == now + old(self).frame_duration,
    {
        self.last_time = now;
        self.target_time = now + self.frame_duration;
    }

    /// The state after one `update` at instant `now`.
    pub open spec fn spec_update(self, now: u64) -> FrameTimes {
        FrameTimes {
            frame_duration: self.frame_duration,
            last_time: now,
            target_time: (self.target_time + self.frame_duration) as u64,
        }
    }

    /// Measure the delta since the previous frame and advance the nominal
    /// schedule by one frame duration (without clamping to `now`).
    pub fn update(&mut self, now: u64) -> (delta: u64)
        requires
            now >= old(self).last_time,
            old(self).target_time + old(self).frame_duration <= u64::MAX,
        ensures
            delta == now - old(self).last_time,
            *final(self) == old(self).spec_update(now),
    {
        let delta = now - self.last_time;
        self.last_time = now;
        self.target_time = self.target_time + self.frame_duration;
        delta
    }

    /// How long to suspend before the next frame: the remaining time until
    /// the target instant, or zero when the frame is already late (no
    /// catch-up sleep).
    pub fn limit(&self, now: u64) -> (sleep_ns: u64)
        ensures
            now < self.target_time ==> sleep_ns == self.target_time - now,
            now >= self.target_time ==> sleep_ns == 0,
    {
        if now < self.target_time {
            self.target_time - now
        } else {
            0
        }
    }
}

/// The clock state after a whole sequence of `update` calls, one per instant
/// in `nows`.
pub open spec fn spec_run_updates(c: FrameTimes, nows: Seq<u64>) -> FrameTimes
    decreases nows.len(),
{
    if nows.len() == 0 {
        c
    } else {
        spec_run_updates(c.spec_update(nows[0]), nows.drop_first())
    }
}

/// However `update` instants jitter, K calls advance the target time by
/// exactly K frame durations: the schedule is nominal, not measured.
pub proof fn lemma_target_after_updates(c: FrameTimes, nows: Seq<u64>)
    requires
        c.target_time + nows.len() * c.frame_duration <= u64::MAX,
    ensures
        spec_run_updates(c, nows).target_time == c.target_time + nows.len() * c.frame_duration,
        spec_run_updates(c, nows).frame_duration == c.frame_duration,
    decreases nows.len(),
{
    if nows.len() == 0 {
        assert(nows.len() * c.frame_duration == 0);
    } else {
        let stepped = c.spec_update(nows[0]);
        assert(nows.len() * c.frame_duration >= 1 * c.frame_duration) by {
            lemma_mul_inequality(1, nows.len() as int, c.frame_duration as int);
        }
        assert(stepped.target_time == c.target_time + c.frame_duration);
        assert((nows.len() - 1) * c.frame_duration == nows.len() * c.frame_duration
            - 1 * c.frame_duration) by {
            lemma_mul_is_distributive_sub_other_way(
                c.frame_duration as int,
                nows.len() as int,
                1,
            );
        }
        lemma_target_after_updates(stepped, nows.drop_first());
    }
}

} // verus!
