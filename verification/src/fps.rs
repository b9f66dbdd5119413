//! Sliding-window frames-per-second accounting.
//!
//! `update` is called once per frame with the frame's instant in nanoseconds;
//! once a full second of wall clock has passed, the number of frames seen in
//! that window becomes the published rate and a new window starts.

use vstd::prelude::*;

verus! {

pub const ONE_SECOND_NS: u64 = 1000000000;

pub struct FpsCounter {
    pub fps: u32,
    pub frame_count: u32,
    pub window_start: u64,
}

impl FpsCounter {
    pub fn new(now: u64) -> (r: FpsCounter)
        ensures
            r.fps == 0,
            r.frame_count == 0,
            r.window_start == now,
    {
        FpsCounter { fps: 0, frame_count: 0, window_start: now }
    }

    /// The state after one frame observed at instant `now`: the frame is
    /// counted; if the one-second window has elapsed, the count is published
    /// as `fps` and the window restarts at `now`.
    pub open spec fn spec_update(self, now: u64) -> FpsCounter {
        if now >= self.window_start + ONE_SECOND_NS {
            FpsCounter {
                fps: (self.frame_count + 1) as u32,
                frame_count: 0,
                window_start: now,
            }
        } else {
            FpsCounter {
                fps: self.fps,
                frame_count: (self.frame_count + 1) as u32,
                window_start: self.window_start,
            }
        }
    }

    pub fn update(&mut self, now: u64)
        requires
            old(self).frame_count < u32::MAX,
        ensures
            *final(self) == old(self).spec_update(now),
    {
        self.frame_count = self.frame_count + 1;
        if now >= self.window_start && now - self.window_start >= ONE_SECOND_NS {
            self.fps = self.frame_count;
            self.frame_count = 0;
            self.window_start = now;
        }
    }

    pub fn get_fps(&self) -> (r: u32)
        ensures
            r == self.fps,
    {
        self.fps
    }
}

} // verus!
