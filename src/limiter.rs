use vstd::prelude::*;

verus! {

/// Nanoseconds in one second.
pub const NANOS_PER_SEC: u64 = 1_000_000_000;

/// The length of one frame at `fps` frames a second, in nanoseconds (rounded
/// down); 0 when pacing is off.
pub open spec fn period_ns(fps: u32) -> int {
    if fps == 0 {
        0
    } else {
        NANOS_PER_SEC as int / fps as int
    }
}

/// How long to wait after a tick that took `elapsed` nanoseconds: the rest of
/// the frame, or nothing when the tick ran long or pacing is off.
pub open spec fn wait_ns(fps: u32, elapsed: u64) -> int {
    if elapsed >= period_ns(fps) {
        0
    } else {
        period_ns(fps) - elapsed
    }
}

/// How the rest of a frame is spent: first asleep, then yielding the processor
/// for the last stretch, whose length is the sleep granularity.
#[derive(Clone, Copy, Debug, PartialEq, Eq, Structural)]
pub struct Pause {
    pub sleep_ns: u64,
    pub yield_ns: u64,
}

/// Paces the loop to a target frame rate by sleeping, then yielding.
#[derive(Clone, Copy, Debug, PartialEq, Eq, Structural)]
pub struct FrameLimiter {
    /// Target frames per second; 0 turns pacing off.
    pub fps: u32,
    /// The sleep granularity: the end of a frame shorter than this is spent
    /// yielding instead of asleep.
    pub granularity_ns: u64,
}

impl FrameLimiter {
    pub fn new(fps: u32, granularity_ns: u64) -> (r: FrameLimiter)
        ensures
            r.fps == fps,
            r.granularity_ns == granularity_ns,
    {
        FrameLimiter { fps, granularity_ns }
    }

    /// The length of one frame, in nanoseconds; 0 when pacing is off.
    pub fn period(&self) -> (r: u64)
        ensures
            r == period_ns(self.fps),
    {
        if self.fps == 0 {
            0
        } else {
            NANOS_PER_SEC / (self.fps as u64)
        }
    }

    /// The pause after a tick that took `elapsed_ns` nanoseconds: it lasts
    /// exactly the rest of the frame, with at most the granularity of it
    /// spent yielding.
    pub fn pause(&self, elapsed_ns: u64) -> (r: Pause)
        ensures
            r.sleep_ns + r.yield_ns == wait_ns(self.fps, elapsed_ns),
            r.yield_ns == if wait_ns(self.fps, elapsed_ns) < self.granularity_ns {
                wait_ns(self.fps, elapsed_ns)
            } else {
                self.granularity_ns as int
            },
    {
        let period = self.period();
        let wait: u64 = if elapsed_ns >= period {
            0
        } else {
            period - elapsed_ns
        };
        let yield_ns: u64 = if wait < self.granularity_ns {
            wait
        } else {
            self.granularity_ns
        };
        Pause { sleep_ns: wait - yield_ns, yield_ns }
    }
}

} // verus!
