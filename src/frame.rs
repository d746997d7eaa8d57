use vstd::prelude::*;

verus! {

/// Largest time step, in nanoseconds, that camera integration is given: 0.1 s.
pub const MAX_FRAME_DT_NANOS: u64 = 100_000_000;

pub const NANOS_PER_SECOND: u64 = 1_000_000_000;

/// The time step for an elapsed wall-clock time: the elapsed time, capped at
/// 0.1 s so that a stall does not make the camera jump.
pub open spec fn spec_frame_dt(elapsed: u64) -> u64 {
    if elapsed > MAX_FRAME_DT_NANOS {
        MAX_FRAME_DT_NANOS
    } else {
        elapsed
    }
}

/// Nanoseconds from `earlier` to `later`, zero if `later` is not after it.
pub open spec fn elapsed_between(earlier: u64, later: u64) -> u64 {
    if later > earlier {
        (later - earlier) as u64
    } else {
        0
    }
}

/// Caps an elapsed time, in nanoseconds, at 0.1 s.
pub fn clamp_frame_dt(elapsed_nanos: u64) -> (r: u64)
    ensures
        r == spec_frame_dt(elapsed_nanos),
        r <= MAX_FRAME_DT_NANOS,
{
    if elapsed_nanos > MAX_FRAME_DT_NANOS {
        MAX_FRAME_DT_NANOS
    } else {
        elapsed_nanos
    }
}

/// The time of the last frame, on a monotonic nanosecond clock.
pub struct FrameClock {
    pub last_frame_nanos: u64,
}

impl FrameClock {
    /// A clock whose last frame was at `now_nanos`.
    pub fn new(now_nanos: u64) -> (r: FrameClock)
        ensures
            r.last_frame_nanos == now_nanos,
    {
        FrameClock { last_frame_nanos: now_nanos }
    }

    /// Starts a frame at `now_nanos`: returns the capped time step since the
    /// last frame and makes `now_nanos` the last frame.
    pub fn tick(&mut self, now_nanos: u64) -> (r: u64)
        ensures
            r == spec_frame_dt(elapsed_between(old(self).last_frame_nanos, now_nanos)),
            r <= MAX_FRAME_DT_NANOS,
            final(self).last_frame_nanos == now_nanos,
    {
        let elapsed: u64 = if now_nanos > self.last_frame_nanos {
            now_nanos - self.last_frame_nanos
        } else {
            0
        };
        self.last_frame_nanos = now_nanos;
        clamp_frame_dt(elapsed)
    }
}

/// The next redraw deadline under a fixed frame rate.
pub struct FramePacer {
    pub frame_nanos: u64,
    pub target_nanos: u64,
}

/// `a + b`, or the largest `u64` where that does not fit.
pub open spec fn sat_add(a: u64, b: u64) -> u64 {
    if a + b > u64::MAX {
        u64::MAX
    } else {
        (a + b) as u64
    }
}

fn saturating_add(a: u64, b: u64) -> (r: u64)
    ensures
        r == sat_add(a, b),
{
    if a > u64::MAX - b {
        u64::MAX
    } else {
        a + b
    }
}

impl FramePacer {
    /// A pacer for `fps` frames per second whose first deadline is `now_nanos`.
    pub fn new(fps: u64, now_nanos: u64) -> (r: FramePacer)
        requires
            fps > 0,
        ensures
            r.frame_nanos == NANOS_PER_SECOND / fps,
            r.target_nanos == now_nanos,
    {
        FramePacer { frame_nanos: NANOS_PER_SECOND / fps, target_nanos: now_nanos }
    }

    /// The event loop woke at `now_nanos`. When the deadline has passed, it
    /// moves one frame later and a redraw is due (returns true).
    pub fn wake(&mut self, now_nanos: u64) -> (r: bool)
        ensures
            r == (old(self).target_nanos <= now_nanos),
            final(self).frame_nanos == old(self).frame_nanos,
            r ==> final(self).target_nanos == sat_add(old(self).target_nanos, old(self).frame_nanos),
            !r ==> final(self).target_nanos == old(self).target_nanos,
    {
        if self.target_nanos <= now_nanos {
            self.target_nanos = saturating_add(self.target_nanos, self.frame_nanos);
            true
        } else {
            false
        }
    }

    /// A frame was drawn at `now_nanos`. When the deadline has passed, the
    /// next one is a frame from now and another redraw is due (returns true).
    pub fn frame_drawn(&mut self, now_nanos: u64) -> (r: bool)
        ensures
            r == (old(self).target_nanos <= now_nanos),
            final(self).frame_nanos == old(self).frame_nanos,
            r ==> final(self).target_nanos == sat_add(now_nanos, old(self).frame_nanos),
            !r ==> final(self).target_nanos == old(self).target_nanos,
    {
        if self.target_nanos <= now_nanos {
            self.target_nanos = saturating_add(now_nanos, self.frame_nanos);
            true
        } else {
            false
        }
    }

    /// When the event loop should wake next.
    pub fn deadline(&self) -> (r: u64)
        ensures
            r == self.target_nanos,
    {
        self.target_nanos
    }
}

/// However long the wall-clock gap between two frames, the step handed to
/// camera integration is at most 0.1 s, and a gap within 0.1 s is passed on
/// unchanged.
pub proof fn lemma_frame_dt_capped(last: u64, now: u64)
    ensures
        spec_frame_dt(elapsed_between(last, now)) <= MAX_FRAME_DT_NANOS,
        elapsed_between(last, now) <= MAX_FRAME_DT_NANOS ==> spec_frame_dt(
            elapsed_between(last, now),
        ) == elapsed_between(last, now),
        elapsed_between(last, now) > MAX_FRAME_DT_NANOS ==> spec_frame_dt(
            elapsed_between(last, now),
        ) == MAX_FRAME_DT_NANOS,
{
}

} // verus!
