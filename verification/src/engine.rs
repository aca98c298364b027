//! The view state machine's transition values and the fixed-interval frame
//! clock that drives the outer loop.
use vstd::prelude::*;

use crate::shared::BgSet;

verus! {

/// The view installed after a transition, together with the resources the
/// outgoing view hands over.
#[derive(Clone, Copy, Debug, PartialEq, Eq, Structural)]
pub enum NextView {
    MainMenu(BgSet),
}

/// What the active view tells the outer loop to do before the next frame.
#[derive(Clone, Copy, Debug, PartialEq, Eq, Structural)]
pub enum ViewAction {
    /// Stay on this view; the frame has been prepared.
    Continue,
    /// Terminate the loop.
    Quit,
    /// Drop the current view and install the named one.
    ChangeView(NextView),
}

/// The target interval between frames, in milliseconds.
pub const FRAME_INTERVAL_MS: u64 = 1000 / 60;

/// What the loop does with the current tick.
#[derive(Clone, Copy, Debug, PartialEq, Eq, Structural)]
pub enum FrameStep {
    /// Too early: sleep this many milliseconds and poll again.
    Wait { delay: u64 },
    /// Advance one logical frame by `elapsed` micro-seconds; `fps_report`
    /// carries the frame count once a second.
    Frame { elapsed: i64, fps_report: Option<u16> },
}

/// Frame timing state: decides, from the wall clock alone, whether to wait
/// or to advance, and meters frames per second.
#[derive(Clone, Copy, Debug, PartialEq, Eq, Structural)]
pub struct FrameClock {
    before: u64,
    last_second: u64,
    fps: u16,
}

impl FrameClock {
    /// The time (milliseconds) of the last processed frame.
    pub closed spec fn before(&self) -> u64 {
        self.before
    }

    /// The time the frame counter was last reported.
    pub closed spec fn last_second(&self) -> u64 {
        self.last_second
    }

    /// Frames processed since the last report.
    pub closed spec fn fps(&self) -> u16 {
        self.fps
    }

    pub open spec fn valid(&self) -> bool {
        self.last_second() <= self.before()
    }

    /// A clock starting at the given wall time (milliseconds).
    pub fn new(now: u64) -> (r: FrameClock)
        ensures
            r.before() == now,
            r.last_second() == now,
            r.fps() == 0,
            r.valid(),
    {
        FrameClock { before: now, last_second: now, fps: 0 }
    }

    /// Decide what to do at wall time `now` (milliseconds): wait out the
    /// remainder of a too-short interval, or advance one frame with the
    /// measured elapsed time. The frame counter saturates rather than wrap
    /// should a second ever see sixty-five thousand frames.
    pub fn tick(&mut self, now: u64) -> (step: FrameStep)
        requires
            old(self).valid(),
            now >= old(self).before(),
            now - old(self).before() <= 1_000_000_000,
        ensures
            final(self).valid(),
            ({
                let dt = now - old(self).before();
                if dt < FRAME_INTERVAL_MS {
                    &&& step == (FrameStep::Wait { delay: (FRAME_INTERVAL_MS - dt) as u64 })
                    &&& *final(self) == *old(self)
                } else {
                    let report = now - old(self).last_second() > 1000;
                    let counted: u16 = if old(self).fps() < u16::MAX {
                        (old(self).fps() + 1) as u16
                    } else {
                        u16::MAX
                    };
                    &&& step == (FrameStep::Frame {
                        elapsed: (dt * 1000) as i64,
                        fps_report: if report {
                            Some(counted)
                        } else {
                            None
                        },
                    })
                    &&& final(self).before() == now
                    &&& final(self).fps() == if report {
                        0
                    } else {
                        counted
                    }
                    &&& final(self).last_second() == if report {
                        now
                    } else {
                        old(self).last_second()
                    }
                }
            }),
    {
        let dt = now - self.before;
        if dt < FRAME_INTERVAL_MS {
            return FrameStep::Wait { delay: FRAME_INTERVAL_MS - dt };
        }

        self.before = now;
        let counted: u16 = if self.fps < u16::MAX {
            self.fps + 1
        } else {
            u16::MAX
        };
        self.fps = counted;

        let elapsed = (dt as i64) * 1000;
        if now - self.last_second > 1000 {
            self.last_second = now;
            self.fps = 0;
            FrameStep::Frame { elapsed, fps_report: Some(counted) }
        } else {
            FrameStep::Frame { elapsed, fps_report: None }
        }
    }
}

} // verus!
