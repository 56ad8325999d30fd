//! The decisions of the main loop: the frame rate, when to stop, and when
//! system-wide key presses are ignored because a terminal key just changed
//! a setting. Times are nanoseconds on a monotonic clock.
use vstd::prelude::*;
use crate::app::AppCommand;

verus! {

/// How long system-wide input is ignored after a setting key: 90 ms.
pub const CONTROL_GLOBAL_SUPPRESS_NANOS: u64 = 90_000_000;

/// The frame rate the loop runs at: the requested one, kept from 10 to 120
/// frames a second.
pub open spec fn spec_frame_rate(fps: u16) -> u16 {
    if fps < 10 {
        10
    } else if fps > 120 {
        120
    } else {
        fps
    }
}

/// A rate from 10 to 120 is kept; below it is 10, above it 120.
pub proof fn lemma_frame_rate_clamps(fps: u16)
    ensures
        10 <= fps <= 120 ==> spec_frame_rate(fps) == fps,
        fps < 10 ==> spec_frame_rate(fps) == 10,
        fps > 120 ==> spec_frame_rate(fps) == 120,
{
}

/// The frame rate for a requested `fps`.
pub fn frame_rate(fps: u16) -> (r: u16)
    ensures
        r == spec_frame_rate(fps),
        10 <= r <= 120,
{
    if fps < 10 {
        10
    } else if fps > 120 {
        120
    } else {
        fps
    }
}

/// What the main loop remembers between events.
#[derive(Debug, Clone, Copy, PartialEq, Eq, Structural)]
pub struct LoopControl {
    /// System-wide key presses are ignored until this time, if any.
    pub suppress_until: Option<u64>,
}

impl LoopControl {
    /// Nothing suppressed.
    pub fn new() -> (r: LoopControl)
        ensures
            r.suppress_until is None,
    {
        LoopControl { suppress_until: None }
    }

    /// Takes in the answer of the wall to a terminal key at `now`, and says
    /// whether the loop goes on: it stops on `Quit`; after a setting key it
    /// ignores system-wide input for `CONTROL_GLOBAL_SUPPRESS_NANOS`.
    pub fn after_command(&mut self, command: AppCommand, now: u64) -> (keep_running: bool)
        requires
            command == AppCommand::ControlHandled ==> now + CONTROL_GLOBAL_SUPPRESS_NANOS <= u64::MAX,
        ensures
            keep_running == (command != AppCommand::Quit),
            command == AppCommand::ControlHandled ==> final(self).suppress_until == Some(
                (now + CONTROL_GLOBAL_SUPPRESS_NANOS) as u64,
            ),
            command != AppCommand::ControlHandled ==> *final(self) == *old(self),
    {
        match command {
            AppCommand::Quit => false,
            AppCommand::ControlHandled => {
                self.suppress_until = Some(now + CONTROL_GLOBAL_SUPPRESS_NANOS);
                true
            },
            AppCommand::Continue => true,
        }
    }

    /// Whether a system-wide key press at `now` counts: not while input is
    /// suppressed.
    pub fn accepts_global_input(&self, now: u64) -> (r: bool)
        ensures
            r == !(self.suppress_until matches Some(until) && now < until),
    {
        match self.suppress_until {
            Some(until) => !(now < until),
            None => true,
        }
    }
}

} // verus!
