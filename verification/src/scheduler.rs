//! The consumer-side frame scheduler. It runs once per tick of the main
//! loop and never blocks: it accumulates the wall-clock delta into a timer,
//! holds at most one frame ahead, and releases a frame to the display each
//! time the timer covers one frame duration, keeping the fractional
//! remainder so that pacing does not drift across ticks.

use vstd::prelude::*;
use vstd::arithmetic::div_mod::lemma_fundamental_div_mod_converse;
use crate::frame::Frame;
use crate::frame::MAX_UNITS_PER_SECOND;
use crate::frame::frame_duration;
use crate::frame::spec_frame_duration;

verus! {

/// What one non-blocking poll of the frame channel yielded.
pub enum PollOutcome {
    /// A frame was waiting.
    Next(Frame),
    /// Nothing is waiting but the producer may still send.
    Empty,
    /// The producer's endpoint is gone: end of stream.
    Closed,
}

/// Paces the display of received frames against the source frame rate.
///
/// `consumed * duration <= elapsed` always holds, and the scheduler is
/// exactly `elapsed / duration` frames in whenever it is not starved
/// (see [`FrameScheduler::lemma_paced_consumption`]).
pub struct FrameScheduler {
    /// How many time units make one second; fixed for the session.
    pub units_per_second: u64,
    /// Time accumulated and not yet covered by consumed frames.
    pub timer: u64,
    /// Total time units handed to `advance` since the session began.
    pub elapsed: u64,
    /// How many frames were consumed (displayed) this session.
    pub consumed: u64,
    /// The summed durations of the consumed frames.
    pub consumed_time: u64,
    /// The one frame held ahead, if any; never more than one.
    pub pending: Option<Frame>,
    /// Whether the frame channel is known to be closed.
    pub ended: bool,
}

impl FrameScheduler {
    pub open spec fn wf(self) -> bool {
        &&& 1 <= self.units_per_second <= MAX_UNITS_PER_SECOND
        &&& self.consumed_time + self.timer == self.elapsed
        &&& self.consumed <= self.consumed_time
        &&& (self.pending matches Some(f) ==> f.wf())
        &&& (self.ended ==> self.pending is None)
    }

    /// The display duration of the pending frame, in time units.
    pub open spec fn pending_duration(self) -> int {
        spec_frame_duration(self.units_per_second, self.pending.unwrap().milli_fps)
    }

    /// Whether the pending frame's display time has been reached.
    pub open spec fn due(self) -> bool {
        self.pending is Some && self.timer >= self.pending_duration()
    }

    pub fn new(units_per_second: u64) -> (s: Self)
        requires
            1 <= units_per_second <= MAX_UNITS_PER_SECOND,
        ensures
            s == (FrameScheduler {
                units_per_second,
                timer: 0u64,
                elapsed: 0u64,
                consumed: 0u64,
                consumed_time: 0u64,
                pending: None,
                ended: false,
            }),
            s.wf(),
    {
        FrameScheduler {
            units_per_second,
            timer: 0,
            elapsed: 0,
            consumed: 0,
            consumed_time: 0,
            pending: None,
            ended: false,
        }
    }

    /// Advances the timer by one tick's wall-clock delta.
    pub fn advance(&mut self, dt: u64)
        requires
            old(self).wf(),
            old(self).elapsed + dt <= u64::MAX,
        ensures
            *final(self) == (FrameScheduler {
                timer: (old(self).timer + dt) as u64,
                elapsed: (old(self).elapsed + dt) as u64,
                ..*old(self)
            }),
            final(self).wf(),
    {
        self.timer = self.timer + dt;
        self.elapsed = self.elapsed + dt;
    }

    /// Whether the scheduler wants one non-blocking poll of the channel:
    /// it holds no frame ahead and the channel is not known closed.
    pub fn needs_poll(&self) -> (need: bool)
        ensures
            need == (self.pending is None && !self.ended),
    {
        self.pending.is_none() && !self.ended
    }

    /// Records what a non-blocking poll yielded: a frame becomes the one
    /// frame held ahead; a closed channel marks the stream ended; an empty
    /// poll changes nothing.
    pub fn accept(&mut self, outcome: PollOutcome)
        requires
            old(self).wf(),
            old(self).pending is None,
            !old(self).ended,
            (outcome matches PollOutcome::Next(f) ==> f.wf()),
        ensures
            *final(self) == (match outcome {
                PollOutcome::Next(f) => FrameScheduler { pending: Some(f), ..*old(self) },
                PollOutcome::Empty => *old(self),
                PollOutcome::Closed => FrameScheduler { ended: true, ..*old(self) },
            }),
            final(self).wf(),
    {
        match outcome {
            PollOutcome::Next(f) => {
                self.pending = Some(f);
            },
            PollOutcome::Empty => {},
            PollOutcome::Closed => {
                self.ended = true;
            },
        }
    }

    /// Whether the pending frame is due for display.
    pub fn is_due(&self) -> (due: bool)
        requires
            self.wf(),
        ensures
            due == self.due(),
    {
        match &self.pending {
            Some(f) => {
                let duration = frame_duration(self.units_per_second, f.milli_fps);
                self.timer >= duration
            },
            None => false,
        }
    }

    /// Takes the due pending frame for display, moving the timer on by the
    /// frame's duration and keeping the remainder.
    pub fn take_due(&mut self) -> (f: Frame)
        requires
            old(self).wf(),
            old(self).due(),
        ensures
            f == old(self).pending.unwrap(),
            f.wf(),
            *final(self) == (FrameScheduler {
                timer: (old(self).timer - old(self).pending_duration()) as u64,
                consumed: (old(self).consumed + 1) as u64,
                consumed_time: (old(self).consumed_time + old(self).pending_duration()) as u64,
                pending: None,
                ..*old(self)
            }),
            final(self).wf(),
    {
        let f = self.pending.take().unwrap();
        let duration = frame_duration(self.units_per_second, f.milli_fps);
        self.timer = self.timer - duration;
        self.consumed = self.consumed + 1;
        self.consumed_time = self.consumed_time + duration;
        f
    }

    /// Frame pacing: whenever every consumed frame had the same duration
    /// `d` and the scheduler is caught up (less than one duration is left
    /// in the timer), the number of consumed frames is exactly the elapsed
    /// time divided by `d` — a constant-rate source is displayed at its own
    /// rate, independent of decode speed.
    pub proof fn lemma_paced_consumption(self, d: int)
        requires
            self.wf(),
            d >= 1,
            self.consumed_time == self.consumed * d,
            self.timer < d,
        ensures
            self.consumed == self.elapsed as int / d,
    {
        lemma_fundamental_div_mod_converse(
            self.elapsed as int,
            d,
            self.consumed as int,
            self.timer as int,
        );
    }
}

} // verus!
