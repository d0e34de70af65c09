//! Playback lifecycle: the controller states a session moves through, and
//! the audio synchronizer that keeps at most one audio clip live and aligns
//! it with playback start and loop boundaries.

use vstd::prelude::*;

verus! {

/// The states of the playback controller. A session is created
/// `Uninitialized`, starts decoding in `Initializing`, shows frames in
/// `Playing`, reaches `Ended` when the stream is exhausted, passes through
/// `Restarting` while it tears down and loops, and rests in `Fallback`
/// for good when the source cannot be opened.
#[derive(PartialEq, Eq, Structural, Clone, Copy, Debug)]
pub enum PlaybackState {
    Uninitialized,
    Initializing,
    Playing,
    Ended,
    Restarting,
    Fallback,
}

/// The audio side of a session: whether playback is muted, and whether a
/// clip is currently live. A muted session never has a live clip.
#[derive(PartialEq, Eq, Structural, Clone, Copy, Debug)]
pub struct AudioSync {
    pub muted: bool,
    pub live: bool,
}

impl AudioSync {
    pub open spec fn wf(self) -> bool {
        !(self.muted && self.live)
    }

    pub fn new(muted: bool) -> (audio: Self)
        ensures
            audio == (AudioSync { muted, live: false }),
            audio.wf(),
    {
        AudioSync { muted, live: false }
    }

    /// Starts the session's clip unless muted or one is already live.
    /// Returns whether a clip playback begins now.
    pub fn on_session_start(&mut self) -> (started: bool)
        requires
            old(self).wf(),
        ensures
            *final(self) == (AudioSync {
                muted: old(self).muted,
                live: old(self).live || !old(self).muted,
            }),
            started == (!old(self).muted && !old(self).live),
            final(self).wf(),
    {
        if !self.muted && !self.live {
            self.live = true;
            true
        } else {
            false
        }
    }

    /// Stops the current clip at a loop boundary, so that the old and the
    /// new session's audio never overlap. Returns whether a clip had to be
    /// stopped.
    pub fn on_restart(&mut self) -> (stopped: bool)
        ensures
            *final(self) == (AudioSync { muted: old(self).muted, live: false }),
            stopped == old(self).live,
            final(self).wf(),
    {
        let stopped = self.live;
        self.live = false;
        stopped
    }

    /// Sets the mute flag; muting stops a live clip, unmuting does not by
    /// itself start one.
    pub fn set_muted(&mut self, muted: bool)
        ensures
            *final(self) == (AudioSync { muted, live: old(self).live && !muted }),
            final(self).wf(),
    {
        self.muted = muted;
        if muted {
            self.live = false;
        }
    }
}

} // verus!
