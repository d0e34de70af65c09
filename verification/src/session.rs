//! One playback session: the decode producer, the bounded frame channel,
//! the recycle channel, the frame scheduler and the playback controller,
//! composed and supervised. The producer side runs through
//! [`PlaybackSession::producer_step`], the consumer side through
//! [`PlaybackSession::tick`]; frames flow producer → consumer through the
//! bounded queue and emptied buffers flow back through the recycle queue,
//! so that a running session never holds more than `capacity + 2` buffers.

use vstd::prelude::*;
use crate::controller::AudioSync;
use crate::controller::PlaybackState;
use crate::frame::BYTES_PER_PIXEL;
use crate::frame::Frame;
use crate::frame::MAX_UNITS_PER_SECOND;
use crate::frame::frame_duration;
use crate::frame::frame_rate_or_default;
use crate::frame::prepare_buffer;
use crate::frame::spec_frame_bytes;
use crate::frame::spec_frame_duration;
use crate::frame::spec_frame_rate_or_default;
use crate::scheduler::FrameScheduler;
use crate::scheduler::PollOutcome;

verus! {

/// The most channel slots a session may be configured with.
pub const MAX_CAPACITY: usize = 0x10_0000;

/// What a session knows of its media source once the container was probed:
/// whether the path resolved at all, and the stream's geometry and rate.
#[derive(PartialEq, Eq, Structural, Clone, Copy, Debug)]
pub struct MediaSource {
    /// Whether the source path resolved and the container opened.
    pub exists: bool,
    /// How many frames the stream decodes to before it ends.
    pub frame_count: u32,
    pub width: u32,
    pub height: u32,
    /// Frame rate in thousandths of a frame per second, already normalized.
    pub milli_fps: u32,
}

impl MediaSource {
    pub open spec fn wf(self) -> bool {
        &&& self.milli_fps >= 1
        &&& spec_frame_bytes(self.width, self.height) <= usize::MAX
    }

    /// How many bytes one frame of this source occupies.
    pub open spec fn frame_bytes(self) -> int {
        spec_frame_bytes(self.width, self.height)
    }

    /// What probing a container yields: the rate falls back to the default
    /// when the container reports none, and a geometry whose frames cannot
    /// be addressed in memory is rejected.
    pub fn opened(exists: bool, frame_count: u32, width: u32, height: u32, reported_milli_fps: i64)
        -> (source: Option<MediaSource>)
        ensures
            (source is Some) == (spec_frame_bytes(width, height) <= usize::MAX),
            source matches Some(s) ==> s == (MediaSource {
                exists,
                frame_count,
                width,
                height,
                milli_fps: spec_frame_rate_or_default(reported_milli_fps),
            }) && s.wf(),
    {
        let pixels = match (width as usize).checked_mul(height as usize) {
            Some(p) => p,
            None => {
                return None;
            },
        };
        if pixels.checked_mul(BYTES_PER_PIXEL).is_none() {
            return None;
        }
        Some(
            MediaSource {
                exists,
                frame_count,
                width,
                height,
                milli_fps: frame_rate_or_default(reported_milli_fps),
            },
        )
    }
}

/// The consumer's one display target: its size follows the first uploaded
/// frame, and later frames update it in place.
#[derive(PartialEq, Eq, Structural, Clone, Copy, Debug)]
pub struct DisplaySurface {
    pub width: u32,
    pub height: u32,
    /// Whether any frame has been uploaded yet; until then a placeholder
    /// is shown.
    pub initialized: bool,
}

/// What one producer step did.
#[derive(PartialEq, Eq, Structural, Clone, Copy, Debug)]
pub enum ProduceOutcome {
    /// No decode worker is running.
    Idle,
    /// A frame entered the bounded channel.
    Sent,
    /// The channel is full: the send blocks until the consumer frees a
    /// slot. This is the backpressure point.
    Blocked,
}

/// What one consumer tick did, for the caller to act on.
#[derive(PartialEq, Eq, Structural, Clone, Copy, Debug)]
pub struct TickReport {
    /// Frames taken from the channel and uploaded this tick.
    pub displayed: u64,
    /// Whether an audio clip playback begins with this tick.
    pub audio_started: bool,
    /// Whether a live audio clip was stopped this tick.
    pub audio_stopped: bool,
    /// Whether this tick tore a finished session down and began a new one.
    pub restarted: bool,
    /// Whether this tick found the source unopenable and fell back.
    pub entered_fallback: bool,
}

/// One non-blocking receive on the frame channel: the front frame when one
/// is queued; once the worker is gone and nothing is queued, the channel
/// counts as closed.
fn poll_channel(queue: &mut Vec<Frame>, worker_live: bool) -> (outcome: PollOutcome)
    ensures
        old(queue)@.len() > 0 ==> outcome == PollOutcome::Next(old(queue)@[0]) && final(queue)@
            == old(queue)@.subrange(1, old(queue)@.len() as int),
        old(queue)@.len() == 0 ==> final(queue)@ == old(queue)@ && outcome == (if worker_live {
            PollOutcome::Empty
        } else {
            PollOutcome::Closed
        }),
{
    if queue.len() > 0 {
        PollOutcome::Next(queue.remove(0))
    } else if worker_live {
        PollOutcome::Empty
    } else {
        PollOutcome::Closed
    }
}

/// One playback session from initialization to teardown or loop.
pub struct PlaybackSession {
    pub source: MediaSource,
    /// The bounded frame channel's capacity.
    pub capacity: usize,
    pub state: PlaybackState,
    pub audio: AudioSync,
    /// Whether the decode worker is running (alive and not yet exited).
    pub worker_live: bool,
    /// The next frame the worker will decode; restarts at 0 each loop.
    pub next_decode_index: u32,
    /// A converted frame the worker holds while its send blocks on a full
    /// channel: the one send-in-progress slot.
    pub held: Option<Frame>,
    /// The bounded frame channel, in FIFO order.
    pub queue: Vec<Frame>,
    /// The recycle channel: consumed buffers on their way back.
    pub recycle: Vec<Vec<u8>>,
    pub scheduler: FrameScheduler,
    /// How many buffers were freshly allocated this session.
    pub allocations: u64,
    /// How many times playback looped back to the start.
    pub loops_completed: u64,
    pub display: DisplaySurface,
}

impl PlaybackSession {
    /// The display duration of one of this source's frames, in time units.
    pub open spec fn duration(self) -> int {
        spec_frame_duration(self.scheduler.units_per_second, self.source.milli_fps)
    }

    /// Whether a frame belongs to this session's stream.
    pub open spec fn frame_fits(self, f: Frame) -> bool {
        &&& f.wf()
        &&& f.width == self.source.width
        &&& f.height == self.source.height
        &&& f.milli_fps == self.source.milli_fps
    }

    pub open spec fn pending_n(self) -> int {
        if self.scheduler.pending is Some {
            1
        } else {
            0
        }
    }

    pub open spec fn held_n(self) -> int {
        if self.held is Some {
            1
        } else {
            0
        }
    }

    /// Every frame buffer the session currently holds, wherever it is:
    /// queued, being sent, held ahead by the scheduler, or on its way back
    /// through the recycle channel.
    pub open spec fn outstanding_buffers(self) -> int {
        self.queue@.len() + self.recycle@.len() + self.held_n() + self.pending_n()
    }

    /// Buffer accounting: every buffer is sized to the source, buffers are
    /// conserved (allocations equal what is outstanding), and outstanding
    /// buffers never exceed the channel capacity plus the one send in
    /// progress and the one frame held for display.
    pub open spec fn buffers_wf(self) -> bool {
        &&& self.queue@.len() <= self.capacity
        &&& self.allocations == self.outstanding_buffers()
        &&& self.allocations <= self.capacity + 2
        &&& forall|i: int| 0 <= i < self.queue@.len() ==> self.frame_fits(#[trigger] self.queue@[i])
        &&& forall|i: int|
            0 <= i < self.recycle@.len() ==> (#[trigger] self.recycle@[i])@.len()
                == self.source.frame_bytes()
        &&& (self.held matches Some(f) ==> self.frame_fits(f))
        &&& (self.scheduler.pending matches Some(f) ==> self.frame_fits(f))
    }

    /// Frames travel in decode order: the scheduler's frame is the next to
    /// display, the queue continues from it without gaps, the held frame
    /// comes last, and the worker's decode position is their sum.
    pub open spec fn order_wf(self) -> bool {
        &&& (self.scheduler.pending matches Some(f) ==> f.index == self.scheduler.consumed)
        &&& forall|i: int|
            0 <= i < self.queue@.len() ==> (#[trigger] self.queue@[i]).index
                == self.scheduler.consumed + self.pending_n() + i
        &&& (self.held matches Some(f) ==> f.index
            == self.scheduler.consumed + self.pending_n() + self.queue@.len())
        &&& self.next_decode_index == self.scheduler.consumed + self.pending_n()
            + self.queue@.len() + self.held_n()
    }

    /// Every frame of this source has the same duration, so the time the
    /// scheduler has covered is exactly one duration per consumed frame.
    pub open spec fn rate_wf(self) -> bool {
        self.scheduler.consumed_time == self.scheduler.consumed * self.duration()
    }

    /// How the lifecycle state constrains the rest of the session.
    pub open spec fn lifecycle_wf(self) -> bool {
        &&& self.next_decode_index <= self.source.frame_count
        &&& (self.state is Playing ==> self.scheduler.consumed >= 1)
        &&& ((self.state is Uninitialized || self.state is Initializing)
            ==> self.scheduler.consumed == 0)
        &&& (self.state is Ended ==> self.scheduler.ended && self.scheduler.pending is None)
        &&& (self.scheduler.ended ==> !self.worker_live && self.queue@.len() == 0
            && self.held is None && self.next_decode_index == self.source.frame_count)
        &&& (self.worker_live <==> ((self.state is Initializing || self.state is Playing)
            && self.source.exists
            && (self.next_decode_index < self.source.frame_count || self.held is Some)))
        &&& (self.state is Playing ==> self.source.exists)
        &&& (self.state is Fallback ==> !self.source.exists)
        &&& (!self.source.exists ==> (self.state is Uninitialized || self.state is Fallback))
        &&& (!self.source.exists ==> self.next_decode_index == 0 && self.queue@.len() == 0
            && self.held is None && self.scheduler.pending is None && !self.scheduler.ended
            && !self.display.initialized)
        &&& ((self.state is Uninitialized || self.state is Restarting)
            ==> self.scheduler.elapsed == 0 && self.scheduler.consumed == 0
            && self.scheduler.pending is None && !self.scheduler.ended && self.queue@.len() == 0
            && self.held is None && self.next_decode_index == 0 && self.allocations == 0
            && !self.worker_live && !self.audio.live)
    }

    /// A session is well formed in every reachable state; every operation
    /// below preserves this.
    pub open spec fn wf(self) -> bool {
        &&& self.source.wf()
        &&& 1 <= self.capacity <= MAX_CAPACITY
        &&& self.scheduler.wf()
        &&& self.audio.wf()
        &&& self.buffers_wf()
        &&& self.order_wf()
        &&& self.rate_wf()
        &&& self.lifecycle_wf()
    }

    /// Creates a session around a probed source. Nothing runs until the
    /// first tick.
    pub fn new(source: MediaSource, capacity: usize, units_per_second: u64, muted: bool) -> (s:
        Self)
        requires
            source.wf(),
            1 <= capacity <= MAX_CAPACITY,
            1 <= units_per_second <= MAX_UNITS_PER_SECOND,
        ensures
            s.source == source,
            s.capacity == capacity,
            s.state is Uninitialized,
            s.audio == (AudioSync { muted, live: false }),
            s.scheduler == (FrameScheduler {
                units_per_second,
                timer: 0u64,
                elapsed: 0u64,
                consumed: 0u64,
                consumed_time: 0u64,
                pending: None,
                ended: false,
            }),
            s.queue@ == Seq::<Frame>::empty(),
            s.recycle@ == Seq::<Vec<u8>>::empty(),
            !s.worker_live && s.held is None && s.next_decode_index == 0 && s.allocations == 0
                && s.loops_completed == 0 && !s.display.initialized,
            s.wf(),
    {
        PlaybackSession {
            source,
            capacity,
            state: PlaybackState::Uninitialized,
            audio: AudioSync::new(muted),
            worker_live: false,
            next_decode_index: 0,
            held: None,
            queue: Vec::new(),
            recycle: Vec::new(),
            scheduler: FrameScheduler::new(units_per_second),
            allocations: 0,
            loops_completed: 0,
            display: DisplaySurface { width: 0, height: 0, initialized: false },
        }
    }

    /// Mute toggling is orthogonal to playback: it stops or suppresses the
    /// audio clip and changes nothing about decoding, the channels, the
    /// scheduler or the displayed frames.
    pub fn set_muted(&mut self, muted: bool)
        requires
            old(self).wf(),
        ensures
            *final(self) == (PlaybackSession {
                audio: AudioSync { muted, live: old(self).audio.live && !muted },
                ..*old(self)
            }),
            final(self).wf(),
    {
        self.audio.set_muted(muted);
    }

    /// One step of the decode worker: completes a blocked send if the
    /// channel has room again, and otherwise decodes the next frame into a
    /// buffer — a recycled one when the recycle channel offers one of the
    /// right size, a fresh allocation only otherwise — and sends it. A full
    /// channel blocks the send; that is the only place the producer stalls.
    /// The worker exits (and so closes its end of the channel) once the
    /// last frame has been sent.
    ///
    /// The buffer stands for the frame's pixels; the real worker fills it
    /// from the decoded image with [`crate::frame::convert_rgb_to_rgba`].
    pub fn producer_step(&mut self) -> (outcome: ProduceOutcome)
        requires
            old(self).wf(),
        ensures
            final(self).wf(),
            final(self).source == old(self).source,
            final(self).capacity == old(self).capacity,
            final(self).state == old(self).state,
            final(self).audio == old(self).audio,
            final(self).scheduler == old(self).scheduler,
            final(self).loops_completed == old(self).loops_completed,
            final(self).display == old(self).display,
            !old(self).worker_live ==> *final(self) == *old(self) && outcome is Idle,
            old(self).worker_live && old(self).held is Some && old(self).queue@.len()
                >= old(self).capacity ==> *final(self) == *old(self) && outcome is Blocked,
            old(self).worker_live && old(self).held is Some && old(self).queue@.len()
                < old(self).capacity ==> outcome is Sent && final(self).held is None
                && final(self).queue@ == old(self).queue@.push(old(self).held.unwrap())
                && final(self).recycle@ == old(self).recycle@ && final(self).allocations
                == old(self).allocations && final(self).next_decode_index
                == old(self).next_decode_index,
            old(self).worker_live && old(self).held is None ==> {
                &&& final(self).next_decode_index == old(self).next_decode_index + 1
                &&& (old(self).recycle@.len() > 0 ==> final(self).allocations
                    == old(self).allocations && final(self).recycle@
                    == old(self).recycle@.drop_first())
                &&& (old(self).recycle@.len() == 0 ==> final(self).allocations
                    == old(self).allocations + 1 && final(self).recycle@ == old(self).recycle@)
                &&& (old(self).queue@.len() < old(self).capacity ==> outcome is Sent
                    && final(self).held is None && final(self).queue@.len()
                    == old(self).queue@.len() + 1 && final(self).queue@.last().index
                    == old(self).next_decode_index)
                &&& (old(self).queue@.len() >= old(self).capacity ==> outcome is Blocked
                    && final(self).queue@ == old(self).queue@ && final(self).held is Some
                    && final(self).held.unwrap().index == old(self).next_decode_index)
            },
    {
        if !self.worker_live {
            return ProduceOutcome::Idle;
        }
        if self.held.is_some() {
            if self.queue.len() < self.capacity {
                let f = self.held.take().unwrap();
                self.queue.push(f);
                if self.next_decode_index == self.source.frame_count {
                    self.worker_live = false;
                }
                ProduceOutcome::Sent
            } else {
                ProduceOutcome::Blocked
            }
        } else {
            let bytes: usize = (self.source.width as usize) * (self.source.height as usize)
                * BYTES_PER_PIXEL;
            let recycled: Option<Vec<u8>> = if self.recycle.len() > 0 {
                Some(self.recycle.remove(0))
            } else {
                None
            };
            let (buffer, reused) = prepare_buffer(recycled, bytes);
            if !reused {
                self.allocations = self.allocations + 1;
            }
            let duration = frame_duration(self.scheduler.units_per_second, self.source.milli_fps);
            let timestamp: u64 = match (self.next_decode_index as u64).checked_mul(duration) {
                Some(t) => t,
                None => u64::MAX,
            };
            let f = Frame {
                timestamp,
                pixels: buffer,
                width: self.source.width,
                height: self.source.height,
                milli_fps: self.source.milli_fps,
                index: self.next_decode_index as u64,
            };
            self.next_decode_index = self.next_decode_index + 1;
            if self.queue.len() < self.capacity {
                self.queue.push(f);
                if self.next_decode_index == self.source.frame_count {
                    self.worker_live = false;
                }
                ProduceOutcome::Sent
            } else {
                self.held = Some(f);
                ProduceOutcome::Blocked
            }
        }
    }

    /// Brings a torn-down session up: the source's existence was checked
    /// before any worker spawns, so a missing source falls back right here
    /// and no thread is ever left running; otherwise the worker starts and
    /// the paired audio clip starts with it unless muted. Returns whether
    /// audio started and whether the session fell back.
    fn start_session(&mut self) -> (r: (bool, bool))
        requires
            old(self).wf(),
            old(self).state is Uninitialized || old(self).state is Restarting,
        ensures
            final(self).wf(),
            *final(self) == (PlaybackSession {
                state: if old(self).source.exists {
                    PlaybackState::Initializing
                } else {
                    PlaybackState::Fallback
                },
                audio: if old(self).source.exists {
                    AudioSync { muted: old(self).audio.muted, live: !old(self).audio.muted }
                } else {
                    old(self).audio
                },
                worker_live: old(self).source.exists && old(self).source.frame_count > 0,
                ..*old(self)
            }),
            r.0 == (old(self).source.exists && !old(self).audio.muted),
            r.1 == !old(self).source.exists,
    {
        if !self.source.exists {
            self.state = PlaybackState::Fallback;
            (false, true)
        } else {
            self.worker_live = self.source.frame_count > 0;
            self.state = PlaybackState::Initializing;
            let started = self.audio.on_session_start();
            (started, false)
        }
    }

    /// One consumer tick while media runs: accumulate the wall-clock
    /// delta, fetch a frame ahead if none is held, and display frames while
    /// the timer covers their duration, recycling each buffer as it leaves
    /// the display. Never blocks; a closed channel with no frame pending
    /// ends the session.
    fn media_step(&mut self, dt: u64) -> (report: TickReport)
        requires
            old(self).wf(),
            old(self).state is Initializing || old(self).state is Playing,
            old(self).scheduler.elapsed + dt <= u64::MAX,
        ensures
            final(self).wf(),
            final(self).source == old(self).source,
            final(self).capacity == old(self).capacity,
            final(self).audio == old(self).audio,
            final(self).worker_live == old(self).worker_live,
            final(self).next_decode_index == old(self).next_decode_index,
            final(self).held == old(self).held,
            final(self).allocations == old(self).allocations,
            final(self).loops_completed == old(self).loops_completed,
            final(self).scheduler.units_per_second == old(self).scheduler.units_per_second,
            final(self).scheduler.elapsed == old(self).scheduler.elapsed + dt,
            final(self).scheduler.consumed >= old(self).scheduler.consumed,
            report.displayed == final(self).scheduler.consumed - old(self).scheduler.consumed,
            !report.audio_started && !report.audio_stopped && !report.restarted
                && !report.entered_fallback,
            // pacing: after a tick the pending frame is never already due
            (final(self).scheduler.pending is Some ==> final(self).scheduler.timer
                < final(self).duration()),
            // the consumer starves only when the channel is drained
            (final(self).scheduler.pending is None ==> final(self).queue@.len() == 0),
            // lifecycle: the channel closing with nothing pending ends the
            // session; otherwise the first displayed frame starts playback
            final(self).state == (if final(self).scheduler.ended {
                PlaybackState::Ended
            } else if final(self).scheduler.consumed >= 1 {
                PlaybackState::Playing
            } else {
                PlaybackState::Initializing
            }),
            (report.displayed > 0 ==> final(self).display == (DisplaySurface {
                width: old(self).source.width,
                height: old(self).source.height,
                initialized: true,
            })),
            (report.displayed == 0 ==> final(self).display == old(self).display),
    {
        let ghost entry = *old(self);
        self.scheduler.advance(dt);
        if self.scheduler.needs_poll() {
            let outcome = poll_channel(&mut self.queue, self.worker_live);
            self.scheduler.accept(outcome);
        }
        let mut displayed: u64 = 0;
        while self.scheduler.is_due()
            invariant
                self.source == entry.source,
                self.capacity == entry.capacity,
                self.state == entry.state,
                self.audio == entry.audio,
                self.worker_live == entry.worker_live,
                self.next_decode_index == entry.next_decode_index,
                self.held == entry.held,
                self.allocations == entry.allocations,
                self.loops_completed == entry.loops_completed,
                self.source.wf(),
                self.source.exists,
                1 <= self.capacity <= MAX_CAPACITY,
                self.scheduler.wf(),
                self.audio.wf(),
                self.buffers_wf(),
                self.order_wf(),
                self.rate_wf(),
                self.next_decode_index <= self.source.frame_count,
                self.state is Initializing || self.state is Playing,
                (self.scheduler.ended ==> !self.worker_live && self.queue@.len() == 0
                    && self.held is None
                    && self.next_decode_index == self.source.frame_count),
                (self.worker_live <==> (self.next_decode_index < self.source.frame_count
                    || self.held is Some)),
                (self.scheduler.pending is None ==> self.queue@.len() == 0),
                self.scheduler.units_per_second == entry.scheduler.units_per_second,
                self.scheduler.elapsed == entry.scheduler.elapsed + dt,
                self.scheduler.consumed >= entry.scheduler.consumed,
                displayed == self.scheduler.consumed - entry.scheduler.consumed,
                (displayed > 0 ==> self.display == (DisplaySurface {
                    width: entry.source.width,
                    height: entry.source.height,
                    initialized: true,
                })),
                (displayed == 0 ==> self.display == entry.display),
            decreases self.queue@.len() + self.pending_n(),
        {
            let ghost consumed_before: int = self.scheduler.consumed as int;
            let ghost d: int = self.duration();
            let f = self.scheduler.take_due();
            proof {
                assert((consumed_before + 1) * d == consumed_before * d + d) by (nonlinear_arith);
            }
            self.display = DisplaySurface { width: f.width, height: f.height, initialized: true };
            self.recycle.push(f.pixels);
            displayed = displayed + 1;
            if self.scheduler.needs_poll() {
                let outcome = poll_channel(&mut self.queue, self.worker_live);
                self.scheduler.accept(outcome);
            }
        }
        if self.scheduler.ended {
            self.state = PlaybackState::Ended;
        } else if self.scheduler.consumed >= 1 {
            self.state = PlaybackState::Playing;
        } else {
            self.state = PlaybackState::Initializing;
        }
        TickReport {
            displayed,
            audio_started: false,
            audio_stopped: false,
            restarted: false,
            entered_fallback: false,
        }
    }

    /// One tick of the main loop: drives the whole lifecycle.
    ///
    /// The first tick starts the session (or falls back when the source is
    /// missing); while media runs, a tick paces and displays frames; the
    /// tick after the stream ends stops the audio clip, tears the session
    /// down and starts the next loop, with the frame index back at 0; a
    /// fallen-back session stays as it is. The consumer never blocks.
    pub fn tick(&mut self, dt: u64) -> (report: TickReport)
        requires
            old(self).wf(),
            old(self).scheduler.elapsed + dt <= u64::MAX,
        ensures
            final(self).wf(),
            final(self).source == old(self).source,
            final(self).capacity == old(self).capacity,
            final(self).audio.muted == old(self).audio.muted,
            final(self).scheduler.units_per_second == old(self).scheduler.units_per_second,
            // a fallen-back session stays a placeholder and does nothing
            old(self).state is Fallback ==> *final(self) == *old(self) && report == (TickReport {
                displayed: 0u64,
                audio_started: false,
                audio_stopped: false,
                restarted: false,
                entered_fallback: false,
            }),
            // the first tick starts the session: a missing source falls
            // back before any worker spawns; otherwise the worker starts,
            // and the audio clip starts with it unless muted
            (old(self).state is Uninitialized || old(self).state is Restarting) ==> {
                &&& *final(self) == (PlaybackSession {
                    state: if old(self).source.exists {
                        PlaybackState::Initializing
                    } else {
                        PlaybackState::Fallback
                    },
                    audio: if old(self).source.exists {
                        AudioSync { muted: old(self).audio.muted, live: !old(self).audio.muted }
                    } else {
                        old(self).audio
                    },
                    worker_live: old(self).source.exists && old(self).source.frame_count > 0,
                    ..*old(self)
                })
                &&& report == (TickReport {
                    displayed: 0u64,
                    audio_started: old(self).source.exists && !old(self).audio.muted,
                    audio_stopped: false,
                    restarted: false,
                    entered_fallback: !old(self).source.exists,
                })
            },
            // the tick after the stream ended loops: it stops the audio
            // clip, tears the session down and starts the next one, whose
            // own clip then starts unless muted — the two never overlap
            old(self).state is Ended ==> {
                &&& final(self).state is Initializing
                &&& final(self).audio == (AudioSync {
                    muted: old(self).audio.muted,
                    live: !old(self).audio.muted,
                })
                &&& final(self).scheduler == (FrameScheduler {
                    units_per_second: old(self).scheduler.units_per_second,
                    timer: 0u64,
                    elapsed: 0u64,
                    consumed: 0u64,
                    consumed_time: 0u64,
                    pending: None,
                    ended: false,
                })
                &&& final(self).queue@.len() == 0
                &&& final(self).recycle@.len() == 0
                &&& final(self).held is None
                &&& final(self).next_decode_index == 0
                &&& final(self).allocations == 0
                &&& final(self).worker_live == (old(self).source.frame_count > 0)
                &&& final(self).display == old(self).display
                &&& final(self).loops_completed == (if old(self).loops_completed < u64::MAX {
                    old(self).loops_completed + 1
                } else {
                    old(self).loops_completed as int
                })
                &&& report == (TickReport {
                    displayed: 0u64,
                    audio_started: !old(self).audio.muted,
                    audio_stopped: old(self).audio.live,
                    restarted: true,
                    entered_fallback: false,
                })
            },
            // while media runs, a tick paces and displays frames
            (old(self).state is Initializing || old(self).state is Playing) ==> {
                &&& final(self).audio == old(self).audio
                &&& final(self).worker_live == old(self).worker_live
                &&& final(self).next_decode_index == old(self).next_decode_index
                &&& final(self).held == old(self).held
                &&& final(self).allocations == old(self).allocations
                &&& final(self).loops_completed == old(self).loops_completed
                &&& final(self).scheduler.elapsed == old(self).scheduler.elapsed + dt
                &&& final(self).scheduler.consumed >= old(self).scheduler.consumed
                &&& report.displayed == final(self).scheduler.consumed
                    - old(self).scheduler.consumed
                &&& !report.audio_started && !report.audio_stopped && !report.restarted
                    && !report.entered_fallback
                &&& (final(self).scheduler.pending is Some ==> final(self).scheduler.timer
                    < final(self).duration())
                &&& (final(self).scheduler.pending is None ==> final(self).queue@.len() == 0)
                &&& final(self).state == (if final(self).scheduler.ended {
                    PlaybackState::Ended
                } else if final(self).scheduler.consumed >= 1 {
                    PlaybackState::Playing
                } else {
                    PlaybackState::Initializing
                })
                &&& (report.displayed > 0 ==> final(self).display == (DisplaySurface {
                    width: old(self).source.width,
                    height: old(self).source.height,
                    initialized: true,
                }))
                &&& (report.displayed == 0 ==> final(self).display == old(self).display)
            },
    {
        match self.state {
            PlaybackState::Fallback => TickReport {
                displayed: 0,
                audio_started: false,
                audio_stopped: false,
                restarted: false,
                entered_fallback: false,
            },
            PlaybackState::Uninitialized | PlaybackState::Restarting => {
                let (started, fell) = self.start_session();
                TickReport {
                    displayed: 0,
                    audio_started: started,
                    audio_stopped: false,
                    restarted: false,
                    entered_fallback: fell,
                }
            },
            PlaybackState::Ended => {
                let stopped = self.audio.on_restart();
                self.queue.clear();
                self.recycle.clear();
                self.held = None;
                self.next_decode_index = 0;
                self.allocations = 0;
                let units_per_second = self.scheduler.units_per_second;
                self.scheduler = FrameScheduler::new(units_per_second);
                if self.loops_completed < u64::MAX {
                    self.loops_completed = self.loops_completed + 1;
                }
                self.worker_live = false;
                self.state = PlaybackState::Restarting;
                let (started, _fell) = self.start_session();
                TickReport {
                    displayed: 0,
                    audio_started: started,
                    audio_stopped: stopped,
                    restarted: true,
                    entered_fallback: false,
                }
            },
            PlaybackState::Initializing | PlaybackState::Playing => self.media_step(dt),
        }
    }

    /// Bounded memory: a well-formed session never holds more frame
    /// buffers — queued, in flight or recycling — than the channel
    /// capacity plus two, however long it has been running.
    pub proof fn lemma_bounded_buffers(self)
        requires
            self.wf(),
        ensures
            self.outstanding_buffers() <= self.capacity + 2,
            self.allocations <= self.capacity + 2,
    {
    }

    /// Every loop of the stream displays the whole stream: when a session
    /// reaches its end, exactly the source's frame count was displayed.
    pub proof fn lemma_ended_displays_all(self)
        requires
            self.wf(),
            self.state is Ended,
        ensures
            self.scheduler.consumed == self.source.frame_count,
    {
    }

    /// Frame pacing: whenever the decoder keeps up (a frame is waiting and
    /// is not yet due), the number of displayed frames is exactly the
    /// elapsed time divided by the frame duration — playback advances at
    /// the source's rate, whatever the decode speed, with the fractional
    /// remainder carried in the timer.
    pub proof fn lemma_paced_display(self)
        requires
            self.wf(),
            self.scheduler.pending is Some,
            self.scheduler.timer < self.duration(),
        ensures
            self.scheduler.consumed == self.scheduler.elapsed as int / self.duration(),
    {
        self.scheduler.lemma_paced_consumption(self.duration());
    }

    /// A source that cannot be opened is never played, leaves no decode
    /// worker running, and the display never leaves the placeholder.
    pub proof fn lemma_missing_source_never_plays(self)
        requires
            self.wf(),
            !self.source.exists,
        ensures
            !(self.state is Playing),
            !self.worker_live,
            !self.display.initialized,
    {
    }
}

} // verus!
