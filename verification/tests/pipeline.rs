use gorkitale::controller::PlaybackState;
use gorkitale::frame::frame_duration;
use gorkitale::frame::frame_rate_or_default;
use gorkitale::frame::prepare_buffer;
use gorkitale::frame::convert_rgb_to_rgba;
use gorkitale::scheduler::FrameScheduler;
use gorkitale::scheduler::PollOutcome;
use gorkitale::session::MediaSource;
use gorkitale::session::PlaybackSession;
use gorkitale::session::ProduceOutcome;

fn small_source(frame_count: u32) -> MediaSource {
    MediaSource { exists: true, frame_count, width: 2, height: 2, milli_fps: 30_000 }
}

fn outstanding(s: &PlaybackSession) -> usize {
    s.queue.len() + s.recycle.len() + (if s.held.is_some() { 1 } else { 0 }) + (if s
        .scheduler
        .pending
        .is_some()
    {
        1
    } else {
        0
    })
}

/// Drives the producer until it is idle or blocked, as a fast decode
/// worker would between two consumer ticks.
fn drain_producer(s: &mut PlaybackSession) {
    loop {
        match s.producer_step() {
            ProduceOutcome::Sent => {},
            ProduceOutcome::Blocked | ProduceOutcome::Idle => break,
        }
    }
}

#[test]
fn thirty_fps_ten_sixtieth_ticks_display_five_frames() {
    // A 30 fps source, channel capacity 5: with a time base of 600 units
    // per second one frame lasts 20 units and one 1/60 s tick is 10 units.
    let mut s = PlaybackSession::new(small_source(30), 5, 600, false);
    assert_eq!(frame_duration(600, 30_000), 20);
    s.tick(0); // first tick starts the session
    assert_eq!(s.state, PlaybackState::Initializing);
    for _ in 0..10 {
        drain_producer(&mut s);
        s.tick(10);
    }
    assert_eq!(s.scheduler.consumed, 5);
    assert_eq!(s.state, PlaybackState::Playing);
    // pacing: displayed count is exactly elapsed time over frame duration
    assert_eq!(s.scheduler.elapsed, 100);
    assert_eq!(s.scheduler.consumed, s.scheduler.elapsed / 20);
}

#[test]
fn missing_source_falls_back_without_worker() {
    let source = MediaSource { exists: false, frame_count: 0, width: 2, height: 2, milli_fps: 30_000 };
    let mut s = PlaybackSession::new(source, 5, 600, false);
    let report = s.tick(10);
    assert!(report.entered_fallback);
    assert!(!report.audio_started);
    assert_eq!(s.state, PlaybackState::Fallback);
    assert!(!s.worker_live);
    assert!(!s.display.initialized); // the placeholder stays
    // and the session stays that way, tick after tick
    for _ in 0..5 {
        let r = s.tick(10);
        assert_eq!(s.state, PlaybackState::Fallback);
        assert!(!r.restarted && !r.audio_started && r.displayed == 0);
    }
}

#[test]
fn fourth_send_blocks_on_capacity_three() {
    let mut s = PlaybackSession::new(small_source(100), 3, 600, false);
    s.tick(0);
    assert_eq!(s.producer_step(), ProduceOutcome::Sent);
    assert_eq!(s.producer_step(), ProduceOutcome::Sent);
    assert_eq!(s.producer_step(), ProduceOutcome::Sent);
    // the channel is full: the fourth send blocks and stays blocked
    assert_eq!(s.producer_step(), ProduceOutcome::Blocked);
    assert_eq!(s.producer_step(), ProduceOutcome::Blocked);
    assert!(s.held.is_some());
    assert!(outstanding(&s) <= 5);
    assert!(s.allocations <= 5);
    // one displayed frame frees a slot and the blocked send completes
    drive_one_frame_out(&mut s);
    assert_eq!(s.producer_step(), ProduceOutcome::Sent);
    assert!(s.held.is_none());
    assert!(outstanding(&s) <= 5);
}

fn drive_one_frame_out(s: &mut PlaybackSession) {
    let before: u64 = s.scheduler.consumed;
    while s.scheduler.consumed == before {
        s.tick(5);
    }
}

#[test]
fn end_of_stream_restarts_with_frame_index_zero() {
    // End of stream at frame 120: the next tick passes through
    // Ended -> Restarting -> Initializing, stopping the old audio clip
    // before the new session's clip starts, and decode restarts at 0.
    let mut s = PlaybackSession::new(small_source(120), 5, 600, false);
    s.tick(0);
    assert!(s.audio.live);
    let mut displayed: u64 = 0;
    let mut guard: u32 = 0;
    while s.state != PlaybackState::Ended {
        drain_producer(&mut s);
        let r = s.tick(10);
        displayed += r.displayed;
        guard += 1;
        assert!(guard < 10_000, "stream never ended");
    }
    // every loop of the stream displays the whole stream
    assert_eq!(displayed, 120);
    assert_eq!(s.scheduler.consumed, 120);

    let report = s.tick(10);
    assert!(report.restarted);
    assert!(report.audio_stopped);
    assert!(report.audio_started);
    assert_eq!(s.state, PlaybackState::Initializing);
    assert_eq!(s.next_decode_index, 0);
    assert_eq!(s.scheduler.consumed, 0);
    assert_eq!(s.loops_completed, 1);

    // the second loop displays exactly the same 120 frames again
    let mut displayed2: u64 = 0;
    let mut guard: u32 = 0;
    while s.state != PlaybackState::Ended {
        drain_producer(&mut s);
        let r = s.tick(10);
        displayed2 += r.displayed;
        guard += 1;
        assert!(guard < 10_000, "second loop never ended");
    }
    assert_eq!(displayed2, 120);
}

#[test]
fn buffers_recycle_and_allocations_stop_growing() {
    let mut s = PlaybackSession::new(small_source(1000), 4, 600, false);
    s.tick(0);
    // warm up: let the pool reach its steady state
    for _ in 0..20 {
        drain_producer(&mut s);
        s.tick(10);
    }
    let settled: u64 = s.allocations;
    assert!(settled <= 4 + 2);
    // steady state: buffers come back through the recycle channel and are
    // reused; the allocation counter stops increasing
    for _ in 0..200 {
        drain_producer(&mut s);
        s.tick(10);
        assert_eq!(s.allocations, settled);
        assert!(outstanding(&s) <= 4 + 2);
    }
    assert!(s.scheduler.consumed > 0);
}

#[test]
fn mute_toggle_changes_audio_only() {
    let mut muted = PlaybackSession::new(small_source(60), 5, 600, false);
    let mut control = PlaybackSession::new(small_source(60), 5, 600, false);
    muted.tick(0);
    control.tick(0);
    for i in 0..30 {
        if i == 10 {
            muted.set_muted(true);
            assert!(!muted.audio.live);
            assert!(control.audio.live);
        }
        drain_producer(&mut muted);
        drain_producer(&mut control);
        let a = muted.tick(10);
        let b = control.tick(10);
        // the displayed frame sequence and its timing are unchanged
        assert_eq!(a.displayed, b.displayed);
        assert_eq!(muted.scheduler.consumed, control.scheduler.consumed);
        assert_eq!(muted.scheduler.timer, control.scheduler.timer);
        assert_eq!(muted.state, control.state);
    }
}

#[test]
fn scheduler_paces_and_holds_one_frame_ahead() {
    let mut sched = FrameScheduler::new(600);
    sched.advance(15);
    assert!(sched.needs_poll());
    let frame = gorkitale::frame::Frame {
        timestamp: 0,
        pixels: vec![0u8; 16],
        width: 2,
        height: 2,
        milli_fps: 30_000,
        index: 0,
    };
    sched.accept(PollOutcome::Next(frame));
    assert!(!sched.needs_poll());
    assert!(!sched.is_due()); // 15 < 20: the frame holds until its time
    sched.advance(5);
    assert!(sched.is_due());
    let f = sched.take_due();
    assert_eq!(f.index, 0);
    assert_eq!(sched.timer, 0); // the remainder is kept, here exactly 0
    assert_eq!(sched.consumed, 1);
    sched.accept(PollOutcome::Closed);
    assert!(sched.ended);
}

#[test]
fn slow_consumer_holds_frames_rather_than_skipping() {
    // Ticks that advance the timer by less than a frame duration display
    // nothing; playback lags rather than skips.
    let mut s = PlaybackSession::new(small_source(10), 5, 600, false);
    s.tick(0);
    drain_producer(&mut s);
    let r = s.tick(19);
    assert_eq!(r.displayed, 0);
    let r = s.tick(1);
    assert_eq!(r.displayed, 1);
    // a long stall is caught up frame by frame, in order, without loss
    let r = s.tick(60);
    assert_eq!(r.displayed, 3);
    assert_eq!(s.scheduler.consumed, 4);
}

#[test]
fn probing_rejects_unaddressable_geometry_and_normalizes_rate() {
    let s = MediaSource::opened(true, 120, 320, 180, 0).unwrap();
    assert_eq!(s.milli_fps, 30_000); // a reported rate of zero falls back
    assert_eq!(s.width, 320);
    assert!(s.exists);
    let s = MediaSource::opened(false, 0, 16, 16, 29_970).unwrap();
    assert!(!s.exists);
    assert_eq!(s.milli_fps, 29_970);
    // a frame too large for memory is rejected at probe time
    assert!(MediaSource::opened(true, 1, u32::MAX, u32::MAX, 30_000).is_none());
}

#[test]
fn frame_rate_fallback_and_duration() {
    assert_eq!(frame_rate_or_default(0), 30_000);
    assert_eq!(frame_rate_or_default(-12), 30_000);
    assert_eq!(frame_rate_or_default(29_970), 29_970);
    assert_eq!(frame_rate_or_default(u32::MAX as i64 + 1), 30_000);
    assert_eq!(frame_duration(1_000_000_000, 30_000), 33_333_333);
    assert_eq!(frame_duration(1_000_000_000, 29_970), 33_366_700);
    assert_eq!(frame_duration(600, 24_000), 25);
    // a rate beyond the time base still gives at least one unit
    assert_eq!(frame_duration(1, 2_000_000), 1);
}

#[test]
fn buffers_are_reused_only_at_the_right_size() {
    let (fresh, reused) = prepare_buffer(None, 16);
    assert!(!reused);
    assert_eq!(fresh, vec![0u8; 16]);
    let (kept, reused) = prepare_buffer(Some(vec![7u8; 16]), 16);
    assert!(reused);
    assert_eq!(kept, vec![7u8; 16]);
    let (replaced, reused) = prepare_buffer(Some(vec![7u8; 8]), 16);
    assert!(!reused);
    assert_eq!(replaced, vec![0u8; 16]);
}

#[test]
fn rgb_converts_to_rgba_with_opaque_alpha() {
    let rgb: Vec<u8> = vec![1, 2, 3, 4, 5, 6];
    let mut out: Vec<u8> = vec![9u8; 99]; // a recycled buffer of any size
    convert_rgb_to_rgba(&rgb, &mut out);
    assert_eq!(out, vec![1, 2, 3, 255, 4, 5, 6, 255]);
    let empty: Vec<u8> = Vec::new();
    let mut out2: Vec<u8> = Vec::new();
    convert_rgb_to_rgba(&empty, &mut out2);
    assert!(out2.is_empty());
}
