use stream_client::audio::{handover_after, queue_latest_audio, Handover};
use stream_client::channel::{AudioQueue, SendOutcome};
use stream_client::frames::{FrameDebugTiming, Platform, VideoFrameBuffer};
use stream_client::playout::{
    adaptive_delay_ceiling, frame_id_is_newer, PlayoutSettings, VideoPlayoutBuffer,
};
use stream_client::profile::{
    frame_matches_profile, VideoProfileState, VideoProfileUpdate, LIVE_DECODE_OUTPUT_TIMEOUT_NANOS,
};
use stream_client::protocol::{
    AudioPacket, CompletedFrame, FrameTiming, StreamConfig, VideoChromaSampling, VideoCodec,
};
use stream_client::time::{Duration, Instant};

const ORIGIN: u64 = 1_000_000_000_000;

fn start() -> Instant {
    Instant::from_nanos(ORIGIN)
}

fn after(t: Instant, millis: u64) -> Instant {
    t.saturating_add(Duration::from_millis(millis))
}

fn settings() -> PlayoutSettings {
    PlayoutSettings { forced_delay_millis: None, max_frames: None, platform: Platform::Linux }
}

fn stream_config(codec: VideoCodec, framerate: u16) -> StreamConfig {
    StreamConfig {
        video_epoch: 1,
        codec,
        width: 1920,
        height: 1080,
        framerate,
        audio_sample_rate: 48_000,
        audio_channels: 2,
        hdr: false,
        chroma: VideoChromaSampling::Yuv420,
        packet_duration_ms: 5,
    }
}

#[test]
fn live_profile_change_replaces_decoder() {
    let mut initial = stream_config(VideoCodec::Hevc, 120);
    initial.chroma = VideoChromaSampling::Yuv444;
    initial.hdr = true;
    let state = VideoProfileState::new(initial);

    assert_eq!(
        state.classify(stream_config(VideoCodec::H264, 60)),
        VideoProfileUpdate::ReplaceDecoder
    );
}

#[test]
fn fps_only_profile_change_keeps_decoder() {
    let mut state = VideoProfileState::new(stream_config(VideoCodec::Hevc, 120));
    state.note_output();
    let generation = state.generation;
    let transition = state.apply(stream_config(VideoCodec::Hevc, 60), start());

    assert_eq!(transition.update, VideoProfileUpdate::FrameRateOnly);
    assert!(transition.build.is_none());
    assert_eq!(state.generation, generation);
    assert!(state.output_seen);
    assert!(state.output_deadline.is_none());
    assert_eq!(state.config.framerate, 60);

    let mut playout = VideoPlayoutBuffer::new(120, settings());
    assert!(playout.enqueue(frame_with_id(1), start()).is_none());
    let scheduled = playout.last_scheduled_at;
    playout.update_framerate(60, settings());
    assert_eq!(playout.queued.len(), 1);
    assert_eq!(playout.last_scheduled_at, scheduled);
    assert_eq!(
        playout.frame_interval.map(|interval| u128::from(interval.nanos)),
        Some(std::time::Duration::from_secs_f64(1.0 / 60.0).as_nanos())
    );
}

#[test]
fn stale_decoder_build_result_is_rejected() {
    let now = start();
    let mut state = VideoProfileState::new(stream_config(VideoCodec::H264, 60));
    let mut hevc = stream_config(VideoCodec::Hevc, 60);
    hevc.video_epoch = 2;
    let stale = state.apply(hevc, now).build.expect("HEVC build");
    let mut av1 = stream_config(VideoCodec::Av1, 60);
    av1.video_epoch = 3;
    let latest = state.apply(av1, after(now, 1)).build.expect("AV1 build");

    assert!(!state.accept_build(stale, after(now, 2)));
    assert!(state.accept_build(latest, after(now, 3)));
    assert_eq!(state.config, av1);
}

#[test]
fn replacement_runtime_no_output_deadline_is_per_epoch() {
    let now = start();
    let mut state = VideoProfileState::new(stream_config(VideoCodec::H264, 60));
    let mut replacement = stream_config(VideoCodec::Hevc, 60);
    replacement.video_epoch = 2;
    let token = state.apply(replacement, now).build.expect("replacement build");
    let opened_at = after(now, 25);
    assert!(state.accept_build(token, opened_at));

    let deadline = opened_at.saturating_add(Duration::from_nanos(LIVE_DECODE_OUTPUT_TIMEOUT_NANOS));
    assert!(!state.output_deadline_expired(Instant::from_nanos(deadline.nanos - 1)));
    assert!(state.output_deadline_expired(deadline));
    state.note_output();
    assert!(!state.output_deadline_expired(deadline));
}

#[test]
fn epoch_discontinuity_resets_decode_and_all_playout_time_state() {
    let now = start();
    let mut state = VideoProfileState::new(stream_config(VideoCodec::H264, 60));
    state.note_output();
    let mut next = state.config;
    next.video_epoch += 1;
    let transition = state.apply(next, now);

    assert_eq!(transition.update, VideoProfileUpdate::EpochReset);
    assert!(transition.build.is_none());
    assert!(!state.output_seen);
    assert!(state.output_deadline.is_some());

    let mut playout = VideoPlayoutBuffer::new(60, settings());
    assert!(playout.enqueue(frame_with_id(9), now).is_none());
    playout.jitter = 12_000_000 * 65_536;
    playout.last_arrival = Some(now);
    playout.last_presented_frame_id = Some(8);
    let dropped = playout.reset_for_discontinuity(60, settings());

    assert_eq!(dropped.len(), 1);
    assert!(playout.queued.is_empty());
    assert_eq!(playout.jitter, 0);
    assert!(playout.last_arrival.is_none());
    assert!(playout.last_scheduled_at.is_none());
    assert!(playout.last_presented_frame_id.is_none());
}

#[test]
fn frame_epoch_must_match_accepted_profile() {
    let profile = VideoProfileState::new(stream_config(VideoCodec::H264, 60));
    let frame = CompletedFrame {
        frame_id: 1,
        video_epoch: profile.config.video_epoch + 1,
        data: Vec::new(),
        timing: FrameTiming { capture_ts_micros: 0, send_ts_micros: 0 },
        frame_type: 1,
    };

    assert!(!frame_matches_profile(&frame, &profile));
    assert!(frame_matches_profile(
        &CompletedFrame { video_epoch: profile.config.video_epoch, ..frame },
        &profile
    ));
}

fn frame_with_id(frame_id: u32) -> VideoFrameBuffer {
    VideoFrameBuffer {
        debug_timing: Some(FrameDebugTiming { frame_id, ..FrameDebugTiming::default() }),
        ..VideoFrameBuffer::default()
    }
}

#[test]
fn bounded_audio_handoff_evicts_oldest_packet() {
    let (tx, rx) = crossbeam_channel::bounded(3);
    let drop_rx = rx.clone();
    let mut queue = AudioQueue::new(tx, drop_rx);
    for seq in 1..=5 {
        let rest = queue_latest_audio(
            &mut queue,
            AudioPacket { seq, data: vec![seq as u8], redundant_prev: Vec::new() },
        );
        assert!(matches!(rest, Handover::Queued));
    }

    assert_eq!(rx.try_iter().map(|packet| packet.seq).collect::<Vec<_>>(), vec![3, 4, 5]);
}

#[test]
fn audio_for_nobody_is_dropped() {
    let (tx, rx) = crossbeam_channel::bounded::<u8>(1);
    let (_other_tx, other_rx) = crossbeam_channel::bounded::<u8>(1);
    drop(rx);
    let mut queue = AudioQueue::new(tx, other_rx);
    assert!(matches!(queue_latest_audio(&mut queue, 7), Handover::Dropped));
}

#[test]
fn a_full_channel_gives_up_its_oldest_packet() {
    let (tx, rx) = crossbeam_channel::bounded::<u8>(2);
    let mut queue = AudioQueue::new(tx, rx.clone());
    for packet in 1..=2 {
        assert!(matches!(queue_latest_audio(&mut queue, packet), Handover::Queued));
    }
    assert_eq!(rx.len(), 2);
    assert!(matches!(queue_latest_audio(&mut queue, 3), Handover::Queued));
    assert_eq!(rx.try_iter().collect::<Vec<_>>(), vec![2, 3]);
}

#[test]
fn attempts_to_hand_audio_over_are_told_apart() {
    assert!(matches!(handover_after(SendOutcome::<u8>::Sent), Handover::Queued));
    assert!(matches!(handover_after(SendOutcome::Full(7)), Handover::Waiting(7)));
    assert!(matches!(handover_after(SendOutcome::Disconnected(7)), Handover::Dropped));
}

#[test]
fn frame_ids_use_wrap_aware_ordering() {
    assert!(frame_id_is_newer(11, 10));
    assert!(!frame_id_is_newer(10, 10));
    assert!(!frame_id_is_newer(9, 10));
    assert!(frame_id_is_newer(0, u32::MAX));
    assert!(frame_id_is_newer(1, u32::MAX));
    assert!(!frame_id_is_newer(u32::MAX, 0));
}

#[test]
fn enqueue_drops_frame_older_than_last_queued() {
    let mut playout = VideoPlayoutBuffer::new(60, settings());
    playout.min_delay = Duration::from_nanos(0);
    playout.frame_interval = None;
    playout.max_queued_frames = 8;

    assert!(playout.enqueue(frame_with_id(11), start()).is_none());
    let dropped = playout.enqueue(frame_with_id(10), start()).expect("stale frame dropped");
    assert_eq!(dropped.debug_timing.as_ref().expect("frame id").frame_id, 10);
    assert_eq!(playout.queued.len(), 1);
}

#[test]
fn enqueue_drops_frame_older_than_last_presented() {
    let mut playout = VideoPlayoutBuffer::new(60, settings());
    playout.min_delay = Duration::from_nanos(0);
    playout.frame_interval = None;
    playout.max_queued_frames = 8;

    assert!(playout.enqueue(frame_with_id(10), start()).is_none());
    let due = playout.take_due_frames(start());
    let presented = due.present.expect("presented frame");
    assert_eq!(presented.debug_timing.as_ref().expect("frame id").frame_id, 10);

    let dropped = playout.enqueue(frame_with_id(9), start()).expect("stale frame dropped");
    assert_eq!(dropped.debug_timing.as_ref().expect("frame id").frame_id, 9);
    assert!(playout.queued.is_empty());
}

/// A buffer with fixed parameters, whatever the platform's defaults.
fn adaptive_playout(floor_ms: u64, ceiling_ms: u64, interval_ms: u64) -> VideoPlayoutBuffer {
    let mut playout = VideoPlayoutBuffer::new(60, settings());
    playout.adaptive = true;
    playout.delay_floor = Duration::from_millis(floor_ms);
    playout.delay_ceiling = Duration::from_millis(ceiling_ms);
    playout.min_delay = playout.delay_floor;
    playout.frame_interval = Some(Duration::from_millis(interval_ms));
    playout.jitter = 0;
    playout.last_arrival = None;
    playout
}

fn assert_close_ms(actual: Duration, expected_ms: f64, tol_ms: f64) {
    let actual_ms = actual.nanos as f64 / 1_000_000.0;
    assert!(
        (actual_ms - expected_ms).abs() <= tol_ms,
        "expected ~{expected_ms}ms (±{tol_ms}), got {actual_ms}ms"
    );
}

#[test]
fn adaptive_delay_stays_at_floor_when_steady() {
    let mut p = adaptive_playout(16, 50, 16);
    let mut t = start();
    for _ in 0..60 {
        t = after(t, 16);
        p.observe_arrival(t);
    }
    assert_close_ms(p.min_delay, 16.0, 0.5);
}

#[test]
fn adaptive_delay_grows_under_jitter_then_decays() {
    let mut p = adaptive_playout(16, 50, 16);
    let mut t = start();
    for _ in 0..60 {
        t = after(t, 6);
        p.observe_arrival(t);
        t = after(t, 26);
        p.observe_arrival(t);
    }
    let jittered = p.min_delay;
    assert!(
        jittered > Duration::from_millis(16),
        "delay should grow above floor under jitter, got {jittered:?}"
    );
    assert!(jittered <= p.delay_ceiling);

    for _ in 0..400 {
        t = after(t, 16);
        p.observe_arrival(t);
    }
    assert!(
        p.min_delay < jittered,
        "delay should shrink once steady ({:?} !< {jittered:?})",
        p.min_delay
    );
    assert_close_ms(p.min_delay, 16.0, 2.0);
}

#[test]
fn adaptive_delay_capped_at_ceiling() {
    let mut p = adaptive_playout(16, 50, 16);
    let mut t = start();
    for _ in 0..200 {
        t = after(t, 1);
        p.observe_arrival(t);
        t = after(t, 220);
        p.observe_arrival(t);
    }
    assert!(p.min_delay <= p.delay_ceiling);
    assert_close_ms(p.min_delay, 50.0, 0.5);
}

#[test]
fn forced_delay_disables_adaptation() {
    let mut p = adaptive_playout(16, 50, 16);
    p.adaptive = false;
    p.min_delay = Duration::from_nanos(0);
    let mut t = start();
    for _ in 0..60 {
        t = after(t, 6);
        p.observe_arrival(t);
        t = after(t, 40);
        p.observe_arrival(t);
    }
    assert_eq!(p.min_delay, Duration::from_nanos(0));
}

#[test]
fn ceiling_is_three_intervals_capped_at_80ms() {
    assert_eq!(
        adaptive_delay_ceiling(Duration::from_millis(16), Some(Duration::from_millis(16))),
        Duration::from_millis(48)
    );
    assert_eq!(
        adaptive_delay_ceiling(Duration::from_millis(30), Some(Duration::from_millis(30))),
        Duration::from_millis(80)
    );
    assert_eq!(
        adaptive_delay_ceiling(Duration::from_millis(18), None),
        Duration::from_millis(63)
    );
}
