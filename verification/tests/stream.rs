use stream_client::frames::{FrameDebugTiming, Platform, VideoFormat, VideoFrameBuffer};
use stream_client::input::{
    InputLink, InputPacket, InputSender, MouseButtonsInput, MOUSE_BUTTON_PRIMARY,
};
use stream_client::pacing::{
    recycle_video_frame, refresh_interval, RecoveryKeyframes, Repaint, RepaintPacer,
    MAX_RECYCLED_FRAMES,
};
use stream_client::pipeline::{
    first_decoder_failed, DecodeErrorActions, DrainAction, DrainState, InstallActions,
    PendingUnit, ReceivePipeline, ReceivedData, MAX_DRAINED_UNITS,
};
use stream_client::playout::{
    configured_video_jitter_delay, configured_video_jitter_max_frames, frame_interval,
    PlayoutSettings, VideoPlayoutBuffer,
};
use stream_client::profile::{
    BuilderStep, DecoderBuildMode, DecoderBuildRequest, DecoderBuilderState, VideoProfileState,
};
use stream_client::protocol::{
    AudioPacket, CompletedFrame, FrameTiming, StreamConfig, VideoChromaSampling, VideoCodec,
};
use stream_client::time::{Duration, Instant};

fn start() -> Instant {
    Instant::from_nanos(50_000_000_000)
}

fn after(t: Instant, millis: u64) -> Instant {
    t.saturating_add(Duration::from_millis(millis))
}

fn settings(forced: Option<u64>) -> PlayoutSettings {
    PlayoutSettings { forced_delay_millis: forced, max_frames: None, platform: Platform::Linux }
}

fn config(codec: VideoCodec, epoch: u64) -> StreamConfig {
    StreamConfig {
        video_epoch: epoch,
        codec,
        width: 1280,
        height: 720,
        framerate: 60,
        audio_sample_rate: 48_000,
        audio_channels: 2,
        hdr: false,
        chroma: VideoChromaSampling::Yuv420,
        packet_duration_ms: 5,
    }
}

fn frame(id: u32) -> VideoFrameBuffer {
    VideoFrameBuffer {
        debug_timing: Some(FrameDebugTiming { frame_id: id, ..FrameDebugTiming::default() }),
        ..VideoFrameBuffer::default()
    }
}

fn unit(id: u32, epoch: u64) -> CompletedFrame {
    CompletedFrame {
        frame_id: id,
        video_epoch: epoch,
        data: vec![1, 2, 3],
        timing: FrameTiming { capture_ts_micros: 0, send_ts_micros: 0 },
        frame_type: 0,
    }
}

#[test]
fn frames_leave_in_order_and_the_newest_wins() {
    let mut playout = VideoPlayoutBuffer::new(60, settings(Some(20)));
    assert!(playout.enqueue(frame(1), start()).is_none());
    assert!(playout.enqueue(frame(2), after(start(), 1)).is_none());
    assert!(playout.take_due_frames(after(start(), 19)).present.is_none());
    let wait = playout.next_present_delay(start()).expect("wait");
    assert_eq!(wait, Duration::from_millis(20));
    let due = playout.take_due_frames(after(start(), 1_000));
    assert_eq!(due.present.and_then(|f| f.frame_id()), Some(2));
    assert_eq!(due.dropped.len(), 1);
    assert_eq!(playout.last_presented_frame_id, Some(2));
}

#[test]
fn delays_and_depths_follow_the_settings() {
    assert_eq!(
        configured_video_jitter_delay(60, settings(Some(400))),
        (Duration::from_millis(250), false)
    );
    assert_eq!(
        configured_video_jitter_delay(60, settings(None)),
        (Duration::from_millis(10), true)
    );
    assert_eq!(frame_interval(0), None);
    assert_eq!(frame_interval(50), Some(Duration::from_millis(20)));
    let capped = PlayoutSettings { max_frames: Some(5), ..settings(None) };
    assert_eq!(configured_video_jitter_max_frames(capped), (5, true));
    let parsed = PlayoutSettings::parse(Some("12"), Some("many"), Platform::Linux);
    assert_eq!((parsed.forced_delay_millis, parsed.max_frames), (Some(12), None));
}

#[test]
fn repaints_keep_to_the_display() {
    assert_eq!(refresh_interval(Some(50_000)), Some(Duration::from_millis(20)));
    assert_eq!(refresh_interval(Some(0)), None);
    let mut pacer = RepaintPacer::new(Some(50_000));
    assert!(matches!(pacer.request(start()), Repaint::Now));
    assert!(matches!(
        pacer.request(after(start(), 5)),
        Repaint::After(wait) if wait == Duration::from_millis(15)
    ));
}

#[test]
fn keyframes_are_not_asked_for_too_often() {
    let mut keyframes = RecoveryKeyframes::new();
    assert!(keyframes.request_recovery_keyframe(start()));
    assert!(!keyframes.request_recovery_keyframe(after(start(), 1)));
    assert!(!keyframes.maybe_request_transport_recovery_keyframe(false, after(start(), 60_000)));
    assert!(keyframes.maybe_request_transport_recovery_keyframe(true, after(start(), 60_000)));
}

#[test]
fn few_frames_are_kept_for_reuse() {
    let mut kept = Vec::new();
    for id in 0..10 {
        recycle_video_frame(&mut kept, frame(id), Platform::Linux);
    }
    assert!(kept.len() <= MAX_RECYCLED_FRAMES);
}

#[test]
fn draining_keeps_matching_units_and_hands_out_audio() {
    let profile = VideoProfileState::new(config(VideoCodec::H264, 1));
    let first = PendingUnit { unit: unit(1, 1), assembled_micros: 0, assembled_mono: 0 };
    let mut state = DrainState::new(first, start());
    assert!(state.wants_more(start()));
    assert!(matches!(
        state.receive(ReceivedData::Video(unit(2, 1), 0, 0), &profile, true),
        DrainAction::Nothing
    ));
    state.receive(ReceivedData::Video(unit(3, 9), 0, 0), &profile, true);
    assert_eq!(state.pending.len(), 2);
    let packet = AudioPacket { seq: 4, data: vec![9], redundant_prev: Vec::new() };
    assert!(matches!(
        state.receive(ReceivedData::Audio(packet.clone()), &profile, true),
        DrainAction::QueueAudio(p) if p.seq == 4
    ));
    assert!(matches!(
        state.receive(ReceivedData::Audio(packet), &profile, false),
        DrainAction::Nothing
    ));
    assert!(!state.wants_more(after(start(), 60_000)));
    assert!(MAX_DRAINED_UNITS > 0);
}

#[test]
fn the_first_decoder_is_reported_with_its_codec() {
    let error = first_decoder_failed(VideoCodec::Hevc, "no device".to_string());
    assert_eq!(error.codec, VideoCodec::Hevc);
    assert_eq!(error.message, "no device");
}

#[test]
fn decoders_are_replaced_and_fall_back() {
    let mut pipeline =
        ReceivePipeline::new(config(VideoCodec::H264, 1), Some(60_000), settings(None));
    assert_eq!(pipeline.decoded_frame.format, VideoFormat::Yuv420p8);
    pipeline.decoded_frame.format = VideoFormat::Nv12;
    pipeline.decoded_frame.width = 8;
    pipeline.drop_decoded_video();
    assert_eq!(pipeline.decoded_frame.format, VideoFormat::Yuv420p8);
    assert_eq!(pipeline.decoded_frame.width, 0);
    let actions = pipeline.apply_config(config(VideoCodec::Hevc, 2), Some(60_000), start());
    let request = actions.build.expect("build");
    assert!(actions.reset_receiver);
    assert!(matches!(
        pipeline.install_decoder(request.token, request.mode, None, after(start(), 5)),
        InstallActions::Install { .. }
    ));
    assert!(matches!(
        pipeline.install_decoder(request.token, request.mode, None, after(start(), 6)),
        InstallActions::Discard
    ));
    assert!(pipeline.accepts_unit(&unit(1, 2)) && !pipeline.accepts_unit(&unit(1, 1)));
    assert!(pipeline.check_output_deadline(after(start(), 100)).is_none());
    assert!(pipeline.check_output_deadline(after(start(), 60_000)).is_some());
    assert!(matches!(
        pipeline.on_decode_error(true, "lost device".to_string(), after(start(), 10)),
        DecodeErrorActions::FallBack { request, .. }
            if request.mode == DecoderBuildMode::Software
    ));
    assert!(matches!(
        pipeline.on_decode_error(false, "broken".to_string(), after(start(), 20)),
        DecodeErrorActions::Fail(_)
    ));
}

#[test]
fn builders_work_on_the_latest_request() {
    let mut state = VideoProfileState::new(config(VideoCodec::H264, 1));
    let old = DecoderBuildRequest {
        token: state.begin_build(start()),
        mode: DecoderBuildMode::Automatic,
    };
    let new = DecoderBuildRequest {
        token: state.begin_build(start()),
        mode: DecoderBuildMode::Automatic,
    };
    let mut builder: DecoderBuilderState<u8> = DecoderBuilderState::new();
    assert_eq!(builder.next_step(), BuilderStep::Wait);
    builder.request(old);
    assert_eq!(builder.next_step(), BuilderStep::Build(old));
    builder.request(new);
    assert!(builder.finish(old, Ok(1)));
    assert!(builder.take_completed().is_none());
    assert_eq!(builder.next_step(), BuilderStep::Build(new));
    builder.finish(new, Ok(2));
    let done = builder.take_completed().expect("decoder");
    assert_eq!(done.result, Ok(2));
    builder.shut_down();
    assert_eq!(builder.next_step(), BuilderStep::Stop);
}

#[test]
fn packets_are_numbered_and_repeated() {
    let mut sender = InputSender::new(InputLink::Direct);
    let press = InputPacket::MouseButtons(MouseButtonsInput {
        client_id: 1,
        buttons: MOUSE_BUTTON_PRIMARY,
    });
    assert!(sender.on_packet(press, false, start()).is_none());
    let first = sender.on_packet(press, true, start()).expect("sent");
    let second = sender.on_packet(press, true, start()).expect("sent");
    assert_eq!(second.seq, first.seq.wrapping_add(1));
    let (beat, _) = sender.mouse_beat(true, after(start(), 60));
    assert_eq!(beat.map(|out| out.packet), Some(press));
}
