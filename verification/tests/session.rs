use stream_client::codecs::VideoCodecSupport;
use stream_client::connection::{
    begin_direct_session, connection_error_is_terminal, disconnect_by_user, exclude_codec,
    finish_direct_session, finish_tunnel_session, reconnect_backoff, server_error_text,
    session_cancelled, set_error, AutoReconnect, ConnectionState, ReconnectStep,
};
use stream_client::protocol::{StreamConfig, VideoChromaSampling, VideoCodec};
use stream_client::session::{
    after_dead_handshake, after_dial, after_punch, after_punch_setup_failed, after_relay,
    after_running_read, after_tunnel_packet, all_paths_failed, closing_error_text, delivery,
    dial_timeout, direct_auth_step, force_tcp_env, is_timeout, retries_udp, startup_read_error,
    tunnel_auth_step, wait_limit, AuthStep, Awaited, DialStep, DirectSession, DirectStartup, ForcedTcpServers,
    LiveSession, Phase, PunchStep, ReadErrorKind, ReadEvent, RunStep, ServerMessage,
    SessionVerdict, StartupAction, TunnelSession, TunnelStartup, TunnelStep, TunnelVerdict,
};
use stream_client::time::{Duration, Instant};

fn start() -> Instant {
    Instant::from_nanos(7_000_000_000)
}

fn after(t: Instant, millis: u64) -> Instant {
    t.saturating_add(Duration::from_millis(millis))
}

fn config() -> StreamConfig {
    StreamConfig {
        video_epoch: 1,
        codec: VideoCodec::Hevc,
        width: 1920,
        height: 1080,
        framerate: 60,
        audio_sample_rate: 48_000,
        audio_channels: 2,
        hdr: false,
        chroma: VideoChromaSampling::Yuv420,
        packet_duration_ms: 5,
    }
}

#[test]
fn dialling_falls_back_only_where_it_can() {
    assert!(matches!(after_dial(None, false, false, false), DialStep::Handshake));
    assert!(matches!(after_dial(None, true, false, false), DialStep::Tunnel));
    assert!(matches!(after_dial(Some("refused"), false, true, true), DialStep::Fallback));
    assert!(matches!(
        after_dial(Some("refused"), false, false, true),
        DialStep::Fail(message) if message == "Connection failed: refused"
    ));
    assert!(matches!(
        after_dead_handshake("closed".to_string(), true, true),
        DialStep::Fallback
    ));
    assert!(dial_timeout(true) < dial_timeout(false));
    assert_eq!(wait_limit(Awaited::Authentication), Duration::from_secs(5));
    assert_eq!(wait_limit(Awaited::Punch), Duration::from_secs(10));
    assert_eq!(wait_limit(Awaited::Configuration), Duration::from_secs(10));
    assert_eq!(wait_limit(Awaited::Start), Duration::from_secs(5));
    assert_eq!(wait_limit(Awaited::DirectMessage), Duration::from_millis(200));
    assert_eq!(wait_limit(Awaited::TunnelMessage), Duration::from_millis(100));
    assert_eq!(wait_limit(Awaited::TunnelWork), Duration::from_millis(1));
    assert_eq!(all_paths_failed("a", "b"), "Connection failed: a. b.");
}

#[test]
fn punching_is_followed_by_the_relay() {
    assert!(matches!(
        after_punch_setup_failed("no api"),
        PunchStep::TryRelay(reason) if reason == "Hole punch setup failed: no api"
    ));
    assert!(matches!(
        after_punch(true, &ConnectionState::Disconnected),
        PunchStep::Done
    ));
    assert!(matches!(
        after_punch(false, &ConnectionState::Connecting),
        PunchStep::TryRelay(reason) if reason == "UDP hole punch failed"
    ));
    assert_eq!(after_relay(true, "x"), None);
    assert_eq!(
        after_relay(false, "UDP hole punch failed").as_deref(),
        Some("UDP hole punch failed. TCP relay fallback failed")
    );
}

#[test]
fn refusals_and_dead_handshakes_differ() {
    assert!(matches!(
        direct_auth_step(ReadEvent::Messages(vec![ServerMessage::AuthResult(true)]), false),
        AuthStep::Authenticated
    ));
    assert!(matches!(
        direct_auth_step(ReadEvent::Messages(vec![ServerMessage::AuthResult(false)]), false),
        AuthStep::Refused(message) if message == "Authentication failed. Check your token."
    ));
    assert!(matches!(
        direct_auth_step(
            ReadEvent::Messages(vec![ServerMessage::Error("full".to_string())]),
            false
        ),
        AuthStep::Refused(message) if message == "Server error: full"
    ));
    assert!(matches!(direct_auth_step(ReadEvent::Idle, false), AuthStep::Continue));
    assert!(matches!(
        direct_auth_step(ReadEvent::Closed, true),
        AuthStep::Dead(m) if m == "Server closed the connection during authentication."
    ));
    assert!(matches!(
        direct_auth_step(ReadEvent::Failed("reset".to_string()), false),
        AuthStep::Dead(m) if m == "Auth read error: reset"
    ));
    assert!(matches!(
        tunnel_auth_step(&vec![ServerMessage::Other, ServerMessage::AuthResult(true)], true),
        AuthStep::Authenticated
    ));
    let nothing = ReadEvent::Messages(vec![ServerMessage::Other]);
    assert!(matches!(
        direct_auth_step(nothing, true),
        AuthStep::Dead(m) if m == "Authentication timed out."
    ));
    assert!(matches!(
        direct_auth_step(ReadEvent::Messages(vec![ServerMessage::AuthResult(true)]), true),
        AuthStep::Authenticated
    ));
    assert!(matches!(tunnel_auth_step(&vec![ServerMessage::Other], false), AuthStep::Continue));
    assert!(matches!(
        tunnel_auth_step(&Vec::new(), true),
        AuthStep::Dead(m) if m == "Authentication timeout over tunnel connection"
    ));
    assert!(connection_error_is_terminal("Authentication failed. Check your token."));
    assert!(connection_error_is_terminal(server_error_text("full").as_str()));
    assert!(!connection_error_is_terminal("Server closed connection"));
}

#[test]
fn streams_need_a_configuration_first() {
    let mut startup = DirectStartup::new();
    assert!(matches!(
        startup.on_message(&ServerMessage::StreamStarted, false),
        StartupAction::Fail(m) if m == "Server started stream without configuration"
    ));
    assert!(matches!(
        startup.on_message(&ServerMessage::StreamConfig(config()), false),
        StartupAction::Adopt { start_media: true, .. }
    ));
    startup.media_is_running();
    assert!(matches!(
        startup.on_message(&ServerMessage::StreamConfig(config()), false),
        StartupAction::Adopt { start_media: false, .. }
    ));
    assert_eq!(startup.up(), None);
    startup.on_message(&ServerMessage::StreamStarted, false);
    assert_eq!(startup.up(), Some(config()));
    assert!(matches!(
        startup.on_message(&ServerMessage::Shutdown, false),
        StartupAction::Fail(m) if m == "Server shutting down"
    ));
    assert_eq!(startup_read_error(&ReadEvent::Idle), None);
    assert_eq!(
        startup_read_error(&ReadEvent::Closed).as_deref(),
        Some("Server closed connection")
    );
}

#[test]
fn tunnels_wait_for_configuration_and_start() {
    let mut startup = TunnelStartup::new();
    assert!(matches!(startup.config_step(true, false), TunnelStep::Wait));
    assert!(matches!(
        startup.config_step(true, true),
        TunnelStep::Fail(m) if m == "Timeout waiting for StreamConfig from server"
    ));
    startup.on_config_message(&ServerMessage::StreamConfig(config()));
    assert!(matches!(startup.config_step(false, false), TunnelStep::Wait));
    assert!(matches!(startup.config_step(true, false), TunnelStep::Proceed));
    assert!(matches!(startup.start_step(false), TunnelStep::Wait));
    assert_eq!(startup.on_start_message(&ServerMessage::StreamStarted), None);
    assert!(matches!(startup.start_step(true), TunnelStep::Proceed));
}

#[test]
fn messages_are_delivered_by_phase() {
    let quiet = delivery(&ServerMessage::CursorShape, Phase::TunnelConfig, false);
    assert!(!quiet.deliver);
    let shown = delivery(&ServerMessage::CursorShape, Phase::DirectRunning, false);
    assert!(shown.deliver && shown.repaint);
    assert!(!delivery(&ServerMessage::ClockSyncPong, Phase::DirectRunning, false).deliver);
    assert!(delivery(&ServerMessage::ClockSyncPong, Phase::DirectRunning, true).deliver);
}

#[test]
fn stalled_media_ends_the_session() {
    let mut session = DirectSession::new(VideoCodec::Hevc, true, false, 10, start());
    assert_eq!(session.check_media(false, 10, after(start(), 9_000)), SessionVerdict::GoOn);
    session.live.note_decode_started();
    assert_eq!(session.check_media(false, 10, after(start(), 3_999)), SessionVerdict::GoOn);
    assert_eq!(session.check_media(false, 11, after(start(), 3_999)), SessionVerdict::GoOn);
    assert_eq!(session.check_media(false, 11, after(start(), 7_000)), SessionVerdict::GoOn);
    assert_eq!(session.check_media(false, 11, after(start(), 9_000)), SessionVerdict::Stop);
    assert_eq!(session.check_media(true, 12, start()), SessionVerdict::Stop);
}

#[test]
fn blocked_and_undecodable_streams_differ() {
    let mut session = DirectSession::new(VideoCodec::Av1, true, false, 0, start());
    assert_eq!(session.check_startup(0, after(start(), 4_000)), SessionVerdict::GoOn);
    assert_eq!(session.check_startup(0, after(start(), 6_000)), SessionVerdict::UdpBlocked);
    assert_eq!(
        session.check_startup(9, after(start(), 6_000)),
        SessionVerdict::CodecFailed(VideoCodec::Av1)
    );
    session.live.note_decode_started();
    assert_eq!(session.check_startup(9, after(start(), 60_000)), SessionVerdict::GoOn);
}

#[test]
fn silent_tunnels_are_lost() {
    let mut session = TunnelSession::new(VideoCodec::H264, true, false, start());
    assert!(matches!(
        session.check_peer(false, false, after(start(), 5_000)),
        TunnelVerdict::GoOn
    ));
    assert!(matches!(
        session.check_peer(false, false, after(start(), 5_001)),
        TunnelVerdict::Lost(m) if m == "Server unreachable: no traffic for 5s"
    ));
    session.note_peer_activity(after(start(), 5_000));
    assert!(matches!(
        session.check_peer(false, false, after(start(), 5_001)),
        TunnelVerdict::GoOn
    ));
    assert!(matches!(
        session.check_peer(false, true, after(start(), 5_001)),
        TunnelVerdict::Stop
    ));
    assert_eq!(session.failed_codec(after(start(), 4_000)), None);
    assert_eq!(session.failed_codec(after(start(), 6_000)), Some(VideoCodec::H264));
}

#[test]
fn switches_are_passed_on_once() {
    let mut live = LiveSession::new(VideoCodec::H264, true, false, start());
    assert_eq!(live.note_switches(true, false, start()), None);
    assert_eq!(live.note_switches(false, true, after(start(), 10)), Some(false));
    assert!(live.take_clock_ping(after(start(), 10)));
    assert!(!live.take_clock_ping(after(start(), 11)));
    live.note_rtt(12_345);
    assert_eq!(live.last_rtt_ms, 12);
}

#[test]
fn closing_messages_stop_the_session() {
    assert_eq!(
        closing_error_text(&ServerMessage::Shutdown).as_deref(),
        Some("Server shut down")
    );
    assert_eq!(closing_error_text(&ServerMessage::Other), None);
    assert!(matches!(after_running_read(&ReadEvent::Idle), RunStep::GoOn));
    let (seen, error) = after_tunnel_packet(&vec![
        ServerMessage::Other,
        ServerMessage::Shutdown,
        ServerMessage::Other,
    ]);
    assert_eq!(seen, 1);
    assert_eq!(error.as_deref(), Some("Server shut down"));
}

#[test]
fn forced_tcp_is_remembered_per_server() {
    let mut servers = ForcedTcpServers::new();
    servers.insert("a:1");
    servers.insert("a:1");
    assert!(servers.contains("a:1") && !servers.contains("b:1"));
    servers.remove("a:1");
    assert!(!servers.contains("a:1"));
    assert!(force_tcp_env(Some("1")) && !force_tcp_env(None));
    assert!(is_timeout(ReadErrorKind::WouldBlock) && !is_timeout(ReadErrorKind::Other));
    assert!(!retries_udp(true, true));
}

#[test]
fn reconnecting_waits_longer_and_longer() {
    let waits: Vec<u64> = (0..6).map(|n| reconnect_backoff(n).nanos / 1_000_000).collect();
    assert_eq!(waits, vec![500, 1_000, 2_000, 4_000, 8_000, 8_000]);

    let lost = ConnectionState::Error("Server closed connection".to_string());
    let mut auto = AutoReconnect::new();
    assert!(matches!(
        auto.step(&lost, false, true, false, start()),
        ReconnectStep::LookAgain(wait) if wait == Duration::from_millis(500)
    ));
    assert!(matches!(
        auto.step(&lost, false, true, true, after(start(), 100)),
        ReconnectStep::LookAgainNow
    ));
    assert!(matches!(
        auto.step(&lost, false, true, false, after(start(), 100)),
        ReconnectStep::Retry
    ));
    assert_eq!(auto.attempts, 1);
    assert!(matches!(
        auto.step(&ConnectionState::Connected, false, true, false, start()),
        ReconnectStep::Online
    ));
    assert_eq!((auto.attempts, auto.next_at), (0, None));

    let refused = ConnectionState::Error("Server error: full".to_string());
    assert!(matches!(
        auto.step(&refused, false, true, false, start()),
        ReconnectStep::Nothing
    ));
}

#[test]
fn stale_sessions_touch_nothing() {
    let mut state = ConnectionState::Connected;
    assert!(!set_error(&mut state, false, 3, 2, "late".to_string()));
    assert!(matches!(state, ConnectionState::Connected));
    assert!(session_cancelled(false, 3, 2) && !session_cancelled(false, 2, 2));
    assert!(!finish_direct_session(&mut state, 3, 2));
    assert!(matches!(state, ConnectionState::Connected));
    assert!(set_error(&mut state, false, 2, 2, "late".to_string()));
    assert!(matches!(&state, ConnectionState::Error(m) if m == "late"));
    finish_tunnel_session(&mut state, false, 2, 2);
    assert!(matches!(state, ConnectionState::Error(_)));
    disconnect_by_user(&mut state);
    assert!(matches!(state, ConnectionState::Error(_)));
    let mut state = ConnectionState::Connecting;
    disconnect_by_user(&mut state);
    assert!(matches!(state, ConnectionState::Disconnected));
}

#[test]
fn cancelled_sessions_do_not_come_up() {
    let mut state = ConnectionState::Connecting;
    assert!(!begin_direct_session(&mut state, true, 3, 3));
    assert!(matches!(state, ConnectionState::Connecting));
    assert!(!begin_direct_session(&mut state, false, 4, 3));
    assert!(matches!(state, ConnectionState::Connecting));
    assert!(begin_direct_session(&mut state, false, 3, 3));
    assert!(matches!(state, ConnectionState::Connected));
}

#[test]
fn failed_codecs_are_left_out_of_the_next_session() {
    let mut state = ConnectionState::Connected;
    let mut excluded = VideoCodecSupport::empty();
    exclude_codec(&mut state, &mut excluded, VideoCodec::Hevc);
    assert!(matches!(state, ConnectionState::Disconnected));
    assert_eq!(excluded, VideoCodecSupport { h264: false, hevc: true, av1: false });
    let mut reconnect = AutoReconnect::new();
    let step = reconnect.step(&state, !excluded.is_empty(), true, false, start());
    assert!(matches!(step, ReconnectStep::ConnectAgain));
}
