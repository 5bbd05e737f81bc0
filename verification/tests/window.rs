use stream_client::cursors::RemoteCursors;
use stream_client::frames::{Platform, VideoFrameBuffer};
use stream_client::keys::{
    egui_key_to_remote_key, is_force_release_shortcut, KeyboardKey, LocalKey, LocalKeyboardState,
    Modifiers,
};
use stream_client::labels::{
    about_native_surface, about_platform_label, fmt_ms, format_refresh, NativeSurfaceCapabilities,
};
use stream_client::settings::{
    choose_renderer, client_bitrate_preference_kbps, load_peer_id, load_switch, load_token,
    media_udp_options, peer_id_text, pick_wgpu_present_mode, resolve_api_url, switch_text,
    traffic_class, PresentMode, Renderer,
};
use stream_client::text::{parse_unsigned, trim, truncate_str};
use stream_client::time::{Duration, Instant};
use stream_client::updates::{CheckOutcome, ReleaseInfo, UpdateUiState, UpdateWorkerEvent};
use stream_client::window::{
    error_screen, menu_stays_open, offer_label, output_label, periodic_repaint,
    recent_pointer_activity, short_file_name, take_pending_frame, upload_failed_text, OverlayRects,
    TransferStatus,
};

#[test]
fn switches_are_read_back() {
    for on in [true, false] {
        assert_eq!(load_switch(Some(switch_text(on)), !on), on);
    }
    assert!(load_switch(None, true) && !load_switch(None, false));
}

#[test]
fn settings_fall_back_to_defaults() {
    assert_eq!(load_token(Some("  abc\n")), "abc");
    assert_eq!(load_peer_id(Some(" \n")), None);
    assert_eq!(peer_id_text(1, u64::MAX), "0000000000000001ffffffffffffffff");
    assert_eq!(resolve_api_url(Some("https://x.org//")), "https://x.org");
    assert_eq!(client_bitrate_preference_kbps(Some(" 2500 ")), Some(2500));
    assert_eq!(client_bitrate_preference_kbps(Some("0")), None);
    assert_eq!(client_bitrate_preference_kbps(Some("fast")), None);
    let options = media_udp_options(Some("-1"), None, Some("64"), Some("0"));
    assert_eq!(
        (options.receive_buffer, options.send_buffer, options.dscp, options.priority),
        (4_194_304, 1_048_576, None, 0)
    );
    assert_eq!(traffic_class(46), 184);
    assert_eq!(traffic_class(255), 1020);
    assert_eq!(choose_renderer("glow", true), (Renderer::Glow, true));
    assert_eq!(choose_renderer("metal", true), (Renderer::Wgpu, false));
    assert_eq!(pick_wgpu_present_mode(&vec![true, false]), PresentMode::Mailbox);
    assert_eq!(pick_wgpu_present_mode(&vec![true]), PresentMode::Fifo);
}

#[test]
fn texts_are_trimmed_parsed_and_cut() {
    assert_eq!(trim("\u{3000} a b\t"), "a b");
    assert_eq!(parse_unsigned("+7", 255), Some(7));
    assert_eq!(parse_unsigned("256", 255), None);
    assert_eq!(parse_unsigned("", 255), None);
    assert_eq!(truncate_str("short", 10), "short");
    assert_eq!(short_file_name("holiday.mov", 20, 17), "holiday.mov");
    assert_eq!(short_file_name("a-very-long-holiday.mov", 20, 17), "a-very-long-holid...");
}

#[test]
fn keys_are_held_and_released() {
    let mut keyboard = LocalKeyboardState::new();
    let key = egui_key_to_remote_key(LocalKey::W).expect("key");
    assert_eq!(key, KeyboardKey::W);
    assert_eq!(egui_key_to_remote_key(LocalKey::Other), None);
    assert!(keyboard.set_key(key, true));
    assert!(!keyboard.set_key(key, true));
    let (byte, bit) = key.bit();
    assert_eq!(keyboard.pressed[byte] & bit, bit);
    assert!(keyboard.clear());
    assert!(!keyboard.clear());
    let shift = Modifiers { alt: false, ctrl: false, shift: true, command: false };
    assert!(keyboard.sync_modifiers(shift));
    assert!(!keyboard.sync_modifiers(shift));
    assert!(!is_force_release_shortcut(shift, false));
}

#[test]
fn only_the_newest_cursor_shapes_are_kept() {
    let mut cursors = RemoteCursors::new();
    assert!(cursors.has_news(1));
    cursors.sync_remote_cursor_texture(1, Some((5, "arrow")));
    assert!(!cursors.has_news(1));
    assert_eq!(cursors.remote_cursor_texture_for_serial(5), Some(&"arrow"));
    cursors.clear();
    assert_eq!(cursors.remote_cursor_texture_for_serial(5), None);
}

#[test]
fn one_update_worker_runs_at_a_time() {
    let mut state = UpdateUiState::Idle;
    assert!(state.begin_update_check());
    assert!(!state.begin_update_check());
    let release = ReleaseInfo {
        version: "1.2.3".to_string(),
        asset_name: "client".to_string(),
        html_url: "https://x.org".to_string(),
    };
    state.process_update_event(UpdateWorkerEvent::CheckFinished(Ok(
        CheckOutcome::UpdateAvailable(release),
    )));
    assert!(matches!(&state, UpdateUiState::UpdateAvailable(r) if r.version == "1.2.3"));
    state.process_update_event(UpdateWorkerEvent::CheckFinished(Err("offline".to_string())));
    assert!(matches!(&state, UpdateUiState::Error(m) if m == "offline"));
    assert!(!state.closes_window());
    state.process_update_event(UpdateWorkerEvent::InstallPrepared {
        version: "1.2.3".to_string(),
        result: Ok(()),
    });
    assert!(state.closes_window());
}

#[test]
fn frames_are_handed_to_the_window_once() {
    let mut shared = VideoFrameBuffer { dirty: true, width: 4, ..VideoFrameBuffer::default() };
    let mut upload = VideoFrameBuffer::default();
    assert!(take_pending_frame(&mut shared, &mut upload));
    assert_eq!(upload.width, 4);
    assert!(!take_pending_frame(&mut shared, &mut upload));
}

#[test]
fn the_window_says_what_happened() {
    let lost = error_screen("Server closed connection", true, 2);
    assert!(lost.reconnecting);
    assert_eq!(lost.attempt.as_deref(), Some("attempt 3"));
    let refused = error_screen("Authentication failed", true, 2);
    assert_eq!((refused.title.as_str(), refused.button.as_str()), ("Connection Failed", "Back"));
    assert!(!error_screen(upload_failed_text("x").as_str(), true, 0).reconnecting);
    assert_eq!(output_label("DP-1", 1920, 1080, true), "● DP-1 (1920×1080)");
    assert_eq!(offer_label("a.txt", 1, "3 B"), "a.txt (3 B)");
    assert_eq!(offer_label("a.txt", 2, "6 B"), "2 files (6 B)");
    assert_eq!(about_platform_label(Platform::Macos), "macOS");
    let none = NativeSurfaceCapabilities {
        linux_dmabuf: false,
        macos_videotoolbox: false,
        windows_d3d11: false,
    };
    let some = NativeSurfaceCapabilities { linux_dmabuf: true, ..none };
    assert_ne!(about_native_surface(none), about_native_surface(some));
    let all = NativeSurfaceCapabilities {
        linux_dmabuf: true,
        macos_videotoolbox: true,
        windows_d3d11: true,
    };
    assert_eq!(some.without_surfaces_of(Platform::Linux), none);
    assert_eq!(
        all.without_surfaces_of(Platform::Macos),
        NativeSurfaceCapabilities { macos_videotoolbox: false, ..all }
    );
    assert_eq!(
        all.without_surfaces_of(Platform::Windows),
        NativeSurfaceCapabilities { windows_d3d11: false, ..all }
    );
    assert_eq!(all.without_surfaces_of(Platform::Other), all);
    assert_ne!(fmt_ms(&None), fmt_ms(&Some("1.5".to_string())));
    assert_ne!(format_refresh(&None), format_refresh(&Some("60.0".to_string())));
    assert!(!TransferStatus::Failed.label().is_empty());
}

#[test]
fn the_window_repaints_when_it_has_to() {
    assert_eq!(periodic_repaint(true, false, false, false, false), None);
    assert_eq!(
        periodic_repaint(true, true, false, false, false),
        Some(Duration::from_millis(250))
    );
    assert_eq!(
        periodic_repaint(false, false, false, false, true),
        Some(Duration::from_millis(100))
    );
    assert!(!recent_pointer_activity(None, Instant::from_nanos(9)));
    assert!(menu_stays_open(true, false, false) && !menu_stays_open(true, true, false));
    let mut rects = OverlayRects::new();
    rects.register_overlay_rect(1);
    rects.next_frame();
    assert_eq!(rects.active, vec![1]);
    assert!(rects.pending.is_empty());
}
