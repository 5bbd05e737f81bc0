use stream_client::capture::{
    controller_state_allows_input, pointer_button_mask, server_wants_relative, ControllerState,
    CursorFacts, CursorGrab, CursorState, Effect, InputCapabilities, LocalCaptureMode, Place,
    PointerButton, PointerCapture, SharedInputSnapshot,
};
use stream_client::capture_frame::FrameFacts;
use stream_client::capture_hook::{
    asks_for_force_release, clear_remote_keyboard, keyboard_snapshot, on_key_event,
    withheld_from_window, Attempt, EventKind, Motion, MovedTo, Route,
};
use stream_client::input::{
    InputPacket, KeyboardStateInput, MouseAbsoluteInput, MOUSE_BUTTON_PRIMARY,
};
use stream_client::keys::{KeyboardKey, LocalKey, LocalKeyboardState, Modifiers};
use stream_client::time::{Duration, Instant};

fn start() -> Instant {
    Instant::from_nanos(50_000_000_000)
}

fn after(t: Instant, millis: u64) -> Instant {
    t.saturating_add(Duration::from_millis(millis))
}

fn snapshot(visible: bool, app_grab: bool) -> SharedInputSnapshot {
    SharedInputSnapshot {
        client_id: Some(4),
        controller_state: ControllerState::OwnedByYou,
        capabilities: InputCapabilities {
            mouse_absolute: true,
            mouse_relative: true,
            keyboard: true,
            separate_cursor: true,
            hover_capture: true,
            cursor_position_reliable: true,
        },
        cursor_state: CursorState { serial: 1, x: 0, y: 0, visible, app_grab },
        cursor_state_version: 1,
        cursor_shape_version: 1,
    }
}

fn place(pos: i32) -> Place<i32> {
    Place { pos, inside: true, overlay: false, x: pos as u16, y: 7 }
}

fn frame_facts(pos: i32) -> FrameFacts<i32> {
    FrameFacts {
        pointer: Some(pos),
        synthetic: false,
        near: true,
        overlay: false,
        clicked: false,
        focused: true,
        pointer_clamped: Some(pos),
        hover_clamped: Some(pos),
        mapped: Some(1),
        mapped_clamped: Some(1),
    }
}

#[test]
fn positions_are_reported_once() {
    let mut capture: PointerCapture<i32> = PointerCapture::new();
    let mut effects = Vec::new();
    assert!(capture.send_absolute_cursor(4, &place(10), false, &mut effects));
    assert!(!capture.send_absolute_cursor(4, &place(10), false, &mut effects));
    assert!(capture.send_absolute_cursor(4, &place(10), true, &mut effects));
    assert_eq!(effects.len(), 2);
    assert!(matches!(
        effects[0],
        Effect::Send(InputPacket::MouseAbsolute(MouseAbsoluteInput { x: 10, y: 7, .. }))
    ));
}

#[test]
fn the_pointer_hovers_over_the_video() {
    let mut capture: PointerCapture<i32> = PointerCapture::new();
    let mut effects = Vec::new();
    capture.handle_connected_video_response(
        &snapshot(true, false),
        &frame_facts(10),
        start(),
        &mut effects,
    );
    assert_eq!(capture.mode, LocalCaptureMode::HoverAbsolute);
    capture.force_release_capture(Some(4), &mut effects);
    assert_eq!(capture.mode, LocalCaptureMode::ForceReleased);
    capture.handle_connected_video_response(
        &snapshot(true, false),
        &frame_facts(10),
        after(start(), 16),
        &mut effects,
    );
    assert_eq!(capture.mode, LocalCaptureMode::ForceReleased);
    let mut unfocused = frame_facts(10);
    unfocused.focused = false;
    let mut capture: PointerCapture<i32> = PointerCapture::new();
    capture.mode = LocalCaptureMode::CapturedRelative;
    capture.handle_connected_video_response(
        &snapshot(true, true),
        &unfocused,
        start(),
        &mut effects,
    );
    assert_ne!(capture.mode, LocalCaptureMode::CapturedRelative);
}

#[test]
fn applying_twice_changes_nothing_more() {
    let facts = CursorFacts {
        has_shape: true,
        hover_over_video: true,
        pointer_present: true,
        macos: false,
    };
    let mut capture: PointerCapture<i32> = PointerCapture::new();
    capture.mode = LocalCaptureMode::CapturedRelative;
    let mut effects = Vec::new();
    capture.apply_pointer_capture_mode(&snapshot(false, true), &facts, start(), &mut effects);
    assert!(effects.iter().any(|e| matches!(e, Effect::ShowCursor(false))));
    assert!(effects.iter().any(|e| matches!(e, Effect::Grab(grab) if *grab != CursorGrab::Free)));
    effects.clear();
    capture.apply_pointer_capture_mode(&snapshot(false, true), &facts, start(), &mut effects);
    assert!(effects.is_empty());
}

#[test]
fn jumps_after_a_grab_are_swallowed() {
    let mut capture: PointerCapture<i32> = PointerCapture::new();
    capture.mode = LocalCaptureMode::CapturedRelative;
    capture.suppress_delta = 1;
    capture.suppress_delta_until = Some(after(start(), 80));
    assert!(matches!(
        capture.on_mouse_motion(&snapshot(false, true), false, true, after(start(), 10)),
        Motion::Ignored
    ));
    capture.next_frame();
    assert!(matches!(
        capture.on_mouse_motion(&snapshot(false, true), false, true, after(start(), 79)),
        Motion::Ignored
    ));
    assert!(matches!(
        capture.on_mouse_motion(&snapshot(false, true), false, true, after(start(), 80)),
        Motion::Relative { .. }
    ));
}

#[test]
fn movements_and_clicks_reach_the_server() {
    let mut capture: PointerCapture<i32> = PointerCapture::new();
    capture.mode = LocalCaptureMode::CapturedRelative;
    let mut effects = Vec::new();
    assert_eq!(capture.unseen_position(true, Some(3), 5, -6), None);
    capture.on_unseen_motion(4, true, Some(3), 5, -6, start(), &mut effects);
    assert!(effects.iter().any(|e| matches!(
        e,
        Effect::Send(InputPacket::MouseRelative(m)) if (m.dx, m.dy) == (5, -6)
    )));
    effects.clear();
    capture.mode = LocalCaptureMode::HoverAbsolute;
    let route = Route { pos: 3, overlay: false, place: Some(place(3)), clamped: 3 };
    capture.on_pointer_button(
        &snapshot(true, false),
        4,
        PointerButton::Primary,
        true,
        &route,
        Some(3),
        &mut effects,
    );
    assert_eq!(capture.buttons, MOUSE_BUTTON_PRIMARY);
    assert!(effects.iter().any(|e| matches!(e, Effect::Send(_))));
    assert!(capture.forwards_wheel(&snapshot(true, false), false, true));
    assert!(!capture.forwards_wheel(&snapshot(true, false), true, true));
}

#[test]
fn hovering_follows_the_pointer() {
    let mut capture: PointerCapture<i32> = PointerCapture::new();
    capture.mode = LocalCaptureMode::HoverAbsolute;
    let mut effects = Vec::new();
    let to = MovedTo { near: true, overlay: false, clamped: place(12) };
    capture.on_pointer_moved(
        &snapshot(true, false),
        4,
        false,
        false,
        Some(to),
        None,
        &mut effects,
    );
    assert_eq!(capture.hover, Some(12));
    let attempt = Attempt {
        pos: 13,
        overlay: false,
        outside: false,
        escape: 0,
        clamped: place(13),
    };
    let pos = capture.on_hover_motion(&snapshot(true, false), 4, &attempt, None, &mut effects);
    assert_eq!(pos, 13);
}

#[test]
fn without_control_nothing_is_forwarded() {
    let mut other = snapshot(true, false);
    other.controller_state = ControllerState::Unavailable;
    let mut capture: PointerCapture<i32> = PointerCapture::new();
    capture.mode = LocalCaptureMode::HoverAbsolute;
    assert!(!capture.keyboard_forward_active(&other));
    assert!(capture.keyboard_forward_active(&snapshot(true, false)));
    assert!(!controller_state_allows_input(ControllerState::Unavailable));
    assert!(controller_state_allows_input(ControllerState::OwnedByOther));
    assert!(server_wants_relative(&snapshot(false, true)));
    assert_eq!(pointer_button_mask(PointerButton::Middle), 4);
}

#[test]
fn keys_are_kept_from_the_window_while_forwarded() {
    let none = Modifiers { alt: false, ctrl: false, shift: false, command: false };
    let key = EventKind::Key { key: LocalKey::W, pressed: true, modifiers: none };
    assert!(withheld_from_window(&key, false, true));
    assert!(!withheld_from_window(&key, false, false));
    assert!(!asks_for_force_release(&vec![key], false));
    let mut keyboard = LocalKeyboardState::new();
    assert!(on_key_event(&mut keyboard, true, LocalKey::W, None, true));
    assert!(!on_key_event(&mut keyboard, false, LocalKey::A, None, true));
    let (byte, bit) = KeyboardKey::W.bit();
    assert!(matches!(
        keyboard_snapshot(&keyboard, 4),
        InputPacket::KeyboardState(KeyboardStateInput { client_id: 4, pressed })
            if pressed[byte] & bit == bit
    ));
    assert!(clear_remote_keyboard(&mut keyboard, Some(4)).is_some());
    assert!(clear_remote_keyboard(&mut keyboard, Some(4)).is_none());
}

#[test]
fn unseen_movements_of_a_drag_keep_the_position() {
    let mut capture: PointerCapture<i32> = PointerCapture::new();
    capture.mode = LocalCaptureMode::CapturedRelative;
    capture.resume_hover = true;
    assert_eq!(capture.unseen_position(true, Some(3), 0, 0), None);
    assert_eq!(capture.unseen_position(false, Some(3), 5, 0), None);
    assert_eq!(capture.unseen_position(true, None, 5, 0), None);
    assert_eq!(capture.unseen_position(true, Some(3), 5, 0), Some(3));
    let mut effects = Vec::new();
    capture.on_unseen_motion(4, true, Some(3), 5, 0, start(), &mut effects);
    assert_eq!(capture.hover, Some(3));
    capture.on_unseen_motion(4, true, None, 5, 0, start(), &mut effects);
    assert_eq!(capture.hover, Some(3));
}
