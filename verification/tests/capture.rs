use eframe::egui::pos2;
use stream_client::capture::{
    relative_capture_entry_anchor, relative_capture_tracking_anchor,
    should_enter_relative_button_drag_capture, should_return_to_hover_after_relative_button_drag,
    ControllerState, LocalCaptureMode, PointerButton,
};
use stream_client::input::{MOUSE_BUTTON_PRIMARY, MOUSE_BUTTON_SECONDARY};

#[test]
fn hidden_cursor_drag_buttons_enter_relative_drag() {
    assert!(should_enter_relative_button_drag_capture(
        LocalCaptureMode::HoverAbsolute,
        ControllerState::OwnedByYou,
        true,
        PointerButton::Primary,
        true,
        true,
        false,
    ));
    assert!(should_enter_relative_button_drag_capture(
        LocalCaptureMode::HoverAbsolute,
        ControllerState::OwnedByYou,
        true,
        PointerButton::Secondary,
        true,
        true,
        false,
    ));
    assert!(!should_enter_relative_button_drag_capture(
        LocalCaptureMode::HoverAbsolute,
        ControllerState::OwnedByYou,
        false,
        PointerButton::Primary,
        true,
        true,
        false,
    ));
}

#[test]
fn temporary_relative_drag_returns_to_hover_after_drag_buttons_release() {
    assert!(should_return_to_hover_after_relative_button_drag(
        LocalCaptureMode::CapturedRelative,
        true,
        PointerButton::Primary,
        false,
        0,
    ));
    assert!(!should_return_to_hover_after_relative_button_drag(
        LocalCaptureMode::CapturedRelative,
        true,
        PointerButton::Primary,
        false,
        MOUSE_BUTTON_PRIMARY,
    ));
    assert!(!should_return_to_hover_after_relative_button_drag(
        LocalCaptureMode::CapturedRelative,
        true,
        PointerButton::Secondary,
        false,
        MOUSE_BUTTON_SECONDARY,
    ));
}

#[test]
fn relative_capture_entry_prefers_local_cursor_position() {
    let remote = pos2(100.0, 200.0);
    let local = pos2(800.0, 600.0);

    assert_eq!(relative_capture_entry_anchor(Some(remote), Some(local)), Some(local));
}

#[test]
fn relative_capture_entry_falls_back_without_remote_cursor_position() {
    let local = pos2(800.0, 600.0);

    assert_eq!(relative_capture_entry_anchor(None, Some(local)), Some(local));
}

#[test]
fn relative_capture_tracking_prefers_recent_local_prediction() {
    let remote = pos2(100.0, 200.0);
    let predicted = pos2(120.0, 205.0);

    assert_eq!(
        relative_capture_tracking_anchor(Some(remote), Some(predicted), true),
        Some(predicted)
    );
}

#[test]
fn relative_capture_tracking_returns_to_remote_after_prediction_hold() {
    let remote = pos2(100.0, 200.0);
    let predicted = pos2(120.0, 205.0);

    assert_eq!(
        relative_capture_tracking_anchor(Some(remote), Some(predicted), false),
        Some(remote)
    );
}
