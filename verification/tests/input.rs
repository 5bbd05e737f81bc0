use stream_client::input::{
    mouse_heartbeat_packet, InputPacket, KeyboardInputHeartbeat, KeyboardStateInput,
    MouseAbsoluteInput, MouseButtonsInput, MouseInputHeartbeat, MouseRelativeInput,
    MouseWheelInput, INPUT_STATE_HEARTBEAT_INTERVAL_NANOS, INPUT_STATE_REPAIR_WINDOW_NANOS,
    MOUSE_BUTTON_PRIMARY,
};
use stream_client::keys::KeyboardKey;
use stream_client::time::{Duration, Instant};

fn start() -> Instant {
    Instant::from_nanos(5_000_000_000)
}

fn after(t: Instant, millis: u64) -> Instant {
    t.saturating_add(Duration::from_millis(millis))
}

fn nanos_after(t: Instant, nanos: u64) -> Instant {
    t.saturating_add(Duration::from_nanos(nanos))
}

#[test]
fn mouse_heartbeat_uses_safe_packets() {
    let absolute = InputPacket::MouseAbsolute(MouseAbsoluteInput {
        client_id: 7,
        x: 100,
        y: 200,
        buttons: MOUSE_BUTTON_PRIMARY,
    });
    assert_eq!(mouse_heartbeat_packet(absolute), Some(absolute));

    let relative = InputPacket::MouseRelative(MouseRelativeInput {
        client_id: 7,
        dx: 3,
        dy: -4,
        buttons: MOUSE_BUTTON_PRIMARY,
    });
    assert_eq!(
        mouse_heartbeat_packet(relative),
        Some(InputPacket::MouseButtons(MouseButtonsInput {
            client_id: 7,
            buttons: MOUSE_BUTTON_PRIMARY,
        }))
    );
}

#[test]
fn wheel_turns_are_not_repeated() {
    let wheel = InputPacket::MouseWheel(MouseWheelInput {
        client_id: 7,
        delta_x: 0,
        delta_y: 120,
        buttons: MOUSE_BUTTON_PRIMARY,
    });
    assert_eq!(
        mouse_heartbeat_packet(wheel),
        Some(InputPacket::MouseButtons(MouseButtonsInput {
            client_id: 7,
            buttons: MOUSE_BUTTON_PRIMARY,
        }))
    );
}

#[test]
fn mouse_heartbeat_repeats_release_for_repair_window() {
    let client_id = 9;
    let start = start();
    let mut heartbeat = MouseInputHeartbeat::default();

    let pressed = InputPacket::MouseButtons(MouseButtonsInput {
        client_id,
        buttons: MOUSE_BUTTON_PRIMARY,
    });
    heartbeat.observe(pressed, start);
    heartbeat.mark_sent(pressed, start);

    let release_at = after(start, 10);
    let released = InputPacket::MouseButtons(MouseButtonsInput { client_id, buttons: 0 });
    heartbeat.observe(released, release_at);
    heartbeat.mark_sent(released, release_at);

    assert_eq!(
        heartbeat.due_packet(nanos_after(release_at, INPUT_STATE_HEARTBEAT_INTERVAL_NANOS)),
        Some(released)
    );
    assert_eq!(
        heartbeat.due_packet(after(nanos_after(release_at, INPUT_STATE_REPAIR_WINDOW_NANOS), 1)),
        None
    );
}

#[test]
fn keyboard_heartbeat_repeats_release_for_repair_window() {
    let client_id = 11;
    let start = start();
    let mut heartbeat = KeyboardInputHeartbeat::default();
    let mut pressed = [0u8; 16];
    let (byte, bit) = KeyboardKey::W.bit();
    pressed[byte] |= bit;

    let down = InputPacket::KeyboardState(KeyboardStateInput { client_id, pressed });
    heartbeat.observe(down, start);
    heartbeat.mark_sent(down, start);

    let release_at = after(start, 10);
    let up = InputPacket::KeyboardState(KeyboardStateInput { client_id, pressed: [0u8; 16] });
    heartbeat.observe(up, release_at);
    heartbeat.mark_sent(up, release_at);

    assert_eq!(
        heartbeat.due_packet(nanos_after(release_at, INPUT_STATE_HEARTBEAT_INTERVAL_NANOS)),
        Some(up)
    );
    assert_eq!(
        heartbeat.due_packet(after(nanos_after(release_at, INPUT_STATE_REPAIR_WINDOW_NANOS), 1)),
        None
    );
}

#[test]
fn held_buttons_are_repeated_without_end() {
    let mut heartbeat = MouseInputHeartbeat::default();
    let pressed = InputPacket::MouseButtons(MouseButtonsInput {
        client_id: 1,
        buttons: MOUSE_BUTTON_PRIMARY,
    });
    heartbeat.observe(pressed, start());
    heartbeat.mark_sent(pressed, start());
    assert_eq!(heartbeat.due_packet(after(start(), 1)), None);
    assert_eq!(heartbeat.due_packet(after(start(), 60_000)), Some(pressed));
}
