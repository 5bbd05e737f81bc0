//! What holds of the pointer's buttons and movements, and of what the server is told of
//! them.
use crate::capture;
use crate::capture::{
    ControllerState, Effect, LocalCaptureMode, Place, PointerButton, PointerCapture,
    SharedInputSnapshot,
};
use crate::capture_hook;
use crate::capture_hook::{Attempt, EventKind, Motion, MovedTo, Route};
use crate::input::{InputPacket, MouseAbsoluteInput, MouseButtonsInput, MouseRelativeInput};
use crate::keys;
use crate::keys::{LocalKey, Modifiers};
use crate::time::Instant;
use vstd::prelude::*;

verus! {

/// The bit under which a button goes over the wire.
pub open spec fn wire_bit(button: PointerButton) -> u8 {
    if button == PointerButton::Primary {
        1
    } else if button == PointerButton::Secondary {
        2
    } else if button == PointerButton::Middle {
        4
    } else if button == PointerButton::Extra1 {
        8
    } else {
        16
    }
}

/// A set of buttons has this one in it.
pub open spec fn is_held(buttons: u8, button: PointerButton) -> bool {
    buttons & wire_bit(button) != 0
}

/// The client may send input unless nobody can control the server. It draws the server's
/// cursor where somebody controls the server and the cursor comes apart from the video.
pub proof fn what_a_snapshot_says(snapshot: SharedInputSnapshot, macos: bool)
    ensures
        snapshot.allowed() <==> snapshot.controller_state != ControllerState::Unavailable,
        snapshot.draws_cursor() <==> snapshot.capabilities.separate_cursor && (
        snapshot.controller_state == ControllerState::OwnedByYou || snapshot.controller_state
            == ControllerState::OwnedByOther),
        snapshot.wants_relative() <==> !snapshot.cursor_state.visible
            || snapshot.cursor_state.app_grab,
        snapshot.drawable() <==> snapshot.cursor_state.visible && !snapshot.cursor_state.app_grab,
        snapshot.hover_supported() <==> snapshot.capabilities.hover_capture
            && snapshot.capabilities.mouse_absolute,
        snapshot.virtual_hover(macos) <==> macos && snapshot.controller_state
            != ControllerState::Unavailable && snapshot.capabilities.hover_capture
            && !snapshot.capabilities.separate_cursor,
{
}

/// Pressing a button adds it to those held, letting it go takes it away, and no other
/// button changes.
pub proof fn buttons_change_alone<P>(
    capture: PointerCapture<P>,
    button: PointerButton,
    other: PointerButton,
    pressed: bool,
)
    ensures
        is_held(capture.with_button(button, pressed).buttons, button) == pressed,
        other != button ==> is_held(capture.with_button(button, pressed).buttons, other)
            == is_held(capture.buttons, other),
        capture.with_button(button, pressed) == (PointerCapture {
            buttons: capture.with_button(button, pressed).buttons,
            ..capture
        }),
{
    let b = capture.buttons;
    let m = wire_bit(button);
    let o = wire_bit(other);
    assert(m == capture::mask_of(button));
    assert((b | m) & m == m && (b & !m) & m == 0) by (bit_vector);
    if other != button {
        assert(m & o == 0) by (bit_vector)
            requires
                m == 1 || m == 2 || m == 4 || m == 8 || m == 16,
                o == 1 || o == 2 || o == 4 || o == 8 || o == 16,
                m != o,
        ;
        assert((b | m) & o == b & o && (b & !m) & o == b & o) by (bit_vector)
            requires
                m & o == 0,
        ;
    }
}

/// A button that is pressed or let go while the pointer is captured, by a user who may
/// control the server and off the client's own panels, is told to the server in one packet.
/// The buttons in it are those held after the event.
pub proof fn captured_clicks_reach_the_server<P>(
    capture: PointerCapture<P>,
    snapshot: SharedInputSnapshot,
    client_id: u32,
    button: PointerButton,
    other: PointerButton,
    pressed: bool,
    route: Route<P>,
)
    requires
        capture.mode == LocalCaptureMode::CapturedRelative,
        snapshot.controller_state != ControllerState::Unavailable,
        !route.overlay,
    ensures
        ({
            let effects = capture.button_effects(snapshot, client_id, button, pressed, route);
            &&& effects.len() > 0
            &&& effects[0] matches Effect::Send(InputPacket::MouseButtons(told)) && {
                &&& told.client_id == client_id
                &&& is_held(told.buttons, button) == pressed
                &&& other != button ==> is_held(told.buttons, other) == is_held(
                    capture.buttons,
                    other,
                )
            }
            &&& forall|i: int| 1 <= i < effects.len() ==> !((#[trigger] effects[i]) is Send)
        }),
{
    buttons_change_alone(capture, button, other, pressed);
    let noted = capture.with_button(button, pressed);
    assert(noted.report_effects(snapshot, client_id, route) =~= seq![
        Effect::<P>::Send(
            InputPacket::MouseButtons(MouseButtonsInput { client_id, buttons: noted.buttons }),
        ),
    ]);
}

/// A button that is pressed or let go over the video while the pointer is followed, and
/// that begins no drag, is told to the server with the place where it happened.
pub proof fn hovering_clicks_reach_the_server<P>(
    capture: PointerCapture<P>,
    snapshot: SharedInputSnapshot,
    client_id: u32,
    button: PointerButton,
    other: PointerButton,
    pressed: bool,
    route: Route<P>,
    place: Place<P>,
)
    requires
        capture.mode == LocalCaptureMode::HoverAbsolute,
        snapshot.controller_state != ControllerState::Unavailable,
        route.place == Some(place),
        place.inside,
        !place.overlay,
        !route.overlay,
        !pressed || (snapshot.cursor_state.visible && !snapshot.cursor_state.app_grab),
    ensures
        ({
            let effects = capture.button_effects(snapshot, client_id, button, pressed, route);
            &&& effects.len() == 1
            &&& effects[0] matches Effect::Send(InputPacket::MouseAbsolute(told)) && {
                &&& told.client_id == client_id
                &&& told.x == place.x
                &&& told.y == place.y
                &&& is_held(told.buttons, button) == pressed
                &&& other != button ==> is_held(told.buttons, other) == is_held(
                    capture.buttons,
                    other,
                )
            }
        }),
        capture.button_noted(snapshot, button, pressed, route, None).mode
            == LocalCaptureMode::HoverAbsolute,
        capture.button_noted(snapshot, button, pressed, route, None).last_sent == Some(
            (place.x, place.y),
        ),
{
    buttons_change_alone(capture, button, other, pressed);
}

/// Nothing is told of a button by a user who may not control the server, nor while the
/// pointer is the user's own, nor over the client's panels.
pub proof fn clicks_elsewhere_are_not_told<P>(
    capture: PointerCapture<P>,
    snapshot: SharedInputSnapshot,
    client_id: u32,
    button: PointerButton,
    pressed: bool,
    route: Route<P>,
    i: int,
)
    requires
        snapshot.controller_state == ControllerState::Unavailable || capture.mode
            == LocalCaptureMode::Idle || capture.mode == LocalCaptureMode::ForceReleased || (
        route.overlay && !pressed),
        !(capture.mode == LocalCaptureMode::CapturedRelative && route.overlay && pressed),
        0 <= i < capture.button_effects(snapshot, client_id, button, pressed, route).len(),
    ensures
        !(capture.button_effects(snapshot, client_id, button, pressed, route)[i] is Send),
{
}

/// The buttons held after an event are those before it but for the one it is about,
/// unless the pointer is given back: then none is held.
pub proof fn held_buttons_are_known<P>(
    capture: PointerCapture<P>,
    snapshot: SharedInputSnapshot,
    button: PointerButton,
    other: PointerButton,
    pressed: bool,
    route: Route<P>,
    mapped: Option<P>,
)
    ensures
        ({
            let after = capture.button_noted(snapshot, button, pressed, route, mapped);
            let given_back = capture.mode == LocalCaptureMode::CapturedRelative && route.overlay
                && pressed && snapshot.capabilities.separate_cursor && snapshot.cursor_state.visible
                && !snapshot.cursor_state.app_grab;
            &&& given_back ==> after.buttons == 0 && after.mode == LocalCaptureMode::Idle
            &&& !given_back ==> is_held(after.buttons, button) == pressed && (other != button
                ==> is_held(after.buttons, other) == is_held(capture.buttons, other))
        }),
{
    buttons_change_alone(capture, button, other, pressed);
}

/// A press on one of the client's panels while the server's cursor is drawn gives the
/// pointer back there, and the server is told that nothing is held.
pub proof fn panels_take_the_pointer_back<P>(
    capture: PointerCapture<P>,
    snapshot: SharedInputSnapshot,
    client_id: u32,
    own_id: u32,
    button: PointerButton,
    route: Route<P>,
)
    requires
        capture.mode == LocalCaptureMode::CapturedRelative,
        snapshot.capabilities.separate_cursor,
        snapshot.cursor_state.visible,
        !snapshot.cursor_state.app_grab,
        snapshot.client_id == Some(own_id),
        route.overlay,
    ensures
        capture.button_effects(snapshot, client_id, button, true, route) == seq![
            Effect::MovePointer(route.pos),
            Effect::ResetWheel,
            Effect::ClearKeyboard,
            Effect::Send(
                InputPacket::MouseButtons(MouseButtonsInput { client_id: own_id, buttons: 0 }),
            ),
            Effect::Repaint,
        ],
{
    assert(capture.button_effects(snapshot, client_id, button, true, route) =~= seq![
        Effect::MovePointer(route.pos),
        Effect::ResetWheel,
        Effect::ClearKeyboard,
        Effect::Send(
            InputPacket::MouseButtons(MouseButtonsInput { client_id: own_id, buttons: 0 }),
        ),
        Effect::Repaint,
    ]);
}

/// A press of the first or second button over the video begins a drag where the pointer is
/// followed and the server has hidden or grabbed its cursor: the pointer is captured until
/// the drag is over, the position is told first, and with it the button.
pub proof fn drags_capture_the_pointer<P>(
    capture: PointerCapture<P>,
    snapshot: SharedInputSnapshot,
    client_id: u32,
    button: PointerButton,
    route: Route<P>,
    place: Place<P>,
    mapped: Option<P>,
)
    requires
        capture.mode == LocalCaptureMode::HoverAbsolute,
        snapshot.controller_state != ControllerState::Unavailable,
        snapshot.capabilities.separate_cursor,
        snapshot.capabilities.mouse_relative,
        !snapshot.cursor_state.visible || snapshot.cursor_state.app_grab,
        button == PointerButton::Primary || button == PointerButton::Secondary,
        route.place == Some(place),
        place.inside,
        !place.overlay,
        !route.overlay,
    ensures
        ({
            let after = capture.button_noted(snapshot, button, true, route, mapped);
            let effects = capture.button_effects(snapshot, client_id, button, true, route);
            &&& after.mode == LocalCaptureMode::CapturedRelative
            &&& after.resume_hover
            &&& after.hover == Some(route.clamped)
            &&& !after.await_exit
            &&& effects.len() == 2
            &&& effects[0] matches Effect::Send(InputPacket::MouseAbsolute(told)) && told.x
                == place.x && told.y == place.y && told.client_id == client_id && is_held(
                told.buttons,
                button,
            )
            &&& effects[1] is Repaint
        }),
{
    buttons_change_alone(capture, button, button, true);
}

/// No other press begins a drag.
pub proof fn other_presses_begin_no_drag<P>(
    capture: PointerCapture<P>,
    snapshot: SharedInputSnapshot,
    button: PointerButton,
    pressed: bool,
    route: Route<P>,
    mapped: Option<P>,
)
    requires
        capture.mode != LocalCaptureMode::CapturedRelative,
        capture.mode != LocalCaptureMode::HoverAbsolute || !pressed || snapshot.controller_state
            == ControllerState::Unavailable || !snapshot.capabilities.separate_cursor
            || !snapshot.capabilities.mouse_relative || (snapshot.cursor_state.visible
            && !snapshot.cursor_state.app_grab) || button == PointerButton::Middle || button
            == PointerButton::Extra1 || button == PointerButton::Extra2 || route.overlay
            || route.place is None,
    ensures
        capture.button_noted(snapshot, button, pressed, route, mapped).mode == capture.mode,
{
}

/// A drag is over when neither of its buttons is held any more. The pointer is followed
/// again from where the client has kept it, and is put there.
pub proof fn drags_end_where_they_led<P>(
    capture: PointerCapture<P>,
    snapshot: SharedInputSnapshot,
    client_id: u32,
    button: PointerButton,
    route: Route<P>,
    kept: P,
    mapped: Option<P>,
)
    requires
        capture.mode == LocalCaptureMode::CapturedRelative,
        capture.resume_hover,
        capture.hover == Some(kept),
        button == PointerButton::Primary || button == PointerButton::Secondary,
        !is_held(
            capture.buttons,
            if button == PointerButton::Primary {
                PointerButton::Secondary
            } else {
                PointerButton::Primary
            },
        ),
    ensures
        ({
            let after = capture.button_noted(snapshot, button, false, route, mapped);
            let effects = capture.button_effects(snapshot, client_id, button, false, route);
            &&& after.mode == LocalCaptureMode::HoverAbsolute
            &&& !after.resume_hover
            &&& after.hover == Some(kept)
            &&& after.resync
            &&& effects.contains(Effect::MovePointer(kept))
        }),
{
    let b = capture.buttons;
    let m = wire_bit(button);
    let o: u8 = if m == 1 {
        2
    } else {
        1
    };
    assert((b & !m) & 3 == 0) by (bit_vector)
        requires
            m == 1 || m == 2,
            o == 3 - m,
            b & o == 0,
    ;
    let noted = capture.with_button(button, false);
    let report = noted.report_effects(snapshot, client_id, route);
    let ended = noted.buttons_reported(snapshot, route).drag_ended_effects(route);
    let effects = capture.button_effects(snapshot, client_id, button, false, route);
    assert(effects =~= report + ended);
    assert(effects[report.len() as int] == Effect::MovePointer(kept));
}

/// As long as the other button of a drag is held, the drag goes on.
pub proof fn drags_last_until_the_last_button<P>(
    capture: PointerCapture<P>,
    snapshot: SharedInputSnapshot,
    button: PointerButton,
    other: PointerButton,
    route: Route<P>,
    mapped: Option<P>,
)
    requires
        capture.mode == LocalCaptureMode::CapturedRelative,
        other == PointerButton::Primary || other == PointerButton::Secondary,
        other != button,
        is_held(capture.buttons, other),
    ensures
        capture.button_noted(snapshot, button, false, route, mapped).mode
            == LocalCaptureMode::CapturedRelative,
{
    let b = capture.buttons;
    let m = wire_bit(button);
    let o = wire_bit(other);
    assert((b & !m) & 3 != 0) by (bit_vector)
        requires
            m == 1 || m == 2 || m == 4 || m == 8 || m == 16,
            o == 1 || o == 2,
            m != o,
            b & o != 0,
    ;
}

/// A captured pointer's movement is told to the server as it is, with the buttons held; no
/// movement is not told.
pub proof fn movements_are_told<P>(
    capture: PointerCapture<P>,
    client_id: u32,
    dx: i16,
    dy: i16,
)
    ensures
        dx == 0 && dy == 0 ==> capture.movement_effects(client_id, dx, dy).len() == 0,
        dx != 0 || dy != 0 ==> capture.movement_effects(client_id, dx, dy) == seq![
            Effect::<P>::Send(
                InputPacket::MouseRelative(
                    MouseRelativeInput { client_id, dx, dy, buttons: capture.buttons },
                ),
            ),
        ],
{
}

/// A movement counts only for a user who may control the server, and not just after the
/// system has moved the pointer itself. A captured pointer's is told as it is; otherwise it
/// moves the position that the client keeps, where it keeps one.
pub proof fn movements_count_in_their_mode<P>(
    capture: PointerCapture<P>,
    snapshot: SharedInputSnapshot,
    virtual_hover: bool,
    has_video: bool,
    now: Instant,
)
    ensures
        ({
            let motion = capture.motion(snapshot, virtual_hover, has_video, now);
            let swallowed = capture.suppress_delta > 0 || (
            capture.suppress_delta_until matches Some(until) && now.nanos < until.nanos);
            let may = snapshot.controller_state != ControllerState::Unavailable;
            let captured = capture.mode == LocalCaptureMode::CapturedRelative;
            &&& motion is Relative <==> !swallowed && may && captured
            &&& motion is Hover <==> !swallowed && may && !captured && virtual_hover && has_video
            &&& motion matches Motion::Relative { scaled, predicted } ==> (predicted
                <==> snapshot.capabilities.separate_cursor && snapshot.cursor_state.visible
                && !snapshot.cursor_state.app_grab && has_video)
            &&& motion matches Motion::Relative { scaled, predicted } ==> (capture.buttons == 0
                || capture.drag_scaling is None ==> (scaled
                <==> snapshot.capabilities.separate_cursor && snapshot.cursor_state.visible
                && !snapshot.cursor_state.app_grab && !capture.resume_hover))
            &&& motion matches Motion::Relative { scaled, predicted } ==> (capture.buttons != 0
                ==> (capture.drag_scaling matches Some(settled) ==> scaled == settled))
        }),
{
}

/// The scale that is settled for a drag is the one at its start, and is forgotten after it.
pub proof fn scales_are_settled_for_drags<P>(
    capture: PointerCapture<P>,
    snapshot: SharedInputSnapshot,
)
    ensures
        capture.buttons == 0 ==> capture.scaling_settled(snapshot).drag_scaling is None,
        capture.buttons != 0 ==> (capture.drag_scaling matches Some(settled)
            ==> capture.scaling_settled(snapshot).drag_scaling == Some(settled)),
        capture.buttons != 0 && capture.drag_scaling is None ==> capture.scaling_settled(
            snapshot,
        ).drag_scaling == Some(
            snapshot.capabilities.separate_cursor && snapshot.cursor_state.visible
                && !snapshot.cursor_state.app_grab && !capture.resume_hover,
        ),
{
}

/// While the server's cursor is drawn, the pointer gets away where it is moved off the
/// video or onto a panel, unless a button is held or a drag is on. It is given back where
/// it got to, and does not come back before it has left the video.
pub proof fn drawn_pointers_get_away<P>(
    capture: PointerCapture<P>,
    snapshot: SharedInputSnapshot,
    client_id: u32,
    to: Attempt<P>,
    dx: i16,
    dy: i16,
    mapped: Option<P>,
    now: Instant,
)
    ensures
        ({
            let free = capture.buttons == 0 && !capture.resume_hover;
            let after = capture.moved_drawn(snapshot, to, mapped, now);
            let effects = capture.moved_drawn_effects(snapshot, client_id, to, dx, dy);
            if free && (to.overlay || to.outside) {
                &&& after.mode == LocalCaptureMode::Idle
                &&& after.await_exit == !to.overlay
                &&& capture.moved_drawn_to(to) == if to.overlay {
                    to.pos
                } else {
                    to.escape
                }
                &&& effects.contains(Effect::MovePointer(capture.moved_drawn_to(to)))
                &&& forall|i: int|
                    0 <= i < effects.len() ==> !((#[trigger] effects[i]) matches Effect::Send(p)
                        && p is MouseRelative)
            } else {
                &&& after.mode == capture.mode
                &&& after.buttons == capture.buttons
                &&& after.hover == Some(to.clamped.pos)
                &&& after.predicted_at == Some(now)
                &&& capture.moved_drawn_to(to) == to.clamped.pos
                &&& effects == capture.movement_effects(client_id, dx, dy).push(Effect::Repaint)
            }
        }),
{
    let effects = capture.moved_drawn_effects(snapshot, client_id, to, dx, dy);
    if capture.may_escape() && (to.overlay || to.outside) {
        let release = PointerCapture::<P>::auto_release_effects(snapshot.client_id);
        assert(effects[release.len() as int] == Effect::MovePointer(capture.moved_drawn_to(to)));
    }
}

/// A movement with no cursor drawn is told to the server. During a drag the position is
/// kept along, where it is known.
pub proof fn unseen_movements_are_told<P>(
    capture: PointerCapture<P>,
    client_id: u32,
    has_video: bool,
    next: Option<P>,
    dx: i16,
    dy: i16,
    now: Instant,
)
    requires
        dx != 0 || dy != 0,
    ensures
        ({
            let effects = capture.moved_unseen_effects(client_id, has_video, next, dx, dy);
            let after = capture.moved_unseen(has_video, next, dx, dy, now);
            &&& effects.len() > 0
            &&& effects[0] == Effect::<P>::Send(
                InputPacket::MouseRelative(
                    MouseRelativeInput { client_id, dx, dy, buttons: capture.buttons },
                ),
            )
            &&& forall|i: int| 1 <= i < effects.len() ==> (#[trigger] effects[i]) is Repaint
            &&& capture.resume_hover && has_video && next is Some ==> after.hover == next
                && after.predicted_at == Some(now) && effects.len() == 2
            &&& !(capture.resume_hover && has_video && next is Some) ==> after == capture
            &&& after.mode == capture.mode
            &&& after.buttons == capture.buttons
        }),
{
}

/// No movement leaves everything as it is.
pub proof fn no_movement_is_not_told<P>(
    capture: PointerCapture<P>,
    client_id: u32,
    has_video: bool,
    next: Option<P>,
    now: Instant,
)
    ensures
        capture.moved_unseen_effects(client_id, has_video, next, 0, 0).len() == 0,
        capture.moved_unseen(has_video, next, 0, 0, now) == capture,
{
}

/// The position that the client keeps follows the movement and is told to the server; off
/// the video or on a panel the pointer is given back, unless a button is held meanwhile.
pub proof fn kept_positions_follow_movements<P>(
    capture: PointerCapture<P>,
    snapshot: SharedInputSnapshot,
    client_id: u32,
    to: Attempt<P>,
    mapped: Option<P>,
)
    requires
        capture.mode == LocalCaptureMode::HoverAbsolute,
    ensures
        ({
            let after = capture.hover_moved(snapshot, to, mapped);
            let effects = capture.hover_moved_effects(snapshot, client_id, to);
            if capture.buttons == 0 && (to.overlay || to.outside) {
                &&& after.mode == LocalCaptureMode::Idle
                &&& after.await_exit == !to.overlay
                &&& capture.hover_moved_to(to) == if to.overlay {
                    to.pos
                } else {
                    to.escape
                }
                &&& effects.contains(Effect::MovePointer(capture.hover_moved_to(to)))
            } else {
                &&& after.mode == LocalCaptureMode::HoverAbsolute
                &&& after.hover == Some(to.clamped.pos)
                &&& capture.hover_moved_to(to) == to.clamped.pos
                &&& after.buttons == capture.buttons
                &&& to.clamped.inside && !to.clamped.overlay && capture.last_sent != Some(
                    (to.clamped.x, to.clamped.y),
                ) ==> effects == seq![
                    Effect::<P>::Send(
                        InputPacket::MouseAbsolute(
                            MouseAbsoluteInput {
                                client_id,
                                x: to.clamped.x,
                                y: to.clamped.y,
                                buttons: capture.buttons,
                            },
                        ),
                    ),
                    Effect::Repaint,
                ]
            }
        }),
{
    let effects = capture.hover_moved_effects(snapshot, client_id, to);
    if capture.hover_escapes(to) {
        let release = PointerCapture::<P>::auto_release_effects(snapshot.client_id);
        assert(effects[release.len() as int] == Effect::MovePointer(capture.hover_moved_to(to)));
    } else if capture.sends_absolute(to.clamped, false) {
        assert(effects =~= seq![
            Effect::<P>::Send(
                InputPacket::MouseAbsolute(
                    MouseAbsoluteInput {
                        client_id,
                        x: to.clamped.x,
                        y: to.clamped.y,
                        buttons: capture.buttons,
                    },
                ),
            ),
            Effect::Repaint,
        ]);
    }
}

/// A pointer that is followed over the video is told to the server where it is, each
/// position once. Off the video, or on a panel, it is given back.
pub proof fn followed_pointers_are_told<P>(
    capture: PointerCapture<P>,
    snapshot: SharedInputSnapshot,
    client_id: u32,
    outside: bool,
    to: MovedTo<P>,
    mapped: Option<P>,
)
    requires
        capture.mode == LocalCaptureMode::HoverAbsolute,
        snapshot.controller_state != ControllerState::Unavailable,
    ensures
        ({
            let after = capture.moved(snapshot, client_id, false, outside, Some(to), mapped);
            let effects = capture.moved_effects(snapshot, client_id, false, Some(to));
            if to.near && !to.overlay {
                &&& after.mode == LocalCaptureMode::HoverAbsolute
                &&& after.hover == Some(to.clamped.pos)
                &&& after.buttons == capture.buttons
                &&& to.clamped.inside && !to.clamped.overlay ==> after.last_sent == Some(
                    (to.clamped.x, to.clamped.y),
                )
                &&& to.clamped.inside && !to.clamped.overlay && capture.last_sent != Some(
                    (to.clamped.x, to.clamped.y),
                ) ==> effects.len() == 2 && effects[0] == Effect::<P>::Send(
                    InputPacket::MouseAbsolute(
                        MouseAbsoluteInput {
                            client_id,
                            x: to.clamped.x,
                            y: to.clamped.y,
                            buttons: capture.buttons,
                        },
                    ),
                )
                &&& capture.last_sent == Some((to.clamped.x, to.clamped.y)) ==> effects == seq![
                    Effect::<P>::Repaint,
                ]
            } else {
                &&& after.mode == LocalCaptureMode::Idle
                &&& after.buttons == 0
                &&& !after.await_exit
            }
        }),
{
}

/// A pointer that is not followed is not told, and only its leaving the video is noted.
pub proof fn free_pointers_are_not_told<P>(
    capture: PointerCapture<P>,
    snapshot: SharedInputSnapshot,
    client_id: u32,
    virtual_hover: bool,
    outside: bool,
    to: Option<MovedTo<P>>,
    mapped: Option<P>,
)
    requires
        capture.mode != LocalCaptureMode::HoverAbsolute || virtual_hover
            || snapshot.controller_state == ControllerState::Unavailable || to is None,
    ensures
        capture.moved_effects(snapshot, client_id, virtual_hover, to).len() == 0,
        capture.moved(snapshot, client_id, virtual_hover, outside, to, mapped) == (PointerCapture {
            await_exit: capture.await_exit && !outside,
            ..capture
        }),
{
}

/// A pointer that is given back holds nothing and waits for nothing: no button, no click,
/// no position, no drag.
pub proof fn released_pointers_keep_nothing<P>(
    capture: PointerCapture<P>,
    await_exit: bool,
    snapshot: SharedInputSnapshot,
    mapped: Option<P>,
)
    ensures
        ({
            let free = capture.released();
            let forced = capture.force_released();
            let auto = capture.auto_released(await_exit, snapshot, mapped);
            &&& free.mode == LocalCaptureMode::Idle && forced.mode
                == LocalCaptureMode::ForceReleased && auto.mode == LocalCaptureMode::Idle
            &&& free.buttons == 0 && forced.buttons == 0 && auto.buttons == 0
            &&& !free.pending_click && !forced.pending_click && !auto.pending_click
            &&& free.last_sent is None && forced.last_sent is None && auto.last_sent is None
            &&& !free.resume_hover && !forced.resume_hover && !auto.resume_hover
            &&& !free.resync && !forced.resync && !auto.resync
            &&& free.hidden_frames == 0 && forced.hidden_frames == 0 && auto.hidden_frames == 0
            &&& free.predicted_at is None && forced.predicted_at is None && auto.predicted_at
                is None
            &&& free.hover is None && forced.hover is None
            &&& !free.await_exit && !forced.await_exit && auto.await_exit == await_exit
            &&& capture.mode == LocalCaptureMode::CapturedRelative
                && snapshot.capabilities.separate_cursor && snapshot.cursor_state.visible
                && !snapshot.cursor_state.app_grab && capture.hover is Some ==> auto.hover
                == capture.hover
            &&& capture.mode == LocalCaptureMode::CapturedRelative
                && snapshot.capabilities.separate_cursor && snapshot.cursor_state.visible
                && !snapshot.cursor_state.app_grab && capture.hover is None ==> auto.hover == mapped
            &&& capture.mode != LocalCaptureMode::CapturedRelative
                || !snapshot.capabilities.separate_cursor || !snapshot.cursor_state.visible
                || snapshot.cursor_state.app_grab ==> auto.hover is None
        }),
{
}

/// When the pointer is given back, all keys are let go and the server is told that no
/// button is held; nothing else is told.
pub proof fn releases_are_told<P>(client_id: u32)
    ensures
        PointerCapture::<P>::auto_release_effects(Some(client_id)) == seq![
            Effect::<P>::ResetWheel,
            Effect::ClearKeyboard,
            Effect::Send(InputPacket::MouseButtons(MouseButtonsInput { client_id, buttons: 0 })),
        ],
        PointerCapture::<P>::force_release_effects(Some(client_id)) == seq![
            Effect::<P>::ClearKeyboard,
            Effect::Send(InputPacket::MouseButtons(MouseButtonsInput { client_id, buttons: 0 })),
        ],
        PointerCapture::<P>::auto_release_effects(None) == seq![
            Effect::<P>::ResetWheel,
            Effect::ClearKeyboard,
        ],
        PointerCapture::<P>::force_release_effects(None) == seq![Effect::<P>::ClearKeyboard],
{
    assert(PointerCapture::<P>::auto_release_effects(Some(client_id)) =~= seq![
        Effect::<P>::ResetWheel,
        Effect::ClearKeyboard,
        Effect::Send(InputPacket::MouseButtons(MouseButtonsInput { client_id, buttons: 0 })),
    ]);
    assert(PointerCapture::<P>::force_release_effects(Some(client_id)) =~= seq![
        Effect::<P>::ClearKeyboard,
        Effect::Send(InputPacket::MouseButtons(MouseButtonsInput { client_id, buttons: 0 })),
    ]);
    assert(PointerCapture::<P>::auto_release_effects(None) =~= seq![
        Effect::<P>::ResetWheel,
        Effect::ClearKeyboard,
    ]);
    assert(PointerCapture::<P>::force_release_effects(None) =~= seq![Effect::<P>::ClearKeyboard]);
}

/// A position goes to the server in the server's coordinates, with the buttons held; from
/// over the video only, and twice only where it is forced.
pub proof fn positions_go_to_the_server<P>(
    capture: PointerCapture<P>,
    client_id: u32,
    place: Place<P>,
    force: bool,
)
    ensures
        ({
            let effects = capture.absolute_effects(client_id, place, force);
            let known = capture.last_sent == Some((place.x, place.y));
            &&& place.inside && !place.overlay && (force || !known) ==> effects == seq![
                Effect::<P>::Send(
                    InputPacket::MouseAbsolute(
                        MouseAbsoluteInput {
                            client_id,
                            x: place.x,
                            y: place.y,
                            buttons: capture.buttons,
                        },
                    ),
                ),
            ]
            &&& !place.inside || place.overlay || (known && !force) ==> effects.len() == 0
            &&& place.inside && !place.overlay ==> capture.absolute_sent(place) == (PointerCapture {
                last_sent: Some((place.x, place.y)),
                ..capture
            })
            &&& !place.inside || place.overlay ==> capture.absolute_sent(place) == (PointerCapture {
                last_sent: None,
                ..capture
            })
        }),
{
}

/// A click acts where the client keeps the pointer, where it keeps it; where the server's
/// cursor is drawn, at that cursor; and otherwise where the window system says.
pub proof fn clicks_act_where_the_user_sees_them<P>(
    capture: PointerCapture<P>,
    snapshot: SharedInputSnapshot,
    reported: Option<P>,
    mapped: Option<P>,
)
    ensures
        capture.hover is Some ==> capture.acts_at(snapshot, true, reported, mapped)
            == capture.hover,
        capture.hover is None ==> capture.acts_at(snapshot, true, reported, mapped) == reported,
        capture.mode == LocalCaptureMode::CapturedRelative && snapshot.capabilities.separate_cursor
            && snapshot.cursor_state.visible && !snapshot.cursor_state.app_grab && mapped is Some
            ==> capture.acts_at(snapshot, false, reported, mapped) == mapped,
        capture.mode == LocalCaptureMode::CapturedRelative && snapshot.capabilities.separate_cursor
            && snapshot.cursor_state.visible && !snapshot.cursor_state.app_grab && mapped is None
            && capture.hover is Some ==> capture.acts_at(snapshot, false, reported, mapped)
            == capture.hover,
        capture.mode != LocalCaptureMode::CapturedRelative || !snapshot.capabilities.separate_cursor
            || !snapshot.cursor_state.visible || snapshot.cursor_state.app_grab ==> capture.acts_at(
            snapshot,
            false,
            reported,
            mapped,
        ) == reported,
{
}

/// The user takes the pointer back by pressing Z with the modifiers for that, and by no
/// other event.
pub proof fn one_shortcut_takes_the_pointer_back(
    key: LocalKey,
    pressed: bool,
    modifiers: Modifiers,
    macos: bool,
)
    ensures
        capture_hook::asks_for_release(EventKind::Key { key, pressed, modifiers }, macos) <==> key == LocalKey::Z
            && pressed && keys::releases_pointer(modifiers, macos),
        !capture_hook::asks_for_release(EventKind::Text, macos),
        !capture_hook::asks_for_release(EventKind::Copy, macos),
        !capture_hook::asks_for_release(EventKind::Cut, macos),
        !capture_hook::asks_for_release(EventKind::Paste, macos),
        !capture_hook::asks_for_release(EventKind::Other, macos),
{
}

} // verus!
