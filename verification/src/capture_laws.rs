//! What holds of pointer capture as a whole.
use crate::capture;
use crate::capture::{
    CursorFacts, Effect, LocalCaptureMode, Place, PointerButton, PointerCapture,
    SharedInputSnapshot,
};
use crate::capture_frame;
use crate::capture_frame::FrameFacts;
use crate::capture_hook::{MovedTo, Route};
use crate::input::InputPacket;
use crate::time::Instant;
use vstd::prelude::*;

verus! {

/// A pointer that the user has taken back stays the user's until the video is
/// clicked: through every frame, and through every movement and button.
pub proof fn released_pointer_stays_released<P>(
    capture: PointerCapture<P>,
    snapshot: SharedInputSnapshot,
    facts: FrameFacts<P>,
    now: Instant,
    client_id: u32,
    outside: bool,
    to: Option<MovedTo<P>>,
    button: PointerButton,
    pressed: bool,
    route: Route<P>,
    mapped: Option<P>,
)
    requires
        capture.mode == LocalCaptureMode::ForceReleased,
        !capture.pending_click,
        !(facts.clicked && facts.over_video()),
    ensures
        capture.after_frame(snapshot, facts, now).mode == LocalCaptureMode::ForceReleased,
        !capture.after_frame(snapshot, facts, now).pending_click,
        capture.moved(snapshot, client_id, false, outside, to, mapped).mode
            == LocalCaptureMode::ForceReleased,
        capture.button_noted(snapshot, button, pressed, route, mapped).mode
            == LocalCaptureMode::ForceReleased,
{
}

/// Taking the pointer back leaves no click waiting.
pub proof fn force_release_forgets_clicks<P>(capture: PointerCapture<P>)
    ensures
        capture.force_released().mode == LocalCaptureMode::ForceReleased,
        !capture.force_released().pending_click,
        capture.force_released().buttons == 0,
{
}

/// A click on the video gives control back to a user who has it: the pointer is
/// followed if the server can place its cursor, and captured if it can only be
/// moved.
pub proof fn click_takes_control<P>(
    capture: PointerCapture<P>,
    snapshot: SharedInputSnapshot,
    facts: FrameFacts<P>,
    now: Instant,
)
    requires
        snapshot.allowed(),
        capture.mode == LocalCaptureMode::ForceReleased,
        facts.clicked,
        facts.over_video(),
        snapshot.hover_supported() || snapshot.capabilities.mouse_relative,
    ensures
        capture.after_frame(snapshot, facts, now).mode == if snapshot.hover_supported() {
            LocalCaptureMode::HoverAbsolute
        } else {
            LocalCaptureMode::CapturedRelative
        },
{
}

/// Without control nothing is forwarded.
pub proof fn no_control_no_forwarding<P>(
    capture: PointerCapture<P>,
    snapshot: SharedInputSnapshot,
    facts: FrameFacts<P>,
    now: Instant,
)
    requires
        !snapshot.allowed(),
    ensures
        !capture.after_frame(snapshot, facts, now).mode.forwards(),
{
}

/// A window that loses the focus lets a captured pointer go.
pub proof fn lost_focus_frees_the_pointer<P>(
    capture: PointerCapture<P>,
    snapshot: SharedInputSnapshot,
    facts: FrameFacts<P>,
    now: Instant,
)
    requires
        capture.mode == LocalCaptureMode::CapturedRelative,
        snapshot.allowed(),
        !facts.focused,
        !(facts.clicked && facts.over_video()),
    ensures
        capture.after_frame(snapshot, facts, now).mode == LocalCaptureMode::ForceReleased,
{
}

/// The pointer is captured by itself only after the server has withheld its
/// cursor for four frames running: one frame with the cursor shown starts the
/// count again.
pub proof fn capture_is_debounced<P>(
    capture: PointerCapture<P>,
    snapshot: SharedInputSnapshot,
    facts: FrameFacts<P>,
    now: Instant,
)
    requires
        capture.mode != LocalCaptureMode::CapturedRelative,
        !capture.pending_click,
        !(facts.clicked && facts.over_video()),
    ensures
        capture.after_frame(snapshot, facts, now).mode == LocalCaptureMode::CapturedRelative ==> {
            &&& capture_frame::cursor_withheld(snapshot)
            &&& capture.hidden_frames >= 3
        },
        !capture_frame::cursor_withheld(snapshot) ==> capture.after_frame(
            snapshot,
            facts,
            now,
        ).hidden_frames == 0,
        capture.after_frame(snapshot, facts, now).hidden_frames <= capture.hidden_frames + 1,
{
}

/// A captured pointer is let go by itself only after the server has shown its
/// cursor for ten frames running, and never during a drag.
pub proof fn release_is_debounced<P>(
    capture: PointerCapture<P>,
    snapshot: SharedInputSnapshot,
    facts: FrameFacts<P>,
    now: Instant,
)
    requires
        capture.mode == LocalCaptureMode::CapturedRelative,
        snapshot.allowed(),
        facts.focused,
    ensures
        capture.after_frame(snapshot, facts, now).mode != LocalCaptureMode::CapturedRelative ==> {
            &&& !capture_frame::cursor_withheld(snapshot)
            &&& capture.shown_frames >= 9
            &&& capture.buttons == 0
            &&& snapshot.capabilities.mouse_absolute
        },
        capture_frame::cursor_withheld(snapshot) ==> capture.after_frame(
            snapshot,
            facts,
            now,
        ).shown_frames == 0,
        capture.after_frame(snapshot, facts, now).shown_frames <= capture.shown_frames + 1,
{
}

/// There are never two cursors: whenever the server's cursor may be drawn, the
/// system's has been told to hide, and long enough ago.
pub proof fn never_two_cursors<P>(
    capture: PointerCapture<P>,
    snapshot: SharedInputSnapshot,
    facts: CursorFacts,
    now: Instant,
    occluded: bool,
    strict: bool,
    focused: bool,
    pointer_present: bool,
    later: Instant,
)
    requires
        capture.mode_applied(snapshot, facts, now).may_draw(
            occluded,
            strict,
            focused,
            pointer_present,
            later,
        ),
    ensures
        !capture.wanted_visible(snapshot, facts),
        capture.applied_visible == Some(false),
        strict && facts.pointer_present && !capture.pointer_present ==> later.nanos >= now.later(
            crate::time::Duration { nanos: crate::capture::OS_CURSOR_HIDE_SETTLE_NANOS },
        ).nanos,
{
}

/// While the client draws the server's cursor, the system's is hidden; and while
/// nothing is forwarded, it is shown and free.
pub proof fn one_cursor_is_shown<P>(
    capture: PointerCapture<P>,
    snapshot: SharedInputSnapshot,
    facts: CursorFacts,
    now: Instant,
)
    ensures
        capture.overlay_active(snapshot, facts) ==> capture.mode_applied(
            snapshot,
            facts,
            now,
        ).applied_visible == Some(false),
        !capture.mode.forwards() ==> {
            &&& capture.mode_applied(snapshot, facts, now).applied_visible == Some(true)
            &&& capture.mode_applied(snapshot, facts, now).applied_grab == Some(
                capture::CursorGrab::Free,
            )
        },
{
}

/// Applying the mode twice asks nothing more of the window.
pub proof fn applying_is_idempotent<P>(
    capture: PointerCapture<P>,
    snapshot: SharedInputSnapshot,
    facts: CursorFacts,
    now: Instant,
)
    ensures
        capture.mode_applied(snapshot, facts, now).mode_effects(snapshot, facts) == Seq::<
            Effect<P>,
        >::empty(),
{
    assert(capture.mode_applied(snapshot, facts, now).mode_effects(snapshot, facts) =~= Seq::<
        Effect<P>,
    >::empty());
}

/// After a change of the hold on the pointer, movements are ignored for 80
/// milliseconds, however the frames fall.
pub proof fn grab_jumps_are_swallowed<P>(
    capture: PointerCapture<P>,
    grab: capture::CursorGrab,
    now: Instant,
    at: Instant,
)
    requires
        capture.applied_grab != Some(grab),
        at.nanos < now.later(
            crate::time::Duration { nanos: crate::capture::GRAB_SUPPRESSION_NANOS },
        ).nanos,
    ensures
        capture.held(grab, now).delta_suppressed(at),
{
}

/// During a drag, movements are scaled as they were at its start, whatever the
/// server says of its cursor.
pub proof fn drags_keep_their_scale<P>(
    capture: PointerCapture<P>,
    first: SharedInputSnapshot,
    later: SharedInputSnapshot,
)
    requires
        capture.buttons != 0,
    ensures
        capture.scaling_settled(first).scaling(later) == capture.scaling(first),
{
}

/// A drag that has captured the pointer gives it back when the last of its
/// buttons is let go.
pub proof fn drags_give_the_pointer_back<P>(
    capture: PointerCapture<P>,
    snapshot: SharedInputSnapshot,
    button: PointerButton,
    at_press: Route<P>,
    later: SharedInputSnapshot,
    at_release: Route<P>,
    mapped: Option<P>,
)
    requires
        capture.mode == LocalCaptureMode::HoverAbsolute,
        capture.buttons & 3 == 0,
        capture.with_button(button, true).enters_drag(snapshot, button, true, at_press),
    ensures
        ({
            let dragging = capture.button_noted(snapshot, button, true, at_press, mapped);
            &&& dragging.mode == LocalCaptureMode::CapturedRelative
            &&& dragging.button_noted(later, button, false, at_release, mapped).mode
                == LocalCaptureMode::HoverAbsolute
            &&& !dragging.button_noted(later, button, false, at_release, mapped).resume_hover
        }),
{
    let buttons = capture.buttons;
    let mask = capture::mask_of(button);
    assert(((buttons | mask) & !mask) & 3 == 0) by (bit_vector)
        requires
            buttons & 3 == 0,
    ;
}

/// A position is sent once, and only from over the video.
pub proof fn positions_are_sent_once<P>(capture: PointerCapture<P>, place: Place<P>, client_id: u32)
    ensures
        !capture.absolute_sent(place).sends_absolute(place, false),
        capture.absolute_effects(client_id, place, true).len() > 0 <==> place.inside
            && !place.overlay,
{
}

/// Whenever the pointer is given back, the server is told that no button is held.
pub proof fn releases_reach_the_server<P>(client_id: u32)
    ensures
        PointerCapture::<P>::auto_release_effects(Some(client_id)).contains(
            Effect::Send(
                InputPacket::MouseButtons(
                    crate::input::MouseButtonsInput { client_id, buttons: 0 },
                ),
            ),
        ),
        PointerCapture::<P>::force_release_effects(Some(client_id)).contains(
            Effect::Send(
                InputPacket::MouseButtons(
                    crate::input::MouseButtonsInput { client_id, buttons: 0 },
                ),
            ),
        ),
{
    let told = Effect::<P>::Send(
        InputPacket::MouseButtons(crate::input::MouseButtonsInput { client_id, buttons: 0 }),
    );
    assert(PointerCapture::<P>::auto_release_effects(Some(client_id))[2] == told);
    assert(PointerCapture::<P>::force_release_effects(Some(client_id))[1] == told);
}

} // verus!
