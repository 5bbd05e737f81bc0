//! What holds of the pointer from frame to frame: when it is captured and followed, which
//! cursor is shown, and where it is drawn.
use crate::capture;
use crate::capture::{
    ControllerState, CursorFacts, CursorGrab, Effect, LocalCaptureMode, Place, PointerCapture,
    SharedInputSnapshot,
};
use crate::capture_frame;
use crate::capture_frame::{FrameFacts, FramePointer};
use crate::time::Instant;
use vstd::prelude::*;

verus! {

/// The server's cursor is withheld when somebody controls the server, the cursor comes
/// apart from the video, something has been heard of it, and it is hidden or grabbed.
pub proof fn withheld_cursors(snapshot: SharedInputSnapshot)
    ensures
        capture_frame::cursor_withheld(snapshot) <==> snapshot.capabilities.separate_cursor && (
        snapshot.controller_state == ControllerState::OwnedByYou || snapshot.controller_state
            == ControllerState::OwnedByOther) && snapshot.cursor_state_version > 0 && (
        !snapshot.cursor_state.visible || snapshot.cursor_state.app_grab),
{
}

/// Frames are counted while the server withholds its cursor, and while it shows it. Each
/// count starts again when the other goes on.
pub proof fn frames_are_counted<P>(capture: PointerCapture<P>, snapshot: SharedInputSnapshot)
    ensures
        capture_frame::cursor_withheld(snapshot) ==> {
            let after = capture.counted(snapshot);
            &&& after.shown_frames == 0
            &&& capture.hidden_frames < 255 ==> after.hidden_frames == capture.hidden_frames + 1
            &&& capture.hidden_frames == 255 ==> after.hidden_frames == 255
        },
        !capture_frame::cursor_withheld(snapshot) ==> {
            let after = capture.counted(snapshot);
            &&& after.hidden_frames == 0
            &&& capture.shown_frames < 255 ==> after.shown_frames == capture.shown_frames + 1
            &&& capture.shown_frames == 255 ==> after.shown_frames == 255
        },
        capture.counted(snapshot).mode == capture.mode,
        capture.counted(snapshot).buttons == capture.buttons,
        capture.counted(snapshot).hover == capture.hover,
{
}

/// The pointer over the video is captured once the server has withheld its cursor for
/// four frames, if movements can be sent to it.
pub proof fn withheld_cursors_capture_the_pointer<P>(
    capture: PointerCapture<P>,
    snapshot: SharedInputSnapshot,
    facts: FrameFacts<P>,
)
    requires
        snapshot.controller_state != ControllerState::Unavailable,
        capture.mode == LocalCaptureMode::Idle || capture.mode == LocalCaptureMode::HoverAbsolute,
        snapshot.capabilities.mouse_relative,
        capture.hidden_frames >= 4,
        facts.near,
        !facts.overlay,
    ensures
        capture.resolved(snapshot, facts).mode == LocalCaptureMode::CapturedRelative,
        capture.resolved(snapshot, facts).buttons == capture.buttons,
        capture.resolve_effects(snapshot, facts) == seq![Effect::<P>::Repaint],
{
}

/// A captured pointer is given back once the server has shown its cursor for ten frames
/// and no button is held, if positions can be sent: over the video it is followed then. It
/// comes back where the server's cursor is, if that can be relied on.
pub proof fn shown_cursors_give_the_pointer_back<P>(
    capture: PointerCapture<P>,
    snapshot: SharedInputSnapshot,
    facts: FrameFacts<P>,
)
    requires
        snapshot.controller_state != ControllerState::Unavailable,
        capture.mode == LocalCaptureMode::CapturedRelative,
        snapshot.capabilities.mouse_absolute,
        capture.shown_frames >= 10,
        capture.buttons == 0,
    ensures
        ({
            let after = capture.resolved(snapshot, facts);
            let effects = capture.resolve_effects(snapshot, facts);
            let back = if snapshot.capabilities.cursor_position_reliable {
                facts.mapped_clamped
            } else {
                facts.hover_clamped
            };
            &&& after.mode == LocalCaptureMode::HoverAbsolute
                <==> snapshot.capabilities.hover_capture && facts.near && !facts.overlay
            &&& after.mode != LocalCaptureMode::HoverAbsolute ==> after.mode
                == LocalCaptureMode::Idle
            &&& after.last_sent is None
            &&& back is Some ==> after.hover == back && effects == seq![
                Effect::MovePointer(back->0),
                Effect::Repaint,
            ]
            &&& back is None ==> after.hover == capture.hover && effects == seq![
                Effect::<P>::Repaint,
            ]
        }),
{
}

/// A captured pointer stays captured while a button is held, while the server has not
/// shown its cursor for ten frames, and where positions cannot be sent.
pub proof fn captured_pointers_stay<P>(
    capture: PointerCapture<P>,
    snapshot: SharedInputSnapshot,
    facts: FrameFacts<P>,
)
    requires
        capture.mode == LocalCaptureMode::CapturedRelative,
        capture.buttons != 0 || capture.shown_frames < 10 || !snapshot.capabilities.mouse_absolute,
    ensures
        capture.resolved(snapshot, facts) == capture,
        capture.resolve_effects(snapshot, facts).len() == 0,
{
}

/// The pointer is followed as soon as it is over the video, where the server can place its
/// cursor; unless it has to leave the video first, or is about to be captured.
pub proof fn pointers_over_the_video_are_followed<P>(
    capture: PointerCapture<P>,
    snapshot: SharedInputSnapshot,
    facts: FrameFacts<P>,
)
    requires
        snapshot.controller_state != ControllerState::Unavailable,
        capture.mode == LocalCaptureMode::Idle,
        capture.hidden_frames < 4 || !snapshot.capabilities.mouse_relative,
    ensures
        capture.resolved(snapshot, facts).mode == LocalCaptureMode::HoverAbsolute
            <==> snapshot.capabilities.hover_capture && snapshot.capabilities.mouse_absolute
            && facts.near && !facts.overlay && !capture.await_exit,
        capture.resolved(snapshot, facts).mode != LocalCaptureMode::HoverAbsolute
            ==> capture.resolved(snapshot, facts) == capture,
        capture.resolve_effects(snapshot, facts).len() == 0,
{
}

/// A pointer that is followed is given back when it leaves the video or comes onto a panel,
/// unless a button is held.
pub proof fn followed_pointers_are_given_back<P>(
    capture: PointerCapture<P>,
    snapshot: SharedInputSnapshot,
    facts: FrameFacts<P>,
)
    requires
        snapshot.controller_state != ControllerState::Unavailable,
        capture.mode == LocalCaptureMode::HoverAbsolute,
        capture.hidden_frames < 4 || !snapshot.capabilities.mouse_relative,
    ensures
        capture.buttons == 0 && (!facts.near || facts.overlay) ==> capture.resolved(
            snapshot,
            facts,
        ).mode == LocalCaptureMode::Idle && capture.resolve_effects(snapshot, facts)
            == PointerCapture::<P>::auto_release_effects(snapshot.client_id),
        capture.buttons != 0 || (facts.near && !facts.overlay) ==> capture.resolved(
            snapshot,
            facts,
        ).mode == LocalCaptureMode::HoverAbsolute && capture.resolve_effects(snapshot, facts).len()
            == 0,
{
}

/// A pointer that the user has taken back, and that of a user who may not control the
/// server, is left alone.
pub proof fn pointers_taken_back_are_left_alone<P>(
    capture: PointerCapture<P>,
    snapshot: SharedInputSnapshot,
    facts: FrameFacts<P>,
)
    requires
        snapshot.controller_state == ControllerState::Unavailable || capture.mode
            == LocalCaptureMode::ForceReleased,
    ensures
        capture.resolved(snapshot, facts) == capture,
        capture.resolve_effects(snapshot, facts).len() == 0,
{
}

/// A user who may not control the server any more has the pointer back.
pub proof fn control_lost_is_pointer_regained<P>(
    capture: PointerCapture<P>,
    snapshot: SharedInputSnapshot,
)
    ensures
        snapshot.controller_state == ControllerState::Unavailable && (capture.mode
            == LocalCaptureMode::HoverAbsolute || capture.mode
            == LocalCaptureMode::CapturedRelative) ==> capture.without_control(snapshot)
            == (PointerCapture { mode: LocalCaptureMode::Idle, ..capture }),
        snapshot.controller_state != ControllerState::Unavailable || capture.mode
            == LocalCaptureMode::Idle || capture.mode == LocalCaptureMode::ForceReleased
            ==> capture.without_control(snapshot) == capture,
{
}

/// A window that loses the focus has to set up its cursor again, and gives a captured
/// pointer back; one that has the focus changes nothing.
pub proof fn focus_keeps_the_pointer<P>(
    capture: PointerCapture<P>,
    snapshot: SharedInputSnapshot,
)
    ensures
        capture.focus_noted(true) == capture,
        capture.focus_effects(true, snapshot).len() == 0,
        capture.focus_noted(false).applied_grab is None,
        capture.focus_noted(false).applied_visible is None,
        capture.mode == LocalCaptureMode::CapturedRelative ==> capture.focus_noted(false).mode
            == LocalCaptureMode::ForceReleased && capture.focus_noted(false).buttons == 0
            && capture.focus_effects(false, snapshot) == PointerCapture::<
            P,
        >::force_release_effects(snapshot.client_id),
        capture.mode != LocalCaptureMode::CapturedRelative ==> capture.focus_noted(false).mode
            == capture.mode && capture.focus_noted(false).buttons == capture.buttons
            && capture.focus_effects(false, snapshot).len() == 0,
{
}

/// A position of the client's own is kept; and a pointer that has left the video need not
/// leave it any more.
pub proof fn positions_are_noted<P>(capture: PointerCapture<P>, facts: FrameFacts<P>)
    ensures
        facts.synthetic ==> capture.noted(facts).hover == facts.pointer,
        !facts.synthetic ==> capture.noted(facts).hover == capture.hover,
        capture.noted(facts).await_exit <==> capture.await_exit && facts.near,
        capture.noted(facts).mode == capture.mode,
        capture.noted(facts).buttons == capture.buttons,
{
}

/// A click takes control where it is on the video: at once for a user who may have it, and
/// otherwise as soon as that user may.
pub proof fn clicks_are_answered<P>(
    capture: PointerCapture<P>,
    snapshot: SharedInputSnapshot,
    facts: FrameFacts<P>,
    now: Instant,
)
    ensures
        !facts.clicked || !facts.near || facts.overlay ==> capture.click_noted(snapshot, facts, now)
            == capture && capture.click_effects(snapshot, facts).len() == 0,
        facts.clicked && facts.near && !facts.overlay && snapshot.controller_state
            == ControllerState::Unavailable ==> capture.click_noted(snapshot, facts, now)
            == (PointerCapture { pending_click: true, ..capture }),
        facts.clicked && facts.near && !facts.overlay && snapshot.controller_state
            != ControllerState::Unavailable ==> !capture.click_noted(
            snapshot,
            facts,
            now,
        ).pending_click && !capture.click_noted(snapshot, facts, now).await_exit,
        capture.pending_click && snapshot.controller_state != ControllerState::Unavailable
            ==> !capture.pending_noted(snapshot, facts, now).pending_click,
        !capture.pending_click || snapshot.controller_state == ControllerState::Unavailable
            ==> capture.pending_noted(snapshot, facts, now) == capture,
{
}

/// Taking control follows the pointer where the server can place its cursor, and captures
/// it where it can only be moved. A pointer that is captured or followed stays so.
pub proof fn control_follows_or_captures<P>(
    capture: PointerCapture<P>,
    snapshot: SharedInputSnapshot,
    facts: FrameFacts<P>,
    now: Instant,
)
    ensures
        ({
            let after = capture.engaged(snapshot, facts, now);
            let free = capture.mode == LocalCaptureMode::Idle || capture.mode
                == LocalCaptureMode::ForceReleased;
            let placed = snapshot.capabilities.hover_capture
                && snapshot.capabilities.mouse_absolute;
            &&& !free ==> after.mode == capture.mode
            &&& free && placed ==> after.mode == LocalCaptureMode::HoverAbsolute
            &&& free && !placed && snapshot.capabilities.mouse_relative ==> after.mode
                == LocalCaptureMode::CapturedRelative
            &&& free && !placed && !snapshot.capabilities.mouse_relative ==> after.mode
                == capture.mode
            &&& !after.await_exit && !after.pending_click
            &&& after.buttons == capture.buttons
        }),
{
}

/// A pointer that is captured by a click starts from where the click was: the server's
/// cursor is brought there.
pub proof fn captures_start_at_the_click<P>(
    capture: PointerCapture<P>,
    snapshot: SharedInputSnapshot,
    facts: FrameFacts<P>,
    at: P,
    now: Instant,
)
    requires
        capture.mode == LocalCaptureMode::Idle || capture.mode == LocalCaptureMode::ForceReleased,
        !(snapshot.capabilities.hover_capture && snapshot.capabilities.mouse_absolute),
        snapshot.capabilities.mouse_relative,
        snapshot.client_id is Some,
        facts.pointer_clamped == Some(at),
    ensures
        capture.engaged(snapshot, facts, now).hover == Some(at),
        capture.engaged(snapshot, facts, now).predicted_at == Some(now),
        capture.engage_effects(snapshot, facts) == seq![Effect::WarpServer(at)],
{
}

/// Nothing is sent on taking control where the pointer is followed, or is captured already.
pub proof fn followed_pointers_need_no_warp<P>(
    capture: PointerCapture<P>,
    snapshot: SharedInputSnapshot,
    facts: FrameFacts<P>,
)
    requires
        capture.mode == LocalCaptureMode::HoverAbsolute || capture.mode
            == LocalCaptureMode::CapturedRelative || (snapshot.capabilities.hover_capture
            && snapshot.capabilities.mouse_absolute) || facts.pointer_clamped is None
            || snapshot.client_id is None,
    ensures
        capture.engage_effects(snapshot, facts).len() == 0,
{
}

/// Just after the system has moved the pointer, its position is the one that the client
/// keeps.
pub proof fn jumps_of_the_system_are_not_positions<P>(
    capture: PointerCapture<P>,
    latest: Option<P>,
)
    ensures
        capture.suppress_pos_frames == 0 ==> capture.actual_pointer(latest) == latest,
        capture.suppress_pos_frames > 0 && capture.hover is Some ==> capture.actual_pointer(latest)
            == capture.hover,
        capture.suppress_pos_frames > 0 && capture.hover is None ==> capture.actual_pointer(latest)
            == latest,
{
}

/// The pointer is where the window system says, but for one that is followed on a system
/// that locks it: that one is where the client has moved it.
pub proof fn frames_know_the_pointer<P>(
    capture: PointerCapture<P>,
    snapshot: SharedInputSnapshot,
    macos: bool,
    latest: Option<P>,
    moved: Option<P>,
)
    requires
        capture.suppress_pos_frames == 0,
    ensures
        ({
            let found = capture.frame_pointer(snapshot, macos, latest, moved);
            let locked = macos && snapshot.controller_state != ControllerState::Unavailable
                && snapshot.capabilities.hover_capture && !snapshot.capabilities.separate_cursor
                && capture.mode == LocalCaptureMode::HoverAbsolute;
            &&& found.actual == latest
            &&& !locked ==> found.pointer == latest && !found.synthetic
            &&& locked && snapshot.capabilities.mouse_absolute && moved is Some ==> found.pointer
                == moved && found.synthetic
            &&& locked && snapshot.capabilities.mouse_absolute && moved is None ==> found.pointer
                == latest && found.synthetic == (latest is Some)
            &&& locked && !snapshot.capabilities.mouse_absolute ==> !found.synthetic
                && found.pointer == if capture.hover is Some {
                capture.hover
            } else {
                latest
            }
        }),
{
}

/// While the pointer is followed, its position goes to the server once in every frame in
/// which it is new, or has to be told again.
pub proof fn followed_positions_go_out<P>(
    capture: PointerCapture<P>,
    snapshot: SharedInputSnapshot,
    client_id: u32,
    place: Place<P>,
    covered: bool,
    virtual_hover: bool,
)
    requires
        snapshot.controller_state != ControllerState::Unavailable,
        snapshot.client_id == Some(client_id),
        virtual_hover || !covered,
    ensures
        capture.mode == LocalCaptureMode::HoverAbsolute ==> capture.desktop_effects(
            snapshot,
            virtual_hover,
            Some(place),
            covered,
        ) == capture.absolute_effects(client_id, place, capture.resync),
        capture.mode == LocalCaptureMode::HoverAbsolute ==> {
            let after = capture.desktop_sent(snapshot, virtual_hover, Some(place), covered);
            &&& after.hover == Some(place.pos)
            &&& !after.resync
            &&& place.inside && !place.overlay ==> after.last_sent == Some((place.x, place.y))
            &&& after.mode == LocalCaptureMode::HoverAbsolute
        },
        capture.mode != LocalCaptureMode::HoverAbsolute ==> capture.desktop_effects(
            snapshot,
            virtual_hover,
            Some(place),
            covered,
        ).len() == 0,
        capture.mode == LocalCaptureMode::CapturedRelative ==> capture.desktop_sent(
            snapshot,
            virtual_hover,
            Some(place),
            covered,
        ) == capture,
{
}

/// Under one of the client's panels nothing is sent.
pub proof fn covered_positions_are_not_sent<P>(
    capture: PointerCapture<P>,
    snapshot: SharedInputSnapshot,
    place: Option<Place<P>>,
)
    ensures
        capture.desktop_effects(snapshot, false, place, true).len() == 0,
        capture.mode == LocalCaptureMode::HoverAbsolute && snapshot.controller_state
            != ControllerState::Unavailable ==> capture.desktop_sent(
            snapshot,
            false,
            place,
            true,
        ).hover is None && capture.desktop_sent(snapshot, false, place, true).last_sent is None,
        snapshot.controller_state == ControllerState::Unavailable ==> capture.desktop_effects(
            snapshot,
            true,
            place,
            false,
        ).len() == 0,
{
}

/// Where the position to send comes from: what the window system says, before what the
/// client keeps; the other way round where the client moves the pointer itself.
pub proof fn positions_to_send<P>(
    capture: PointerCapture<P>,
    previous: LocalCaptureMode,
    pointer: FramePointer<P>,
)
    ensures
        pointer.actual matches Some(at) ==> (capture.target(previous, false, pointer) matches Some(
            target,
        ) && target.pos == at && target.clamp),
        pointer.actual is None ==> (pointer.pointer matches Some(at) ==> (capture.target(
            previous,
            false,
            pointer,
        ) matches Some(target) && target.pos == at && target.clamp)),
        pointer.actual is None && pointer.pointer is None ==> capture.target(
            previous,
            false,
            pointer,
        ) is None,
        previous == LocalCaptureMode::HoverAbsolute ==> (capture.hover matches Some(at)
            ==> (capture.target(previous, true, pointer) matches Some(target) && target.pos == at
            && target.clamp)),
        pointer.actual is None && pointer.pointer is None && previous
            != LocalCaptureMode::HoverAbsolute ==> (capture.hover matches Some(at) ==> (
        capture.target(previous, true, pointer) matches Some(target) && target.pos == at
            && !target.clamp)),
{
}

/// The client draws the server's cursor where somebody controls the server, the cursor
/// comes apart from the video and its shape is known: for a pointer that is followed over
/// the video, and for a captured one while the server shows its cursor.
pub proof fn server_cursors_are_drawn<P>(
    capture: PointerCapture<P>,
    snapshot: SharedInputSnapshot,
    facts: CursorFacts,
)
    ensures
        capture.overlay_active(snapshot, facts) <==> snapshot.capabilities.separate_cursor && (
        snapshot.controller_state == ControllerState::OwnedByYou || snapshot.controller_state
            == ControllerState::OwnedByOther) && facts.has_shape && ((capture.mode
            == LocalCaptureMode::HoverAbsolute && facts.hover_over_video) || (capture.mode
            == LocalCaptureMode::CapturedRelative && snapshot.cursor_state.visible
            && !snapshot.cursor_state.app_grab)),
{
}

/// The system's cursor is shown while the pointer is the user's own. It is hidden while the
/// pointer is captured, but for a cursor whose shape is not known yet; and while it is
/// followed where the client draws one itself, keeps it still, or the server hides its own.
pub proof fn system_cursors_are_hidden<P>(
    capture: PointerCapture<P>,
    snapshot: SharedInputSnapshot,
    facts: CursorFacts,
)
    ensures
        ({
            let visible = capture.wanted_visible(snapshot, facts);
            let owned = snapshot.capabilities.separate_cursor && (snapshot.controller_state
                == ControllerState::OwnedByYou || snapshot.controller_state
                == ControllerState::OwnedByOther);
            let drawn = snapshot.cursor_state.visible && !snapshot.cursor_state.app_grab;
            &&& capture.mode == LocalCaptureMode::Idle || capture.mode
                == LocalCaptureMode::ForceReleased ==> visible
            &&& capture.mode == LocalCaptureMode::CapturedRelative ==> (visible <==> owned && drawn
                && !facts.has_shape)
            &&& capture.mode == LocalCaptureMode::HoverAbsolute ==> (visible
                <==> !snapshot.virtual_hover(facts.macos) && !(owned && facts.has_shape
                && facts.hover_over_video) && !(owned && !drawn && facts.hover_over_video))
        }),
{
}

/// A captured pointer is locked, or kept in the window where the system's cursor stands in
/// for the server's. One that is followed is kept in the window while a button is held, and
/// free otherwise.
pub proof fn pointers_are_held<P>(
    capture: PointerCapture<P>,
    snapshot: SharedInputSnapshot,
    facts: CursorFacts,
)
    ensures
        ({
            let grab = capture.wanted_grab(snapshot, facts);
            let visible = capture.wanted_visible(snapshot, facts);
            &&& capture.mode == LocalCaptureMode::Idle || capture.mode
                == LocalCaptureMode::ForceReleased ==> grab == CursorGrab::Free
            &&& capture.mode == LocalCaptureMode::CapturedRelative ==> grab == if visible {
                CursorGrab::Confined
            } else {
                CursorGrab::Locked
            }
            &&& capture.mode == LocalCaptureMode::HoverAbsolute ==> grab
                == if snapshot.virtual_hover(facts.macos) {
                CursorGrab::Locked
            } else if capture.buttons != 0 && snapshot.controller_state
                != ControllerState::Unavailable {
                CursorGrab::Confined
            } else {
                CursorGrab::Free
            }
        }),
{
}

/// The window is asked for each change once: a cursor to hide before the hold on the
/// pointer changes, and one to show after it.
pub proof fn changes_are_asked_for_once<P>(
    capture: PointerCapture<P>,
    snapshot: SharedInputSnapshot,
    facts: CursorFacts,
    now: Instant,
)
    ensures
        ({
            let visible = capture.wanted_visible(snapshot, facts);
            let grab = capture.wanted_grab(snapshot, facts);
            let effects = capture.mode_effects(snapshot, facts);
            let after = capture.mode_applied(snapshot, facts, now);
            &&& after.applied_visible == Some(visible)
            &&& after.applied_grab == Some(grab)
            &&& after.pointer_present == facts.pointer_present
            &&& after.mode == capture.mode
            &&& after.buttons == capture.buttons
            &&& capture.applied_visible == Some(visible) && capture.applied_grab == Some(grab)
                ==> effects.len() == 0
            &&& capture.applied_visible != Some(visible) && capture.applied_grab == Some(grab)
                ==> effects == seq![Effect::<P>::ShowCursor(visible)]
            &&& capture.applied_visible == Some(visible) && capture.applied_grab != Some(grab)
                ==> effects == seq![Effect::<P>::Grab(grab)]
            &&& capture.applied_visible != Some(visible) && capture.applied_grab != Some(grab)
                ==> effects == if visible {
                seq![Effect::<P>::Grab(grab), Effect::ShowCursor(true)]
            } else {
                seq![Effect::<P>::ShowCursor(false), Effect::Grab(grab)]
            }
        }),
{
    let visible = capture.wanted_visible(snapshot, facts);
    let grab = capture.wanted_grab(snapshot, facts);
    let effects = capture.mode_effects(snapshot, facts);
    if capture.applied_visible != Some(visible) && capture.applied_grab != Some(grab) {
        if visible {
            assert(effects =~= seq![Effect::<P>::Grab(grab), Effect::ShowCursor(true)]);
        } else {
            assert(effects =~= seq![Effect::<P>::ShowCursor(false), Effect::Grab(grab)]);
        }
    } else if capture.applied_visible != Some(visible) {
        assert(effects =~= seq![Effect::<P>::ShowCursor(visible)]);
    } else if capture.applied_grab != Some(grab) {
        assert(effects =~= seq![Effect::<P>::Grab(grab)]);
    }
}

/// A cursor that is hidden anew, or over which the pointer comes into the window, is given
/// a frame and 50 milliseconds to disappear.
pub proof fn hidden_cursors_take_time<P>(
    capture: PointerCapture<P>,
    pointer_present: bool,
    now: Instant,
)
    requires
        now.nanos + 50_000_000 <= u64::MAX,
    ensures
        capture.applied_visible != Some(false) || (pointer_present && !capture.pointer_present) ==> {
            let after = capture.concealed(false, pointer_present, now);
            &&& after.hide_settle == 1
            &&& after.hide_settle_until matches Some(until) && until.nanos == now.nanos + 50_000_000
            &&& after.applied_visible == Some(false)
        },
        capture.applied_visible == Some(false) && !(pointer_present && !capture.pointer_present)
            ==> capture.concealed(false, pointer_present, now) == (PointerCapture {
            pointer_present,
            ..capture
        }),
        capture.concealed(true, pointer_present, now) == (PointerCapture {
            pointer_present,
            ..capture
        }),
{
}

/// After a change of the hold on the pointer the next two movements and two frames do not
/// count, nor any movement for 80 milliseconds.
pub proof fn new_holds_swallow_jumps<P>(
    capture: PointerCapture<P>,
    grab: CursorGrab,
    now: Instant,
)
    requires
        now.nanos + 80_000_000 <= u64::MAX,
    ensures
        capture.applied_grab != Some(grab) ==> {
            let after = capture.held(grab, now);
            &&& after.suppress_delta == 2
            &&& after.suppress_pos_frames == 2
            &&& after.suppress_delta_until matches Some(until) && until.nanos == now.nanos
                + 80_000_000
            &&& after.applied_grab == Some(grab)
        },
        capture.applied_grab == Some(grab) ==> capture.held(grab, now) == capture,
        capture::one_less(0) == 0,
        forall|n: u8| n > 0 ==> (#[trigger] capture::one_less(n)) == n - 1,
{
}

/// The client draws the server's cursor only where nothing covers it and the system's has
/// gone; in a strict window only with the focus and, for a pointer that is followed, with
/// the pointer in it.
pub proof fn cursors_are_drawn_when_safe<P>(
    capture: PointerCapture<P>,
    occluded: bool,
    strict: bool,
    focused: bool,
    pointer_present: bool,
    now: Instant,
)
    ensures
        capture.may_draw(occluded, strict, focused, pointer_present, now) <==> !occluded
            && capture.applied_visible == Some(false) && capture.hide_settle == 0 && (!strict || (
        focused && (capture.mode != LocalCaptureMode::HoverAbsolute || pointer_present) && (
        capture.hide_settle_until matches Some(until) ==> until.nanos <= now.nanos))),
{
}

/// Where the server's cursor is drawn: for a pointer that is followed, where the client
/// keeps it; for a captured one where the server says, but for 120 milliseconds after a
/// movement, or where the server cannot be relied on, where the client has predicted it.
pub proof fn cursors_are_drawn_where_they_are<P>(
    capture: PointerCapture<P>,
    snapshot: SharedInputSnapshot,
    has_shape: bool,
    hover_near: bool,
    server_pos: P,
    now: Instant,
)
    ensures
        ({
            let anchor = capture.overlay_anchor(snapshot, has_shape, hover_near, server_pos, now);
            let owned = snapshot.capabilities.separate_cursor && (snapshot.controller_state
                == ControllerState::OwnedByYou || snapshot.controller_state
                == ControllerState::OwnedByOther);
            let drawn = owned && has_shape && snapshot.cursor_state.visible
                && !snapshot.cursor_state.app_grab;
            let recent = capture.predicted_at matches Some(at) && now.nanos < at.nanos
                + 120_000_000;
            &&& !drawn ==> anchor is None
            &&& drawn && capture.mode == LocalCaptureMode::HoverAbsolute ==> (match capture.hover {
                Some(pos) => hover_near ==> anchor == Some((pos, true)),
                None => anchor is None,
            })
            &&& drawn && capture.mode == LocalCaptureMode::HoverAbsolute && !hover_near ==> anchor
                is None
            &&& drawn && capture.mode == LocalCaptureMode::CapturedRelative && (!hover_near
                || capture.hover is None) ==> anchor == Some((server_pos, false))
            &&& drawn && capture.mode == LocalCaptureMode::CapturedRelative && hover_near ==> (
            capture.hover matches Some(pos) ==> anchor == if recent
                || !snapshot.capabilities.cursor_position_reliable {
                Some((pos, true))
            } else {
                Some((server_pos, false))
            })
            &&& capture.mode == LocalCaptureMode::Idle || capture.mode
                == LocalCaptureMode::ForceReleased ==> anchor is None
        }),
{
}

/// A position that was predicted lately comes before what the server says, and after it
/// otherwise; where only one is known, that one counts.
pub proof fn anchors_prefer_the_fresh<P>(remote: Option<P>, local: Option<P>)
    ensures
        local is Some ==> capture::tracking_anchor(remote, local, true) == local,
        remote is Some ==> capture::tracking_anchor(remote, local, false) == remote,
        local is None ==> capture::tracking_anchor(remote, local, true) == remote,
        remote is None ==> capture::tracking_anchor(remote, local, false) == local,
{
}

/// Keys are let go when the pointer comes to be the user's own in a frame.
pub proof fn keys_are_let_go_with_the_pointer<P>(
    capture: PointerCapture<P>,
    snapshot: SharedInputSnapshot,
    facts: FrameFacts<P>,
    now: Instant,
)
    requires
        capture.mode != LocalCaptureMode::Idle,
        capture.after_frame(snapshot, facts, now).mode == LocalCaptureMode::Idle,
    ensures
        capture.frame_effects(snapshot, facts, now).len() > 0,
        capture.frame_effects(snapshot, facts, now).last() == Effect::<P>::ClearKeyboard,
{
}

/// Keys stay held in a frame that leaves the pointer where it was, or does not give it back.
pub proof fn keys_stay_held_otherwise<P>(
    capture: PointerCapture<P>,
    snapshot: SharedInputSnapshot,
    facts: FrameFacts<P>,
    now: Instant,
)
    requires
        capture.after_frame(snapshot, facts, now).mode == capture.mode || capture.after_frame(
            snapshot,
            facts,
            now,
        ).mode != LocalCaptureMode::Idle,
    ensures
        ({
            let a = capture.before_resolution(snapshot, facts);
            let b = a.resolved(snapshot, facts);
            let c = b.click_noted(snapshot, facts, now);
            capture.frame_effects(snapshot, facts, now).len() == capture.noted(
                facts,
            ).without_control(snapshot).focus_effects(facts.focused, snapshot).len()
                + a.resolve_effects(snapshot, facts).len() + b.click_effects(snapshot, facts).len()
                + c.pending_effects(snapshot, facts).len()
        }),
{
}

} // verus!
