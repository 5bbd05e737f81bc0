//! What becomes of the window's input events while a session is up: which go to
//! the server, and how they move, capture or free the pointer.
use crate::capture;
use crate::capture::{
    controller_state_allows_input, first_of, pointer_button_mask, server_cursor_drawable,
    server_wants_relative, should_enter_relative_button_drag_capture,
    should_return_to_hover_after_relative_button_drag, Effect, LocalCaptureMode, Place,
    PointerButton, PointerCapture, SharedInputSnapshot,
};
use crate::input::{InputPacket, KeyboardStateInput, MouseButtonsInput, MouseRelativeInput};
use crate::keys;
use crate::keys::{
    egui_key_to_remote_key, is_force_release_shortcut, LocalKey, LocalKeyboardState, Modifiers,
};
use crate::time::Instant;
use vstd::prelude::*;

verus! {

/// An event, as far as it matters whether the window itself gets to see it.
#[derive(Clone, Copy, Debug, PartialEq, Eq, Structural)]
pub enum EventKind {
    Key { key: LocalKey, pressed: bool, modifiers: Modifiers },
    Text,
    Copy,
    Cut,
    Paste,
    Other,
}

pub open spec fn asks_for_release(event: EventKind, macos: bool) -> bool {
    match event {
        EventKind::Key { key, pressed, modifiers } => key == LocalKey::Z && pressed
            && keys::releases_pointer(modifiers, macos),
        _ => false,
    }
}

/// Whether the user asks to have the pointer back.
pub fn asks_for_force_release(events: &Vec<EventKind>, macos: bool) -> (r: bool)
    ensures
        r == exists|i: int| 0 <= i < events@.len() && asks_for_release(
            #[trigger] events@[i],
            macos,
        ),
{
    let mut i: usize = 0;
    while i < events.len()
        invariant
            i <= events.len(),
            forall|k: int| 0 <= k < i ==> !asks_for_release(#[trigger] events@[k], macos),
        decreases events.len() - i,
    {
        if let EventKind::Key { key, pressed, modifiers } = events[i] {
            if key == LocalKey::Z && pressed && is_force_release_shortcut(modifiers, macos) {
                return true;
            }
        }
        i = i + 1;
    }
    false
}

/// Whether an event is kept from the window. `forced` says that the user has
/// asked for the pointer; `forwarding` that key presses go to the server.
pub fn withheld_from_window(event: &EventKind, forced: bool, forwarding: bool) -> (r: bool)
    ensures
        r == match *event {
            EventKind::Key { key, pressed, .. } => forwarding || (forced && key == LocalKey::Z
                && pressed),
            EventKind::Other => false,
            _ => forwarding,
        },
{
    match *event {
        EventKind::Key { key, pressed, .. } => forwarding || (forced && key == LocalKey::Z
            && pressed),
        EventKind::Other => false,
        _ => forwarding,
    }
}

/// Lets all keys go. Returns what to tell the server, if any was held and the
/// server knows this client.
pub fn clear_remote_keyboard(keyboard: &mut LocalKeyboardState, client_id: Option<u32>) -> (packet:
    Option<InputPacket>)
    ensures
        keys::none_held(final(keyboard).pressed@),
        match packet {
            Some(InputPacket::KeyboardState(state)) => Some(state.client_id) == client_id
                && keys::none_held(state.pressed@) && !keys::none_held(old(keyboard).pressed@),
            Some(_) => false,
            None => keys::none_held(old(keyboard).pressed@) || client_id is None,
        },
{
    let any = keyboard.clear();
    match client_id {
        Some(client_id) => if any {
            Some(keyboard_snapshot(keyboard, client_id))
        } else {
            None
        },
        None => None,
    }
}

/// What tells the server which keys are held.
pub fn keyboard_snapshot(keyboard: &LocalKeyboardState, client_id: u32) -> (packet: InputPacket)
    ensures
        packet == InputPacket::KeyboardState(
            KeyboardStateInput { client_id, pressed: keyboard.pressed },
        ),
{
    InputPacket::KeyboardState(KeyboardStateInput { client_id, pressed: keyboard.pressed })
}

pub open spec fn source_key(key: LocalKey, physical_key: Option<LocalKey>) -> LocalKey {
    match physical_key {
        Some(physical) => physical,
        None => key,
    }
}

/// Takes in a key press or release. The key's place on the keyboard counts, not
/// its label, where the window system tells. Returns whether the server has to be
/// told.
pub fn on_key_event(
    keyboard: &mut LocalKeyboardState,
    forwarding: bool,
    key: LocalKey,
    physical_key: Option<LocalKey>,
    pressed: bool,
) -> (dirty: bool)
    ensures
        match keys::remote_key(source_key(key, physical_key)) {
            Some(remote) => if forwarding {
                &&& final(keyboard).pressed@ == keys::with_key(
                    old(keyboard).pressed@,
                    remote,
                    pressed,
                )
                &&& dirty == (final(keyboard).pressed@ != old(keyboard).pressed@)
            } else {
                !dirty && final(keyboard).pressed@ == old(keyboard).pressed@
            },
            None => !dirty && final(keyboard).pressed@ == old(keyboard).pressed@,
        },
{
    if !forwarding {
        return false;
    }
    let source = match physical_key {
        Some(physical) => physical,
        None => key,
    };
    match egui_key_to_remote_key(source) {
        Some(remote) => keyboard.set_key(remote, pressed),
        None => false,
    }
}

/// Where the pointer has been moved to.
#[derive(Clone, Copy, Debug)]
pub struct MovedTo<P> {
    /// It is in the video, or no more than a pixel off.
    pub near: bool,
    /// It is over one of the client's own panels.
    pub overlay: bool,
    /// The same, brought into the video.
    pub clamped: Place<P>,
}

/// Where a movement would take the cursor.
#[derive(Clone, Copy, Debug)]
pub struct Attempt<P> {
    pub pos: P,
    /// It is over one of the client's own panels.
    pub overlay: bool,
    /// It is not in the video.
    pub outside: bool,
    /// A position just off the video's edge there.
    pub escape: P,
    /// The same, brought into the video.
    pub clamped: Place<P>,
}

/// What a movement of the mouse is for.
#[derive(Clone, Copy, Debug, PartialEq, Eq, Structural)]
pub enum Motion {
    /// It is not the user's doing, or nobody's concern.
    Ignored,
    /// It is sent as it is; scaled to the stream if `scaled`. If `predicted`,
    /// the cursor is drawn along.
    Relative { scaled: bool, predicted: bool },
    /// It moves the position that the client keeps.
    Hover,
}

impl<P> PointerCapture<P> {
    pub open spec fn moved(
        self,
        snapshot: SharedInputSnapshot,
        client_id: u32,
        virtual_hover: bool,
        outside: bool,
        to: Option<MovedTo<P>>,
        mapped: Option<P>,
    ) -> PointerCapture<P> {
        let waiting = PointerCapture { await_exit: self.await_exit && !outside, ..self };
        if !virtual_hover && self.mode == LocalCaptureMode::HoverAbsolute && snapshot.allowed() {
            match to {
                Some(to) => if to.near && !to.overlay {
                    PointerCapture { hover: Some(to.clamped.pos), ..waiting }.absolute_sent(
                        to.clamped,
                    )
                } else {
                    waiting.auto_released(false, snapshot, mapped)
                },
                None => waiting,
            }
        } else {
            waiting
        }
    }

    pub open spec fn moved_effects(
        self,
        snapshot: SharedInputSnapshot,
        client_id: u32,
        virtual_hover: bool,
        to: Option<MovedTo<P>>,
    ) -> Seq<Effect<P>> {
        if !virtual_hover && self.mode == LocalCaptureMode::HoverAbsolute && snapshot.allowed() {
            match to {
                Some(to) => if to.near && !to.overlay {
                    self.absolute_effects(client_id, to.clamped, false).push(Effect::Repaint)
                } else {
                    PointerCapture::<P>::auto_release_effects(snapshot.client_id).push(
                        Effect::Repaint,
                    )
                },
                None => Seq::empty(),
            }
        } else {
            Seq::empty()
        }
    }

    /// The window system has moved the pointer, and reports that as a movement.
    pub open spec fn delta_suppressed(self, now: Instant) -> bool {
        self.suppress_delta > 0 || (self.suppress_delta_until matches Some(until) && now.nanos
            < until.nanos)
    }

    /// Whether movements would be scaled if no drag had settled it.
    pub open spec fn live_scaling(self, snapshot: SharedInputSnapshot) -> bool {
        snapshot.capabilities.separate_cursor && snapshot.drawable() && !self.resume_hover
    }

    /// While a button is held, the first decision stands.
    pub open spec fn scaling(self, snapshot: SharedInputSnapshot) -> bool {
        match self.drag_scaling {
            Some(settled) => if self.buttons != 0 {
                settled
            } else {
                self.live_scaling(snapshot)
            },
            None => self.live_scaling(snapshot),
        }
    }

    pub open spec fn scaling_settled(self, snapshot: SharedInputSnapshot) -> PointerCapture<P> {
        PointerCapture {
            drag_scaling: if self.buttons != 0 {
                Some(self.scaling(snapshot))
            } else {
                None
            },
            ..self
        }
    }

    pub open spec fn motion(
        self,
        snapshot: SharedInputSnapshot,
        virtual_hover: bool,
        has_video: bool,
        now: Instant,
    ) -> Motion {
        if self.delta_suppressed(now) || !snapshot.allowed() {
            Motion::Ignored
        } else if self.mode == LocalCaptureMode::CapturedRelative {
            Motion::Relative {
                scaled: self.scaling(snapshot),
                predicted: snapshot.capabilities.separate_cursor && snapshot.drawable()
                    && has_video,
            }
        } else if virtual_hover && has_video {
            Motion::Hover
        } else {
            Motion::Ignored
        }
    }

    /// The cursor may leave the video: no button is held.
    pub open spec fn may_escape(self) -> bool {
        self.buttons == 0 && !self.resume_hover
    }

    pub open spec fn movement_effects(self, client_id: u32, dx: i16, dy: i16) -> Seq<Effect<P>> {
        if dx != 0 || dy != 0 {
            seq![
                Effect::Send(
                    InputPacket::MouseRelative(
                        MouseRelativeInput { client_id, dx, dy, buttons: self.buttons },
                    ),
                ),
            ]
        } else {
            Seq::empty()
        }
    }

    pub open spec fn predicted(self, pos: P, now: Instant) -> PointerCapture<P> {
        PointerCapture { hover: Some(pos), predicted_at: Some(now), ..self }
    }

    /// The captured pointer moves, and a cursor is drawn along.
    pub open spec fn moved_drawn(
        self,
        snapshot: SharedInputSnapshot,
        to: Attempt<P>,
        mapped: Option<P>,
        now: Instant,
    ) -> PointerCapture<P> {
        if self.may_escape() && to.overlay {
            self.auto_released(false, snapshot, mapped)
        } else if self.may_escape() && to.outside {
            self.auto_released(true, snapshot, mapped)
        } else {
            self.predicted(to.clamped.pos, now)
        }
    }

    pub open spec fn moved_drawn_to(self, to: Attempt<P>) -> P {
        if self.may_escape() && to.overlay {
            to.pos
        } else if self.may_escape() && to.outside {
            to.escape
        } else {
            to.clamped.pos
        }
    }

    pub open spec fn moved_drawn_effects(
        self,
        snapshot: SharedInputSnapshot,
        client_id: u32,
        to: Attempt<P>,
        dx: i16,
        dy: i16,
    ) -> Seq<Effect<P>> {
        if self.may_escape() && (to.overlay || to.outside) {
            PointerCapture::<P>::auto_release_effects(snapshot.client_id) + seq![
                Effect::MovePointer(self.moved_drawn_to(to)),
                Effect::Repaint,
            ]
        } else {
            self.movement_effects(client_id, dx, dy).push(Effect::Repaint)
        }
    }

    /// Where the captured pointer comes to when it moves with no cursor to draw, if
    /// the client keeps its position for the end of a drag. `next` is where it would
    /// be, if that is known.
    pub open spec fn unseen_end(
        self,
        has_video: bool,
        next: Option<P>,
        dx: i16,
        dy: i16,
    ) -> Option<P> {
        if (dx != 0 || dy != 0) && self.resume_hover && has_video {
            next
        } else {
            None
        }
    }

    /// The captured pointer moves with no cursor to draw.
    pub open spec fn moved_unseen(
        self,
        has_video: bool,
        next: Option<P>,
        dx: i16,
        dy: i16,
        now: Instant,
    ) -> PointerCapture<P> {
        match self.unseen_end(has_video, next, dx, dy) {
            Some(pos) => self.predicted(pos, now),
            None => self,
        }
    }

    pub open spec fn moved_unseen_effects(
        self,
        client_id: u32,
        has_video: bool,
        next: Option<P>,
        dx: i16,
        dy: i16,
    ) -> Seq<Effect<P>> {
        if dx == 0 && dy == 0 {
            Seq::empty()
        } else if self.resume_hover && has_video && next is None {
            self.movement_effects(client_id, dx, dy)
        } else {
            self.movement_effects(client_id, dx, dy).push(Effect::Repaint)
        }
    }

    /// The position that the client keeps is moved. A drag holds it in the video.
    pub open spec fn hover_escapes(self, to: Attempt<P>) -> bool {
        (to.overlay || to.outside) && !(self.mode == LocalCaptureMode::HoverAbsolute
            && self.buttons != 0)
    }

    pub open spec fn hover_moved(
        self,
        snapshot: SharedInputSnapshot,
        to: Attempt<P>,
        mapped: Option<P>,
    ) -> PointerCapture<P> {
        if self.hover_escapes(to) {
            self.auto_released(!to.overlay, snapshot, mapped)
        } else {
            PointerCapture { hover: Some(to.clamped.pos), ..self }.absolute_sent(to.clamped)
        }
    }

    pub open spec fn hover_moved_to(self, to: Attempt<P>) -> P {
        if self.hover_escapes(to) {
            if to.overlay {
                to.pos
            } else {
                to.escape
            }
        } else {
            to.clamped.pos
        }
    }

    pub open spec fn hover_moved_effects(
        self,
        snapshot: SharedInputSnapshot,
        client_id: u32,
        to: Attempt<P>,
    ) -> Seq<Effect<P>> {
        if self.hover_escapes(to) {
            PointerCapture::<P>::auto_release_effects(snapshot.client_id) + seq![
                Effect::MovePointer(self.hover_moved_to(to)),
                Effect::Repaint,
            ]
        } else {
            self.absolute_effects(client_id, to.clamped, false).push(Effect::Repaint)
        }
    }
}

impl<P: Copy> PointerCapture<P> {
    /// The user has asked for the pointer.
    pub fn on_force_release(&mut self, client_id: Option<u32>, effects: &mut Vec<Effect<P>>)
        ensures
            old(self).mode == LocalCaptureMode::Idle ==> *final(self) == *old(self)
                && final(effects)@ == old(effects)@,
            old(self).mode != LocalCaptureMode::Idle ==> *final(self) == old(self).force_released()
                && final(effects)@ == old(effects)@ + PointerCapture::<P>::force_release_effects(
                client_id,
            ),
    {
        if self.mode != LocalCaptureMode::Idle {
            self.force_release_capture(client_id, effects);
        }
    }

    /// Takes in that the pointer is at a position. `outside` says that it is
    /// not in the video; `to` is known if there is one.
    pub fn on_pointer_moved(
        &mut self,
        snapshot: &SharedInputSnapshot,
        client_id: u32,
        virtual_hover: bool,
        outside: bool,
        to: Option<MovedTo<P>>,
        mapped: Option<P>,
        effects: &mut Vec<Effect<P>>,
    )
        ensures
            *final(self) == old(self).moved(
                *snapshot,
                client_id,
                virtual_hover,
                outside,
                to,
                mapped,
            ),
            final(effects)@ == old(effects)@ + old(self).moved_effects(
                *snapshot,
                client_id,
                virtual_hover,
                to,
            ),
    {
        self.await_exit = self.await_exit && !outside;
        if virtual_hover || self.mode != LocalCaptureMode::HoverAbsolute
            || !controller_state_allows_input(snapshot.controller_state) {
            return;
        }
        if let Some(to) = to {
            if to.near && !to.overlay {
                self.hover = Some(to.clamped.pos);
                let _ = self.send_absolute_cursor(client_id, &to.clamped, false, effects);
            } else {
                self.auto_release_capture(false, snapshot, mapped, effects);
            }
            effects.push(Effect::Repaint);
        }
    }

    /// Decides what a movement of the mouse is for.
    pub fn on_mouse_motion(
        &mut self,
        snapshot: &SharedInputSnapshot,
        virtual_hover: bool,
        has_video: bool,
        now: Instant,
    ) -> (motion: Motion)
        ensures
            motion == old(self).motion(*snapshot, virtual_hover, has_video, now),
            *final(self) == if motion is Relative {
                old(self).scaling_settled(*snapshot)
            } else {
                *old(self)
            },
    {
        let suppressed = self.suppress_delta > 0 || match self.suppress_delta_until {
            Some(until) => now.nanos < until.nanos,
            None => false,
        };
        if suppressed || !controller_state_allows_input(snapshot.controller_state) {
            return Motion::Ignored;
        }
        if self.mode == LocalCaptureMode::CapturedRelative {
            let drawn = snapshot.capabilities.separate_cursor && server_cursor_drawable(snapshot);
            let live = drawn && !self.resume_hover;
            let scaled = if self.buttons != 0 {
                match self.drag_scaling {
                    Some(settled) => settled,
                    None => live,
                }
            } else {
                live
            };
            self.drag_scaling = if self.buttons != 0 {
                Some(scaled)
            } else {
                None
            };
            Motion::Relative { scaled, predicted: drawn && has_video }
        } else if virtual_hover && has_video {
            Motion::Hover
        } else {
            Motion::Ignored
        }
    }

    /// Where a movement starts from.
    pub fn motion_base(
        &self,
        motion: Motion,
        mapped: Option<P>,
        last_pointer: Option<P>,
        center: P,
    ) -> (pos: P)
        ensures
            Some(pos) == capture::either(
                capture::either(
                    self.hover,
                    capture::either(
                        if motion is Relative {
                            mapped
                        } else {
                            None
                        },
                        last_pointer,
                    ),
                ),
                Some(center),
            ),
    {
        let mapped = match motion {
            Motion::Relative { .. } => mapped,
            _ => None,
        };
        match first_of(self.hover, first_of(mapped, last_pointer)) {
            Some(pos) => pos,
            None => center,
        }
    }

    /// Moves the captured pointer and the cursor that is drawn for it. Returns
    /// where the pointer is then.
    pub fn on_drawn_motion(
        &mut self,
        snapshot: &SharedInputSnapshot,
        client_id: u32,
        to: &Attempt<P>,
        dx: i16,
        dy: i16,
        mapped: Option<P>,
        now: Instant,
        effects: &mut Vec<Effect<P>>,
    ) -> (pos: P)
        ensures
            *final(self) == old(self).moved_drawn(*snapshot, *to, mapped, now),
            pos == old(self).moved_drawn_to(*to),
            final(effects)@ == old(effects)@ + old(self).moved_drawn_effects(
                *snapshot,
                client_id,
                *to,
                dx,
                dy,
            ),
    {
        let may_escape = self.buttons == 0 && !self.resume_hover;
        if may_escape && (to.overlay || to.outside) {
            let pos = if to.overlay {
                to.pos
            } else {
                to.escape
            };
            self.auto_release_capture(!to.overlay, snapshot, mapped, effects);
            effects.push(Effect::MovePointer(pos));
            effects.push(Effect::Repaint);
            return pos;
        }
        if let Some(packet) = self.relative_packet(client_id, dx, dy) {
            effects.push(Effect::Send(packet));
        }
        self.hover = Some(to.clamped.pos);
        self.predicted_at = Some(now);
        effects.push(Effect::Repaint);
        to.clamped.pos
    }

    /// The position that the events after this one start from, where a movement with
    /// no cursor drawn changes it.
    pub fn unseen_position(
        &self,
        has_video: bool,
        next: Option<P>,
        dx: i16,
        dy: i16,
    ) -> (pos: Option<P>)
        ensures
            pos == self.unseen_end(has_video, next, dx, dy),
            forall|now: Instant|
                (#[trigger] self.moved_unseen(has_video, next, dx, dy, now)) == match pos {
                    Some(pos) => self.predicted(pos, now),
                    None => *self,
                },
    {
        if (dx != 0 || dy != 0) && self.resume_hover && has_video {
            next
        } else {
            None
        }
    }

    /// Moves the captured pointer while no cursor is drawn.
    pub fn on_unseen_motion(
        &mut self,
        client_id: u32,
        has_video: bool,
        next: Option<P>,
        dx: i16,
        dy: i16,
        now: Instant,
        effects: &mut Vec<Effect<P>>,
    )
        ensures
            *final(self) == old(self).moved_unseen(has_video, next, dx, dy, now),
            final(effects)@ == old(effects)@ + old(self).moved_unseen_effects(
                client_id,
                has_video,
                next,
                dx,
                dy,
            ),
    {
        if let Some(packet) = self.relative_packet(client_id, dx, dy) {
            effects.push(Effect::Send(packet));
            if self.resume_hover && has_video {
                match next {
                    Some(pos) => {
                        self.hover = Some(pos);
                        self.predicted_at = Some(now);
                    },
                    None => {
                        return;
                    },
                }
            }
            effects.push(Effect::Repaint);
        }
    }

    /// Moves the position that the client keeps. Returns where the pointer is
    /// then.
    pub fn on_hover_motion(
        &mut self,
        snapshot: &SharedInputSnapshot,
        client_id: u32,
        to: &Attempt<P>,
        mapped: Option<P>,
        effects: &mut Vec<Effect<P>>,
    ) -> (pos: P)
        ensures
            *final(self) == old(self).hover_moved(*snapshot, *to, mapped),
            pos == old(self).hover_moved_to(*to),
            final(effects)@ == old(effects)@ + old(self).hover_moved_effects(
                *snapshot,
                client_id,
                *to,
            ),
    {
        let dragging = self.mode == LocalCaptureMode::HoverAbsolute && self.buttons != 0;
        if (to.overlay || to.outside) && !dragging {
            let pos = if to.overlay {
                to.pos
            } else {
                to.escape
            };
            self.auto_release_capture(!to.overlay, snapshot, mapped, effects);
            effects.push(Effect::MovePointer(pos));
            effects.push(Effect::Repaint);
            return pos;
        }
        self.hover = Some(to.clamped.pos);
        let _ = self.send_absolute_cursor(client_id, &to.clamped, false, effects);
        effects.push(Effect::Repaint);
        to.clamped.pos
    }
}

/// A position that a button or the wheel acts at.
#[derive(Clone, Copy, Debug)]
pub struct Route<P> {
    pub pos: P,
    /// It is over one of the client's own panels.
    pub overlay: bool,
    /// What is known of it, if there is a video; and the same brought into it.
    pub place: Option<Place<P>>,
    pub clamped: P,
}

impl<P> Route<P> {
    /// The place speaks of the position.
    pub open spec fn consistent(self) -> bool {
        self.place matches Some(place) ==> place.pos == self.pos && place.overlay == self.overlay
    }

    pub open spec fn over_video(self) -> bool {
        self.place matches Some(place) && place.inside && !place.overlay
    }
}

impl<P> PointerCapture<P> {
    pub open spec fn with_button(self, button: PointerButton, pressed: bool) -> PointerCapture<P> {
        PointerCapture {
            buttons: if pressed {
                self.buttons | capture::mask_of(button)
            } else {
                self.buttons & !capture::mask_of(button)
            },
            ..self
        }
    }

    /// A press on one of the client's panels, under the drawn cursor.
    pub open spec fn presses_panel(
        self,
        snapshot: SharedInputSnapshot,
        pressed: bool,
        route: Route<P>,
    ) -> bool {
        self.relative_overlay(snapshot) && route.overlay && pressed
    }

    pub open spec fn enters_drag(
        self,
        snapshot: SharedInputSnapshot,
        button: PointerButton,
        pressed: bool,
        route: Route<P>,
    ) -> bool {
        self.mode == LocalCaptureMode::HoverAbsolute && snapshot.allowed()
            && snapshot.capabilities.separate_cursor && snapshot.capabilities.mouse_relative
            && snapshot.wants_relative() && capture::drags(button) && pressed && route.over_video()
            && !route.overlay
    }

    /// `self` has the button noted.
    pub open spec fn leaves_drag(self, button: PointerButton, pressed: bool) -> bool {
        self.mode == LocalCaptureMode::CapturedRelative && self.resume_hover && capture::drags(
            button,
        ) && !pressed && self.buttons & 3 == 0
    }

    pub open spec fn drag_begun(self, route: Route<P>) -> PointerCapture<P> {
        let placed = match route.place {
            Some(place) => PointerCapture { hover: Some(route.clamped), ..self }.absolute_sent(
                place,
            ),
            None => self,
        };
        PointerCapture {
            mode: LocalCaptureMode::CapturedRelative,
            resume_hover: true,
            resync: false,
            await_exit: false,
            ..placed
        }
    }

    pub open spec fn drag_begun_effects(
        self,
        client_id: u32,
        route: Route<P>,
    ) -> Seq<Effect<P>> {
        match route.place {
            Some(place) => self.absolute_effects(client_id, place, true).push(Effect::Repaint),
            None => seq![Effect::Repaint],
        }
    }

    pub open spec fn buttons_packet(self, client_id: u32) -> Effect<P> {
        Effect::Send(
            InputPacket::MouseButtons(MouseButtonsInput { client_id, buttons: self.buttons }),
        )
    }

    /// Whether the buttons are reported where they are.
    pub open spec fn reports_buttons(
        self,
        snapshot: SharedInputSnapshot,
        route: Route<P>,
    ) -> bool {
        snapshot.allowed() && !route.overlay && (self.mode == LocalCaptureMode::CapturedRelative
            || (self.mode == LocalCaptureMode::HoverAbsolute && route.over_video()))
    }

    pub open spec fn buttons_reported(
        self,
        snapshot: SharedInputSnapshot,
        route: Route<P>,
    ) -> PointerCapture<P> {
        match route.place {
            Some(place) => if self.reports_buttons(snapshot, route) && self.mode
                == LocalCaptureMode::HoverAbsolute {
                self.absolute_sent(place)
            } else {
                self
            },
            None => self,
        }
    }

    pub open spec fn report_effects(
        self,
        snapshot: SharedInputSnapshot,
        client_id: u32,
        route: Route<P>,
    ) -> Seq<Effect<P>> {
        if !self.reports_buttons(snapshot, route) {
            Seq::empty()
        } else {
            match route.place {
                Some(place) => if self.mode == LocalCaptureMode::HoverAbsolute {
                    self.absolute_effects(client_id, place, true)
                } else {
                    seq![self.buttons_packet(client_id)]
                },
                None => seq![self.buttons_packet(client_id)],
            }
        }
    }

    /// The drag is over: the pointer is followed again from where the cursor is.
    pub open spec fn drag_ended(self, route: Route<P>) -> PointerCapture<P> {
        let hover = if self.hover is Some {
            self.hover
        } else if route.over_video() {
            Some(route.pos)
        } else {
            None
        };
        PointerCapture {
            mode: LocalCaptureMode::HoverAbsolute,
            resume_hover: false,
            hover,
            resync: hover is Some,
            last_sent: None,
            ..self
        }
    }

    pub open spec fn drag_ended_effects(self, route: Route<P>) -> Seq<Effect<P>> {
        match self.drag_ended(route).hover {
            Some(pos) => seq![Effect::MovePointer(pos), Effect::Repaint],
            None => seq![Effect::Repaint],
        }
    }

    pub open spec fn button_noted(
        self,
        snapshot: SharedInputSnapshot,
        button: PointerButton,
        pressed: bool,
        route: Route<P>,
        mapped: Option<P>,
    ) -> PointerCapture<P> {
        let noted = self.with_button(button, pressed);
        if noted.presses_panel(snapshot, pressed, route) {
            noted.auto_released(false, snapshot, mapped)
        } else if noted.enters_drag(snapshot, button, pressed, route) {
            noted.drag_begun(route)
        } else {
            let reported = noted.buttons_reported(snapshot, route);
            if noted.leaves_drag(button, pressed) {
                reported.drag_ended(route)
            } else {
                reported
            }
        }
    }

    pub open spec fn button_effects(
        self,
        snapshot: SharedInputSnapshot,
        client_id: u32,
        button: PointerButton,
        pressed: bool,
        route: Route<P>,
    ) -> Seq<Effect<P>> {
        let noted = self.with_button(button, pressed);
        if noted.presses_panel(snapshot, pressed, route) {
            seq![Effect::MovePointer(route.pos)] + PointerCapture::<P>::auto_release_effects(
                snapshot.client_id,
            ).push(Effect::Repaint)
        } else if noted.enters_drag(snapshot, button, pressed, route) {
            noted.drag_begun_effects(client_id, route)
        } else {
            let reported = noted.buttons_reported(snapshot, route);
            noted.report_effects(snapshot, client_id, route) + if noted.leaves_drag(
                button,
                pressed,
            ) {
                reported.drag_ended_effects(route)
            } else {
                Seq::empty()
            }
        }
    }

    /// Where a button or the wheel acts, of several candidates: under the cursor
    /// that the user sees.
    pub open spec fn acts_at(
        self,
        snapshot: SharedInputSnapshot,
        virtual_hover: bool,
        reported: Option<P>,
        mapped: Option<P>,
    ) -> Option<P> {
        if virtual_hover {
            capture::either(self.hover, reported)
        } else if self.relative_overlay(snapshot) {
            capture::either(mapped, capture::either(self.hover, reported))
        } else {
            reported
        }
    }
}

impl<P: Copy> Route<P> {
    fn is_over_video(&self) -> (r: bool)
        ensures
            r == self.over_video(),
    {
        match self.place {
            Some(place) => place.inside && !place.overlay,
            None => false,
        }
    }
}

impl<P: Copy> PointerCapture<P> {
    /// Decides where a button or the wheel acts. `reported` is where the window
    /// system has the pointer.
    pub fn route(
        &self,
        snapshot: &SharedInputSnapshot,
        virtual_hover: bool,
        reported: Option<P>,
        mapped: Option<P>,
    ) -> (pos: Option<P>)
        ensures
            pos == self.acts_at(*snapshot, virtual_hover, reported, mapped),
    {
        if virtual_hover {
            first_of(self.hover, reported)
        } else if self.is_relative_overlay(snapshot) {
            first_of(mapped, first_of(self.hover, reported))
        } else {
            reported
        }
    }

    fn begin_drag(&mut self, client_id: u32, route: &Route<P>, effects: &mut Vec<Effect<P>>)
        requires
            route.over_video(),
        ensures
            *final(self) == old(self).drag_begun(*route),
            final(effects)@ == old(effects)@ + old(self).drag_begun_effects(client_id, *route),
    {
        if let Some(place) = route.place {
            self.hover = Some(route.clamped);
            let _ = self.send_absolute_cursor(client_id, &place, true, effects);
        }
        self.mode = LocalCaptureMode::CapturedRelative;
        self.resume_hover = true;
        self.resync = false;
        self.await_exit = false;
        effects.push(Effect::Repaint);
    }

    fn report_buttons(
        &mut self,
        snapshot: &SharedInputSnapshot,
        client_id: u32,
        route: &Route<P>,
        effects: &mut Vec<Effect<P>>,
    )
        ensures
            *final(self) == old(self).buttons_reported(*snapshot, *route),
            final(effects)@ == old(effects)@ + old(self).report_effects(
                *snapshot,
                client_id,
                *route,
            ),
    {
        if !controller_state_allows_input(snapshot.controller_state) || route.overlay {
            return;
        }
        if self.mode == LocalCaptureMode::HoverAbsolute {
            if route.is_over_video() {
                if let Some(place) = route.place {
                    let _ = self.send_absolute_cursor(client_id, &place, true, effects);
                }
            }
        } else if self.mode == LocalCaptureMode::CapturedRelative {
            effects.push(
                Effect::Send(
                    InputPacket::MouseButtons(
                        MouseButtonsInput { client_id, buttons: self.buttons },
                    ),
                ),
            );
        }
    }

    fn end_drag(&mut self, route: &Route<P>, effects: &mut Vec<Effect<P>>)
        ensures
            *final(self) == old(self).drag_ended(*route),
            final(effects)@ == old(effects)@ + old(self).drag_ended_effects(*route),
    {
        self.mode = LocalCaptureMode::HoverAbsolute;
        self.resume_hover = false;
        if self.hover.is_none() && route.is_over_video() {
            self.hover = Some(route.pos);
        }
        self.resync = self.hover.is_some();
        self.last_sent = None;
        if let Some(pos) = self.hover {
            effects.push(Effect::MovePointer(pos));
        }
        effects.push(Effect::Repaint);
    }

    fn note_button(&mut self, button: PointerButton, pressed: bool)
        ensures
            *final(self) == old(self).with_button(button, pressed),
    {
        let mask: u8 = pointer_button_mask(button);
        if pressed {
            self.buttons = self.buttons | mask;
        } else {
            self.buttons = self.buttons & !mask;
        }
    }

    /// Takes in that a button has been pressed or let go.
    pub fn on_pointer_button(
        &mut self,
        snapshot: &SharedInputSnapshot,
        client_id: u32,
        button: PointerButton,
        pressed: bool,
        route: &Route<P>,
        mapped: Option<P>,
        effects: &mut Vec<Effect<P>>,
    )
        requires
            route.consistent(),
        ensures
            *final(self) == old(self).button_noted(*snapshot, button, pressed, *route, mapped),
            final(effects)@ == old(effects)@ + old(self).button_effects(
                *snapshot,
                client_id,
                button,
                pressed,
                *route,
            ),
    {
        self.note_button(button, pressed);
        if self.is_relative_overlay(snapshot) && route.overlay && pressed {
            effects.push(Effect::MovePointer(route.pos));
            self.auto_release_capture(false, snapshot, mapped, effects);
            effects.push(Effect::Repaint);
            proof {
                assert(effects@ =~= old(effects)@ + old(self).button_effects(
                    *snapshot,
                    client_id,
                    button,
                    pressed,
                    *route,
                ));
            }
            return;
        }
        let hidden_cursor_drag = snapshot.capabilities.separate_cursor
            && snapshot.capabilities.mouse_relative && server_wants_relative(snapshot);
        let enters = should_enter_relative_button_drag_capture(
            self.mode,
            snapshot.controller_state,
            hidden_cursor_drag,
            button,
            pressed,
            route.is_over_video(),
            route.overlay,
        );
        let leaves = should_return_to_hover_after_relative_button_drag(
            self.mode,
            self.resume_hover,
            button,
            pressed,
            self.buttons,
        );
        if enters {
            self.begin_drag(client_id, route, effects);
            return;
        }
        self.report_buttons(snapshot, client_id, route, effects);
        if leaves {
            self.end_drag(route, effects);
        }
        proof {
            assert(effects@ =~= old(effects)@ + old(self).button_effects(
                *snapshot,
                client_id,
                button,
                pressed,
                *route,
            ));
        }
    }

    /// Whether a turn of the wheel goes to the server.
    pub fn forwards_wheel(
        &self,
        snapshot: &SharedInputSnapshot,
        overlay: bool,
        over_video: bool,
    ) -> (r: bool)
        ensures
            r == (snapshot.allowed() && !overlay && (self.mode
                == LocalCaptureMode::CapturedRelative || (self.mode
                == LocalCaptureMode::HoverAbsolute && over_video))),
    {
        controller_state_allows_input(snapshot.controller_state) && !overlay && (self.mode
            == LocalCaptureMode::CapturedRelative || (self.mode == LocalCaptureMode::HoverAbsolute
            && over_video))
    }
}

} // verus!
