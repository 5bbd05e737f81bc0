//! Who the local pointer belongs to: the state of pointer capture, how it is let
//! go, and which cursor is shown.
//!
//! Positions are of a type of the window system's, `P`: they are carried, chosen
//! between and handed back, and what has to be known of one (whether it lies over
//! the video, say) comes with it.
use crate::input::{
    InputPacket, MouseAbsoluteInput, MouseButtonsInput, MouseRelativeInput, MouseWheelInput,
};
use crate::time::{Duration, Instant};
use vstd::prelude::*;

verus! {

/// Frames for which the server must report its cursor hidden before the client
/// captures the pointer for mouselook.
pub const CURSOR_HIDDEN_CAPTURE_FRAMES: u8 = 4;

/// Frames for which the server must show its cursor before mouselook ends.
pub const CURSOR_SHOWN_RELEASE_FRAMES: u8 = 10;

/// How long hiding the system's cursor may take.
pub const OS_CURSOR_HIDE_SETTLE_NANOS: u64 = 50_000_000;

/// How long movements are ignored after the pointer has been grabbed or let go.
pub const GRAB_SUPPRESSION_NANOS: u64 = 80_000_000;

/// How long a predicted cursor position is trusted.
pub const LOCAL_CURSOR_PREDICTION_TTL_NANOS: u64 = 120_000_000;

#[derive(Clone, Copy, Debug, PartialEq, Eq, Structural)]
pub enum LocalCaptureMode {
    /// The pointer is the user's own.
    Idle,
    /// The pointer moves the remote cursor while it is over the video.
    HoverAbsolute,
    /// The pointer is captured; its movements are sent.
    CapturedRelative,
    /// The user has taken the pointer back, until the next click on the video.
    ForceReleased,
}

impl LocalCaptureMode {
    pub open spec fn name(self) -> Seq<char> {
        match self {
            LocalCaptureMode::Idle => "idle"@,
            LocalCaptureMode::HoverAbsolute => "hover"@,
            LocalCaptureMode::CapturedRelative => "relative"@,
            LocalCaptureMode::ForceReleased => "released"@,
        }
    }

    pub fn label(self) -> (s: &'static str)
        ensures
            s@ == self.name(),
    {
        match self {
            LocalCaptureMode::Idle => "idle",
            LocalCaptureMode::HoverAbsolute => "hover",
            LocalCaptureMode::CapturedRelative => "relative",
            LocalCaptureMode::ForceReleased => "released",
        }
    }

    /// Input goes to the server.
    pub open spec fn forwards(self) -> bool {
        self == LocalCaptureMode::HoverAbsolute || self == LocalCaptureMode::CapturedRelative
    }
}

/// Who controls the server.
#[derive(Clone, Copy, Debug, PartialEq, Eq, Structural)]
pub enum ControllerState {
    Unavailable,
    Available,
    OwnedByYou,
    OwnedByOther,
}

#[derive(Clone, Copy, Debug, PartialEq, Eq, Structural)]
pub struct InputCapabilities {
    pub mouse_absolute: bool,
    pub mouse_relative: bool,
    pub keyboard: bool,
    pub separate_cursor: bool,
    pub hover_capture: bool,
    pub cursor_position_reliable: bool,
}

/// The server's cursor.
#[derive(Clone, Copy, Debug, PartialEq, Eq, Structural)]
pub struct CursorState {
    pub serial: u64,
    pub x: i32,
    pub y: i32,
    pub visible: bool,
    /// The remote application has grabbed the pointer without hiding it.
    pub app_grab: bool,
}

/// What is known of the server's side of input.
#[derive(Clone, Copy, Debug, PartialEq, Eq, Structural)]
pub struct SharedInputSnapshot {
    pub client_id: Option<u32>,
    pub controller_state: ControllerState,
    pub capabilities: InputCapabilities,
    pub cursor_state: CursorState,
    pub cursor_state_version: u64,
    pub cursor_shape_version: u64,
}

pub open spec fn allows_input(state: ControllerState) -> bool {
    state != ControllerState::Unavailable
}

pub fn controller_state_allows_input(controller_state: ControllerState) -> (r: bool)
    ensures
        r == allows_input(controller_state),
{
    controller_state != ControllerState::Unavailable
}

pub open spec fn has_owner(state: ControllerState) -> bool {
    state == ControllerState::OwnedByYou || state == ControllerState::OwnedByOther
}

pub fn controller_state_has_separate_cursor(controller_state: ControllerState) -> (r: bool)
    ensures
        r == has_owner(controller_state),
{
    controller_state == ControllerState::OwnedByYou || controller_state
        == ControllerState::OwnedByOther
}

impl SharedInputSnapshot {
    pub open spec fn allowed(self) -> bool {
        allows_input(self.controller_state)
    }

    pub open spec fn wants_relative(self) -> bool {
        !self.cursor_state.visible || self.cursor_state.app_grab
    }

    pub open spec fn drawable(self) -> bool {
        self.cursor_state.visible && !self.cursor_state.app_grab
    }

    /// The client is to draw the server's cursor.
    pub open spec fn draws_cursor(self) -> bool {
        has_owner(self.controller_state) && self.capabilities.separate_cursor
    }

    /// The pointer can be followed by position.
    pub open spec fn hover_supported(self) -> bool {
        self.capabilities.hover_capture && self.capabilities.mouse_absolute
    }

    /// The pointer is locked, and a position of the client's own is kept for it.
    pub open spec fn virtual_hover(self, macos: bool) -> bool {
        macos && self.allowed() && self.capabilities.hover_capture
            && !self.capabilities.separate_cursor
    }
}

/// The server wants movements, not positions: it has hidden its cursor, or the
/// remote application has grabbed it.
pub fn server_wants_relative(snapshot: &SharedInputSnapshot) -> (r: bool)
    ensures
        r == snapshot.wants_relative(),
{
    !snapshot.cursor_state.visible || snapshot.cursor_state.app_grab
}

/// There is a cursor of the server's to draw.
pub fn server_cursor_drawable(snapshot: &SharedInputSnapshot) -> (r: bool)
    ensures
        r == snapshot.drawable(),
{
    snapshot.cursor_state.visible && !snapshot.cursor_state.app_grab
}

/// The server's cursor is drawn exactly when it does not want movements.
pub proof fn drawn_or_relative(snapshot: SharedInputSnapshot)
    ensures
        snapshot.drawable() == !snapshot.wants_relative(),
{
}

pub fn uses_virtual_hover_cursor(snapshot: &SharedInputSnapshot, macos: bool) -> (r: bool)
    ensures
        r == snapshot.virtual_hover(macos),
{
    macos && controller_state_allows_input(snapshot.controller_state)
        && snapshot.capabilities.hover_capture && !snapshot.capabilities.separate_cursor
}

#[derive(Clone, Copy, Debug, PartialEq, Eq, Structural)]
pub enum PointerButton {
    Primary,
    Secondary,
    Middle,
    Extra1,
    Extra2,
}

pub open spec fn mask_of(button: PointerButton) -> u8 {
    match button {
        PointerButton::Primary => 1,
        PointerButton::Secondary => 2,
        PointerButton::Middle => 4,
        PointerButton::Extra1 => 8,
        PointerButton::Extra2 => 16,
    }
}

pub fn pointer_button_mask(button: PointerButton) -> (mask: u8)
    ensures
        mask == mask_of(button),
{
    match button {
        PointerButton::Primary => crate::input::MOUSE_BUTTON_PRIMARY,
        PointerButton::Secondary => crate::input::MOUSE_BUTTON_SECONDARY,
        PointerButton::Middle => crate::input::MOUSE_BUTTON_MIDDLE,
        PointerButton::Extra1 => crate::input::MOUSE_BUTTON_EXTRA1,
        PointerButton::Extra2 => crate::input::MOUSE_BUTTON_EXTRA2,
    }
}

/// Buttons whose drags can turn into mouselook.
pub open spec fn drags(button: PointerButton) -> bool {
    button == PointerButton::Primary || button == PointerButton::Secondary
}

pub fn drag_capture_button_mask(button: PointerButton) -> (mask: u8)
    ensures
        mask == if drags(button) {
            mask_of(button)
        } else {
            0
        },
{
    match button {
        PointerButton::Primary => crate::input::MOUSE_BUTTON_PRIMARY,
        PointerButton::Secondary => crate::input::MOUSE_BUTTON_SECONDARY,
        _ => 0,
    }
}

/// A drag with the server's cursor hidden captures the pointer while it lasts.
pub fn should_enter_relative_button_drag_capture(
    capture_mode: LocalCaptureMode,
    controller_state: ControllerState,
    hidden_cursor_relative_drag: bool,
    button: PointerButton,
    pressed: bool,
    over_video: bool,
    over_local_overlay: bool,
) -> (r: bool)
    ensures
        r == (capture_mode == LocalCaptureMode::HoverAbsolute && allows_input(controller_state)
            && hidden_cursor_relative_drag && drags(button) && pressed && over_video
            && !over_local_overlay),
{
    capture_mode == LocalCaptureMode::HoverAbsolute && controller_state_allows_input(
        controller_state,
    ) && hidden_cursor_relative_drag && drag_capture_button_mask(button) != 0 && pressed
        && over_video && !over_local_overlay
}

/// Such a drag ends when its last button is let go.
pub fn should_return_to_hover_after_relative_button_drag(
    capture_mode: LocalCaptureMode,
    resume_hover_after_relative_drag: bool,
    button: PointerButton,
    pressed: bool,
    pointer_buttons: u8,
) -> (r: bool)
    ensures
        r == (capture_mode == LocalCaptureMode::CapturedRelative
            && resume_hover_after_relative_drag && drags(button) && !pressed && pointer_buttons & 3
            == 0),
{
    let drag_buttons: u8 = 3;
    capture_mode == LocalCaptureMode::CapturedRelative && resume_hover_after_relative_drag
        && drag_capture_button_mask(button) != 0 && !pressed && pointer_buttons & drag_buttons == 0
}

pub open spec fn either<P>(first: Option<P>, second: Option<P>) -> Option<P> {
    if first is Some {
        first
    } else {
        second
    }
}

pub fn first_of<P: Copy>(first: Option<P>, second: Option<P>) -> (r: Option<P>)
    ensures
        r == either(first, second),
{
    match first {
        Some(p) => Some(p),
        None => second,
    }
}

/// Where the cursor is drawn when the pointer has just been captured: where it
/// was, so that it does not jump to the server's position.
pub fn relative_capture_entry_anchor<P: Copy>(remote_pos: Option<P>, local_pos: Option<P>) -> (r:
    Option<P>)
    ensures
        r == either(local_pos, remote_pos),
{
    first_of(local_pos, remote_pos)
}

pub open spec fn tracking_anchor<P>(
    remote_pos: Option<P>,
    local_prediction: Option<P>,
    recent: bool,
) -> Option<P> {
    if recent {
        either(local_prediction, remote_pos)
    } else {
        either(remote_pos, local_prediction)
    }
}

/// Where the cursor is drawn while the pointer is captured: where it is
/// predicted to be while the user moves it, and where the server says otherwise.
pub fn relative_capture_tracking_anchor<P: Copy>(
    remote_pos: Option<P>,
    local_prediction: Option<P>,
    local_prediction_recent: bool,
) -> (r: Option<P>)
    ensures
        r == tracking_anchor(remote_pos, local_prediction, local_prediction_recent),
{
    if local_prediction_recent {
        first_of(local_prediction, remote_pos)
    } else {
        first_of(remote_pos, local_prediction)
    }
}

/// How the window system is to hold the pointer.
#[derive(Clone, Copy, Debug, PartialEq, Eq, Structural)]
pub enum CursorGrab {
    Free,
    Confined,
    Locked,
}

/// What is asked of the window and of the connection.
#[derive(Clone, Copy, Debug)]
pub enum Effect<P> {
    Send(InputPacket),
    /// Let all keys go, and tell the server if any was held.
    ClearKeyboard,
    /// Forget the parts of wheel steps that have not been sent.
    ResetWheel,
    /// Put the system's pointer here.
    MovePointer(P),
    /// Send the movement that brings the server's cursor here.
    WarpServer(P),
    ShowCursor(bool),
    Grab(CursorGrab),
    Repaint,
}

/// A position with what is known of it.
#[derive(Clone, Copy, Debug)]
pub struct Place<P> {
    pub pos: P,
    /// It lies in the video.
    pub inside: bool,
    /// It lies over one of the client's own panels.
    pub overlay: bool,
    /// It, in the server's coordinates.
    pub x: u16,
    pub y: u16,
}

/// The state of pointer capture.
#[derive(Clone, Copy, Debug)]
pub struct PointerCapture<P> {
    pub mode: LocalCaptureMode,
    pub buttons: u8,
    pub pending_click: bool,
    pub last_sent: Option<(u16, u16)>,
    pub hover: Option<P>,
    pub hidden_frames: u8,
    pub shown_frames: u8,
    /// The pointer is captured for a drag, and to be let go after it.
    pub resume_hover: bool,
    /// Whether movements are scaled, settled for the length of a drag.
    pub drag_scaling: Option<bool>,
    /// The next position is to be sent in any case.
    pub resync: bool,
    pub predicted_at: Option<Instant>,
    /// The pointer has to leave the video before it is followed again.
    pub await_exit: bool,
    pub applied_visible: Option<bool>,
    pub applied_grab: Option<CursorGrab>,
    pub hide_settle: u8,
    pub hide_settle_until: Option<Instant>,
    pub pointer_present: bool,
    pub suppress_delta: u8,
    pub suppress_delta_until: Option<Instant>,
    pub suppress_pos_frames: u8,
}

/// Tells the server that no button is held.
pub open spec fn buttons_released<P>(client_id: Option<u32>) -> Seq<Effect<P>> {
    match client_id {
        Some(client_id) => seq![
            Effect::Send(InputPacket::MouseButtons(MouseButtonsInput { client_id, buttons: 0 })),
        ],
        None => Seq::empty(),
    }
}

impl<P> PointerCapture<P> {
    pub open spec fn released(self) -> PointerCapture<P> {
        PointerCapture {
            mode: LocalCaptureMode::Idle,
            buttons: 0,
            pending_click: false,
            last_sent: None,
            hover: None,
            hidden_frames: 0,
            resume_hover: false,
            resync: false,
            predicted_at: None,
            await_exit: false,
            ..self
        }
    }

    pub open spec fn force_released(self) -> PointerCapture<P> {
        PointerCapture { mode: LocalCaptureMode::ForceReleased, ..self.released() }
    }

    pub open spec fn force_release_effects(client_id: Option<u32>) -> Seq<Effect<P>> {
        seq![Effect::ClearKeyboard] + buttons_released::<P>(client_id)
    }

    /// The server's cursor is drawn over the video while the pointer is captured.
    pub open spec fn relative_overlay(self, snapshot: SharedInputSnapshot) -> bool {
        self.mode == LocalCaptureMode::CapturedRelative && snapshot.capabilities.separate_cursor
            && snapshot.drawable()
    }

    /// `mapped` is where the server's cursor is on the screen.
    pub open spec fn auto_released(
        self,
        await_exit: bool,
        snapshot: SharedInputSnapshot,
        mapped: Option<P>,
    ) -> PointerCapture<P> {
        PointerCapture {
            hover: if self.relative_overlay(snapshot) {
                either(self.hover, mapped)
            } else {
                None
            },
            await_exit,
            ..self.released()
        }
    }

    pub open spec fn auto_release_effects(client_id: Option<u32>) -> Seq<Effect<P>> {
        seq![Effect::ResetWheel, Effect::ClearKeyboard] + buttons_released::<P>(client_id)
    }

    pub open spec fn absolute_packet(self, client_id: u32, place: Place<P>) -> InputPacket {
        InputPacket::MouseAbsolute(
            MouseAbsoluteInput { client_id, x: place.x, y: place.y, buttons: self.buttons },
        )
    }

    /// Whether a position is sent: it lies over the video, and differs from the
    /// last one that was, or has to be sent in any case.
    pub open spec fn sends_absolute(self, place: Place<P>, force: bool) -> bool {
        place.inside && !place.overlay && (force || self.last_sent != Some((place.x, place.y)))
    }

    pub open spec fn absolute_sent(self, place: Place<P>) -> PointerCapture<P> {
        PointerCapture {
            last_sent: if place.inside && !place.overlay {
                Some((place.x, place.y))
            } else {
                None
            },
            ..self
        }
    }

    pub open spec fn absolute_effects(
        self,
        client_id: u32,
        place: Place<P>,
        force: bool,
    ) -> Seq<Effect<P>> {
        if self.sends_absolute(place, force) {
            seq![Effect::Send(self.absolute_packet(client_id, place))]
        } else {
            Seq::empty()
        }
    }
}

impl<P: Copy> PointerCapture<P> {
    pub fn new() -> (capture: PointerCapture<P>)
        ensures
            capture == (PointerCapture {
                mode: LocalCaptureMode::Idle,
                buttons: 0,
                pending_click: false,
                last_sent: None,
                hover: None::<P>,
                hidden_frames: 0,
                shown_frames: 0,
                resume_hover: false,
                drag_scaling: None,
                resync: false,
                predicted_at: None,
                await_exit: false,
                applied_visible: None,
                applied_grab: None,
                hide_settle: 0,
                hide_settle_until: None,
                pointer_present: false,
                suppress_delta: 0,
                suppress_delta_until: None,
                suppress_pos_frames: 0,
            }),
    {
        PointerCapture {
            mode: LocalCaptureMode::Idle,
            buttons: 0,
            pending_click: false,
            last_sent: None,
            hover: None,
            hidden_frames: 0,
            shown_frames: 0,
            resume_hover: false,
            drag_scaling: None,
            resync: false,
            predicted_at: None,
            await_exit: false,
            applied_visible: None,
            applied_grab: None,
            hide_settle: 0,
            hide_settle_until: None,
            pointer_present: false,
            suppress_delta: 0,
            suppress_delta_until: None,
            suppress_pos_frames: 0,
        }
    }

    fn let_go(&mut self)
        ensures
            *final(self) == old(self).released(),
    {
        self.mode = LocalCaptureMode::Idle;
        self.buttons = 0;
        self.pending_click = false;
        self.last_sent = None;
        self.hover = None;
        self.hidden_frames = 0;
        self.resume_hover = false;
        self.resync = false;
        self.predicted_at = None;
        self.await_exit = false;
    }

    /// Gives the pointer back to the user.
    pub fn release_pointer_capture(&mut self, effects: &mut Vec<Effect<P>>)
        ensures
            *final(self) == old(self).released(),
            final(effects)@ == old(effects)@.push(Effect::ResetWheel),
    {
        self.let_go();
        effects.push(Effect::ResetWheel);
    }

    fn push_buttons_released(effects: &mut Vec<Effect<P>>, client_id: Option<u32>)
        ensures
            final(effects)@ == old(effects)@ + buttons_released::<P>(client_id),
    {
        if let Some(client_id) = client_id {
            effects.push(
                Effect::Send(InputPacket::MouseButtons(MouseButtonsInput { client_id, buttons: 0 })),
            );
        }
    }

    /// Gives the pointer back to the user at the user's command: it stays so
    /// until the video is clicked.
    pub fn force_release_capture(&mut self, client_id: Option<u32>, effects: &mut Vec<Effect<P>>)
        ensures
            *final(self) == old(self).force_released(),
            final(effects)@ == old(effects)@ + PointerCapture::<P>::force_release_effects(
                client_id,
            ),
    {
        self.let_go();
        self.mode = LocalCaptureMode::ForceReleased;
        effects.push(Effect::ClearKeyboard);
        Self::push_buttons_released(effects, client_id);
    }

    /// Gives the pointer back to the user because it has left the video.
    pub fn auto_release_capture(
        &mut self,
        await_pointer_exit_before_recapture: bool,
        snapshot: &SharedInputSnapshot,
        mapped: Option<P>,
        effects: &mut Vec<Effect<P>>,
    )
        ensures
            *final(self) == old(self).auto_released(
                await_pointer_exit_before_recapture,
                *snapshot,
                mapped,
            ),
            final(effects)@ == old(effects)@ + PointerCapture::<P>::auto_release_effects(
                snapshot.client_id,
            ),
    {
        let preserved = if self.is_relative_overlay(snapshot) {
            first_of(self.hover, mapped)
        } else {
            None
        };
        self.let_go();
        self.hover = preserved;
        self.await_exit = await_pointer_exit_before_recapture;
        effects.push(Effect::ResetWheel);
        effects.push(Effect::ClearKeyboard);
        Self::push_buttons_released(effects, snapshot.client_id);
    }

    pub fn is_relative_overlay(&self, snapshot: &SharedInputSnapshot) -> (r: bool)
        ensures
            r == self.relative_overlay(*snapshot),
    {
        self.mode == LocalCaptureMode::CapturedRelative && snapshot.capabilities.separate_cursor
            && server_cursor_drawable(snapshot)
    }

    /// Whether key presses go to the server.
    pub fn keyboard_forward_active(&self, snapshot: &SharedInputSnapshot) -> (r: bool)
        ensures
            r == (snapshot.allowed() && snapshot.capabilities.keyboard && self.mode.forwards()),
    {
        controller_state_allows_input(snapshot.controller_state) && snapshot.capabilities.keyboard
            && (self.mode == LocalCaptureMode::HoverAbsolute || self.mode
            == LocalCaptureMode::CapturedRelative)
    }

    /// Sends a position if it lies over the video and is news.
    pub fn send_absolute_cursor(
        &mut self,
        client_id: u32,
        place: &Place<P>,
        force: bool,
        effects: &mut Vec<Effect<P>>,
    ) -> (sent: bool)
        ensures
            sent == old(self).sends_absolute(*place, force),
            *final(self) == old(self).absolute_sent(*place),
            final(effects)@ == old(effects)@ + old(self).absolute_effects(
                client_id,
                *place,
                force,
            ),
    {
        if !place.inside || place.overlay {
            self.last_sent = None;
            return false;
        }
        let same = match self.last_sent {
            Some(last) => last.0 == place.x && last.1 == place.y,
            None => false,
        };
        if force || !same {
            self.last_sent = Some((place.x, place.y));
            effects.push(
                Effect::Send(
                    InputPacket::MouseAbsolute(
                        MouseAbsoluteInput {
                            client_id,
                            x: place.x,
                            y: place.y,
                            buttons: self.buttons,
                        },
                    ),
                ),
            );
            true
        } else {
            false
        }
    }

    /// The packet for a movement of the captured pointer, if there is any.
    pub fn relative_packet(&self, client_id: u32, dx: i16, dy: i16) -> (packet: Option<InputPacket>)
        ensures
            packet == if dx != 0 || dy != 0 {
                Some(
                    InputPacket::MouseRelative(
                        MouseRelativeInput { client_id, dx, dy, buttons: self.buttons },
                    ),
                )
            } else {
                None
            },
    {
        if dx != 0 || dy != 0 {
            Some(
                InputPacket::MouseRelative(
                    MouseRelativeInput { client_id, dx, dy, buttons: self.buttons },
                ),
            )
        } else {
            None
        }
    }

    /// The packet for whole wheel units, if there are any.
    pub fn wheel_packet(&self, client_id: u32, delta_x: i16, delta_y: i16) -> (packet: Option<
        InputPacket,
    >)
        ensures
            packet == if delta_x != 0 || delta_y != 0 {
                Some(
                    InputPacket::MouseWheel(
                        MouseWheelInput { client_id, delta_x, delta_y, buttons: self.buttons },
                    ),
                )
            } else {
                None
            },
    {
        if delta_x != 0 || delta_y != 0 {
            Some(
                InputPacket::MouseWheel(
                    MouseWheelInput { client_id, delta_x, delta_y, buttons: self.buttons },
                ),
            )
        } else {
            None
        }
    }

    /// A frame has passed.
    pub fn next_frame(&mut self)
        ensures
            *final(self) == (PointerCapture {
                suppress_pos_frames: one_less(old(self).suppress_pos_frames),
                suppress_delta: one_less(old(self).suppress_delta),
                hide_settle: one_less(old(self).hide_settle),
                ..*old(self)
            }),
    {
        self.suppress_pos_frames = count_down(self.suppress_pos_frames);
        self.suppress_delta = count_down(self.suppress_delta);
        self.hide_settle = count_down(self.hide_settle);
    }
}

pub open spec fn one_less(n: u8) -> u8 {
    if n == 0 {
        0
    } else {
        (n - 1) as u8
    }
}

fn count_down(n: u8) -> (r: u8)
    ensures
        r == one_less(n),
{
    if n == 0 {
        0
    } else {
        n - 1
    }
}

/// What decides which cursor is on the screen.
#[derive(Clone, Copy, Debug, PartialEq, Eq, Structural)]
pub struct CursorFacts {
    /// The shape of the server's cursor is known.
    pub has_shape: bool,
    /// The pointer is over the video and not over a panel of the client's.
    pub hover_over_video: bool,
    /// The window system reports the pointer over the window.
    pub pointer_present: bool,
    pub macos: bool,
}

impl<P> PointerCapture<P> {
    /// The client draws the server's cursor.
    pub open spec fn overlay_active(self, snapshot: SharedInputSnapshot, facts: CursorFacts) -> bool {
        snapshot.draws_cursor() && facts.has_shape && match self.mode {
            LocalCaptureMode::HoverAbsolute => facts.hover_over_video,
            LocalCaptureMode::CapturedRelative => snapshot.drawable(),
            _ => false,
        }
    }

    /// There is a cursor to show, but its shape is not known: the system's
    /// cursor stands in for it.
    pub open spec fn native_fallback(self, snapshot: SharedInputSnapshot, has_shape: bool) -> bool {
        self.mode == LocalCaptureMode::CapturedRelative && snapshot.draws_cursor()
            && snapshot.drawable() && !has_shape
    }

    /// The server shows no cursor where the pointer is.
    pub open spec fn remote_hidden(self, snapshot: SharedInputSnapshot, facts: CursorFacts) -> bool {
        self.mode == LocalCaptureMode::HoverAbsolute && snapshot.draws_cursor()
            && snapshot.wants_relative() && facts.hover_over_video
    }

    pub open spec fn wanted_visible(self, snapshot: SharedInputSnapshot, facts: CursorFacts) -> bool {
        match self.mode {
            LocalCaptureMode::CapturedRelative => self.native_fallback(snapshot, facts.has_shape),
            LocalCaptureMode::HoverAbsolute => !snapshot.virtual_hover(facts.macos)
                && !self.overlay_active(snapshot, facts) && !self.remote_hidden(snapshot, facts),
            _ => true,
        }
    }

    pub open spec fn wanted_grab(
        self,
        snapshot: SharedInputSnapshot,
        facts: CursorFacts,
    ) -> CursorGrab {
        match self.mode {
            LocalCaptureMode::CapturedRelative => if self.native_fallback(
                snapshot,
                facts.has_shape,
            ) {
                CursorGrab::Confined
            } else {
                CursorGrab::Locked
            },
            LocalCaptureMode::HoverAbsolute => if snapshot.virtual_hover(facts.macos) {
                CursorGrab::Locked
            } else if self.buttons != 0 && snapshot.allowed() {
                CursorGrab::Confined
            } else {
                CursorGrab::Free
            },
            _ => CursorGrab::Free,
        }
    }

    /// Hides the system's cursor if it is not to be seen. That takes effect only
    /// after a while, also when the pointer comes back to the window.
    pub open spec fn concealed(
        self,
        visible: bool,
        pointer_present: bool,
        now: Instant,
    ) -> PointerCapture<P> {
        let entered = pointer_present && !self.pointer_present;
        if !visible && (self.applied_visible != Some(false) || entered) {
            PointerCapture {
                pointer_present,
                applied_visible: Some(false),
                hide_settle: 1,
                hide_settle_until: Some(now.later(Duration { nanos: OS_CURSOR_HIDE_SETTLE_NANOS })),
                ..self
            }
        } else {
            PointerCapture { pointer_present, ..self }
        }
    }

    pub open spec fn conceal_effects(self, visible: bool) -> Seq<Effect<P>> {
        if !visible && self.applied_visible != Some(false) {
            seq![Effect::ShowCursor(false)]
        } else {
            Seq::empty()
        }
    }

    /// Changes the hold on the pointer. The window system moves the pointer for
    /// that, so what it reports next is not the user's doing.
    pub open spec fn held(self, grab: CursorGrab, now: Instant) -> PointerCapture<P> {
        if self.applied_grab != Some(grab) {
            PointerCapture {
                applied_grab: Some(grab),
                suppress_delta: 2,
                suppress_delta_until: Some(now.later(Duration { nanos: GRAB_SUPPRESSION_NANOS })),
                suppress_pos_frames: 2,
                ..self
            }
        } else {
            self
        }
    }

    pub open spec fn hold_effects(self, grab: CursorGrab) -> Seq<Effect<P>> {
        if self.applied_grab != Some(grab) {
            seq![Effect::Grab(grab)]
        } else {
            Seq::empty()
        }
    }

    pub open spec fn shown(self, visible: bool) -> PointerCapture<P> {
        if visible && self.applied_visible != Some(true) {
            PointerCapture { applied_visible: Some(true), hide_settle_until: None, ..self }
        } else {
            self
        }
    }

    pub open spec fn show_effects(self, visible: bool) -> Seq<Effect<P>> {
        if visible && self.applied_visible != Some(true) {
            seq![Effect::ShowCursor(true)]
        } else {
            Seq::empty()
        }
    }

    pub open spec fn mode_applied(
        self,
        snapshot: SharedInputSnapshot,
        facts: CursorFacts,
        now: Instant,
    ) -> PointerCapture<P> {
        let visible = self.wanted_visible(snapshot, facts);
        self.concealed(visible, facts.pointer_present, now).held(
            self.wanted_grab(snapshot, facts),
            now,
        ).shown(visible)
    }

    /// The cursor is hidden before the pointer is grabbed, and shown after it
    /// has been let go, so that it is not seen where the grab puts it.

    pub open spec fn mode_effects(
        self,
        snapshot: SharedInputSnapshot,
        facts: CursorFacts,
    ) -> Seq<Effect<P>> {
        let visible = self.wanted_visible(snapshot, facts);
        self.conceal_effects(visible) + self.hold_effects(self.wanted_grab(snapshot, facts))
            + self.show_effects(visible)
    }

    /// The hiding of the system's cursor may not have taken effect.
    pub open spec fn hide_unsettled(self, now: Instant) -> bool {
        self.hide_settle_until matches Some(until) && now.nanos < until.nanos
    }

    pub open spec fn may_draw(
        self,
        occluded: bool,
        strict: bool,
        focused: bool,
        pointer_present: bool,
        now: Instant,
    ) -> bool {
        &&& !occluded
        &&& self.applied_visible == Some(false)
        &&& self.hide_settle == 0
        &&& strict ==> {
            &&& !self.hide_unsettled(now)
            &&& focused
            &&& self.mode == LocalCaptureMode::HoverAbsolute ==> pointer_present
        }
    }

    pub open spec fn prediction_recent(self, now: Instant) -> bool {
        self.predicted_at matches Some(at) && now.since(at).nanos
            < LOCAL_CURSOR_PREDICTION_TTL_NANOS
    }

    /// Where the server's cursor is drawn, and whether that is a position of the
    /// client's own. `hover_near` says that the client's position is in the
    /// video; `server_pos` is the server's.
    pub open spec fn overlay_anchor(
        self,
        snapshot: SharedInputSnapshot,
        has_shape: bool,
        hover_near: bool,
        server_pos: P,
        now: Instant,
    ) -> Option<(P, bool)> {
        let local = if hover_near {
            self.hover
        } else {
            None
        };
        let prefer_local = self.prediction_recent(now)
            || !snapshot.capabilities.cursor_position_reliable;
        if !snapshot.draws_cursor() || !snapshot.drawable() || !has_shape {
            None
        } else {
            match self.mode {
                LocalCaptureMode::HoverAbsolute => match local {
                    Some(pos) => Some((pos, true)),
                    None => None,
                },
                LocalCaptureMode::CapturedRelative => match local {
                    Some(pos) => if prefer_local {
                        Some((pos, true))
                    } else {
                        Some((server_pos, false))
                    },
                    None => Some((server_pos, false)),
                },
                _ => None,
            }
        }
    }
}

fn is_true(value: Option<bool>) -> (r: bool)
    ensures
        r == (value == Some(true)),
{
    match value {
        Some(v) => v,
        None => false,
    }
}

fn is_false(value: Option<bool>) -> (r: bool)
    ensures
        r == (value == Some(false)),
{
    match value {
        Some(v) => !v,
        None => false,
    }
}

impl<P: Copy> PointerCapture<P> {
    /// Whether the client draws the server's cursor, and the system's cursor has
    /// to be hidden for it.
    pub fn overlay_cursor_active(&self, snapshot: &SharedInputSnapshot, facts: &CursorFacts) -> (r:
        bool)
        ensures
            r == self.overlay_active(*snapshot, *facts),
    {
        if !controller_state_has_separate_cursor(snapshot.controller_state)
            || !snapshot.capabilities.separate_cursor || !facts.has_shape {
            return false;
        }
        match self.mode {
            LocalCaptureMode::HoverAbsolute => facts.hover_over_video,
            LocalCaptureMode::CapturedRelative => server_cursor_drawable(snapshot),
            _ => false,
        }
    }

    pub fn native_cursor_fallback_active(
        &self,
        snapshot: &SharedInputSnapshot,
        has_shape: bool,
    ) -> (r: bool)
        ensures
            r == self.native_fallback(*snapshot, has_shape),
    {
        self.mode == LocalCaptureMode::CapturedRelative && controller_state_has_separate_cursor(
            snapshot.controller_state,
        ) && snapshot.capabilities.separate_cursor && server_cursor_drawable(snapshot)
            && !has_shape
    }

    pub fn hover_remote_cursor_hidden(
        &self,
        snapshot: &SharedInputSnapshot,
        facts: &CursorFacts,
    ) -> (r: bool)
        ensures
            r == self.remote_hidden(*snapshot, *facts),
    {
        self.mode == LocalCaptureMode::HoverAbsolute && controller_state_has_separate_cursor(
            snapshot.controller_state,
        ) && snapshot.capabilities.separate_cursor && server_wants_relative(snapshot)
            && facts.hover_over_video
    }

    fn wanted_cursor(&self, snapshot: &SharedInputSnapshot, facts: &CursorFacts) -> (r: (
        bool,
        CursorGrab,
    ))
        ensures
            r.0 == self.wanted_visible(*snapshot, *facts),
            r.1 == self.wanted_grab(*snapshot, *facts),
    {
        match self.mode {
            LocalCaptureMode::CapturedRelative => if self.native_cursor_fallback_active(
                snapshot,
                facts.has_shape,
            ) {
                (true, CursorGrab::Confined)
            } else {
                (false, CursorGrab::Locked)
            },
            LocalCaptureMode::HoverAbsolute => if uses_virtual_hover_cursor(
                snapshot,
                facts.macos,
            ) {
                (false, CursorGrab::Locked)
            } else {
                let dragging = self.buttons != 0 && controller_state_allows_input(
                    snapshot.controller_state,
                );
                let grab = if dragging {
                    CursorGrab::Confined
                } else {
                    CursorGrab::Free
                };
                let conceal = self.overlay_cursor_active(snapshot, facts)
                    || self.hover_remote_cursor_hidden(snapshot, facts);
                (!conceal, grab)
            },
            _ => (true, CursorGrab::Free),
        }
    }

    fn conceal_cursor(
        &mut self,
        visible: bool,
        pointer_present: bool,
        now: Instant,
        effects: &mut Vec<Effect<P>>,
    )
        ensures
            *final(self) == old(self).concealed(visible, pointer_present, now),
            final(effects)@ == old(effects)@ + old(self).conceal_effects(visible),
    {
        let entered = pointer_present && !self.pointer_present;
        self.pointer_present = pointer_present;
        if !visible {
            let was_hidden = is_false(self.applied_visible);
            if !was_hidden {
                effects.push(Effect::ShowCursor(false));
                self.applied_visible = Some(false);
            }
            if !was_hidden || entered {
                self.hide_settle = 1;
                self.hide_settle_until = Some(
                    now.saturating_add(Duration::from_nanos(OS_CURSOR_HIDE_SETTLE_NANOS)),
                );
            }
        }
    }

    fn hold_pointer(&mut self, grab: CursorGrab, now: Instant, effects: &mut Vec<Effect<P>>)
        ensures
            *final(self) == old(self).held(grab, now),
            final(effects)@ == old(effects)@ + old(self).hold_effects(grab),
    {
        if let Some(applied) = self.applied_grab {
            if applied == grab {
                return;
            }
        }
        effects.push(Effect::Grab(grab));
        self.suppress_delta = 2;
        self.suppress_delta_until = Some(
            now.saturating_add(Duration::from_nanos(GRAB_SUPPRESSION_NANOS)),
        );
        self.suppress_pos_frames = 2;
        self.applied_grab = Some(grab);
    }

    fn show_cursor(&mut self, visible: bool, effects: &mut Vec<Effect<P>>)
        ensures
            *final(self) == old(self).shown(visible),
            final(effects)@ == old(effects)@ + old(self).show_effects(visible),
    {
        if visible && !is_true(self.applied_visible) {
            effects.push(Effect::ShowCursor(true));
            self.applied_visible = Some(true);
            self.hide_settle_until = None;
        }
    }

    /// Brings the system's cursor and the hold on the pointer in line with the
    /// mode.
    pub fn apply_pointer_capture_mode(
        &mut self,
        snapshot: &SharedInputSnapshot,
        facts: &CursorFacts,
        now: Instant,
        effects: &mut Vec<Effect<P>>,
    )
        ensures
            *final(self) == old(self).mode_applied(*snapshot, *facts, now),
            final(effects)@ == old(effects)@ + old(self).mode_effects(*snapshot, *facts),
    {
        let (visible, grab) = self.wanted_cursor(snapshot, facts);
        self.conceal_cursor(visible, facts.pointer_present, now, effects);
        self.hold_pointer(grab, now, effects);
        self.show_cursor(visible, effects);
    }

    /// Whether the server's cursor may be drawn now: only once the system's
    /// cursor is surely out of sight.
    pub fn may_draw_remote_cursor(
        &self,
        occluded: bool,
        strict: bool,
        focused: bool,
        pointer_present: bool,
        now: Instant,
    ) -> (r: bool)
        ensures
            r == self.may_draw(occluded, strict, focused, pointer_present, now),
    {
        if occluded || !is_false(self.applied_visible) || self.hide_settle > 0 {
            return false;
        }
        if strict {
            if let Some(until) = self.hide_settle_until {
                if now.nanos < until.nanos {
                    return false;
                }
            }
            if !focused {
                return false;
            }
            if self.mode == LocalCaptureMode::HoverAbsolute && !pointer_present {
                return false;
            }
        }
        true
    }

    /// Decides where the server's cursor is drawn.
    pub fn remote_cursor_anchor(
        &self,
        snapshot: &SharedInputSnapshot,
        has_shape: bool,
        hover_near: bool,
        server_pos: P,
        now: Instant,
    ) -> (r: Option<(P, bool)>)
        ensures
            r == self.overlay_anchor(*snapshot, has_shape, hover_near, server_pos, now),
    {
        if !controller_state_has_separate_cursor(snapshot.controller_state)
            || !snapshot.capabilities.separate_cursor || !server_cursor_drawable(snapshot)
            || !has_shape {
            return None;
        }
        let local = if hover_near {
            self.hover
        } else {
            None
        };
        match self.mode {
            LocalCaptureMode::HoverAbsolute => match local {
                Some(pos) => Some((pos, true)),
                None => None,
            },
            LocalCaptureMode::CapturedRelative => {
                let recent = match self.predicted_at {
                    Some(at) => now.saturating_duration_since(at).nanos
                        < LOCAL_CURSOR_PREDICTION_TTL_NANOS,
                    None => false,
                };
                let prefer_local = recent || !snapshot.capabilities.cursor_position_reliable;
                let anchor = relative_capture_tracking_anchor(
                    Some(server_pos),
                    local,
                    prefer_local,
                );
                match anchor {
                    Some(pos) => Some((pos, prefer_local && local.is_some())),
                    None => None,
                }
            },
            _ => None,
        }
    }
}

} // verus!
