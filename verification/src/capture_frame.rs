//! What becomes of pointer capture in each frame of a connected window: when the
//! pointer is followed, captured and let go.
use crate::capture::{
    controller_state_allows_input, controller_state_has_separate_cursor, first_of,
    relative_capture_entry_anchor, server_wants_relative, uses_virtual_hover_cursor, Effect,
    LocalCaptureMode, Place, PointerCapture, SharedInputSnapshot, CURSOR_HIDDEN_CAPTURE_FRAMES,
    CURSOR_SHOWN_RELEASE_FRAMES,
};
use crate::capture;
use crate::time::Instant;
use vstd::prelude::*;

verus! {

/// Where the pointer is taken to be.
#[derive(Clone, Copy, Debug)]
pub struct FramePointer<P> {
    /// What the window system says, unless it has just moved the pointer itself.
    pub actual: Option<P>,
    pub pointer: Option<P>,
    /// The position is one of the client's own, to be brought into the video.
    pub synthetic: bool,
}

/// What is known of the pointer in a frame.
#[derive(Clone, Copy, Debug)]
pub struct FrameFacts<P> {
    /// Where it is taken to be, brought into the video if the position is one
    /// of the client's own.
    pub pointer: Option<P>,
    pub synthetic: bool,
    /// It is in the video, or no more than a pixel off.
    pub near: bool,
    /// It is over one of the client's own panels.
    pub overlay: bool,
    /// The primary button has been clicked.
    pub clicked: bool,
    pub focused: bool,
    /// The pointer, brought into the video.
    pub pointer_clamped: Option<P>,
    /// The position that the client keeps, brought into the video.
    pub hover_clamped: Option<P>,
    /// Where the server's cursor is on the screen.
    pub mapped: Option<P>,
    /// The same, brought into the video.
    pub mapped_clamped: Option<P>,
}

impl<P> FrameFacts<P> {
    pub open spec fn over_video(self) -> bool {
        self.near && !self.overlay
    }
}

impl<P> PointerCapture<P> {
    pub open spec fn actual_pointer(self, latest: Option<P>) -> Option<P> {
        if self.suppress_pos_frames > 0 {
            capture::either(self.hover, latest)
        } else {
            latest
        }
    }

    /// `moved_hover` is the position that the client keeps, moved along if the
    /// video has moved.
    pub open spec fn frame_pointer(
        self,
        snapshot: SharedInputSnapshot,
        macos: bool,
        latest: Option<P>,
        moved_hover: Option<P>,
    ) -> FramePointer<P> {
        let actual = self.actual_pointer(latest);
        if snapshot.virtual_hover(macos) && self.mode == LocalCaptureMode::HoverAbsolute {
            if snapshot.hover_supported() {
                let base = capture::either(moved_hover, actual);
                FramePointer { actual, pointer: base, synthetic: base is Some }
            } else {
                FramePointer {
                    actual,
                    pointer: capture::either(self.hover, actual),
                    synthetic: false,
                }
            }
        } else {
            FramePointer { actual, pointer: actual, synthetic: false }
        }
    }

    pub open spec fn noted(self, facts: FrameFacts<P>) -> PointerCapture<P> {
        PointerCapture {
            hover: if facts.synthetic {
                facts.pointer
            } else {
                self.hover
            },
            await_exit: self.await_exit && facts.near,
            ..self
        }
    }

    /// Without control, nothing is forwarded.
    pub open spec fn without_control(self, snapshot: SharedInputSnapshot) -> PointerCapture<P> {
        if !snapshot.allowed() && self.mode.forwards() {
            PointerCapture { mode: LocalCaptureMode::Idle, ..self }
        } else {
            self
        }
    }

    /// A window without the focus holds no pointer.
    pub open spec fn focus_noted(self, focused: bool) -> PointerCapture<P> {
        let reset = PointerCapture { applied_grab: None, applied_visible: None, ..self };
        if focused {
            self
        } else if self.mode == LocalCaptureMode::CapturedRelative {
            reset.force_released()
        } else {
            reset
        }
    }

    pub open spec fn focus_effects(
        self,
        focused: bool,
        snapshot: SharedInputSnapshot,
    ) -> Seq<Effect<P>> {
        if !focused && self.mode == LocalCaptureMode::CapturedRelative {
            PointerCapture::<P>::force_release_effects(snapshot.client_id)
        } else {
            Seq::empty()
        }
    }

    /// Counts the frames for which the server has hidden its cursor, or shown it.
    pub open spec fn counted(self, snapshot: SharedInputSnapshot) -> PointerCapture<P> {
        if cursor_withheld(snapshot) {
            PointerCapture { hidden_frames: one_more(self.hidden_frames), shown_frames: 0, ..self }
        } else {
            PointerCapture { hidden_frames: 0, shown_frames: one_more(self.shown_frames), ..self }
        }
    }

    /// Mouselook is over: the server has long shown its cursor, and no button is
    /// held.
    pub open spec fn ends_capture(self, snapshot: SharedInputSnapshot) -> bool {
        self.mode == LocalCaptureMode::CapturedRelative && snapshot.capabilities.mouse_absolute
            && self.shown_frames >= 10 && self.buttons == 0
    }

    /// Mouselook begins: the server has long hidden its cursor, and the user is
    /// at the video.
    pub open spec fn begins_capture(
        self,
        snapshot: SharedInputSnapshot,
        facts: FrameFacts<P>,
    ) -> bool {
        self.mode != LocalCaptureMode::CapturedRelative && snapshot.capabilities.mouse_relative
            && self.hidden_frames >= 4 && (self.mode == LocalCaptureMode::HoverAbsolute
            || facts.over_video())
    }

    pub open spec fn begins_hover(
        self,
        snapshot: SharedInputSnapshot,
        facts: FrameFacts<P>,
    ) -> bool {
        self.mode != LocalCaptureMode::CapturedRelative && snapshot.hover_supported()
            && facts.over_video() && !self.await_exit
    }

    pub open spec fn ends_hover(self, facts: FrameFacts<P>) -> bool {
        self.mode == LocalCaptureMode::HoverAbsolute && !facts.over_video() && self.buttons == 0
    }

    /// Where the pointer is put when mouselook is over: where the server's cursor
    /// is, if it can be relied on.
    pub open spec fn resume_pos(
        self,
        snapshot: SharedInputSnapshot,
        facts: FrameFacts<P>,
    ) -> Option<P> {
        if snapshot.capabilities.cursor_position_reliable {
            facts.mapped_clamped
        } else {
            facts.hover_clamped
        }
    }

    pub open spec fn resolved(
        self,
        snapshot: SharedInputSnapshot,
        facts: FrameFacts<P>,
    ) -> PointerCapture<P> {
        if !snapshot.allowed() || self.mode == LocalCaptureMode::ForceReleased {
            self
        } else if self.ends_capture(snapshot) {
            PointerCapture {
                hover: capture::either(self.resume_pos(snapshot, facts), self.hover),
                mode: if snapshot.hover_supported() && facts.over_video() {
                    LocalCaptureMode::HoverAbsolute
                } else {
                    LocalCaptureMode::Idle
                },
                last_sent: None,
                ..self
            }
        } else if self.begins_capture(snapshot, facts) {
            PointerCapture { mode: LocalCaptureMode::CapturedRelative, ..self }
        } else if self.begins_hover(snapshot, facts) {
            PointerCapture { mode: LocalCaptureMode::HoverAbsolute, ..self }
        } else if self.ends_hover(facts) {
            self.auto_released(false, snapshot, facts.mapped)
        } else {
            self
        }
    }

    pub open spec fn resolve_effects(
        self,
        snapshot: SharedInputSnapshot,
        facts: FrameFacts<P>,
    ) -> Seq<Effect<P>> {
        if !snapshot.allowed() || self.mode == LocalCaptureMode::ForceReleased {
            Seq::empty()
        } else if self.ends_capture(snapshot) {
            match self.resume_pos(snapshot, facts) {
                Some(pos) => seq![Effect::MovePointer(pos), Effect::Repaint],
                None => seq![Effect::Repaint],
            }
        } else if self.begins_capture(snapshot, facts) {
            seq![Effect::Repaint]
        } else if self.begins_hover(snapshot, facts) {
            Seq::empty()
        } else if self.ends_hover(facts) {
            PointerCapture::<P>::auto_release_effects(snapshot.client_id)
        } else {
            Seq::empty()
        }
    }

    /// A click while nothing is forwarded.
    pub open spec fn rearms(self) -> bool {
        self.mode == LocalCaptureMode::Idle || self.mode == LocalCaptureMode::ForceReleased
    }

    /// The cursor is drawn where the pointer was caught.
    pub open spec fn anchored(
        self,
        snapshot: SharedInputSnapshot,
        facts: FrameFacts<P>,
        now: Instant,
    ) -> PointerCapture<P> {
        let anchor = capture::either(facts.pointer_clamped, facts.mapped);
        if snapshot.client_id is Some && anchor is Some {
            PointerCapture { hover: anchor, predicted_at: Some(now), ..self }
        } else {
            self
        }
    }

    pub open spec fn engaged(
        self,
        snapshot: SharedInputSnapshot,
        facts: FrameFacts<P>,
        now: Instant,
    ) -> PointerCapture<P> {
        let engaged = if !self.rearms() {
            self
        } else if snapshot.hover_supported() {
            PointerCapture { mode: LocalCaptureMode::HoverAbsolute, ..self }
        } else if snapshot.capabilities.mouse_relative {
            PointerCapture { mode: LocalCaptureMode::CapturedRelative, ..self }.anchored(
                snapshot,
                facts,
                now,
            )
        } else {
            self
        };
        PointerCapture { await_exit: false, pending_click: false, ..engaged }
    }

    pub open spec fn engage_effects(
        self,
        snapshot: SharedInputSnapshot,
        facts: FrameFacts<P>,
    ) -> Seq<Effect<P>> {
        if self.rearms() && !snapshot.hover_supported() && snapshot.capabilities.mouse_relative
            && snapshot.client_id is Some {
            match facts.pointer_clamped {
                Some(pos) => seq![Effect::WarpServer(pos)],
                None => Seq::empty(),
            }
        } else {
            Seq::empty()
        }
    }

    pub open spec fn click_noted(
        self,
        snapshot: SharedInputSnapshot,
        facts: FrameFacts<P>,
        now: Instant,
    ) -> PointerCapture<P> {
        if !(facts.clicked && facts.over_video()) {
            self
        } else if snapshot.allowed() {
            self.engaged(snapshot, facts, now)
        } else {
            PointerCapture { pending_click: true, ..self }
        }
    }

    pub open spec fn click_effects(
        self,
        snapshot: SharedInputSnapshot,
        facts: FrameFacts<P>,
    ) -> Seq<Effect<P>> {
        if !(facts.clicked && facts.over_video()) {
            Seq::empty()
        } else if snapshot.allowed() {
            self.engage_effects(snapshot, facts).push(Effect::Repaint)
        } else {
            seq![Effect::Repaint]
        }
    }

    /// A click that came before the client had control counts once it has.
    pub open spec fn pending_noted(
        self,
        snapshot: SharedInputSnapshot,
        facts: FrameFacts<P>,
        now: Instant,
    ) -> PointerCapture<P> {
        if self.pending_click && snapshot.allowed() {
            self.engaged(snapshot, facts, now)
        } else {
            self
        }
    }

    pub open spec fn pending_effects(
        self,
        snapshot: SharedInputSnapshot,
        facts: FrameFacts<P>,
    ) -> Seq<Effect<P>> {
        if self.pending_click && snapshot.allowed() {
            self.engage_effects(snapshot, facts)
        } else {
            Seq::empty()
        }
    }

    pub open spec fn before_resolution(
        self,
        snapshot: SharedInputSnapshot,
        facts: FrameFacts<P>,
    ) -> PointerCapture<P> {
        self.noted(facts).without_control(snapshot).focus_noted(facts.focused).counted(snapshot)
    }

    pub open spec fn after_frame(
        self,
        snapshot: SharedInputSnapshot,
        facts: FrameFacts<P>,
        now: Instant,
    ) -> PointerCapture<P> {
        self.before_resolution(snapshot, facts).resolved(snapshot, facts).click_noted(
            snapshot,
            facts,
            now,
        ).pending_noted(snapshot, facts, now)
    }

    pub open spec fn frame_effects(
        self,
        snapshot: SharedInputSnapshot,
        facts: FrameFacts<P>,
        now: Instant,
    ) -> Seq<Effect<P>> {
        let a = self.before_resolution(snapshot, facts);
        let b = a.resolved(snapshot, facts);
        let c = b.click_noted(snapshot, facts, now);
        let d = c.pending_noted(snapshot, facts, now);
        let keyboard: Seq<Effect<P>> = if d.mode != self.mode && d.mode == LocalCaptureMode::Idle {
            seq![Effect::ClearKeyboard]
        } else {
            Seq::empty()
        };
        self.noted(facts).without_control(snapshot).focus_effects(facts.focused, snapshot)
            + a.resolve_effects(snapshot, facts) + b.click_effects(snapshot, facts)
            + c.pending_effects(snapshot, facts) + keyboard
    }
}

/// The server has hidden its cursor, or holds it. That counts only once the
/// server has reported on its cursor at all.
pub open spec fn cursor_withheld(snapshot: SharedInputSnapshot) -> bool {
    snapshot.draws_cursor() && snapshot.cursor_state_version > 0 && snapshot.wants_relative()
}

pub open spec fn one_more(n: u8) -> u8 {
    if n == 255 {
        255
    } else {
        (n + 1) as u8
    }
}

fn count_up(n: u8) -> (r: u8)
    ensures
        r == one_more(n),
{
    if n == 255 {
        255
    } else {
        n + 1
    }
}

impl<P: Copy> FrameFacts<P> {
    fn is_over_video(&self) -> (r: bool)
        ensures
            r == self.over_video(),
    {
        self.near && !self.overlay
    }
}

impl<P: Copy> PointerCapture<P> {
    /// Decides where the pointer is taken to be in this frame.
    pub fn locate_pointer(
        &self,
        snapshot: &SharedInputSnapshot,
        macos: bool,
        latest: Option<P>,
        moved_hover: Option<P>,
    ) -> (r: FramePointer<P>)
        ensures
            r == self.frame_pointer(*snapshot, macos, latest, moved_hover),
    {
        let actual = if self.suppress_pos_frames > 0 {
            first_of(self.hover, latest)
        } else {
            latest
        };
        if !uses_virtual_hover_cursor(snapshot, macos) || self.mode
            != LocalCaptureMode::HoverAbsolute {
            return FramePointer { actual, pointer: actual, synthetic: false };
        }
        if snapshot.capabilities.hover_capture && snapshot.capabilities.mouse_absolute {
            let base = first_of(moved_hover, actual);
            FramePointer { actual, pointer: base, synthetic: base.is_some() }
        } else {
            FramePointer { actual, pointer: first_of(self.hover, actual), synthetic: false }
        }
    }

    fn note_frame(
        &mut self,
        snapshot: &SharedInputSnapshot,
        facts: &FrameFacts<P>,
        effects: &mut Vec<Effect<P>>,
    )
        ensures
            *final(self) == old(self).before_resolution(*snapshot, *facts),
            final(effects)@ == old(effects)@ + old(self).noted(*facts).without_control(
                *snapshot,
            ).focus_effects(facts.focused, *snapshot),
    {
        if facts.synthetic {
            self.hover = facts.pointer;
        }
        self.await_exit = self.await_exit && facts.near;
        if !controller_state_allows_input(snapshot.controller_state) && (self.mode
            == LocalCaptureMode::HoverAbsolute || self.mode == LocalCaptureMode::CapturedRelative) {
            self.mode = LocalCaptureMode::Idle;
        }
        if !facts.focused {
            self.applied_grab = None;
            self.applied_visible = None;
            if self.mode == LocalCaptureMode::CapturedRelative {
                self.force_release_capture(snapshot.client_id, effects);
            }
        }
        if snapshot.capabilities.separate_cursor && controller_state_has_separate_cursor(
            snapshot.controller_state,
        ) && snapshot.cursor_state_version > 0 && server_wants_relative(snapshot) {
            self.hidden_frames = count_up(self.hidden_frames);
            self.shown_frames = 0;
        } else {
            self.hidden_frames = 0;
            self.shown_frames = count_up(self.shown_frames);
        }
    }

    fn end_capture(
        &mut self,
        snapshot: &SharedInputSnapshot,
        facts: &FrameFacts<P>,
        effects: &mut Vec<Effect<P>>,
    )
        requires
            snapshot.allowed(),
            old(self).ends_capture(*snapshot),
        ensures
            *final(self) == old(self).resolved(*snapshot, *facts),
            final(effects)@ == old(effects)@ + old(self).resolve_effects(*snapshot, *facts),
    {
        let resume = if snapshot.capabilities.cursor_position_reliable {
            facts.mapped_clamped
        } else {
            facts.hover_clamped
        };
        if let Some(pos) = resume {
            self.hover = Some(pos);
            effects.push(Effect::MovePointer(pos));
        }
        self.mode = if snapshot.capabilities.hover_capture && snapshot.capabilities.mouse_absolute
            && facts.is_over_video() {
            LocalCaptureMode::HoverAbsolute
        } else {
            LocalCaptureMode::Idle
        };
        self.last_sent = None;
        effects.push(Effect::Repaint);
    }

    fn resolve_mode(
        &mut self,
        snapshot: &SharedInputSnapshot,
        facts: &FrameFacts<P>,
        effects: &mut Vec<Effect<P>>,
    )
        ensures
            *final(self) == old(self).resolved(*snapshot, *facts),
            final(effects)@ == old(effects)@ + old(self).resolve_effects(*snapshot, *facts),
    {
        if !controller_state_allows_input(snapshot.controller_state) || self.mode
            == LocalCaptureMode::ForceReleased {
            return;
        }
        let over_video = facts.is_over_video();
        if self.mode == LocalCaptureMode::CapturedRelative {
            if snapshot.capabilities.mouse_absolute && self.shown_frames
                >= CURSOR_SHOWN_RELEASE_FRAMES && self.buttons == 0 {
                self.end_capture(snapshot, facts, effects);
            }
        } else if snapshot.capabilities.mouse_relative && self.hidden_frames
            >= CURSOR_HIDDEN_CAPTURE_FRAMES && (self.mode == LocalCaptureMode::HoverAbsolute
            || over_video) {
            self.mode = LocalCaptureMode::CapturedRelative;
            effects.push(Effect::Repaint);
        } else if snapshot.capabilities.hover_capture && snapshot.capabilities.mouse_absolute
            && over_video && !self.await_exit {
            self.mode = LocalCaptureMode::HoverAbsolute;
        } else if self.mode == LocalCaptureMode::HoverAbsolute && !over_video && self.buttons == 0 {
            self.auto_release_capture(false, snapshot, facts.mapped, effects);
        }
    }

    fn engage(
        &mut self,
        snapshot: &SharedInputSnapshot,
        facts: &FrameFacts<P>,
        now: Instant,
        effects: &mut Vec<Effect<P>>,
    )
        ensures
            *final(self) == old(self).engaged(*snapshot, *facts, now),
            final(effects)@ == old(effects)@ + old(self).engage_effects(*snapshot, *facts),
    {
        if self.mode == LocalCaptureMode::Idle || self.mode == LocalCaptureMode::ForceReleased {
            if snapshot.capabilities.hover_capture && snapshot.capabilities.mouse_absolute {
                self.mode = LocalCaptureMode::HoverAbsolute;
            } else if snapshot.capabilities.mouse_relative {
                self.mode = LocalCaptureMode::CapturedRelative;
                if snapshot.client_id.is_some() {
                    let anchor = relative_capture_entry_anchor(facts.mapped, facts.pointer_clamped);
                    if anchor.is_some() {
                        self.hover = anchor;
                        self.predicted_at = Some(now);
                    }
                    if let Some(local) = facts.pointer_clamped {
                        effects.push(Effect::WarpServer(local));
                    }
                }
            }
        }
        self.await_exit = false;
        self.pending_click = false;
    }

    fn note_click(
        &mut self,
        snapshot: &SharedInputSnapshot,
        facts: &FrameFacts<P>,
        now: Instant,
        effects: &mut Vec<Effect<P>>,
    )
        ensures
            *final(self) == old(self).click_noted(*snapshot, *facts, now),
            final(effects)@ == old(effects)@ + old(self).click_effects(*snapshot, *facts),
    {
        if !facts.clicked || !facts.is_over_video() {
            return;
        }
        if controller_state_allows_input(snapshot.controller_state) {
            self.engage(snapshot, facts, now, effects);
        } else {
            self.pending_click = true;
        }
        effects.push(Effect::Repaint);
    }

    /// Takes in a frame of the connected window: decides whether the pointer is
    /// followed, captured or let go.
    pub fn handle_connected_video_response(
        &mut self,
        snapshot: &SharedInputSnapshot,
        facts: &FrameFacts<P>,
        now: Instant,
        effects: &mut Vec<Effect<P>>,
    )
        ensures
            *final(self) == old(self).after_frame(*snapshot, *facts, now),
            final(effects)@ == old(effects)@ + old(self).frame_effects(*snapshot, *facts, now),
    {
        let previous = self.mode;
        self.note_frame(snapshot, facts, effects);
        self.resolve_mode(snapshot, facts, effects);
        self.note_click(snapshot, facts, now, effects);
        if self.pending_click && controller_state_allows_input(snapshot.controller_state) {
            self.engage(snapshot, facts, now, effects);
        }
        if self.mode != previous && self.mode == LocalCaptureMode::Idle {
            effects.push(Effect::ClearKeyboard);
        }
        proof {
            assert(effects@ =~= old(effects)@ + old(self).frame_effects(*snapshot, *facts, now));
        }
    }
}

/// A position that is to be sent, and whether it has to be brought into the video
/// first.
#[derive(Clone, Copy, Debug)]
pub struct DesktopTarget<P> {
    pub pos: P,
    pub clamp: bool,
}

impl<P> PointerCapture<P> {
    pub open spec fn target(
        self,
        previous: LocalCaptureMode,
        virtual_hover: bool,
        pointer: FramePointer<P>,
    ) -> Option<DesktopTarget<P>> {
        let desired = if virtual_hover && previous == LocalCaptureMode::HoverAbsolute {
            capture::either(self.hover, pointer.pointer)
        } else {
            capture::either(pointer.actual, pointer.pointer)
        };
        match desired {
            Some(pos) => Some(DesktopTarget { pos, clamp: true }),
            None => match self.hover {
                Some(pos) => if virtual_hover {
                    Some(DesktopTarget { pos, clamp: false })
                } else {
                    None
                },
                None => None,
            },
        }
    }

    /// `place` is the target, and `covered` says that the target, before it was
    /// brought into the video, was over one of the client's own panels.
    pub open spec fn desktop_pos(
        self,
        virtual_hover: bool,
        place: Option<Place<P>>,
        covered: bool,
    ) -> Option<Place<P>> {
        if virtual_hover || !covered {
            place
        } else {
            None
        }
    }

    pub open spec fn desktop_sent(
        self,
        snapshot: SharedInputSnapshot,
        virtual_hover: bool,
        place: Option<Place<P>>,
        covered: bool,
    ) -> PointerCapture<P> {
        let sent = self.desktop_pos(virtual_hover, place, covered);
        if self.mode == LocalCaptureMode::HoverAbsolute && snapshot.allowed() {
            match sent {
                Some(place) => {
                    let moved = PointerCapture { resync: false, hover: Some(place.pos), ..self };
                    if snapshot.client_id is Some {
                        moved.absolute_sent(place)
                    } else if virtual_hover {
                        moved
                    } else {
                        PointerCapture { last_sent: None, ..moved }
                    }
                },
                None => if virtual_hover {
                    PointerCapture { resync: false, ..self }
                } else {
                    PointerCapture { resync: false, hover: None, last_sent: None, ..self }
                },
            }
        } else if self.mode != LocalCaptureMode::CapturedRelative {
            PointerCapture { hover: None, last_sent: None, ..self }
        } else {
            self
        }
    }

    pub open spec fn desktop_effects(
        self,
        snapshot: SharedInputSnapshot,
        virtual_hover: bool,
        place: Option<Place<P>>,
        covered: bool,
    ) -> Seq<Effect<P>> {
        if self.mode == LocalCaptureMode::HoverAbsolute && snapshot.allowed() {
            match (snapshot.client_id, self.desktop_pos(virtual_hover, place, covered)) {
                (Some(client_id), Some(place)) => self.absolute_effects(
                    client_id,
                    place,
                    self.resync,
                ),
                _ => Seq::empty(),
            }
        } else {
            Seq::empty()
        }
    }
}

impl<P: Copy> PointerCapture<P> {
    /// Chooses the position that is sent while the pointer is followed.
    pub fn desktop_target(
        &self,
        previous: LocalCaptureMode,
        virtual_hover: bool,
        pointer: &FramePointer<P>,
    ) -> (r: Option<DesktopTarget<P>>)
        ensures
            r == self.target(previous, virtual_hover, *pointer),
    {
        let desired = if virtual_hover && previous == LocalCaptureMode::HoverAbsolute {
            first_of(self.hover, pointer.pointer)
        } else {
            first_of(pointer.actual, pointer.pointer)
        };
        match desired {
            Some(pos) => Some(DesktopTarget { pos, clamp: true }),
            None => match self.hover {
                Some(pos) => if virtual_hover {
                    Some(DesktopTarget { pos, clamp: false })
                } else {
                    None
                },
                None => None,
            },
        }
    }

    /// Follows the pointer: remembers its position, and sends it.
    pub fn send_desktop_cursor(
        &mut self,
        snapshot: &SharedInputSnapshot,
        virtual_hover: bool,
        place: Option<Place<P>>,
        covered: bool,
        effects: &mut Vec<Effect<P>>,
    )
        ensures
            *final(self) == old(self).desktop_sent(*snapshot, virtual_hover, place, covered),
            final(effects)@ == old(effects)@ + old(self).desktop_effects(
                *snapshot,
                virtual_hover,
                place,
                covered,
            ),
    {
        if self.mode == LocalCaptureMode::HoverAbsolute && controller_state_allows_input(
            snapshot.controller_state,
        ) {
            let force = self.resync;
            self.resync = false;
            if virtual_hover {
                if let Some(place) = place {
                    self.hover = Some(place.pos);
                    if let Some(client_id) = snapshot.client_id {
                        let _ = self.send_absolute_cursor(client_id, &place, force, effects);
                    }
                }
            } else {
                let place = if covered {
                    None
                } else {
                    place
                };
                match place {
                    Some(place) => {
                        self.hover = Some(place.pos);
                        match snapshot.client_id {
                            Some(client_id) => {
                                let _ = self.send_absolute_cursor(client_id, &place, force, effects);
                            },
                            None => {
                                self.last_sent = None;
                            },
                        }
                    },
                    None => {
                        self.hover = None;
                        self.last_sent = None;
                    },
                }
            }
        } else if self.mode != LocalCaptureMode::CapturedRelative {
            self.hover = None;
            self.last_sent = None;
        }
    }
}

} // verus!
