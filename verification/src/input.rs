//! Input packets and the heartbeats that repair lost ones.
use crate::keys;
use crate::time::{Duration, Instant};
use vstd::prelude::*;

verus! {

pub const MOUSE_BUTTON_PRIMARY: u8 = 1;

pub const MOUSE_BUTTON_SECONDARY: u8 = 2;

pub const MOUSE_BUTTON_MIDDLE: u8 = 4;

pub const MOUSE_BUTTON_EXTRA1: u8 = 8;

pub const MOUSE_BUTTON_EXTRA2: u8 = 16;

pub const INPUT_SENDER_POLL_INTERVAL_NANOS: u64 = 20_000_000;

pub const INPUT_STATE_HEARTBEAT_INTERVAL_NANOS: u64 = 50_000_000;

pub const INPUT_STATE_REPAIR_WINDOW_NANOS: u64 = 200_000_000;

#[derive(Clone, Copy, Debug, PartialEq, Eq)]
pub struct MouseAbsoluteInput {
    pub client_id: u32,
    pub x: u16,
    pub y: u16,
    pub buttons: u8,
}

#[derive(Clone, Copy, Debug, PartialEq, Eq)]
pub struct MouseRelativeInput {
    pub client_id: u32,
    pub dx: i16,
    pub dy: i16,
    pub buttons: u8,
}

#[derive(Clone, Copy, Debug, PartialEq, Eq)]
pub struct MouseButtonsInput {
    pub client_id: u32,
    pub buttons: u8,
}

#[derive(Clone, Copy, Debug, PartialEq, Eq)]
pub struct MouseWheelInput {
    pub client_id: u32,
    pub delta_x: i16,
    pub delta_y: i16,
    pub buttons: u8,
}

#[derive(Clone, Copy, Debug, PartialEq, Eq)]
pub struct KeyboardStateInput {
    pub client_id: u32,
    pub pressed: [u8; 16],
}

#[derive(Clone, Copy, Debug, PartialEq, Eq)]
pub enum InputPacket {
    MouseAbsolute(MouseAbsoluteInput),
    MouseRelative(MouseRelativeInput),
    MouseButtons(MouseButtonsInput),
    MouseWheel(MouseWheelInput),
    KeyboardState(KeyboardStateInput),
}

/// Whether a packet is about the mouse.
pub open spec fn is_mouse(packet: InputPacket) -> bool {
    !(packet is KeyboardState)
}

/// What a heartbeat repeats of a mouse packet: a position, or the buttons alone.
/// Movements and wheel turns must not be repeated.
pub open spec fn heartbeat_of(packet: InputPacket) -> Option<InputPacket> {
    match packet {
        InputPacket::MouseAbsolute(_) => Some(packet),
        InputPacket::MouseButtons(_) => Some(packet),
        InputPacket::MouseRelative(p) => Some(
            InputPacket::MouseButtons(
                MouseButtonsInput { client_id: p.client_id, buttons: p.buttons },
            ),
        ),
        InputPacket::MouseWheel(p) => Some(
            InputPacket::MouseButtons(
                MouseButtonsInput { client_id: p.client_id, buttons: p.buttons },
            ),
        ),
        InputPacket::KeyboardState(_) => None,
    }
}

pub open spec fn buttons_of(packet: InputPacket) -> u8 {
    match packet {
        InputPacket::MouseAbsolute(p) => p.buttons,
        InputPacket::MouseButtons(p) => p.buttons,
        _ => 0,
    }
}

pub fn mouse_heartbeat_packet(packet: InputPacket) -> (r: Option<InputPacket>)
    ensures
        r == heartbeat_of(packet),
{
    match packet {
        InputPacket::MouseAbsolute(packet) => Some(InputPacket::MouseAbsolute(packet)),
        InputPacket::MouseRelative(packet) => Some(
            InputPacket::MouseButtons(
                MouseButtonsInput { client_id: packet.client_id, buttons: packet.buttons },
            ),
        ),
        InputPacket::MouseButtons(packet) => Some(InputPacket::MouseButtons(packet)),
        InputPacket::MouseWheel(packet) => Some(
            InputPacket::MouseButtons(
                MouseButtonsInput { client_id: packet.client_id, buttons: packet.buttons },
            ),
        ),
        InputPacket::KeyboardState(_) => None,
    }
}

pub fn mouse_heartbeat_buttons(packet: InputPacket) -> (buttons: u8)
    ensures
        buttons == buttons_of(packet),
{
    match packet {
        InputPacket::MouseAbsolute(packet) => packet.buttons,
        InputPacket::MouseButtons(packet) => packet.buttons,
        _ => 0,
    }
}

/// Until when a change at `now` is repeated.
pub open spec fn repair_end(now: Instant) -> Instant {
    now.later(Duration { nanos: INPUT_STATE_REPAIR_WINDOW_NANOS })
}

/// Whether enough time has passed since the last packet for a heartbeat.
pub open spec fn heartbeat_due(last_sent_at: Option<Instant>, now: Instant) -> bool {
    last_sent_at matches Some(last) ==> now.since(last).nanos >= INPUT_STATE_HEARTBEAT_INTERVAL_NANOS
}

pub open spec fn in_repair_window(resend_until: Option<Instant>, now: Instant) -> bool {
    resend_until matches Some(until) && now.nanos < until.nanos
}

/// A repair window that is over is forgotten.
pub open spec fn kept_window(resend_until: Option<Instant>, now: Instant) -> Option<Instant> {
    if in_repair_window(resend_until, now) {
        resend_until
    } else {
        None
    }
}

/// Repeats the mouse buttons: as long as one is held, and for a while after the
/// last change.
#[derive(Clone, Copy, Debug)]
pub struct MouseInputHeartbeat {
    pub packet: Option<InputPacket>,
    pub buttons: u8,
    pub resend_until: Option<Instant>,
    pub last_sent_at: Option<Instant>,
}

impl Default for MouseInputHeartbeat {
    fn default() -> (h: MouseInputHeartbeat)
        ensures
            h == (MouseInputHeartbeat {
                packet: None,
                buttons: 0,
                resend_until: None,
                last_sent_at: None,
            }),
    {
        MouseInputHeartbeat { packet: None, buttons: 0, resend_until: None, last_sent_at: None }
    }
}

impl MouseInputHeartbeat {
    pub open spec fn observed(self, packet: InputPacket, now: Instant) -> MouseInputHeartbeat {
        match heartbeat_of(packet) {
            None => self,
            Some(repeated) => MouseInputHeartbeat {
                packet: Some(repeated),
                buttons: buttons_of(repeated),
                resend_until: if buttons_of(repeated) != self.buttons {
                    Some(repair_end(now))
                } else {
                    self.resend_until
                },
                ..self
            },
        }
    }

    pub open spec fn marked(self, packet: InputPacket, now: Instant) -> MouseInputHeartbeat {
        if is_mouse(packet) {
            MouseInputHeartbeat { last_sent_at: Some(now), ..self }
        } else {
            self
        }
    }

    /// What is to be repeated at `now`.
    pub open spec fn due(self, now: Instant) -> Option<InputPacket> {
        if (self.buttons != 0 || in_repair_window(self.resend_until, now)) && heartbeat_due(
            self.last_sent_at,
            now,
        ) {
            self.packet
        } else {
            None
        }
    }

    /// The heartbeat after a look for what is due.
    pub open spec fn polled(self, now: Instant) -> MouseInputHeartbeat {
        if self.packet is None {
            self
        } else {
            MouseInputHeartbeat {
                resend_until: kept_window(self.resend_until, now),
                last_sent_at: if self.due(now) is Some {
                    Some(now)
                } else {
                    self.last_sent_at
                },
                ..self
            }
        }
    }

    /// Takes note of a packet that is about to be sent.
    pub fn observe(&mut self, packet: InputPacket, now: Instant)
        ensures
            *final(self) == old(self).observed(packet, now),
    {
        if let Some(repeated) = mouse_heartbeat_packet(packet) {
            let next_buttons: u8 = mouse_heartbeat_buttons(repeated);
            if next_buttons != self.buttons {
                self.resend_until = Some(
                    now.saturating_add(Duration::from_nanos(INPUT_STATE_REPAIR_WINDOW_NANOS)),
                );
            }
            self.packet = Some(repeated);
            self.buttons = next_buttons;
        }
    }

    pub fn mark_sent(&mut self, packet: InputPacket, now: Instant)
        ensures
            *final(self) == old(self).marked(packet, now),
    {
        match packet {
            InputPacket::KeyboardState(_) => {},
            _ => {
                self.last_sent_at = Some(now);
            },
        }
    }

    pub fn due_packet(&mut self, now: Instant) -> (packet: Option<InputPacket>)
        ensures
            packet == old(self).due(now),
            *final(self) == old(self).polled(now),
    {
        if self.packet.is_none() {
            return None;
        }
        let resend_due_to_transition = self.repair_window_active(now);
        if self.buttons == 0 && !resend_due_to_transition {
            return None;
        }
        if let Some(last_sent_at) = self.last_sent_at {
            if now.saturating_duration_since(last_sent_at).nanos < INPUT_STATE_HEARTBEAT_INTERVAL_NANOS {
                return None;
            }
        }
        self.last_sent_at = Some(now);
        self.packet
    }

    pub fn repair_window_active(&mut self, now: Instant) -> (active: bool)
        ensures
            active == in_repair_window(old(self).resend_until, now),
            *final(self) == (MouseInputHeartbeat {
                resend_until: kept_window(old(self).resend_until, now),
                ..*old(self)
            }),
    {
        match self.resend_until {
            Some(until) => if now.nanos < until.nanos {
                true
            } else {
                self.resend_until = None;
                false
            },
            None => false,
        }
    }
}

pub open spec fn same_keyboard(a: KeyboardStateInput, b: KeyboardStateInput) -> bool {
    a.client_id == b.client_id && a.pressed@ == b.pressed@
}

pub fn is_same_keyboard(a: &KeyboardStateInput, b: &KeyboardStateInput) -> (r: bool)
    ensures
        r == same_keyboard(*a, *b),
{
    if a.client_id != b.client_id {
        return false;
    }
    let mut i: usize = 0;
    while i < 16
        invariant
            i <= 16,
            forall|k: int| 0 <= k < i ==> #[trigger] a.pressed@[k] == b.pressed@[k],
        decreases 16 - i,
    {
        if a.pressed[i] != b.pressed[i] {
            return false;
        }
        i = i + 1;
    }
    proof {
        assert(a.pressed@ =~= b.pressed@);
    }
    true
}

pub fn any_key_pressed(state: &KeyboardStateInput) -> (any: bool)
    ensures
        any == !keys::none_held(state.pressed@),
{
    let mut i: usize = 0;
    while i < 16
        invariant
            i <= 16,
            forall|k: int| 0 <= k < i ==> #[trigger] state.pressed@[k] == 0,
        decreases 16 - i,
    {
        if state.pressed[i] != 0 {
            return true;
        }
        i = i + 1;
    }
    false
}

/// Repeats the keyboard's state: as long as a key is held, and for a while after
/// the last change.
#[derive(Clone, Copy, Debug)]
pub struct KeyboardInputHeartbeat {
    pub state: Option<KeyboardStateInput>,
    pub any_pressed: bool,
    pub resend_until: Option<Instant>,
    pub last_sent_at: Option<Instant>,
}

impl Default for KeyboardInputHeartbeat {
    fn default() -> (h: KeyboardInputHeartbeat)
        ensures
            h == (KeyboardInputHeartbeat {
                state: None,
                any_pressed: false,
                resend_until: None,
                last_sent_at: None,
            }),
    {
        KeyboardInputHeartbeat {
            state: None,
            any_pressed: false,
            resend_until: None,
            last_sent_at: None,
        }
    }
}

impl KeyboardInputHeartbeat {
    pub open spec fn observed(self, packet: InputPacket, now: Instant) -> KeyboardInputHeartbeat {
        match packet {
            InputPacket::KeyboardState(state) => KeyboardInputHeartbeat {
                state: Some(state),
                any_pressed: !keys::none_held(state.pressed@),
                resend_until: if self.state matches Some(previous) && same_keyboard(
                    previous,
                    state,
                ) {
                    self.resend_until
                } else {
                    Some(repair_end(now))
                },
                ..self
            },
            _ => self,
        }
    }

    pub open spec fn marked(self, packet: InputPacket, now: Instant) -> KeyboardInputHeartbeat {
        if is_mouse(packet) {
            self
        } else {
            KeyboardInputHeartbeat { last_sent_at: Some(now), ..self }
        }
    }

    pub open spec fn due(self, now: Instant) -> Option<InputPacket> {
        if (self.any_pressed || in_repair_window(self.resend_until, now)) && heartbeat_due(
            self.last_sent_at,
            now,
        ) {
            match self.state {
                Some(state) => Some(InputPacket::KeyboardState(state)),
                None => None,
            }
        } else {
            None
        }
    }

    pub open spec fn polled(self, now: Instant) -> KeyboardInputHeartbeat {
        if self.state is None {
            self
        } else {
            KeyboardInputHeartbeat {
                resend_until: kept_window(self.resend_until, now),
                last_sent_at: if self.due(now) is Some {
                    Some(now)
                } else {
                    self.last_sent_at
                },
                ..self
            }
        }
    }

    pub fn observe(&mut self, packet: InputPacket, now: Instant)
        ensures
            *final(self) == old(self).observed(packet, now),
    {
        if let InputPacket::KeyboardState(state) = packet {
            let unchanged = match self.state {
                Some(previous) => is_same_keyboard(&previous, &state),
                None => false,
            };
            if !unchanged {
                self.resend_until = Some(
                    now.saturating_add(Duration::from_nanos(INPUT_STATE_REPAIR_WINDOW_NANOS)),
                );
            }
            self.state = Some(state);
            self.any_pressed = any_key_pressed(&state);
        }
    }

    pub fn mark_sent(&mut self, packet: InputPacket, now: Instant)
        ensures
            *final(self) == old(self).marked(packet, now),
    {
        if let InputPacket::KeyboardState(_) = packet {
            self.last_sent_at = Some(now);
        }
    }

    pub fn due_packet(&mut self, now: Instant) -> (packet: Option<InputPacket>)
        ensures
            packet == old(self).due(now),
            *final(self) == old(self).polled(now),
    {
        match self.state {
            None => None,
            Some(state) => {
                let resend_due_to_transition = self.repair_window_active(now);
                if !self.any_pressed && !resend_due_to_transition {
                    return None;
                }
                if let Some(last_sent_at) = self.last_sent_at {
                    if now.saturating_duration_since(last_sent_at).nanos < INPUT_STATE_HEARTBEAT_INTERVAL_NANOS {
                        return None;
                    }
                }
                self.last_sent_at = Some(now);
                Some(InputPacket::KeyboardState(state))
            },
        }
    }

    pub fn repair_window_active(&mut self, now: Instant) -> (active: bool)
        ensures
            active == in_repair_window(old(self).resend_until, now),
            *final(self) == (KeyboardInputHeartbeat {
                resend_until: kept_window(old(self).resend_until, now),
                ..*old(self)
            }),
    {
        match self.resend_until {
            Some(until) => if now.nanos < until.nanos {
                true
            } else {
                self.resend_until = None;
                false
            },
            None => false,
        }
    }
}

/// A release of all buttons is repeated while its repair window is open, and no
/// more once it is over.
pub proof fn mouse_release_is_repeated_for_a_while(
    before: MouseInputHeartbeat,
    packet: InputPacket,
    released_at: Instant,
    now: Instant,
)
    requires
        heartbeat_of(packet) is Some,
        before.buttons != 0,
        buttons_of(heartbeat_of(packet)->0) == 0,
        released_at.nanos + INPUT_STATE_REPAIR_WINDOW_NANOS <= u64::MAX,
        released_at.nanos + INPUT_STATE_HEARTBEAT_INTERVAL_NANOS <= now.nanos,
    ensures
        ({
            let after = before.observed(packet, released_at).marked(packet, released_at);
            after.due(now) == if now.nanos < released_at.nanos + INPUT_STATE_REPAIR_WINDOW_NANOS {
                heartbeat_of(packet)
            } else {
                None
            }
        }),
{
}

/// A held button is repeated as long as it is held, a heartbeat interval after
/// the last packet.
pub proof fn held_buttons_are_repeated(heartbeat: MouseInputHeartbeat, now: Instant)
    requires
        heartbeat.buttons != 0,
        heartbeat_due(heartbeat.last_sent_at, now),
    ensures
        heartbeat.due(now) == heartbeat.packet,
{
}

/// A heartbeat never repeats a movement or a turn of the wheel.
pub proof fn heartbeats_repeat_no_movement(packet: InputPacket)
    ensures
        heartbeat_of(packet) matches Some(repeated) ==> !(repeated is MouseRelative)
            && !(repeated is MouseWheel),
{
}

/// A keyboard state with all keys up is repeated while its repair window is
/// open, and no more once it is over.
pub proof fn key_release_is_repeated_for_a_while(
    before: KeyboardInputHeartbeat,
    held: KeyboardStateInput,
    state: KeyboardStateInput,
    released_at: Instant,
    now: Instant,
)
    requires
        before.state == Some(held),
        !same_keyboard(held, state),
        keys::none_held(state.pressed@),
        released_at.nanos + INPUT_STATE_REPAIR_WINDOW_NANOS <= u64::MAX,
        released_at.nanos + INPUT_STATE_HEARTBEAT_INTERVAL_NANOS <= now.nanos,
    ensures
        ({
            let packet = InputPacket::KeyboardState(state);
            let after = before.observed(packet, released_at).marked(packet, released_at);
            after.due(now) == if now.nanos < released_at.nanos + INPUT_STATE_REPAIR_WINDOW_NANOS {
                Some(packet)
            } else {
                None
            }
        }),
{
}

/// Two heartbeats are at least a heartbeat interval apart.
pub proof fn heartbeats_are_spaced(heartbeat: MouseInputHeartbeat, first: Instant, now: Instant)
    requires
        heartbeat.due(first) is Some,
        first.nanos <= now.nanos < first.nanos + INPUT_STATE_HEARTBEAT_INTERVAL_NANOS,
    ensures
        heartbeat.polled(first).due(now) is None,
{
}

/// How input travels to the server.
#[derive(Clone, Copy, Debug, PartialEq, Eq, Structural)]
pub enum InputLink {
    /// In datagrams of its own.
    Direct,
    /// Through the tunnel that carries the whole session.
    Tunnel,
}

/// A packet on its way, with its sequence number.
#[derive(Clone, Copy, Debug)]
pub struct Outgoing {
    pub packet: InputPacket,
    pub seq: u16,
}

/// Numbers packets and repeats what may have been lost. Without a credential
/// from the server nothing is sent.
#[derive(Clone, Copy, Debug)]
pub struct InputSender {
    pub seq: u16,
    pub mouse: MouseInputHeartbeat,
    pub keyboard: KeyboardInputHeartbeat,
    pub link: InputLink,
}

pub open spec fn next_seq(seq: u16) -> u16 {
    ((seq + 1) % 0x1_0000) as u16
}

impl InputSender {
    pub fn new(link: InputLink) -> (sender: InputSender)
        ensures
            sender.seq == 0,
            sender.link == link,
            sender.mouse == (MouseInputHeartbeat {
                packet: None,
                buttons: 0,
                resend_until: None,
                last_sent_at: None,
            }),
            sender.keyboard == (KeyboardInputHeartbeat {
                state: None,
                any_pressed: false,
                resend_until: None,
                last_sent_at: None,
            }),
    {
        InputSender {
            seq: 0,
            mouse: MouseInputHeartbeat::default(),
            keyboard: KeyboardInputHeartbeat::default(),
            link,
        }
    }

    fn number(&mut self, packet: InputPacket) -> (outgoing: Outgoing)
        ensures
            outgoing == (Outgoing { packet, seq: old(self).seq }),
            *final(self) == (InputSender { seq: next_seq(old(self).seq), ..*old(self) }),
    {
        let outgoing = Outgoing { packet, seq: self.seq };
        self.seq = self.seq.wrapping_add(1);
        outgoing
    }

    /// Takes in a packet from the window. On a direct link, a packet that could
    /// not be sent does not count as sent.
    pub fn on_packet(
        &mut self,
        packet: InputPacket,
        has_credential: bool,
        now: Instant,
    ) -> (outgoing: Option<Outgoing>)
        ensures
            outgoing == if has_credential {
                Some(Outgoing { packet, seq: old(self).seq })
            } else {
                None
            },
            ({
                let mouse = old(self).mouse.observed(packet, now);
                let keyboard = old(self).keyboard.observed(packet, now);
                let counted = has_credential || old(self).link == InputLink::Tunnel;
                *final(self) == (InputSender {
                    seq: if has_credential {
                        next_seq(old(self).seq)
                    } else {
                        old(self).seq
                    },
                    mouse: if counted {
                        mouse.marked(packet, now)
                    } else {
                        mouse
                    },
                    keyboard: if counted {
                        keyboard.marked(packet, now)
                    } else {
                        keyboard
                    },
                    link: old(self).link,
                })
            }),
    {
        self.mouse.observe(packet, now);
        self.keyboard.observe(packet, now);
        let outgoing = if has_credential {
            Some(self.number(packet))
        } else {
            None
        };
        if has_credential || self.link == InputLink::Tunnel {
            self.mouse.mark_sent(packet, now);
            self.keyboard.mark_sent(packet, now);
        }
        outgoing
    }

    /// Whether heartbeats are looked for at all.
    pub open spec fn beats(self, has_credential: bool) -> bool {
        has_credential || self.link == InputLink::Tunnel
    }

    /// Sends what the mouse heartbeat has due. The second result says whether
    /// anything was due.
    pub fn mouse_beat(&mut self, has_credential: bool, now: Instant) -> (r: (Option<Outgoing>, bool))
        ensures
            ({
                let due = if old(self).beats(has_credential) {
                    old(self).mouse.due(now)
                } else {
                    None
                };
                let sent = has_credential && due is Some;
                &&& r.1 == (due is Some)
                &&& r.0 == if sent {
                    Some(Outgoing { packet: due->0, seq: old(self).seq })
                } else {
                    None
                }
                &&& *final(self) == (InputSender {
                    seq: if sent {
                        next_seq(old(self).seq)
                    } else {
                        old(self).seq
                    },
                    mouse: if old(self).beats(has_credential) {
                        old(self).mouse.polled(now)
                    } else {
                        old(self).mouse
                    },
                    ..*old(self)
                })
            }),
    {
        if !has_credential && self.link == InputLink::Direct {
            return (None, false);
        }
        match self.mouse.due_packet(now) {
            Some(packet) => if has_credential {
                (Some(self.number(packet)), true)
            } else {
                (None, true)
            },
            None => (None, false),
        }
    }

    /// Sends what the keyboard heartbeat has due.
    pub fn keyboard_beat(&mut self, has_credential: bool, now: Instant) -> (r: (
        Option<Outgoing>,
        bool,
    ))
        ensures
            ({
                let due = if old(self).beats(has_credential) {
                    old(self).keyboard.due(now)
                } else {
                    None
                };
                let sent = has_credential && due is Some;
                &&& r.1 == (due is Some)
                &&& r.0 == if sent {
                    Some(Outgoing { packet: due->0, seq: old(self).seq })
                } else {
                    None
                }
                &&& *final(self) == (InputSender {
                    seq: if sent {
                        next_seq(old(self).seq)
                    } else {
                        old(self).seq
                    },
                    keyboard: if old(self).beats(has_credential) {
                        old(self).keyboard.polled(now)
                    } else {
                        old(self).keyboard
                    },
                    ..*old(self)
                })
            }),
    {
        if !has_credential && self.link == InputLink::Direct {
            return (None, false);
        }
        match self.keyboard.due_packet(now) {
            Some(packet) => if has_credential {
                (Some(self.number(packet)), true)
            } else {
                (None, true)
            },
            None => (None, false),
        }
    }
}

} // verus!
