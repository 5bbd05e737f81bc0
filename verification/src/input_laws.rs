//! What holds of the heartbeats that repeat input over a lossy link.
use crate::input;
use crate::input::{
    InputLink, InputPacket, InputSender, KeyboardInputHeartbeat, KeyboardStateInput,
    MouseAbsoluteInput, MouseButtonsInput, MouseInputHeartbeat, MouseRelativeInput,
    MouseWheelInput,
};
use crate::keys;
use crate::time::Instant;
use vstd::prelude::*;

verus! {

/// As long as a key is held, the state is repeated whenever 50 milliseconds have passed
/// since the last packet, however long ago the last change was.
pub proof fn held_keys_are_repeated(
    before: KeyboardInputHeartbeat,
    state: KeyboardStateInput,
    byte: int,
    pressed_at: Instant,
    sent_at: Instant,
    now: Instant,
)
    requires
        0 <= byte < 16,
        state.pressed@[byte] != 0,
        sent_at.nanos + 50_000_000 <= now.nanos,
    ensures
        ({
            let packet = InputPacket::KeyboardState(state);
            before.observed(packet, pressed_at).marked(packet, sent_at).due(now) == Some(packet)
        }),
{
    assert(state.pressed@.len() == 16);
    assert(!keys::none_held(state.pressed@));
}

/// A held key goes on being repeated: a poll that sends leaves it to be sent again 50
/// milliseconds later, and not before.
pub proof fn keyboard_polls_go_on(heartbeat: KeyboardInputHeartbeat, first: Instant, now: Instant)
    requires
        heartbeat.due(first) is Some,
        heartbeat.any_pressed,
        first.nanos <= now.nanos,
    ensures
        now.nanos >= first.nanos + 50_000_000 ==> heartbeat.polled(first).due(now)
            == heartbeat.due(first),
        now.nanos < first.nanos + 50_000_000 ==> heartbeat.polled(first).due(now) is None,
{
}

/// Nothing is repeated of a keyboard whose keys are all up once 200 milliseconds have
/// passed since the last change, nor sooner than 50 milliseconds after the last packet,
/// nor before anything was observed.
pub proof fn keyboards_at_rest_are_silent(heartbeat: KeyboardInputHeartbeat, now: Instant)
    ensures
        heartbeat.state is None ==> heartbeat.due(now) is None,
        !heartbeat.any_pressed && heartbeat.resend_until is None ==> heartbeat.due(now) is None,
        !heartbeat.any_pressed && (heartbeat.resend_until matches Some(until) && until.nanos
            <= now.nanos) ==> heartbeat.due(now) is None,
        heartbeat.last_sent_at matches Some(last) ==> (last.nanos <= now.nanos < last.nanos
            + 50_000_000 ==> heartbeat.due(now) is None),
        heartbeat.due(now) matches Some(packet) ==> (heartbeat.state matches Some(state) && packet
            == InputPacket::KeyboardState(state)),
{
}

/// A state that was observed and never sent is due at once, if a key is held or it has
/// just changed.
pub proof fn unsent_keys_are_due_at_once(
    heartbeat: KeyboardInputHeartbeat,
    state: KeyboardStateInput,
    now: Instant,
)
    requires
        heartbeat.state == Some(state),
        heartbeat.last_sent_at is None,
        heartbeat.any_pressed || (heartbeat.resend_until matches Some(until) && now.nanos
            < until.nanos),
    ensures
        heartbeat.due(now) == Some(InputPacket::KeyboardState(state)),
{
}

/// What the keyboard heartbeat keeps of a packet: the state, whether any of its bytes is
/// not zero, and 200 milliseconds of repetition if it differs from the one before. Other
/// packets are not its concern.
pub proof fn keyboard_changes_are_noted(
    before: KeyboardInputHeartbeat,
    state: KeyboardStateInput,
    now: Instant,
)
    requires
        now.nanos + 200_000_000 <= u64::MAX,
    ensures
        ({
            let after = before.observed(InputPacket::KeyboardState(state), now);
            let same = before.state matches Some(last) && last.client_id == state.client_id
                && last.pressed@ == state.pressed@;
            &&& after.state == Some(state)
            &&& after.any_pressed <==> exists|i: int|
                0 <= i < 16 && (#[trigger] state.pressed@[i]) != 0
            &&& same ==> after.resend_until == before.resend_until
            &&& !same ==> (after.resend_until matches Some(until) && until.nanos == now.nanos
                + 200_000_000)
            &&& after.last_sent_at == before.last_sent_at
        }),
{
    assert(state.pressed@.len() == 16);
}

/// Packets of the mouse leave the keyboard heartbeat alone, and the other way round.
pub proof fn devices_are_kept_apart(
    keyboard: KeyboardInputHeartbeat,
    mouse: MouseInputHeartbeat,
    packet: InputPacket,
    now: Instant,
)
    ensures
        packet is KeyboardState ==> mouse.observed(packet, now) == mouse && mouse.marked(packet, now)
            == mouse && keyboard.marked(packet, now).last_sent_at == Some(now),
        !(packet is KeyboardState) ==> keyboard.observed(packet, now) == keyboard
            && keyboard.marked(packet, now) == keyboard && mouse.marked(packet, now).last_sent_at
            == Some(now),
        keyboard.marked(packet, now).state == keyboard.state,
        keyboard.marked(packet, now).any_pressed == keyboard.any_pressed,
        keyboard.marked(packet, now).resend_until == keyboard.resend_until,
        mouse.marked(packet, now).packet == mouse.packet,
        mouse.marked(packet, now).buttons == mouse.buttons,
        mouse.marked(packet, now).resend_until == mouse.resend_until,
{
}

/// As long as a button is held, the pointer's state is repeated whenever 50 milliseconds
/// have passed since the last packet, however long ago the last change was.
pub proof fn held_buttons_go_on_being_repeated(
    before: MouseInputHeartbeat,
    at: MouseAbsoluteInput,
    moved_at: Instant,
    sent_at: Instant,
    now: Instant,
)
    requires
        at.buttons != 0,
        sent_at.nanos + 50_000_000 <= now.nanos,
    ensures
        ({
            let packet = InputPacket::MouseAbsolute(at);
            before.observed(packet, moved_at).marked(packet, sent_at).due(now) == Some(packet)
        }),
{
}

/// A movement or a turn of the wheel is not repeated, but the buttons held during it are.
pub proof fn buttons_of_movements_are_repeated(
    before: MouseInputHeartbeat,
    moved: MouseRelativeInput,
    wheel: MouseWheelInput,
    buttons: MouseButtonsInput,
    now: Instant,
)
    ensures
        before.observed(InputPacket::MouseRelative(moved), now).packet == Some(
            InputPacket::MouseButtons(
                MouseButtonsInput { client_id: moved.client_id, buttons: moved.buttons },
            ),
        ),
        before.observed(InputPacket::MouseRelative(moved), now).buttons == moved.buttons,
        before.observed(InputPacket::MouseWheel(wheel), now).packet == Some(
            InputPacket::MouseButtons(
                MouseButtonsInput { client_id: wheel.client_id, buttons: wheel.buttons },
            ),
        ),
        before.observed(InputPacket::MouseWheel(wheel), now).buttons == wheel.buttons,
        before.observed(InputPacket::MouseButtons(buttons), now).packet == Some(
            InputPacket::MouseButtons(buttons),
        ),
        before.observed(InputPacket::MouseButtons(buttons), now).buttons == buttons.buttons,
{
}

/// A change of the buttons is repeated for 200 milliseconds; a packet with the same
/// buttons does not prolong that.
pub proof fn button_changes_are_noted(
    before: MouseInputHeartbeat,
    at: MouseAbsoluteInput,
    now: Instant,
)
    requires
        now.nanos + 200_000_000 <= u64::MAX,
    ensures
        ({
            let after = before.observed(InputPacket::MouseAbsolute(at), now);
            &&& after.packet == Some(InputPacket::MouseAbsolute(at))
            &&& after.buttons == at.buttons
            &&& at.buttons == before.buttons ==> after.resend_until == before.resend_until
            &&& at.buttons != before.buttons ==> (after.resend_until matches Some(until)
                && until.nanos == now.nanos + 200_000_000)
            &&& after.last_sent_at == before.last_sent_at
        }),
{
}

/// Nothing is repeated of a mouse whose buttons are all up once 200 milliseconds have
/// passed since the last change, nor sooner than 50 milliseconds after the last packet;
/// and while a button is held or has just changed, what was observed last is due after
/// that.
pub proof fn mice_at_rest_are_silent(heartbeat: MouseInputHeartbeat, now: Instant)
    ensures
        heartbeat.due(now) is Some ==> heartbeat.due(now) == heartbeat.packet,
        heartbeat.buttons == 0 && heartbeat.resend_until is None ==> heartbeat.due(now) is None,
        heartbeat.buttons == 0 && (heartbeat.resend_until matches Some(until) && until.nanos
            <= now.nanos) ==> heartbeat.due(now) is None,
        heartbeat.last_sent_at matches Some(last) ==> (last.nanos <= now.nanos < last.nanos
            + 50_000_000 ==> heartbeat.due(now) is None),
        (heartbeat.buttons != 0 || (heartbeat.resend_until matches Some(until) && now.nanos
            < until.nanos)) && (heartbeat.last_sent_at is None || (
        heartbeat.last_sent_at matches Some(last) && now.nanos >= last.nanos + 50_000_000))
            ==> heartbeat.due(now) == heartbeat.packet,
{
}

/// A poll that sends is noted as sent now, and ends a repetition whose time is over. It
/// changes nothing else.
pub proof fn polls_note_what_they_send(
    mouse: MouseInputHeartbeat,
    keyboard: KeyboardInputHeartbeat,
    now: Instant,
)
    ensures
        mouse.polled(now).packet == mouse.packet,
        mouse.polled(now).buttons == mouse.buttons,
        mouse.due(now) is Some ==> mouse.polled(now).last_sent_at == Some(now),
        mouse.due(now) is None ==> mouse.polled(now).last_sent_at == mouse.last_sent_at,
        mouse.resend_until matches Some(until) ==> (now.nanos < until.nanos ==> mouse.polled(
            now,
        ).resend_until == Some(until)),
        mouse.packet is Some ==> (mouse.resend_until matches Some(until) ==> (now.nanos
            >= until.nanos ==> mouse.polled(now).resend_until is None)),
        keyboard.polled(now).state == keyboard.state,
        keyboard.polled(now).any_pressed == keyboard.any_pressed,
        keyboard.due(now) is Some ==> keyboard.polled(now).last_sent_at == Some(now),
        keyboard.due(now) is None ==> keyboard.polled(now).last_sent_at == keyboard.last_sent_at,
        keyboard.resend_until matches Some(until) ==> (now.nanos < until.nanos ==> keyboard.polled(
            now,
        ).resend_until == Some(until)),
        keyboard.state is Some ==> (keyboard.resend_until matches Some(until) ==> (now.nanos
            >= until.nanos ==> keyboard.polled(now).resend_until is None)),
{
}

/// Packets are numbered one after the other, and start again at zero after the last
/// number.
pub proof fn numbers_follow_one_another(seq: u16)
    ensures
        seq < 65_535 ==> input::next_seq(seq) == seq + 1,
        seq == 65_535 ==> input::next_seq(seq) == 0,
{
}

/// Without the server's credential heartbeats go on only in a tunnel.
pub proof fn heartbeats_need_a_credential(sender: InputSender)
    ensures
        sender.beats(true),
        sender.link == InputLink::Direct ==> !sender.beats(false),
        sender.link == InputLink::Tunnel ==> sender.beats(false),
{
}

} // verus!
