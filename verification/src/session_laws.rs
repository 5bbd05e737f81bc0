//! What holds of a session: what is taken over from the server, what ends it, and how
//! long it waits.
use crate::connection;
use crate::session;
use crate::session::{
    AuthStep, Awaited, DirectSession, DirectStartup, ForcedTcpServers, LiveSession, Phase,
    ServerMessage, TunnelSession,
};
use crate::time::Instant;
use vstd::prelude::*;

verus! {

/// What the client needs to control the server is taken over in every phase but the one
/// in which a tunnel only waits for the stream to start.
pub proof fn control_messages_are_taken_over(message: ServerMessage, phase: Phase, debug: bool)
    requires
        message is InputSession || message is InputCapabilities || message is ControllerState
            || message is SessionDebugInfo || message is AvailableOutputs
            || message is SelectOutput,
    ensures
        session::delivery_of(message, phase, debug).deliver <==> phase != Phase::TunnelStarting,
{
}

/// A running session takes over the stream's new configuration, the clipboard and files;
/// one that is starting up does not.
pub proof fn running_sessions_share_content(message: ServerMessage, phase: Phase, debug: bool)
    requires
        message is StreamConfig || message is ClipboardText || message is FileTransfer,
    ensures
        session::delivery_of(message, phase, debug).deliver <==> phase == Phase::DirectRunning
            || phase == Phase::TunnelRunning,
        !session::delivery_of(message, phase, debug).repaint,
{
}

/// The server's cursor is followed in a direct session and in a running one, and the
/// window is painted for it.
pub proof fn cursors_are_followed(message: ServerMessage, phase: Phase, debug: bool)
    requires
        message is CursorShape || message is CursorState,
    ensures
        session::delivery_of(message, phase, debug).deliver <==> phase == Phase::DirectStartup
            || phase == Phase::DirectRunning || phase == Phase::TunnelRunning,
        session::delivery_of(message, phase, debug).repaint == session::delivery_of(
            message,
            phase,
            debug,
        ).deliver,
{
}

/// Clocks are compared only for the user who looks at the measurements.
pub proof fn clocks_are_compared_for_the_overlay(phase: Phase, debug: bool)
    ensures
        session::delivery_of(ServerMessage::ClockSyncPong, phase, debug).deliver <==> debug && (phase
            == Phase::DirectStartup || phase == Phase::DirectRunning || phase
            == Phase::TunnelRunning),
{
}

/// Nothing is taken over from messages that only move the session along.
pub proof fn other_messages_carry_nothing(message: ServerMessage, phase: Phase, debug: bool)
    requires
        message is AuthResult || message is Error || message is Shutdown || message is StreamStarted
            || message is Other,
    ensures
        !session::delivery_of(message, phase, debug).deliver,
{
}

/// The window is painted only for what has been taken over: the outputs and the cursor
/// outside a tunnel's start-up, and who has control in a running tunnel.
pub proof fn paints_follow_deliveries(message: ServerMessage, phase: Phase, debug: bool)
    ensures
        session::delivery_of(message, phase, debug).repaint ==> session::delivery_of(
            message,
            phase,
            debug,
        ).deliver,
        message is AvailableOutputs || message is SelectOutput ==> (session::delivery_of(
            message,
            phase,
            debug,
        ).repaint <==> phase == Phase::DirectStartup || phase == Phase::DirectRunning || phase
            == Phase::TunnelRunning),
        message is ControllerState ==> (session::delivery_of(message, phase, debug).repaint
            <==> phase == Phase::TunnelRunning),
        message is InputSession || message is InputCapabilities || message is SessionDebugInfo
            || message is ClockSyncPong ==> !session::delivery_of(message, phase, debug).repaint,
{
}

/// How long the client waits: five seconds to be let in and for a tunnel's stream to
/// start, ten for a hole and for a tunnel's configuration, and otherwise no longer than a
/// fifth of a second before it looks again.
pub proof fn waits_are_limited(awaited: Awaited)
    ensures
        awaited == Awaited::Authentication || awaited == Awaited::Start ==> session::patience(
            awaited,
        ) == 5_000,
        awaited == Awaited::Punch || awaited == Awaited::Configuration ==> session::patience(awaited)
            == 10_000,
        awaited == Awaited::DirectMessage ==> session::patience(awaited) == 200,
        awaited == Awaited::TunnelMessage ==> session::patience(awaited) == 100,
        awaited == Awaited::TunnelWork ==> session::patience(awaited) == 1,
{
}

/// Authentication is settled by the first answer to it, or the first error: by no message
/// before that, and by that one whatever follows.
pub proof fn the_first_answer_settles_authentication(messages: Seq<ServerMessage>, k: int)
    requires
        0 <= k < messages.len(),
        messages[k] is AuthResult || messages[k] is Error,
        forall|i: int|
            0 <= i < k ==> !((#[trigger] messages[i]) is AuthResult) && !(messages[i] is Error),
    ensures
        session::first_settling(messages) == Some(messages[k]),
    decreases messages.len(),
{
    if k > 0 {
        let rest = messages.skip(1);
        assert(rest[k - 1] == messages[k]);
        assert forall|i: int| 0 <= i < k - 1 implies !((#[trigger] rest[i]) is AuthResult) && !(
        rest[i] is Error) by {
            assert(rest[i] == messages[i + 1]);
        }
        the_first_answer_settles_authentication(rest, k - 1);
        assert(!(messages[0] is AuthResult) && !(messages[0] is Error));
    }
}

/// Without an answer and without an error, nothing is settled.
pub proof fn silence_settles_nothing(messages: Seq<ServerMessage>)
    requires
        forall|i: int|
            0 <= i < messages.len() ==> !((#[trigger] messages[i]) is AuthResult) && !(messages[i]
                is Error),
    ensures
        session::first_settling(messages) is None,
        session::first_refusal(messages) is None,
    decreases messages.len(),
{
    if messages.len() > 0 {
        let rest = messages.skip(1);
        assert forall|i: int| 0 <= i < rest.len() implies !((#[trigger] rest[i]) is AuthResult)
            && !(rest[i] is Error) by {
            assert(rest[i] == messages[i + 1]);
        }
        silence_settles_nothing(rest);
        assert(!(messages[0] is AuthResult) && !(messages[0] is Error));
    }
}

/// The server refuses the client by saying so, or by an error, and in no other way; the
/// user is told which.
pub proof fn refusals_say_why(message: ServerMessage)
    ensures
        message matches ServerMessage::AuthResult(accepted) ==> (accepted ==> session::refusal_of(
            message,
        ) is None),
        message matches ServerMessage::AuthResult(accepted) ==> (!accepted ==> session::refusal_of(
            message,
        ) == Some("Authentication failed. Check your token."@)),
        message matches ServerMessage::Error(error) ==> session::refusal_of(message) == Some(
            "Server error: "@ + error@,
        ),
        !(message is AuthResult) && !(message is Error) ==> session::refusal_of(message) is None,
        session::accepts_auth(message) <==> (message matches ServerMessage::AuthResult(accepted)
            && accepted),
{
}

/// Through a tunnel the first refusal counts, wherever it stands.
pub proof fn the_first_refusal_counts(messages: Seq<ServerMessage>, k: int)
    requires
        0 <= k < messages.len(),
        messages[k] matches ServerMessage::AuthResult(accepted) ==> !accepted,
        messages[k] is AuthResult || messages[k] is Error,
        forall|i: int|
            0 <= i < k ==> !((#[trigger] messages[i]) is Error) && (
            messages[i] matches ServerMessage::AuthResult(accepted) ==> accepted),
    ensures
        session::first_refusal(messages) == session::refusal_of(messages[k]),
        session::first_refusal(messages) is Some,
    decreases messages.len(),
{
    if k > 0 {
        let rest = messages.skip(1);
        assert(rest[k - 1] == messages[k]);
        assert forall|i: int| 0 <= i < k - 1 implies !((#[trigger] rest[i]) is Error) && (
        rest[i] matches ServerMessage::AuthResult(accepted) ==> accepted) by {
            assert(rest[i] == messages[i + 1]);
        }
        the_first_refusal_counts(rest, k - 1);
        assert(!(messages[0] is Error) && (messages[0] matches ServerMessage::AuthResult(accepted)
            ==> accepted));
    }
}

/// A running session ends with the server's error or its shutting down, and with no other
/// message.
pub proof fn sessions_end_with_errors(message: ServerMessage)
    ensures
        message matches ServerMessage::Error(text) ==> session::closing_error(message) == Some(
            "Server error: "@ + text@,
        ),
        message is Shutdown ==> session::closing_error(message) == Some("Server shut down"@),
        !(message is Error) && !(message is Shutdown) ==> session::closing_error(message) is None,
{
}

/// What ends a session is the last such message of those read together; those that come
/// before the first are handled.
pub proof fn the_last_error_is_shown(messages: Seq<ServerMessage>, k: int)
    requires
        0 <= k < messages.len(),
        messages[k] is Error || messages[k] is Shutdown,
        forall|i: int|
            k < i < messages.len() ==> !((#[trigger] messages[i]) is Error) && !(messages[i]
                is Shutdown),
    ensures
        session::last_closing_error(messages) == session::closing_error(messages[k]),
        session::last_closing_error(messages) is Some,
    decreases messages.len(),
{
    if k < messages.len() - 1 {
        let head = messages.drop_last();
        assert(head[k] == messages[k]);
        assert forall|i: int| k < i < head.len() implies !((#[trigger] head[i]) is Error) && !(
        head[i] is Shutdown) by {
            assert(head[i] == messages[i]);
        }
        the_last_error_is_shown(head, k);
        let n = messages.len() - 1;
        assert(!(messages[n] is Error) && !(messages[n] is Shutdown));
    }
}

/// Without an error and without a shutdown nothing ends a session.
pub proof fn no_error_no_end(messages: Seq<ServerMessage>)
    requires
        forall|i: int|
            0 <= i < messages.len() ==> !((#[trigger] messages[i]) is Error) && !(messages[i]
                is Shutdown),
    ensures
        session::last_closing_error(messages) is None,
    decreases messages.len(),
{
    if messages.len() > 0 {
        let head = messages.drop_last();
        let n = messages.len() - 1;
        assert(!(messages[n] is Error) && !(messages[n] is Shutdown));
        assert forall|i: int| 0 <= i < head.len() implies !((#[trigger] head[i]) is Error) && !(
        head[i] is Shutdown) by {
            assert(head[i] == messages[i]);
        }
        no_error_no_end(head);
    }
}

/// Messages are handled up to the first that ends the session.
pub proof fn messages_are_handled_up_to_the_end(messages: Seq<ServerMessage>)
    ensures
        ({
            let n = session::count_before_closing(messages);
            &&& n <= messages.len()
            &&& forall|i: int|
                0 <= i < n ==> !((#[trigger] messages[i]) is Error) && !(messages[i] is Shutdown)
            &&& n < messages.len() ==> messages[n as int] is Error || messages[n as int] is Shutdown
        }),
    decreases messages.len(),
{
    if messages.len() > 0 && session::closing_error(messages[0]) is None {
        let rest = messages.skip(1);
        messages_are_handled_up_to_the_end(rest);
        let n = session::count_before_closing(messages);
        assert forall|i: int| 0 <= i < n implies !((#[trigger] messages[i]) is Error) && !(
        messages[i] is Shutdown) by {
            if i > 0 {
                assert(rest[i - 1] == messages[i]);
            }
        }
        if n < messages.len() {
            assert(rest[n - 1] == messages[n as int]);
        }
    }
}

/// A stream that has not begun to decode is given up at its deadline; one that has is not.
pub proof fn decoding_must_begin(live: LiveSession, now: Instant)
    ensures
        live.decode_overdue(now) <==> !live.decode_started && live.decode_deadline.nanos
            <= now.nanos,
{
}

/// A stream that has begun is given up when no media has come for more than four seconds,
/// counted from the last; any that has come keeps it.
pub proof fn silent_streams_are_given_up(direct: DirectSession, count: u64, now: Instant)
    requires
        direct.last_media_at.nanos <= now.nanos,
    ensures
        direct.stalled(count, now) <==> direct.live.decode_started && count
            == direct.last_media_count && now.nanos - direct.last_media_at.nanos > 4_000_000_000,
{
}

/// A tunnel is given up when its other end has been silent for more than five seconds.
pub proof fn silent_tunnels_are_given_up(tunnel: TunnelSession, now: Instant)
    requires
        tunnel.last_peer_activity.nanos <= now.nanos,
    ensures
        tunnel.silent(now) <==> now.nanos - tunnel.last_peer_activity.nanos > 5_000_000_000,
{
}

/// A measured round trip is told in whole milliseconds, as many as fit.
pub proof fn round_trips_are_told_in_milliseconds(micros: i64)
    requires
        micros >= 0,
    ensures
        ({
            let told = session::rtt_millis(micros);
            &&& told < u32::MAX ==> told * 1_000 <= micros < (told + 1) * 1_000
            &&& told == u32::MAX ==> micros >= told * 1_000
        }),
{
}

/// A server is remembered as one that needs TCP if and only if its address is listed.
pub proof fn forced_servers_are_listed(servers: ForcedTcpServers, k: int)
    requires
        0 <= k < servers.addresses@.len(),
    ensures
        servers.has(servers.addresses@[k]@),
{
}

/// A server that is not listed is not forced.
pub proof fn other_servers_are_not_forced(servers: ForcedTcpServers, address: Seq<char>)
    requires
        forall|i: int| 0 <= i < servers.addresses@.len() ==> (#[trigger] servers.addresses@[i])@
            != address,
    ensures
        !servers.has(address),
{
}

/// The server's own words are shown after a fixed beginning.
pub proof fn server_errors_are_quoted(error: Seq<char>)
    ensures
        connection::server_error(error) == "Server error: "@ + error,
{
}

/// Neither media nor stream run before the stream's configuration is known.
pub proof fn streams_have_a_configuration(s: DirectStartup)
    requires
        s.consistent(),
    ensures
        s.media_started ==> s.stream_config is Some,
        s.stream_started ==> s.stream_config is Some,
{
}

/// Authentication that nobody has settled goes on until its time is up, and then fails for
/// the reason given.
pub proof fn unsettled_authentication_waits(step: AuthStep, expired: bool, reason: Seq<char>)
    requires
        session::unsettled(step, expired, reason),
    ensures
        step is Continue <==> !expired,
        step is Dead <==> expired,
        step matches AuthStep::Dead(told) ==> told@ == reason,
        !(step is Authenticated) && !(step is Refused),
{
}

} // verus!
