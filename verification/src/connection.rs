//! The state of the connection, its errors, and reconnecting.
use crate::codecs::VideoCodecSupport;
use crate::protocol::VideoCodec;
use crate::text;
use crate::text::{concat, has_prefix};
use crate::time::{Duration, Instant};
use vstd::prelude::*;
use vstd::string::*;

verus! {

#[derive(Clone, Debug)]
pub enum ConnectionState {
    Disconnected,
    Connecting,
    Connected,
    Error(String),
}

/// What a connection state comes to, with an error's text as a sequence of
/// characters.
pub enum StateView {
    Disconnected,
    Connecting,
    Connected,
    Error(Seq<char>),
}

impl View for ConnectionState {
    type V = StateView;

    open spec fn view(&self) -> StateView {
        match self {
            ConnectionState::Disconnected => StateView::Disconnected,
            ConnectionState::Connecting => StateView::Connecting,
            ConnectionState::Connected => StateView::Connected,
            ConnectionState::Error(message) => StateView::Error(message@),
        }
    }
}

/// A session belongs to an epoch. Once another session begins, or the user
/// disconnects, the epoch is over.
pub fn session_is_current(connection_epoch: u64, session_epoch: u64) -> (r: bool)
    ensures
        r == (connection_epoch == session_epoch),
{
    connection_epoch == session_epoch
}

/// A session ends when the user disconnects or its epoch is over.
pub open spec fn cancelled(disconnect: bool, connection_epoch: u64, session_epoch: u64) -> bool {
    disconnect || connection_epoch != session_epoch
}

pub fn session_cancelled(disconnect: bool, connection_epoch: u64, session_epoch: u64) -> (r: bool)
    ensures
        r == cancelled(disconnect, connection_epoch, session_epoch),
{
    disconnect || !session_is_current(connection_epoch, session_epoch)
}

/// Records an error, unless the session that reports it has been cancelled.
/// Returns whether the window is to be repainted.
pub fn set_error(
    state: &mut ConnectionState,
    disconnect: bool,
    connection_epoch: u64,
    session_epoch: u64,
    message: String,
) -> (repaint: bool)
    ensures
        repaint == !cancelled(disconnect, connection_epoch, session_epoch),
        repaint ==> final(state)@ == StateView::Error(message@),
        !repaint ==> *final(state) == *old(state),
{
    if session_cancelled(disconnect, connection_epoch, session_epoch) {
        return false;
    }
    *state = ConnectionState::Error(message);
    true
}

/// An error that a reconnect would only repeat: the server refused the client,
/// or the client cannot draw.
pub open spec fn terminal(message: Seq<char>) -> bool {
    text::starts_with(message, "Authentication failed"@) || text::starts_with(
        message,
        "Server error:"@,
    ) || text::starts_with(message, "GL upload failed"@)
}

pub fn connection_error_is_terminal(msg: &str) -> (r: bool)
    ensures
        r == terminal(msg@),
{
    has_prefix(msg, "Authentication failed") || has_prefix(msg, "Server error:") || has_prefix(
        msg,
        "GL upload failed",
    )
}

/// The waiting time before a reconnect, in milliseconds: half a second, then
/// twice as long each time, up to eight seconds.
pub open spec fn backoff_millis(attempts: u32) -> nat {
    if attempts == 0 {
        500
    } else if attempts == 1 {
        1_000
    } else if attempts == 2 {
        2_000
    } else if attempts == 3 {
        4_000
    } else {
        8_000
    }
}

pub fn reconnect_backoff(attempts: u32) -> (wait: Duration)
    ensures
        wait.nanos == backoff_millis(attempts) * 1_000_000,
{
    let secs: u64 = match attempts {
        0 => {
            return Duration::from_millis(500);
        },
        1 => 1,
        2 => 2,
        3 => 4,
        _ => 8,
    };
    Duration::from_secs(secs)
}

/// The waiting time doubles from one attempt to the next until it has reached
/// eight seconds, and stays there.
pub proof fn backoff_doubles_up_to_a_cap(attempts: u32)
    requires
        attempts < u32::MAX,
    ensures
        backoff_millis((attempts + 1) as u32) == if 2 * backoff_millis(attempts) <= 8_000 {
            2 * backoff_millis(attempts)
        } else {
            8_000
        },
        500 <= backoff_millis(attempts) <= 8_000,
{
}

pub open spec fn server_error(message: Seq<char>) -> Seq<char> {
    "Server error: "@ + message
}

pub fn server_error_text(message: &str) -> (s: String)
    ensures
        s@ == server_error(message@),
{
    concat("Server error: ", message)
}

/// What the server says of a request it refuses ends the session for good, and
/// so does a refused token.
pub proof fn refusals_are_terminal(message: Seq<char>)
    ensures
        terminal(server_error(message)),
        terminal("Authentication failed. Check your token."@),
{
    reveal_strlit("Server error:");
    reveal_strlit("Server error: ");
    reveal_strlit("Authentication failed");
    reveal_strlit("Authentication failed. Check your token.");
    let refused = "Authentication failed. Check your token."@;
    assert(refused.take("Authentication failed"@.len() as int) =~= "Authentication failed"@);
    let all = server_error(message);
    assert(all.take("Server error:"@.len() as int) =~= "Server error:"@);
}

/// A lost connection, a silent server and one that shuts down are worth another
/// try.
pub proof fn losses_are_not_terminal()
    ensures
        !terminal("Connection lost"@),
        !terminal("Server shut down"@),
        !terminal("Server closed connection"@),
        !terminal("Authentication timed out."@),
        !terminal("Server unreachable: no traffic for 5s"@),
{
    reveal_strlit("Authentication failed");
    reveal_strlit("Server error:");
    reveal_strlit("GL upload failed");
    reveal_strlit("Connection lost");
    reveal_strlit("Server shut down");
    reveal_strlit("Server closed connection");
    reveal_strlit("Authentication timed out.");
    reveal_strlit("Server unreachable: no traffic for 5s");
    let prefixes = ("Authentication failed"@, "Server error:"@, "GL upload failed"@);
    let lost = "Connection lost"@;
    let shut = "Server shut down"@;
    let closed = "Server closed connection"@;
    let timed = "Authentication timed out."@;
    let unreachable = "Server unreachable: no traffic for 5s"@;
    assert(prefixes.0[0] == 'A' && prefixes.0[15] == 'f');
    assert(prefixes.1[0] == 'S' && prefixes.1[7] == 'e');
    assert(prefixes.2[0] == 'G');
    assert(lost[0] == 'C' && timed[0] == 'A' && timed[15] == 't');
    assert(shut[0] == 'S' && shut[7] == 's');
    assert(closed[0] == 'S' && closed[7] == 'c');
    assert(unreachable[0] == 'S' && unreachable[7] == 'u');
    assert(forall|s: Seq<char>, p: Seq<char>, i: int|
        #![trigger text::starts_with(s, p), p[i]]
        text::starts_with(s, p) && 0 <= i < p.len() ==> s[i] == p[i]) by {
        assert forall|s: Seq<char>, p: Seq<char>, i: int|
            #![trigger text::starts_with(s, p), p[i]]
            text::starts_with(s, p) && 0 <= i < p.len() implies s[i] == p[i] by {
            assert(s.take(p.len() as int)[i] == p[i]);
        }
    }
}

/// What the window does about the connection.
#[derive(Clone, Copy, Debug, PartialEq, Eq, Structural)]
pub enum ReconnectStep {
    /// Leave it as it is.
    Nothing,
    /// The session is up. See whether there is a better path for it.
    Online,
    /// Connect to the same address, now: a codec has been excluded.
    ConnectAgain,
    /// Find the peer's best address and connect, now.
    Retry,
    /// Look again after this time.
    LookAgain(Duration),
    /// Look again at once.
    LookAgainNow,
}

/// How many attempts to reconnect have failed in a row, and when the next one is
/// due.
#[derive(Clone, Copy, Debug, PartialEq, Eq, Structural)]
pub struct AutoReconnect {
    pub attempts: u32,
    pub next_at: Option<Instant>,
}

impl AutoReconnect {
    pub fn new() -> (r: AutoReconnect)
        ensures
            r == (AutoReconnect { attempts: 0, next_at: None }),
    {
        AutoReconnect { attempts: 0, next_at: None }
    }

    /// What to do in a given state, and the schedule afterwards.
    pub open spec fn decides(
        self,
        state: StateView,
        codec_excluded: bool,
        has_address: bool,
        lan_upgrade_pending: bool,
        now: Instant,
    ) -> (ReconnectStep, AutoReconnect) {
        match state {
            StateView::Disconnected => if codec_excluded && has_address {
                (ReconnectStep::ConnectAgain, self)
            } else {
                (ReconnectStep::Nothing, self)
            },
            StateView::Connecting => (ReconnectStep::Nothing, self),
            StateView::Connected => (
                ReconnectStep::Online,
                AutoReconnect { attempts: 0, next_at: None },
            ),
            StateView::Error(message) => if terminal(message) || !has_address {
                (ReconnectStep::Nothing, self)
            } else {
                match self.next_at {
                    None => {
                        let wait = Duration {
                            nanos: (backoff_millis(self.attempts) * 1_000_000) as u64,
                        };
                        (
                            ReconnectStep::LookAgain(wait),
                            AutoReconnect { next_at: Some(now.later(wait)), ..self },
                        )
                    },
                    Some(at) => if now.nanos >= at.nanos {
                        (
                            ReconnectStep::Retry,
                            AutoReconnect {
                                attempts: if self.attempts < u32::MAX {
                                    (self.attempts + 1) as u32
                                } else {
                                    self.attempts
                                },
                                ..self
                            },
                        )
                    } else if lan_upgrade_pending {
                        (
                            ReconnectStep::LookAgainNow,
                            AutoReconnect { next_at: Some(now), ..self },
                        )
                    } else {
                        (ReconnectStep::LookAgain(at.since(now)), self)
                    },
                }
            },
        }
    }

    pub fn step(
        &mut self,
        state: &ConnectionState,
        codec_excluded: bool,
        has_address: bool,
        lan_upgrade_pending: bool,
        now: Instant,
    ) -> (step: ReconnectStep)
        ensures
            (step, *final(self)) == old(self).decides(
                state@,
                codec_excluded,
                has_address,
                lan_upgrade_pending,
                now,
            ),
    {
        match state {
            ConnectionState::Disconnected => if codec_excluded && has_address {
                ReconnectStep::ConnectAgain
            } else {
                ReconnectStep::Nothing
            },
            ConnectionState::Connecting => ReconnectStep::Nothing,
            ConnectionState::Connected => {
                self.attempts = 0;
                self.next_at = None;
                ReconnectStep::Online
            },
            ConnectionState::Error(message) => {
                if connection_error_is_terminal(message.as_str()) || !has_address {
                    return ReconnectStep::Nothing;
                }
                match self.next_at {
                    None => {
                        let wait = reconnect_backoff(self.attempts);
                        self.next_at = Some(now.saturating_add(wait));
                        ReconnectStep::LookAgain(wait)
                    },
                    Some(at) => if now.nanos >= at.nanos {
                        self.attempts = self.attempts.saturating_add(1);
                        ReconnectStep::Retry
                    } else if lan_upgrade_pending {
                        self.next_at = Some(now);
                        ReconnectStep::LookAgainNow
                    } else {
                        ReconnectStep::LookAgain(at.saturating_duration_since(now))
                    },
                }
            },
        }
    }

    /// A connection attempt is under way: nothing is scheduled any more.
    pub fn attempt_started(&mut self)
        ensures
            *final(self) == (AutoReconnect { next_at: None, ..*old(self) }),
    {
        self.next_at = None;
    }

    /// The user disconnected: nothing is scheduled, and counting starts over.
    pub fn cancel(&mut self)
        ensures
            *final(self) == (AutoReconnect { attempts: 0, next_at: None }),
    {
        self.attempts = 0;
        self.next_at = None;
    }
}

/// A terminal error is never followed by an attempt to reconnect.
pub proof fn terminal_errors_are_not_retried(
    reconnect: AutoReconnect,
    message: Seq<char>,
    codec_excluded: bool,
    has_address: bool,
    lan_upgrade_pending: bool,
    now: Instant,
)
    requires
        terminal(message),
    ensures
        reconnect.decides(
            StateView::Error(message),
            codec_excluded,
            has_address,
            lan_upgrade_pending,
            now,
        ) == (ReconnectStep::Nothing, reconnect),
{
}

/// After a loss, a retry comes exactly when the backoff time is over.
pub proof fn losses_are_retried_after_the_backoff(
    reconnect: AutoReconnect,
    message: Seq<char>,
    codec_excluded: bool,
    lost_at: Instant,
    now: Instant,
)
    requires
        !terminal(message),
        reconnect.next_at is None,
        lost_at.nanos <= now.nanos,
        lost_at.nanos + 8_000_000_000 <= u64::MAX,
    ensures
        ({
            let state = StateView::Error(message);
            let scheduled = reconnect.decides(state, codec_excluded, true, false, lost_at).1;
            let due = lost_at.nanos + backoff_millis(reconnect.attempts) * 1_000_000;
            let step = scheduled.decides(state, codec_excluded, true, false, now).0;
            if now.nanos >= due {
                step == ReconnectStep::Retry
            } else {
                step matches ReconnectStep::LookAgain(wait) && now.nanos + wait.nanos == due
            }
        }),
{
}

/// A session that is up ends the count of failed attempts.
pub proof fn success_resets_the_backoff(
    reconnect: AutoReconnect,
    codec_excluded: bool,
    has_address: bool,
    lan_upgrade_pending: bool,
    now: Instant,
)
    ensures
        reconnect.decides(
            StateView::Connected,
            codec_excluded,
            has_address,
            lan_upgrade_pending,
            now,
        ).1 == (AutoReconnect { attempts: 0, next_at: None }),
{
}

/// A direct session has everything it needs: it is up, unless it has been cancelled
/// meanwhile. Returns whether it is.
pub fn begin_direct_session(
    state: &mut ConnectionState,
    disconnect: bool,
    connection_epoch: u64,
    session_epoch: u64,
) -> (up: bool)
    ensures
        up == !cancelled(disconnect, connection_epoch, session_epoch),
        final(state)@ == if up {
            StateView::Connected
        } else {
            old(state)@
        },
{
    if session_cancelled(disconnect, connection_epoch, session_epoch) {
        return false;
    }
    *state = ConnectionState::Connected;
    true
}

/// A codec has failed: it is left out from now on, and the session ends.
pub fn exclude_codec(
    state: &mut ConnectionState,
    excluded: &mut VideoCodecSupport,
    codec: VideoCodec,
)
    ensures
        final(state)@ is Disconnected,
        forall|other: VideoCodec|
            final(excluded).has(other) == (old(excluded).has(other) || other == codec),
{
    excluded.insert(codec);
    *state = ConnectionState::Disconnected;
}

/// A session that ended over a failed codec is followed by another at once.
pub proof fn failed_codecs_are_followed_by_a_connection(
    reconnect: AutoReconnect,
    excluded: VideoCodecSupport,
    failed: VideoCodec,
    lan_upgrade_pending: bool,
    now: Instant,
)
    requires
        excluded.has(failed),
    ensures
        reconnect.decides(
            StateView::Disconnected,
            !excluded.none(),
            true,
            lan_upgrade_pending,
            now,
        ).0 == ReconnectStep::ConnectAgain,
{
}

/// What has become of a session's state when the session ends: an error or a
/// disconnect that was recorded stays; anything else was a loss.
pub open spec fn after_loss(state: StateView) -> StateView {
    match state {
        StateView::Error(_) => state,
        StateView::Disconnected => state,
        _ => StateView::Error("Connection lost"@),
    }
}

fn is_settled(state: &ConnectionState) -> (r: bool)
    ensures
        r == (state@ is Error || state@ is Disconnected),
{
    match state {
        ConnectionState::Error(_) | ConnectionState::Disconnected => true,
        ConnectionState::Connecting | ConnectionState::Connected => false,
    }
}

/// Ends a direct session. If the session is still the current one, what it left
/// on the screen is cleared (the result says so), and a session that was up
/// counts as lost.
pub fn finish_direct_session(
    state: &mut ConnectionState,
    connection_epoch: u64,
    session_epoch: u64,
) -> (clear: bool)
    ensures
        clear == (connection_epoch == session_epoch),
        clear ==> final(state)@ == after_loss(old(state)@),
        !clear ==> *final(state) == *old(state),
{
    if !session_is_current(connection_epoch, session_epoch) {
        return false;
    }
    if !is_settled(state) {
        *state = ConnectionState::Error("Connection lost".to_owned());
    }
    true
}

/// Ends a session over a tunnel. A session that was up counts as lost if nobody
/// cancelled it, and as disconnected otherwise.
pub fn finish_tunnel_session(
    state: &mut ConnectionState,
    disconnect: bool,
    connection_epoch: u64,
    session_epoch: u64,
)
    ensures
        final(state)@ == if !cancelled(disconnect, connection_epoch, session_epoch) {
            after_loss(old(state)@)
        } else {
            match old(state)@ {
                StateView::Error(_) => old(state)@,
                _ => StateView::Disconnected,
            }
        },
{
    if !is_settled(state) {
        if session_is_current(connection_epoch, session_epoch) && !disconnect {
            *state = ConnectionState::Error("Connection lost".to_owned());
        } else {
            *state = ConnectionState::Disconnected;
        }
    }
}

/// A session that was lost, and not cancelled, is retried.
pub proof fn lost_sessions_are_retried(state: StateView)
    requires
        state is Connected || state is Connecting,
    ensures
        after_loss(state) matches StateView::Error(message) && !terminal(message),
{
    losses_are_not_terminal();
}

/// The user ends the session.
pub fn disconnect_by_user(state: &mut ConnectionState)
    ensures
        final(state)@ == match old(state)@ {
            StateView::Connecting => StateView::Disconnected,
            StateView::Connected => StateView::Disconnected,
            other => other,
        },
{
    if !is_settled(state) {
        *state = ConnectionState::Disconnected;
    }
}

} // verus!
