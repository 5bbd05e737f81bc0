//! The course of a session: dialling, authentication, start-up, and the loop
//! that runs while the stream is up, over a direct link or through a tunnel.
use crate::codecs;
use crate::codecs::{
    effective_video_codecs, stream_supports_client_audio, VideoCodecSupport,
    VideoCodecSupportReport,
};
use crate::connection;
use crate::connection::{connection_error_is_terminal, server_error_text, ConnectionState};
use crate::protocol::{StreamConfig, VideoCodec};
use crate::text::{concat, says_yes, str_eq};
use crate::time::{Duration, Instant};
use vstd::prelude::*;
use vstd::string::*;

verus! {

/// How long a stream may take to decode its first frame.
pub const STARTUP_DECODE_TIMEOUT_NANOS: u64 = 5_000_000_000;

/// How long a running stream may go without media.
pub const MEDIA_STALL_TIMEOUT_NANOS: u64 = 4_000_000_000;

/// How long a tunnel may be silent.
pub const TUNNEL_INACTIVITY_TIMEOUT_NANOS: u64 = 5_000_000_000;

/// How often the clocks are compared.
pub const CLOCK_PING_INTERVAL_NANOS: u64 = 2_000_000_000;

/// A message from the server, as far as the course of the session depends on it.
#[derive(Clone, Debug)]
pub enum ServerMessage {
    AuthResult(bool),
    Error(String),
    Shutdown,
    StreamConfig(StreamConfig),
    StreamStarted,
    ClockSyncPong,
    SessionDebugInfo,
    InputSession,
    ControllerState,
    InputCapabilities,
    CursorShape,
    CursorState,
    AvailableOutputs,
    SelectOutput,
    ClipboardText,
    FileTransfer,
    Other,
}

/// Where a session stands, for what becomes of a message.
#[derive(Clone, Copy, Debug, PartialEq, Eq, Structural)]
pub enum Phase {
    DirectStartup,
    DirectRunning,
    TunnelConfig,
    TunnelStarting,
    TunnelRunning,
}

/// What becomes of a message that does not steer the session: whether its
/// content is taken over, and whether the window is repainted for it.
#[derive(Clone, Copy, Debug, PartialEq, Eq, Structural)]
pub struct Delivery {
    pub deliver: bool,
    pub repaint: bool,
}

pub open spec fn delivery_of(message: ServerMessage, phase: Phase, debug_enabled: bool) -> Delivery {
    let running = phase == Phase::DirectRunning || phase == Phase::TunnelRunning;
    let direct = phase == Phase::DirectStartup || phase == Phase::DirectRunning;
    let listening = phase != Phase::TunnelStarting;
    match message {
        ServerMessage::StreamConfig(_) => Delivery { deliver: running, repaint: false },
        ServerMessage::SessionDebugInfo => Delivery { deliver: listening, repaint: false },
        ServerMessage::InputSession => Delivery { deliver: listening, repaint: false },
        ServerMessage::InputCapabilities => Delivery { deliver: listening, repaint: false },
        ServerMessage::ControllerState => Delivery {
            deliver: listening,
            repaint: phase == Phase::TunnelRunning,
        },
        ServerMessage::AvailableOutputs => Delivery {
            deliver: listening,
            repaint: direct || running,
        },
        ServerMessage::SelectOutput => Delivery { deliver: listening, repaint: direct || running },
        ServerMessage::CursorShape => Delivery {
            deliver: direct || running,
            repaint: direct || running,
        },
        ServerMessage::CursorState => Delivery {
            deliver: direct || running,
            repaint: direct || running,
        },
        ServerMessage::ClockSyncPong => Delivery {
            deliver: (direct || running) && debug_enabled,
            repaint: false,
        },
        ServerMessage::ClipboardText => Delivery { deliver: running, repaint: false },
        ServerMessage::FileTransfer => Delivery { deliver: running, repaint: false },
        _ => Delivery { deliver: false, repaint: false },
    }
}

pub fn delivery(message: &ServerMessage, phase: Phase, debug_enabled: bool) -> (d: Delivery)
    ensures
        d == delivery_of(*message, phase, debug_enabled),
{
    let running = phase == Phase::DirectRunning || phase == Phase::TunnelRunning;
    let active = running || phase == Phase::DirectStartup;
    let listening = phase != Phase::TunnelStarting;
    match message {
        ServerMessage::SessionDebugInfo
        | ServerMessage::InputSession
        | ServerMessage::InputCapabilities => Delivery { deliver: listening, repaint: false },
        ServerMessage::ControllerState => Delivery {
            deliver: listening,
            repaint: phase == Phase::TunnelRunning,
        },
        ServerMessage::AvailableOutputs | ServerMessage::SelectOutput => Delivery {
            deliver: listening,
            repaint: active,
        },
        ServerMessage::CursorShape | ServerMessage::CursorState => Delivery {
            deliver: active,
            repaint: active,
        },
        ServerMessage::ClockSyncPong => Delivery {
            deliver: active && debug_enabled,
            repaint: false,
        },
        ServerMessage::StreamConfig(_)
        | ServerMessage::ClipboardText
        | ServerMessage::FileTransfer => Delivery { deliver: running, repaint: false },
        _ => Delivery { deliver: false, repaint: false },
    }
}

/// What kept a read from returning data.
#[derive(Clone, Copy, Debug, PartialEq, Eq, Structural)]
pub enum ReadErrorKind {
    WouldBlock,
    TimedOut,
    Interrupted,
    Other,
}

/// Whether a read is simply tried again. An interrupted one is, too: signals for
/// other threads of the process interrupt reads.
pub fn is_timeout(kind: ReadErrorKind) -> (r: bool)
    ensures
        r == (kind != ReadErrorKind::Other),
{
    kind == ReadErrorKind::WouldBlock || kind == ReadErrorKind::TimedOut || kind
        == ReadErrorKind::Interrupted
}

/// Whether a setting asks for all media to go over TCP.
pub fn force_tcp_env(raw: Option<&str>) -> (r: bool)
    ensures
        r == match raw {
            Some(value) => crate::text::is_yes(value@),
            None => false,
        },
{
    match raw {
        Some(value) => says_yes(value),
        None => false,
    }
}

/// The servers whose media went over TCP last time because nothing arrived by
/// UDP.
#[derive(Clone, Debug)]
pub struct ForcedTcpServers {
    pub addresses: Vec<String>,
}

impl ForcedTcpServers {
    pub open spec fn has(self, address: Seq<char>) -> bool {
        exists|i: int| 0 <= i < self.addresses@.len() && (#[trigger] self.addresses@[i])@ == address
    }

    pub fn new() -> (servers: ForcedTcpServers)
        ensures
            forall|address: Seq<char>| !servers.has(address),
    {
        ForcedTcpServers { addresses: Vec::new() }
    }

    pub fn contains(&self, address: &str) -> (r: bool)
        ensures
            r == self.has(address@),
    {
        let mut i: usize = 0;
        while i < self.addresses.len()
            invariant
                i <= self.addresses.len(),
                forall|k: int| 0 <= k < i ==> (#[trigger] self.addresses@[k])@ != address@,
            decreases self.addresses.len() - i,
        {
            if str_eq(self.addresses[i].as_str(), address) {
                return true;
            }
            i = i + 1;
        }
        false
    }

    pub fn insert(&mut self, address: &str)
        ensures
            forall|other: Seq<char>|
                final(self).has(other) == (old(self).has(other) || other == address@),
    {
        if self.contains(address) {
            return;
        }
        let ghost before = self.addresses@;
        self.addresses.push(address.to_owned());
        proof {
            assert forall|other: Seq<char>|
                self.has(other) == (old(self).has(other) || other == address@) by {
                if old(self).has(other) {
                    let i = choose|i: int| 0 <= i < before.len() && (#[trigger] before[i])@ == other;
                    assert(self.addresses@[i]@ == other);
                }
                if other == address@ {
                    assert(self.addresses@[before.len() as int]@ == other);
                }
                if self.has(other) {
                    let i = choose|i: int|
                        0 <= i < self.addresses@.len() && (#[trigger] self.addresses@[i])@ == other;
                    if i < before.len() {
                        assert(before[i]@ == other);
                    }
                }
            }
        }
    }

    pub fn remove(&mut self, address: &str)
        ensures
            forall|other: Seq<char>|
                final(self).has(other) == (old(self).has(other) && other != address@),
    {
        let ghost before = self.addresses@;
        let mut kept: Vec<String> = Vec::new();
        let mut i: usize = 0;
        while i < self.addresses.len()
            invariant
                i <= self.addresses.len(),
                self.addresses@ == before,
                forall|k: int|
                    0 <= k < kept@.len() ==> (#[trigger] kept@[k])@ != address@ && exists|j: int|
                        0 <= j < i && (#[trigger] before[j])@ == kept@[k]@,
                forall|j: int|
                    0 <= j < i && (#[trigger] before[j])@ != address@ ==> exists|k: int|
                        0 <= k < kept@.len() && (#[trigger] kept@[k])@ == before[j]@,
            decreases self.addresses.len() - i,
        {
            if !str_eq(self.addresses[i].as_str(), address) {
                let ghost earlier = kept@;
                kept.push(self.addresses[i].clone());
                proof {
                    assert(kept@[earlier.len() as int]@ == before[i as int]@);
                    assert forall|j: int|
                        0 <= j < i + 1 && (#[trigger] before[j])@ != address@ implies exists|k: int|
                        0 <= k < kept@.len() && (#[trigger] kept@[k])@ == before[j]@ by {
                        if j < i {
                            let k = choose|k: int|
                                0 <= k < earlier.len() && (#[trigger] earlier[k])@ == before[j]@;
                            assert(kept@[k]@ == before[j]@);
                        }
                    }
                    assert forall|k: int| 0 <= k < kept@.len() implies (#[trigger] kept@[k])@
                        != address@ && exists|j: int|
                        0 <= j < i + 1 && (#[trigger] before[j])@ == kept@[k]@ by {
                        if k < earlier.len() {
                            assert(kept@[k] == earlier[k]);
                            let j = choose|j: int|
                                0 <= j < i && (#[trigger] before[j])@ == earlier[k]@;
                            assert(before[j]@ == kept@[k]@);
                        } else {
                            assert(before[i as int]@ == kept@[k]@);
                        }
                    }
                }
            }
            i = i + 1;
        }
        self.addresses = kept;
        proof {
            assert forall|other: Seq<char>|
                self.has(other) == (old(self).has(other) && other != address@) by {
                if self.has(other) {
                    let k = choose|k: int| 0 <= k < kept@.len() && (#[trigger] kept@[k])@ == other;
                    let j = choose|j: int|
                        0 <= j < before.len() && (#[trigger] before[j])@ == kept@[k]@;
                    assert(before[j]@ == other);
                }
                if old(self).has(other) && other != address@ {
                    let j = choose|j: int| 0 <= j < before.len() && (#[trigger] before[j])@ == other;
                    let k = choose|k: int|
                        0 <= k < kept@.len() && (#[trigger] kept@[k])@ == before[j]@;
                    assert(self.addresses@[k]@ == other);
                }
            }
        }
    }
}

/// How long to wait for the server's port to answer: not long if there are other
/// ways to reach it.
pub fn dial_timeout(fallback_available: bool) -> (d: Duration)
    ensures
        d.nanos == if fallback_available {
            3_000_000_000u64
        } else {
            5_000_000_000u64
        },
{
    if fallback_available {
        Duration::from_secs(3)
    } else {
        Duration::from_secs(5)
    }
}

/// What the client waits for after it has reached a server.
#[derive(Clone, Copy, Debug, PartialEq, Eq, Structural)]
pub enum Awaited {
    /// The answer to its authentication.
    Authentication,
    /// A hole in the firewalls between the two.
    Punch,
    /// The stream's configuration, over a tunnel.
    Configuration,
    /// The start of the stream, over a tunnel.
    Start,
    /// A message on the control link of its own.
    DirectMessage,
    /// A message through a tunnel that is being set up.
    TunnelMessage,
    /// Anything to do, in a session through a tunnel.
    TunnelWork,
}

/// How long to wait, in milliseconds.
pub open spec fn patience(awaited: Awaited) -> int {
    match awaited {
        Awaited::Authentication => 5_000,
        Awaited::Punch => 10_000,
        Awaited::Configuration => 10_000,
        Awaited::Start => 5_000,
        Awaited::DirectMessage => 200,
        Awaited::TunnelMessage => 100,
        Awaited::TunnelWork => 1,
    }
}

/// How long to wait before giving up, or before looking again.
pub fn wait_limit(awaited: Awaited) -> (d: Duration)
    ensures
        d.nanos == patience(awaited) * 1_000_000,
{
    match awaited {
        Awaited::Authentication => Duration::from_secs(5),
        Awaited::Punch => Duration::from_secs(10),
        Awaited::Configuration => Duration::from_secs(10),
        Awaited::Start => Duration::from_secs(5),
        Awaited::DirectMessage => Duration::from_millis(200),
        Awaited::TunnelMessage => Duration::from_millis(100),
        Awaited::TunnelWork => Duration::from_millis(1),
    }
}

/// What follows the attempt to reach the server's port.
#[derive(Clone, Debug)]
pub enum DialStep {
    /// Authenticate on this link, with media on a link of its own.
    Handshake,
    /// Run the whole session through this link.
    Tunnel,
    /// Try to reach the server in other ways.
    Fallback,
    /// Give up.
    Fail(String),
}

/// Decides what follows. `failure` is the error, if the server could not be
/// reached; `punchable` says that its address is one that hole punching can
/// reach.
pub fn after_dial(
    failure: Option<&str>,
    force_tcp: bool,
    punchable: bool,
    fallback_available: bool,
) -> (step: DialStep)
    ensures
        match failure {
            None => if force_tcp {
                step is Tunnel
            } else {
                step is Handshake
            },
            Some(error) => if punchable && fallback_available {
                step is Fallback
            } else {
                step matches DialStep::Fail(message) && message@ == "Connection failed: "@ + error@
            },
        },
{
    match failure {
        None => if force_tcp {
            DialStep::Tunnel
        } else {
            DialStep::Handshake
        },
        Some(error) => if punchable && fallback_available {
            DialStep::Fallback
        } else {
            DialStep::Fail(concat("Connection failed: ", error))
        },
    }
}

/// Whether a server's media is to be tried over UDP again after a session
/// through a TCP tunnel.
pub fn retries_udp(established: bool, tcp_forced_by_user: bool) -> (r: bool)
    ensures
        r == (!established && !tcp_forced_by_user),
{
    !established && !tcp_forced_by_user
}

/// The message when the server could not be reached in any way.
pub fn all_paths_failed(dial_error: &str, fallback_error: &str) -> (s: String)
    ensures
        s@ == "Connection failed: "@ + dial_error@ + ". "@ + fallback_error@ + "."@,
{
    let mut s = concat("Connection failed: ", dial_error);
    s.append(". ");
    s.append(fallback_error);
    s.append(".");
    s
}

/// The message when the link was dead and no other way led to the server.
pub fn dead_handshake_failed(reason: &str, fallback_error: &str) -> (s: String)
    ensures
        s@ == "Connection failed: "@ + reason@ + " "@ + fallback_error@ + "."@,
{
    let mut s = concat("Connection failed: ", reason);
    s.append(" ");
    s.append(fallback_error);
    s.append(".");
    s
}

/// What follows an attempt to punch through to the server.
#[derive(Clone, Debug)]
pub enum PunchStep {
    /// A session ran, or the server refused the client: no other path helps.
    Done,
    /// Try the relay. The text says why.
    TryRelay(String),
}

pub fn after_punch_setup_failed(error: &str) -> (step: PunchStep)
    ensures
        step matches PunchStep::TryRelay(reason) && reason@ == "Hole punch setup failed: "@
            + error@,
{
    PunchStep::TryRelay(concat("Hole punch setup failed: ", error))
}

pub fn after_punch(session_ran: bool, state: &ConnectionState) -> (step: PunchStep)
    ensures
        if session_ran {
            step is Done
        } else {
            match state@ {
                connection::StateView::Error(message) => if connection::terminal(message) {
                    step is Done
                } else {
                    step matches PunchStep::TryRelay(reason) && reason@ == "UDP hole punch failed"@
                },
                _ => step matches PunchStep::TryRelay(reason) && reason@ == "UDP hole punch failed"@,
            }
        },
{
    if session_ran {
        return PunchStep::Done;
    }
    if let ConnectionState::Error(message) = state {
        if connection_error_is_terminal(message.as_str()) {
            return PunchStep::Done;
        }
    }
    PunchStep::TryRelay("UDP hole punch failed".to_owned())
}

/// What is said of the whole chain of other paths once the relay has been tried.
pub fn after_relay(session_ran: bool, punch_failure: &str) -> (failure: Option<String>)
    ensures
        match failure {
            None => session_ran,
            Some(message) => !session_ran && message@ == punch_failure@
                + ". TCP relay fallback failed"@,
        },
{
    if session_ran {
        None
    } else {
        Some(concat(punch_failure, ". TCP relay fallback failed"))
    }
}

/// What a read from the control link brought.
#[derive(Clone, Debug)]
pub enum ReadEvent {
    Closed,
    Messages(Vec<ServerMessage>),
    Idle,
    Failed(String),
}

/// Where authentication stands.
#[derive(Clone, Debug)]
pub enum AuthStep {
    Continue,
    Authenticated,
    /// The server refused: the session ends with this error.
    Refused(String),
    /// Nobody answered as a server would: other paths may lead to it.
    Dead(String),
}

/// Whether a message settles authentication.
pub open spec fn settles_auth(message: ServerMessage) -> bool {
    message is AuthResult || message is Error
}

/// The first message that settles authentication.
pub open spec fn first_settling(messages: Seq<ServerMessage>) -> Option<ServerMessage>
    decreases messages.len(),
{
    if messages.len() == 0 {
        None
    } else if settles_auth(messages[0]) {
        Some(messages[0])
    } else {
        first_settling(messages.skip(1))
    }
}

pub open spec fn refusal_of(message: ServerMessage) -> Option<Seq<char>> {
    match message {
        ServerMessage::AuthResult(accepted) => if accepted {
            None
        } else {
            Some("Authentication failed. Check your token."@)
        },
        ServerMessage::Error(error) => Some(connection::server_error(error@)),
        _ => None,
    }
}

/// Authentication is not settled: it goes on, or the link is dead because the time is
/// up.
pub open spec fn unsettled(step: AuthStep, expired: bool, reason: Seq<char>) -> bool {
    if expired {
        step matches AuthStep::Dead(text) && text@ == reason
    } else {
        step is Continue
    }
}

fn go_on_unless(expired: bool, reason: &str) -> (step: AuthStep)
    ensures
        unsettled(step, expired, reason@),
{
    if expired {
        AuthStep::Dead(reason.to_owned())
    } else {
        AuthStep::Continue
    }
}

fn settle_auth(messages: &Vec<ServerMessage>, expired: bool) -> (step: AuthStep)
    ensures
        match first_settling(messages@) {
            None => unsettled(step, expired, "Authentication timed out."@),
            Some(message) => match refusal_of(message) {
                None => step is Authenticated,
                Some(text) => step matches AuthStep::Refused(reason) && reason@ == text,
            },
        },
{
    let mut i: usize = 0;
    proof {
        assert(messages@.skip(0) =~= messages@);
    }
    while i < messages.len()
        invariant
            i <= messages.len(),
            first_settling(messages@) == first_settling(messages@.skip(i as int)),
        decreases messages.len() - i,
    {
        proof {
            assert(messages@.skip(i as int)[0] == messages@[i as int]);
            assert(messages@.skip(i as int).skip(1) =~= messages@.skip(i as int + 1));
        }
        match &messages[i] {
            ServerMessage::AuthResult(accepted) => if *accepted {
                return AuthStep::Authenticated;
            } else {
                return AuthStep::Refused(
                    "Authentication failed. Check your token.".to_owned(),
                );
            },
            ServerMessage::Error(error) => {
                return AuthStep::Refused(server_error_text(error.as_str()));
            },
            _ => {},
        }
        i = i + 1;
    }
    go_on_unless(expired, "Authentication timed out.")
}

/// Takes in what was read during authentication on a direct link. The first
/// message that settles the matter counts. `expired` says that the time is up.
pub fn direct_auth_step(event: ReadEvent, expired: bool) -> (step: AuthStep)
    ensures
        match event {
            ReadEvent::Closed => step matches AuthStep::Dead(reason) && reason@
                == "Server closed the connection during authentication."@,
            ReadEvent::Idle => unsettled(step, expired, "Authentication timed out."@),
            ReadEvent::Failed(error) => step matches AuthStep::Dead(reason) && reason@
                == "Auth read error: "@ + error@,
            ReadEvent::Messages(messages) => match first_settling(messages@) {
                None => unsettled(step, expired, "Authentication timed out."@),
                Some(message) => match refusal_of(message) {
                    None => step is Authenticated,
                    Some(text) => step matches AuthStep::Refused(reason) && reason@ == text,
                },
            },
        },
{
    match event {
        ReadEvent::Closed => AuthStep::Dead(
            "Server closed the connection during authentication.".to_owned(),
        ),
        ReadEvent::Idle => go_on_unless(expired, "Authentication timed out."),
        ReadEvent::Failed(error) => AuthStep::Dead(concat("Auth read error: ", error.as_str())),
        ReadEvent::Messages(messages) => settle_auth(&messages, expired),
    }
}

/// What follows a dead handshake: other ways to the server where there are any,
/// and an error otherwise.
pub fn after_dead_handshake(
    reason: String,
    punchable: bool,
    fallback_available: bool,
) -> (step: DialStep)
    ensures
        if punchable && fallback_available {
            step is Fallback
        } else {
            step matches DialStep::Fail(message) && message@ == reason@
        },
{
    if punchable && fallback_available {
        DialStep::Fallback
    } else {
        DialStep::Fail(reason)
    }
}

/// How far the start of a direct session has come.
#[derive(Clone, Copy, Debug, PartialEq, Eq, Structural)]
pub struct DirectStartup {
    pub stream_config: Option<StreamConfig>,
    pub media_started: bool,
    pub stream_started: bool,
}

/// What a message during start-up asks for.
#[derive(Clone, Debug)]
pub enum StartupAction {
    /// Take over the content, or do not.
    Deliver(Delivery),
    /// Adopt the stream's configuration; start the media threads for it if they
    /// are not running.
    Adopt { config: StreamConfig, start_media: bool },
    /// End the session with this error.
    Fail(String),
}

impl DirectStartup {
    /// Nothing runs before the stream's configuration is known.
    pub open spec fn consistent(self) -> bool {
        self.media_started || self.stream_started ==> self.stream_config is Some
    }

    pub fn new() -> (s: DirectStartup)
        ensures
            s == (DirectStartup {
                stream_config: None,
                media_started: false,
                stream_started: false,
            }),
            s.consistent(),
    {
        DirectStartup { stream_config: None, media_started: false, stream_started: false }
    }

    pub fn on_message(&mut self, message: &ServerMessage, debug_enabled: bool) -> (action:
        StartupAction)
        requires
            old(self).consistent(),
        ensures
            final(self).consistent(),
            match *message {
                ServerMessage::StreamConfig(config) => {
                    &&& *final(self) == (DirectStartup {
                        stream_config: Some(config),
                        ..*old(self)
                    })
                    &&& action == (StartupAction::Adopt {
                        config,
                        start_media: !old(self).media_started,
                    })
                },
                ServerMessage::StreamStarted => if old(self).stream_config is None {
                    &&& *final(self) == *old(self)
                    &&& action matches StartupAction::Fail(error)
                    &&& error@ == "Server started stream without configuration"@
                } else {
                    &&& *final(self) == (DirectStartup { stream_started: true, ..*old(self) })
                    &&& action == StartupAction::Deliver(
                        Delivery { deliver: false, repaint: false },
                    )
                },
                ServerMessage::Error(text) => {
                    &&& *final(self) == *old(self)
                    &&& action matches StartupAction::Fail(error)
                    &&& error@ == connection::server_error(text@)
                },
                ServerMessage::Shutdown => {
                    &&& *final(self) == *old(self)
                    &&& action matches StartupAction::Fail(error)
                    &&& error@ == "Server shutting down"@
                },
                _ => {
                    &&& *final(self) == *old(self)
                    &&& action == StartupAction::Deliver(
                        delivery_of(*message, Phase::DirectStartup, debug_enabled),
                    )
                },
            },
    {
        match message {
            ServerMessage::StreamConfig(config) => {
                self.stream_config = Some(*config);
                StartupAction::Adopt { config: *config, start_media: !self.media_started }
            },
            ServerMessage::StreamStarted => {
                if self.stream_config.is_none() {
                    return StartupAction::Fail(
                        "Server started stream without configuration".to_owned(),
                    );
                }
                self.stream_started = true;
                StartupAction::Deliver(Delivery { deliver: false, repaint: false })
            },
            ServerMessage::Error(text) => StartupAction::Fail(server_error_text(text.as_str())),
            ServerMessage::Shutdown => StartupAction::Fail("Server shutting down".to_owned()),
            _ => StartupAction::Deliver(delivery(message, Phase::DirectStartup, debug_enabled)),
        }
    }

    /// The media threads run.
    pub fn media_is_running(&mut self)
        requires
            old(self).consistent(),
            old(self).stream_config is Some,
        ensures
            final(self).consistent(),
            *final(self) == (DirectStartup { media_started: true, ..*old(self) }),
    {
        self.media_started = true;
    }

    /// The configuration of a session that is up: the server has started the
    /// stream, and the media threads run.
    pub fn up(&self) -> (config: Option<StreamConfig>)
        requires
            self.consistent(),
        ensures
            config == if self.stream_started && self.media_started {
                self.stream_config
            } else {
                None
            },
            self.stream_started && self.media_started ==> config is Some,
    {
        if self.stream_started && self.media_started {
            self.stream_config
        } else {
            None
        }
    }
}

/// The error that a failed read ends the start-up with, if it does.
pub fn startup_read_error(event: &ReadEvent) -> (error: Option<String>)
    ensures
        match *event {
            ReadEvent::Closed => error matches Some(text) && text@ == "Server closed connection"@,
            ReadEvent::Failed(cause) => error matches Some(text) && text@ == "Read error: "@
                + cause@,
            _ => error is None,
        },
{
    match event {
        ReadEvent::Closed => Some("Server closed connection".to_owned()),
        ReadEvent::Failed(cause) => Some(concat("Read error: ", cause.as_str())),
        ReadEvent::Messages(_) | ReadEvent::Idle => None,
    }
}

/// The error when the server could not be told that the client is ready.
pub fn readiness_not_acknowledged(cause: &str) -> (s: String)
    ensures
        s@ == "Failed to acknowledge media readiness: "@ + cause@,
{
    concat("Failed to acknowledge media readiness: ", cause)
}

/// A round trip in milliseconds, as it goes into the transport feedback.
pub open spec fn rtt_millis(rtt_micros: i64) -> u32 {
    if rtt_micros >= 0 {
        crate::time::min_int(rtt_micros as int / 1_000, u32::MAX as int) as u32
    } else {
        ((-((-rtt_micros) / 1_000)) % 0x1_0000_0000) as u32
    }
}

fn to_rtt_millis(rtt_micros: i64) -> (r: u32)
    ensures
        r == rtt_millis(rtt_micros),
{
    if rtt_micros >= 0 {
        let millis: u64 = rtt_micros as u64 / 1_000;
        if millis > u32::MAX as u64 {
            u32::MAX
        } else {
            millis as u32
        }
    } else {
        let behind: u64 = (-(rtt_micros as i128)) as u64 / 1_000;
        let rest: u64 = behind % 0x1_0000_0000;
        if rest == 0 {
            0
        } else {
            (0x1_0000_0000 - rest) as u32
        }
    }
}

/// What every running session keeps track of.
#[derive(Clone, Copy, Debug, PartialEq, Eq, Structural)]
pub struct LiveSession {
    pub codec: VideoCodec,
    pub last_audio: bool,
    pub last_debug: bool,
    pub next_clock_ping: Instant,
    pub last_rtt_ms: u32,
    pub decode_started: bool,
    pub decode_deadline: Instant,
}

impl LiveSession {
    pub fn new(codec: VideoCodec, audio: bool, debug: bool, now: Instant) -> (s: LiveSession)
        ensures
            s == (LiveSession {
                codec,
                last_audio: audio,
                last_debug: debug,
                next_clock_ping: now,
                last_rtt_ms: 0,
                decode_started: false,
                decode_deadline: now.later(Duration { nanos: STARTUP_DECODE_TIMEOUT_NANOS }),
            }),
    {
        LiveSession {
            codec,
            last_audio: audio,
            last_debug: debug,
            next_clock_ping: now,
            last_rtt_ms: 0,
            decode_started: false,
            decode_deadline: now.saturating_add(Duration::from_nanos(STARTUP_DECODE_TIMEOUT_NANOS)),
        }
    }

    /// Notes the user's switches. Returns what to tell the server of audio, if
    /// that has changed. Switching the debug view on has the clocks compared at
    /// once.
    pub fn note_switches(&mut self, audio: bool, debug: bool, now: Instant) -> (set_audio: Option<
        bool,
    >)
        ensures
            set_audio == if audio != old(self).last_audio {
                Some(audio)
            } else {
                None
            },
            *final(self) == (LiveSession {
                last_audio: audio,
                last_debug: debug,
                next_clock_ping: if debug && !old(self).last_debug {
                    now
                } else {
                    old(self).next_clock_ping
                },
                ..*old(self)
            }),
    {
        let set_audio = if audio != self.last_audio {
            Some(audio)
        } else {
            None
        };
        self.last_audio = audio;
        if debug && !self.last_debug {
            self.next_clock_ping = now;
        }
        self.last_debug = debug;
        set_audio
    }

    pub fn note_decode_started(&mut self)
        ensures
            *final(self) == (LiveSession { decode_started: true, ..*old(self) }),
    {
        self.decode_started = true;
    }

    pub fn note_rtt(&mut self, rtt_micros: i64)
        ensures
            *final(self) == (LiveSession { last_rtt_ms: rtt_millis(rtt_micros), ..*old(self) }),
    {
        self.last_rtt_ms = to_rtt_millis(rtt_micros);
    }

    /// Whether the first frame is overdue.
    pub open spec fn decode_overdue(self, now: Instant) -> bool {
        !self.decode_started && now.nanos >= self.decode_deadline.nanos
    }

    pub fn is_decode_overdue(&self, now: Instant) -> (r: bool)
        ensures
            r == self.decode_overdue(now),
    {
        !self.decode_started && now.nanos >= self.decode_deadline.nanos
    }

    /// Whether to compare clocks now.
    pub fn take_clock_ping(&mut self, now: Instant) -> (send: bool)
        ensures
            send == (now.nanos >= old(self).next_clock_ping.nanos),
            *final(self) == if send {
                LiveSession {
                    next_clock_ping: now.later(Duration { nanos: CLOCK_PING_INTERVAL_NANOS }),
                    ..*old(self)
                }
            } else {
                *old(self)
            },
    {
        if now.nanos < self.next_clock_ping.nanos {
            return false;
        }
        self.next_clock_ping = now.saturating_add(Duration::from_nanos(CLOCK_PING_INTERVAL_NANOS));
        true
    }
}

/// A session whose media has a link of its own.
#[derive(Clone, Copy, Debug, PartialEq, Eq, Structural)]
pub struct DirectSession {
    pub live: LiveSession,
    pub last_media_count: u64,
    pub last_media_at: Instant,
}

/// Whether a running session goes on.
#[derive(Clone, Copy, Debug, PartialEq, Eq, Structural)]
pub enum SessionVerdict {
    GoOn,
    /// End it: it was cancelled, or it is lost.
    Stop,
    /// No datagram has arrived: reconnect with media over TCP.
    UdpBlocked,
    /// Media arrives, but nothing can be decoded: reconnect without the codec.
    CodecFailed(VideoCodec),
}

impl DirectSession {
    pub fn new(
        codec: VideoCodec,
        audio: bool,
        debug: bool,
        media_count: u64,
        now: Instant,
    ) -> (s: DirectSession)
        ensures
            s.last_media_count == media_count,
            s.last_media_at == now,
            s.live == (LiveSession {
                codec,
                last_audio: audio,
                last_debug: debug,
                next_clock_ping: now,
                last_rtt_ms: 0,
                decode_started: false,
                decode_deadline: now.later(Duration { nanos: STARTUP_DECODE_TIMEOUT_NANOS }),
            }),
    {
        DirectSession {
            live: LiveSession::new(codec, audio, debug, now),
            last_media_count: media_count,
            last_media_at: now,
        }
    }

    /// Media has stopped: decoding had begun, the count of media packets stands
    /// still, and has for longer than the limit.
    pub open spec fn stalled(self, media_count: u64, now: Instant) -> bool {
        media_count == self.last_media_count && self.live.decode_started && now.since(
            self.last_media_at,
        ).nanos > MEDIA_STALL_TIMEOUT_NANOS
    }

    /// Checks at the head of the loop whether the session goes on.
    pub fn check_media(&mut self, cancelled: bool, media_count: u64, now: Instant) -> (verdict:
        SessionVerdict)
        ensures
            verdict == if cancelled || old(self).stalled(media_count, now) {
                SessionVerdict::Stop
            } else {
                SessionVerdict::GoOn
            },
            *final(self) == if !cancelled && media_count != old(self).last_media_count {
                DirectSession { last_media_count: media_count, last_media_at: now, ..*old(self) }
            } else {
                *old(self)
            },
    {
        if cancelled {
            return SessionVerdict::Stop;
        }
        if media_count != self.last_media_count {
            self.last_media_count = media_count;
            self.last_media_at = now;
        } else if self.live.decode_started && now.saturating_duration_since(
            self.last_media_at,
        ).nanos > MEDIA_STALL_TIMEOUT_NANOS {
            return SessionVerdict::Stop;
        }
        SessionVerdict::GoOn
    }

    /// Checks whether the first frame has come in time. If it has not, the
    /// count of media packets tells a blocked path from a codec that does not
    /// work.
    pub fn check_startup(&self, media_count: u64, now: Instant) -> (verdict: SessionVerdict)
        ensures
            verdict == if !self.live.decode_overdue(now) {
                SessionVerdict::GoOn
            } else if media_count == 0 {
                SessionVerdict::UdpBlocked
            } else {
                SessionVerdict::CodecFailed(self.live.codec)
            },
    {
        if !self.live.is_decode_overdue(now) {
            SessionVerdict::GoOn
        } else if media_count == 0 {
            SessionVerdict::UdpBlocked
        } else {
            SessionVerdict::CodecFailed(self.live.codec)
        }
    }
}

/// The error that sends a session back with media over TCP.
pub fn udp_blocked_text() -> (s: String)
    ensures
        s@ == "UDP media blocked — retrying over TCP"@,
{
    "UDP media blocked — retrying over TCP".to_owned()
}

/// The error that a message ends a running session with, if it does.
pub open spec fn closing_error(message: ServerMessage) -> Option<Seq<char>> {
    match message {
        ServerMessage::Error(text) => Some(connection::server_error(text@)),
        ServerMessage::Shutdown => Some("Server shut down"@),
        _ => None,
    }
}

pub fn closing_error_text(message: &ServerMessage) -> (error: Option<String>)
    ensures
        match closing_error(*message) {
            Some(text) => error matches Some(s) && s@ == text,
            None => error is None,
        },
{
    match message {
        ServerMessage::Error(text) => Some(server_error_text(text.as_str())),
        ServerMessage::Shutdown => Some("Server shut down".to_owned()),
        _ => None,
    }
}

/// The error that the messages of one read leave a running direct session with.
/// All of them are taken in, so the last error counts.
pub open spec fn last_closing_error(messages: Seq<ServerMessage>) -> Option<Seq<char>>
    decreases messages.len(),
{
    if messages.len() == 0 {
        None
    } else if closing_error(messages.last()) is Some {
        closing_error(messages.last())
    } else {
        last_closing_error(messages.drop_last())
    }
}

/// Whether a running direct session goes on after a read.
#[derive(Clone, Debug)]
pub enum RunStep {
    GoOn,
    /// End it; with this error, if there is one.
    Stop(Option<String>),
}

fn step_after_messages(messages: &Vec<ServerMessage>) -> (step: RunStep)
    ensures
        match last_closing_error(messages@) {
            None => step is GoOn,
            Some(text) => step matches RunStep::Stop(Some(error)) && error@ == text,
        },
{
    let mut i: usize = messages.len();
    proof {
        assert(messages@.take(i as int) =~= messages@);
    }
    while i > 0
        invariant
            i <= messages.len(),
            last_closing_error(messages@) == last_closing_error(messages@.take(i as int)),
        decreases i,
    {
        proof {
            assert(messages@.take(i as int).last() == messages@[i - 1]);
            assert(messages@.take(i as int).drop_last() =~= messages@.take(i - 1));
        }
        i = i - 1;
        let error = closing_error_text(&messages[i]);
        if error.is_some() {
            return RunStep::Stop(error);
        }
    }
    RunStep::GoOn
}

/// Decides what follows a read while a direct session runs.
pub fn after_running_read(event: &ReadEvent) -> (step: RunStep)
    ensures
        match *event {
            ReadEvent::Closed => step == RunStep::Stop(None),
            ReadEvent::Failed(_) => step == RunStep::Stop(None),
            ReadEvent::Idle => step is GoOn,
            ReadEvent::Messages(messages) => match last_closing_error(messages@) {
                None => step is GoOn,
                Some(text) => step matches RunStep::Stop(Some(error)) && error@ == text,
            },
        },
{
    match event {
        ReadEvent::Closed | ReadEvent::Failed(_) => RunStep::Stop(None),
        ReadEvent::Idle => RunStep::GoOn,
        ReadEvent::Messages(messages) => step_after_messages(messages),
    }
}

/// How many messages of a packet a running session through a tunnel takes in:
/// those before the first that ends it.
pub open spec fn count_before_closing(messages: Seq<ServerMessage>) -> nat
    decreases messages.len(),
{
    if messages.len() == 0 || closing_error(messages[0]) is Some {
        0
    } else {
        1 + count_before_closing(messages.skip(1))
    }
}

/// Decides what a packet means for a running session through a tunnel: how many
/// of its messages to take in, and the error that then ends the session.
pub fn after_tunnel_packet(messages: &Vec<ServerMessage>) -> (r: (usize, Option<String>))
    ensures
        r.0 == count_before_closing(messages@),
        r.0 <= messages.len(),
        match r.1 {
            None => r.0 == messages.len(),
            Some(error) => r.0 < messages.len() && closing_error(messages@[r.0 as int]) == Some(
                error@,
            ),
        },
{
    let mut i: usize = 0;
    proof {
        assert(messages@.skip(0) =~= messages@);
    }
    while i < messages.len()
        invariant
            i <= messages.len(),
            count_before_closing(messages@) == i + count_before_closing(messages@.skip(i as int)),
        decreases messages.len() - i,
    {
        proof {
            assert(messages@.skip(i as int)[0] == messages@[i as int]);
            assert(messages@.skip(i as int).skip(1) =~= messages@.skip(i as int + 1));
        }
        let error = closing_error_text(&messages[i]);
        if error.is_some() {
            return (i, error);
        }
        i = i + 1;
    }
    (i, None)
}

/// Whether the client asks for audio when a session comes up.
pub fn initial_audio(enabled: bool, config: &StreamConfig) -> (r: bool)
    ensures
        r == (enabled && config.audio_sample_rate == 48_000 && config.audio_channels == 2),
{
    enabled && stream_supports_client_audio(config)
}

/// What the client tells the server of itself.
#[derive(Clone, Copy, Debug, PartialEq, Eq, Structural)]
pub struct ClientDisplayInfo {
    pub max_refresh_millihz: u32,
    /// Where media is to be sent; 0 if it comes through a tunnel.
    pub udp_port: u16,
    pub codecs: VideoCodecSupportReport,
    pub hdr_display: bool,
}

/// Makes up what to tell the server, without the codecs that have failed. If that
/// leaves no codec, all are offered again. Returns the exclusions to keep, too.
pub fn client_display_info(
    refresh_millihz: Option<u32>,
    udp_port: u16,
    report: VideoCodecSupportReport,
    excluded: VideoCodecSupport,
    hdr_display: bool,
) -> (r: (ClientDisplayInfo, VideoCodecSupport))
    ensures
        r.1 == codecs::kept_exclusions(report.supported, excluded),
        r.0 == (ClientDisplayInfo {
            max_refresh_millihz: match refresh_millihz {
                Some(refresh) => refresh,
                None => 0,
            },
            udp_port,
            codecs: codecs::report_without(report, r.1),
            hdr_display,
        }),
{
    let (codecs, kept) = effective_video_codecs(report, excluded);
    let max_refresh_millihz: u32 = match refresh_millihz {
        Some(refresh) => refresh,
        None => 0,
    };
    (ClientDisplayInfo { max_refresh_millihz, udp_port, codecs, hdr_display }, kept)
}

/// The server whose name cannot be resolved.
pub fn cannot_resolve(addr: &str) -> (s: String)
    ensures
        s@ == "Cannot resolve: "@ + addr@,
{
    concat("Cannot resolve: ", addr)
}

/// The error when there is no socket for media.
pub fn media_socket_failed(cause: &str) -> (s: String)
    ensures
        s@ == "Failed to bind UDP receiver: "@ + cause@,
{
    concat("Failed to bind UDP receiver: ", cause)
}

/// The error when the server could not be told to use this link as a tunnel.
pub fn tunnel_handshake_failed(cause: &str) -> (s: String)
    ensures
        s@ == "TCP tunnel handshake failed: "@ + cause@,
{
    concat("TCP tunnel handshake failed: ", cause)
}

/// The error when a link could not be made a tunnel.
pub fn tunnel_setup_failed(cause: &str) -> (s: String)
    ensures
        s@ == "TCP tunnel setup failed: "@ + cause@,
{
    concat("TCP tunnel setup failed: ", cause)
}

/// A running session is given up for silence only after decoding has begun, and
/// then as soon as media has been missing for more than four seconds.
pub proof fn media_watchdog(session: DirectSession, count: u64, now: Instant)
    requires
        session.last_media_at.nanos <= now.nanos,
    ensures
        session.stalled(count, now) <==> {
            &&& session.live.decode_started
            &&& count == session.last_media_count
            &&& now.nanos > session.last_media_at.nanos + MEDIA_STALL_TIMEOUT_NANOS
        },
{
}

/// One of a session's first messages through a tunnel decides by its refusals:
/// the first of them counts, wherever it stands.
pub open spec fn first_refusal(messages: Seq<ServerMessage>) -> Option<Seq<char>>
    decreases messages.len(),
{
    if messages.len() == 0 {
        None
    } else if refusal_of(messages[0]) is Some {
        refusal_of(messages[0])
    } else {
        first_refusal(messages.skip(1))
    }
}

pub open spec fn accepts_auth(message: ServerMessage) -> bool {
    message matches ServerMessage::AuthResult(accepted) && accepted
}

/// Takes in the messages of one packet during authentication through a tunnel.
/// `expired` says that the time is up.
pub fn tunnel_auth_step(messages: &Vec<ServerMessage>, expired: bool) -> (step: AuthStep)
    ensures
        match first_refusal(messages@) {
            Some(text) => step matches AuthStep::Refused(reason) && reason@ == text,
            None => if exists|i: int|
                0 <= i < messages@.len() && accepts_auth(#[trigger] messages@[i]) {
                step is Authenticated
            } else {
                unsettled(step, expired, "Authentication timeout over tunnel connection"@)
            },
        },
{
    let mut authenticated = false;
    let mut i: usize = 0;
    proof {
        assert(messages@.skip(0) =~= messages@);
    }
    while i < messages.len()
        invariant
            i <= messages.len(),
            first_refusal(messages@) == first_refusal(messages@.skip(i as int)),
            authenticated == exists|k: int| 0 <= k < i && accepts_auth(#[trigger] messages@[k]),
        decreases messages.len() - i,
    {
        proof {
            assert(messages@.skip(i as int)[0] == messages@[i as int]);
            assert(messages@.skip(i as int).skip(1) =~= messages@.skip(i as int + 1));
        }
        match &messages[i] {
            ServerMessage::AuthResult(accepted) => if *accepted {
                authenticated = true;
                assert(accepts_auth(messages@[i as int]));
            } else {
                return AuthStep::Refused("Authentication failed. Check your token.".to_owned());
            },
            ServerMessage::Error(error) => {
                return AuthStep::Refused(server_error_text(error.as_str()));
            },
            _ => {},
        }
        i = i + 1;
    }
    if authenticated {
        AuthStep::Authenticated
    } else {
        go_on_unless(expired, "Authentication timeout over tunnel connection")
    }
}

/// Where the start of a session through a tunnel stands.
#[derive(Clone, Debug)]
pub enum TunnelStep {
    Wait,
    Proceed,
    Fail(String),
}

/// The error when the client could not ask to be let in.
pub fn tunnel_auth_not_sent(cause: &str) -> (s: String)
    ensures
        s@ == "Failed to send auth: "@ + cause@,
{
    concat("Failed to send auth: ", cause)
}

/// How far the start of a session through a tunnel has come.
#[derive(Clone, Copy, Debug, PartialEq, Eq, Structural)]
pub struct TunnelStartup {
    pub stream_config: Option<StreamConfig>,
    pub stream_started: bool,
}

impl TunnelStartup {
    pub fn new() -> (s: TunnelStartup)
        ensures
            s == (TunnelStartup { stream_config: None, stream_started: false }),
    {
        TunnelStartup { stream_config: None, stream_started: false }
    }

    /// Takes in a message while the configuration is awaited.
    pub fn on_config_message(&mut self, message: &ServerMessage) -> (action: StartupAction)
        ensures
            match *message {
                ServerMessage::StreamConfig(config) => {
                    &&& *final(self) == (TunnelStartup {
                        stream_config: Some(config),
                        ..*old(self)
                    })
                    &&& action == (StartupAction::Adopt { config, start_media: false })
                },
                _ => {
                    &&& *final(self) == *old(self)
                    &&& match closing_error(*message) {
                        Some(text) => action matches StartupAction::Fail(error) && error@ == text,
                        None => action == StartupAction::Deliver(
                            delivery_of(*message, Phase::TunnelConfig, false),
                        ),
                    }
                },
            },
    {
        match message {
            ServerMessage::StreamConfig(config) => {
                self.stream_config = Some(*config);
                StartupAction::Adopt { config: *config, start_media: false }
            },
            ServerMessage::Error(text) => StartupAction::Fail(server_error_text(text.as_str())),
            ServerMessage::Shutdown => StartupAction::Fail("Server shut down".to_owned()),
            _ => StartupAction::Deliver(delivery(message, Phase::TunnelConfig, false)),
        }
    }

    /// Whether the wait for the configuration is over: it is there, and so is
    /// the credential for input; or the time is up, and the configuration alone
    /// has to do.
    pub fn config_step(&self, has_credential: bool, expired: bool) -> (step: TunnelStep)
        ensures
            if self.stream_config is Some && (has_credential || expired) {
                step is Proceed
            } else if expired {
                step matches TunnelStep::Fail(error) && error@
                    == "Timeout waiting for StreamConfig from server"@
            } else {
                step is Wait
            },
    {
        if self.stream_config.is_some() && (has_credential || expired) {
            TunnelStep::Proceed
        } else if expired {
            TunnelStep::Fail("Timeout waiting for StreamConfig from server".to_owned())
        } else {
            TunnelStep::Wait
        }
    }

    /// Takes in a message while the start of the stream is awaited. Returns the
    /// error that ends the session, if the message is one.
    pub fn on_start_message(&mut self, message: &ServerMessage) -> (error: Option<String>)
        ensures
            match closing_error(*message) {
                Some(text) => error matches Some(s) && s@ == text,
                None => error is None,
            },
            *final(self) == if *message is StreamStarted {
                TunnelStartup { stream_started: true, ..*old(self) }
            } else {
                *old(self)
            },
    {
        if let ServerMessage::StreamStarted = message {
            self.stream_started = true;
        }
        closing_error_text(message)
    }

    pub fn start_step(&self, expired: bool) -> (step: TunnelStep)
        ensures
            if self.stream_started {
                step is Proceed
            } else if expired {
                step matches TunnelStep::Fail(error) && error@
                    == "Stream startup timed out over tunnel connection"@
            } else {
                step is Wait
            },
    {
        if self.stream_started {
            TunnelStep::Proceed
        } else if expired {
            TunnelStep::Fail("Stream startup timed out over tunnel connection".to_owned())
        } else {
            TunnelStep::Wait
        }
    }
}

/// A session that runs through a tunnel.
#[derive(Clone, Copy, Debug, PartialEq, Eq, Structural)]
pub struct TunnelSession {
    pub live: LiveSession,
    pub last_peer_activity: Instant,
}

/// Whether a session through a tunnel goes on.
#[derive(Clone, Debug)]
pub enum TunnelVerdict {
    GoOn,
    Stop,
    /// End it with this error.
    Lost(String),
}

impl TunnelSession {
    pub fn new(codec: VideoCodec, audio: bool, debug: bool, now: Instant) -> (s: TunnelSession)
        ensures
            s.last_peer_activity == now,
            s.live == (LiveSession {
                codec,
                last_audio: audio,
                last_debug: debug,
                next_clock_ping: now,
                last_rtt_ms: 0,
                decode_started: false,
                decode_deadline: now.later(Duration { nanos: STARTUP_DECODE_TIMEOUT_NANOS }),
            }),
    {
        TunnelSession {
            live: LiveSession::new(codec, audio, debug, now),
            last_peer_activity: now,
        }
    }

    /// Nothing has come from the server for longer than the limit.
    pub open spec fn silent(self, now: Instant) -> bool {
        now.since(self.last_peer_activity).nanos > TUNNEL_INACTIVITY_TIMEOUT_NANOS
    }

    /// Checks at the head of the loop whether the session goes on.
    pub fn check_peer(&self, cancelled: bool, closed: bool, now: Instant) -> (verdict:
        TunnelVerdict)
        ensures
            if cancelled || closed {
                verdict is Stop
            } else if self.silent(now) {
                verdict matches TunnelVerdict::Lost(error) && error@
                    == "Server unreachable: no traffic for 5s"@
            } else {
                verdict is GoOn
            },
    {
        if cancelled || closed {
            return TunnelVerdict::Stop;
        }
        if now.saturating_duration_since(self.last_peer_activity).nanos > TUNNEL_INACTIVITY_TIMEOUT_NANOS {
            return TunnelVerdict::Lost("Server unreachable: no traffic for 5s".to_owned());
        }
        TunnelVerdict::GoOn
    }

    pub fn note_peer_activity(&mut self, now: Instant)
        ensures
            *final(self) == (TunnelSession { last_peer_activity: now, ..*old(self) }),
    {
        self.last_peer_activity = now;
    }

    /// The codec to leave out, if the first frame has not come in time.
    pub fn failed_codec(&self, now: Instant) -> (codec: Option<VideoCodec>)
        ensures
            codec == if self.live.decode_overdue(now) {
                Some(self.live.codec)
            } else {
                None
            },
    {
        if self.live.is_decode_overdue(now) {
            Some(self.live.codec)
        } else {
            None
        }
    }
}

/// A tunnel that has been heard from within the limit is not given up.
pub proof fn tunnel_watchdog(session: TunnelSession, now: Instant)
    requires
        session.last_peer_activity.nanos <= now.nanos,
    ensures
        session.silent(now) <==> now.nanos > session.last_peer_activity.nanos + TUNNEL_INACTIVITY_TIMEOUT_NANOS,
{
}

/// The first refusal through a tunnel, and a refusal that comes first on a direct
/// link, end the session in a way that is not retried.
pub proof fn refused_sessions_are_not_retried(messages: Seq<ServerMessage>)
    ensures
        first_refusal(messages) matches Some(text) ==> connection::terminal(text),
        first_settling(messages) matches Some(message) ==> (refusal_of(message) matches Some(text)
            ==> connection::terminal(text)),
    decreases messages.len(),
{
    if messages.len() > 0 {
        refused_sessions_are_not_retried(messages.skip(1));
        match messages[0] {
            ServerMessage::Error(error) => {
                connection::refusals_are_terminal(error@);
            },
            _ => {
                connection::refusals_are_terminal(Seq::empty());
            },
        }
    }
}

} // verus!
