//! Which decoder a stream needs, and the building of decoders in the background.
use crate::protocol::{CompletedFrame, StreamConfig, VideoChromaSampling, VideoCodec};
use crate::time::{Duration, Instant};
use vstd::prelude::*;

verus! {

/// How long a decoder may take to produce its first frame.
pub const LIVE_DECODE_OUTPUT_TIMEOUT_NANOS: u64 = 5_000_000_000;

/// What a new stream configuration asks of the decoder.
#[derive(Clone, Copy, Debug, PartialEq, Eq, Structural)]
pub enum VideoProfileUpdate {
    Unchanged,
    FrameRateOnly,
    EpochReset,
    ReplaceDecoder,
}

/// The part of a stream configuration that a decoder is built for.
#[derive(Clone, Copy, Debug, PartialEq, Eq, Structural)]
pub struct VideoDecoderProfile {
    pub codec: VideoCodec,
    pub chroma: VideoChromaSampling,
    pub hdr: bool,
    pub width: u32,
    pub height: u32,
}

/// The decoder profile of a stream.
pub open spec fn profile_of(config: StreamConfig) -> VideoDecoderProfile {
    VideoDecoderProfile {
        codec: config.codec,
        chroma: config.chroma,
        hdr: config.hdr,
        width: config.width,
        height: config.height,
    }
}

impl VideoDecoderProfile {
    pub fn from_config(config: StreamConfig) -> (profile: VideoDecoderProfile)
        ensures
            profile == profile_of(config),
    {
        VideoDecoderProfile {
            codec: config.codec,
            chroma: config.chroma,
            hdr: config.hdr,
            width: config.width,
            height: config.height,
        }
    }
}

/// Names one build of a decoder.
#[derive(Clone, Copy, Debug, PartialEq, Eq, Structural)]
pub struct DecoderBuildToken {
    pub generation: u64,
    pub video_epoch: u64,
    pub profile: VideoDecoderProfile,
}

impl DecoderBuildToken {
    pub open spec fn fits(self, config: StreamConfig) -> bool {
        self.video_epoch == config.video_epoch && self.profile == profile_of(config)
    }

    pub fn matches_config(self, config: StreamConfig) -> (r: bool)
        ensures
            r == self.fits(config),
    {
        self.video_epoch == config.video_epoch && self.profile == VideoDecoderProfile::from_config(
            config,
        )
    }
}

#[derive(Clone, Copy, Debug, PartialEq, Eq, Structural)]
pub struct VideoProfileTransition {
    pub update: VideoProfileUpdate,
    pub build: Option<DecoderBuildToken>,
}

/// The stream's configuration, the decoder that is installed or being built for
/// it, and whether that decoder has produced a frame yet.
#[derive(Clone, Copy, Debug, PartialEq, Eq, Structural)]
pub struct VideoProfileState {
    pub config: StreamConfig,
    pub generation: u64,
    pub installed_profile: Option<VideoDecoderProfile>,
    pub pending_build: Option<DecoderBuildToken>,
    /// Until when the first frame must be there. A stream's start has no such
    /// deadline: the connection watches over that.
    pub output_deadline: Option<Instant>,
    pub output_seen: bool,
}

/// Names the stream configuration for which decoding has begun.
#[derive(Clone, Copy, Debug, PartialEq, Eq, Structural)]
pub struct VideoDecodeProgress {
    pub video_epoch: u64,
    pub profile: VideoDecoderProfile,
}

impl VideoDecodeProgress {
    pub open spec fn fits(self, config: StreamConfig) -> bool {
        self.video_epoch == config.video_epoch && self.profile == profile_of(config)
    }

    pub fn matches_config(self, config: StreamConfig) -> (r: bool)
        ensures
            r == self.fits(config),
    {
        self.video_epoch == config.video_epoch && self.profile == VideoDecoderProfile::from_config(
            config,
        )
    }
}

/// Whether decoding has to begin anew when a stream changes.
pub fn decode_progress_resets(current: StreamConfig, next: StreamConfig) -> (r: bool)
    ensures
        r == (current.video_epoch != next.video_epoch || profile_of(current) != profile_of(next)),
{
    current.video_epoch != next.video_epoch || VideoDecoderProfile::from_config(current)
        != VideoDecoderProfile::from_config(next)
}

/// Another decoder is needed when the profile differs; a mere break in the
/// stream is seen by its epoch.
pub open spec fn update_between(current: StreamConfig, next: StreamConfig) -> VideoProfileUpdate {
    if profile_of(current) != profile_of(next) {
        VideoProfileUpdate::ReplaceDecoder
    } else if current.video_epoch != next.video_epoch {
        VideoProfileUpdate::EpochReset
    } else if current.framerate != next.framerate {
        VideoProfileUpdate::FrameRateOnly
    } else {
        VideoProfileUpdate::Unchanged
    }
}

impl VideoProfileState {
    /// The decoder is installed for the stream's profile exactly when no build
    /// is pending, and what is pending is the latest build, for that profile.
    pub open spec fn consistent(self) -> bool {
        match self.pending_build {
            None => self.installed_profile == Some(profile_of(self.config)),
            Some(token) => {
                &&& self.installed_profile is None
                &&& token.generation == self.generation
                &&& token.fits(self.config)
            },
        }
    }

    /// The state in which a frame must be there within the time limit.
    pub open spec fn awaiting_output(self, now: Instant) -> VideoProfileState {
        VideoProfileState {
            output_seen: false,
            output_deadline: Some(now.later(Duration { nanos: LIVE_DECODE_OUTPUT_TIMEOUT_NANOS })),
            ..self
        }
    }

    /// The token of the next build.
    pub open spec fn next_token(self) -> DecoderBuildToken {
        DecoderBuildToken {
            generation: ((self.generation + 1) % 0x1_0000_0000_0000_0000) as u64,
            video_epoch: self.config.video_epoch,
            profile: profile_of(self.config),
        }
    }

    /// The state once the next build has begun.
    pub open spec fn building(self, now: Instant) -> VideoProfileState {
        let token = self.next_token();
        VideoProfileState {
            generation: token.generation,
            installed_profile: None,
            pending_build: Some(token),
            ..self.awaiting_output(now)
        }
    }

    /// Whether the change to `next` needs another decoder: the profile differs,
    /// or the epoch does while the installed decoder is not the right one.
    pub open spec fn needs_build(self, next: StreamConfig) -> bool {
        match update_between(self.config, next) {
            VideoProfileUpdate::ReplaceDecoder => true,
            VideoProfileUpdate::EpochReset => self.pending_build is Some || self.installed_profile
                != Some(profile_of(next)),
            _ => false,
        }
    }

    /// The state after the change to `next`.
    pub open spec fn applied(self, next: StreamConfig, now: Instant) -> VideoProfileState {
        let changed = VideoProfileState { config: next, ..self };
        if self.needs_build(next) {
            changed.building(now)
        } else if update_between(self.config, next) == VideoProfileUpdate::EpochReset {
            changed.awaiting_output(now)
        } else {
            changed
        }
    }

    pub fn new(config: StreamConfig) -> (state: VideoProfileState)
        ensures
            state == (VideoProfileState {
                config,
                generation: 0,
                installed_profile: Some(profile_of(config)),
                pending_build: None,
                output_deadline: None,
                output_seen: false,
            }),
            state.consistent(),
    {
        VideoProfileState {
            config,
            generation: 0,
            installed_profile: Some(VideoDecoderProfile::from_config(config)),
            pending_build: None,
            output_deadline: None,
            output_seen: false,
        }
    }

    pub fn classify(&self, next: StreamConfig) -> (update: VideoProfileUpdate)
        ensures
            update == update_between(self.config, next),
    {
        if VideoDecoderProfile::from_config(self.config) != VideoDecoderProfile::from_config(next) {
            VideoProfileUpdate::ReplaceDecoder
        } else if self.config.video_epoch != next.video_epoch {
            VideoProfileUpdate::EpochReset
        } else if self.config.framerate != next.framerate {
            VideoProfileUpdate::FrameRateOnly
        } else {
            VideoProfileUpdate::Unchanged
        }
    }

    pub fn apply(&mut self, next: StreamConfig, now: Instant) -> (transition:
        VideoProfileTransition)
        ensures
            *final(self) == old(self).applied(next, now),
            transition.update == update_between(old(self).config, next),
            transition.build == if old(self).needs_build(next) {
                Some((VideoProfileState { config: next, ..*old(self) }).next_token())
            } else {
                None
            },
            old(self).consistent() ==> final(self).consistent(),
    {
        let update = self.classify(next);
        self.config = next;
        let build = match update {
            VideoProfileUpdate::ReplaceDecoder => Some(self.begin_build(now)),
            VideoProfileUpdate::EpochReset => {
                self.reset_output_progress(now);
                let right_one = match self.installed_profile {
                    Some(profile) => profile == VideoDecoderProfile::from_config(next),
                    None => false,
                };
                if self.pending_build.is_some() || !right_one {
                    Some(self.begin_build(now))
                } else {
                    None
                }
            },
            VideoProfileUpdate::Unchanged | VideoProfileUpdate::FrameRateOnly => None,
        };
        VideoProfileTransition { update, build }
    }

    /// Begins to build the decoder for the stream's profile once more.
    pub fn begin_rebuild(&mut self, now: Instant) -> (token: DecoderBuildToken)
        ensures
            *final(self) == old(self).building(now),
            token == old(self).next_token(),
            final(self).consistent(),
    {
        self.begin_build(now)
    }

    pub fn begin_build(&mut self, now: Instant) -> (token: DecoderBuildToken)
        ensures
            *final(self) == old(self).building(now),
            token == old(self).next_token(),
            final(self).consistent(),
    {
        self.generation = self.generation.wrapping_add(1);
        let token = DecoderBuildToken {
            generation: self.generation,
            video_epoch: self.config.video_epoch,
            profile: VideoDecoderProfile::from_config(self.config),
        };
        self.installed_profile = None;
        self.pending_build = Some(token);
        self.reset_output_progress(now);
        token
    }

    /// Whether `token` names the build that this state waits for.
    pub open spec fn expects(self, token: DecoderBuildToken) -> bool {
        self.pending_build == Some(token) && token.fits(self.config)
    }

    pub fn expects_build(&self, token: DecoderBuildToken) -> (r: bool)
        ensures
            r == self.expects(token),
    {
        match self.pending_build {
            Some(pending) => pending == token && token.matches_config(self.config),
            None => false,
        }
    }

    /// Installs the decoder of a finished build, unless the build is stale.
    pub fn accept_build(&mut self, token: DecoderBuildToken, now: Instant) -> (accepted: bool)
        ensures
            accepted == old(self).expects(token),
            accepted ==> *final(self) == (VideoProfileState {
                pending_build: None,
                installed_profile: Some(token.profile),
                ..*old(self)
            }).awaiting_output(now) && final(self).consistent(),
            !accepted ==> *final(self) == *old(self),
    {
        if !self.expects_build(token) {
            return false;
        }
        self.pending_build = None;
        self.installed_profile = Some(token.profile);
        self.reset_output_progress(now);
        true
    }

    pub fn reset_output_progress(&mut self, now: Instant)
        ensures
            *final(self) == old(self).awaiting_output(now),
    {
        self.output_seen = false;
        self.output_deadline = Some(
            now.saturating_add(Duration::from_nanos(LIVE_DECODE_OUTPUT_TIMEOUT_NANOS)),
        );
    }

    /// Notes that the decoder has produced a frame. Returns whether it was the
    /// first one.
    pub fn note_output(&mut self) -> (first_output: bool)
        ensures
            first_output == !old(self).output_seen,
            *final(self) == (VideoProfileState {
                output_seen: true,
                output_deadline: None,
                ..*old(self)
            }),
    {
        let first_output = !self.output_seen;
        self.output_seen = true;
        self.output_deadline = None;
        first_output
    }

    pub open spec fn overdue(self, now: Instant) -> bool {
        !self.output_seen && (self.output_deadline matches Some(deadline) && now.nanos
            >= deadline.nanos)
    }

    pub fn output_deadline_expired(&self, now: Instant) -> (r: bool)
        ensures
            r == self.overdue(now),
    {
        match self.output_deadline {
            Some(deadline) => !self.output_seen && now.nanos >= deadline.nanos,
            None => false,
        }
    }

    pub fn progress(&self) -> (progress: VideoDecodeProgress)
        ensures
            progress == (VideoDecodeProgress {
                video_epoch: self.config.video_epoch,
                profile: profile_of(self.config),
            }),
            progress.fits(self.config),
    {
        VideoDecodeProgress {
            video_epoch: self.config.video_epoch,
            profile: VideoDecoderProfile::from_config(self.config),
        }
    }
}

/// Whether a video unit belongs to the stream's current epoch.
pub fn frame_matches_profile(frame: &CompletedFrame, profile: &VideoProfileState) -> (r: bool)
    ensures
        r == (frame.video_epoch == profile.config.video_epoch),
{
    frame.video_epoch == profile.config.video_epoch
}

/// Decoding begins anew exactly when a change is an epoch reset or asks for
/// another decoder.
pub proof fn progress_resets_at_discontinuities(current: StreamConfig, next: StreamConfig)
    ensures
        (current.video_epoch != next.video_epoch || profile_of(current) != profile_of(next)) <==> (
        update_between(current, next) == VideoProfileUpdate::EpochReset || update_between(
            current,
            next,
        ) == VideoProfileUpdate::ReplaceDecoder),
{
}

/// Once a change needs another decoder, the build that was expected until then
/// is stale.
pub proof fn superseded_builds_are_stale(
    state: VideoProfileState,
    token: DecoderBuildToken,
    next: StreamConfig,
    now: Instant,
)
    requires
        state.consistent(),
        state.expects(token),
        state.needs_build(next),
    ensures
        !state.applied(next, now).expects(token),
{
}

/// A build that has begun is expected until the stream changes.
pub proof fn begun_builds_are_expected(state: VideoProfileState, now: Instant)
    ensures
        state.building(now).expects(state.next_token()),
{
}

/// A build that is accepted leaves the decoder of the stream's own profile
/// installed, and its token cannot be accepted again.
pub proof fn accepted_builds_fit_the_stream(state: VideoProfileState, token: DecoderBuildToken)
    requires
        state.expects(token),
    ensures
        token.profile == profile_of(state.config),
        !(VideoProfileState {
            pending_build: None,
            installed_profile: Some(token.profile),
            ..state
        }).expects(token),
{
}

/// A stream that stays without output is overdue from the time limit on, and
/// not before; an output lifts the deadline for good, until a reset.
pub proof fn output_is_due_within_the_limit(state: VideoProfileState, start: Instant, now: Instant)
    requires
        start.nanos + LIVE_DECODE_OUTPUT_TIMEOUT_NANOS <= u64::MAX,
    ensures
        state.awaiting_output(start).overdue(now) <==> now.nanos >= start.nanos + LIVE_DECODE_OUTPUT_TIMEOUT_NANOS,
        !(VideoProfileState { output_seen: true, output_deadline: None, ..state }).overdue(now),
{
}

#[derive(Clone, Copy, Debug, PartialEq, Eq, Structural)]
pub enum DecoderBuildMode {
    Automatic,
    Software,
}

#[derive(Clone, Copy, Debug, PartialEq, Eq, Structural)]
pub struct DecoderBuildRequest {
    pub token: DecoderBuildToken,
    pub mode: DecoderBuildMode,
}

pub struct DecoderBuildCompleted<D> {
    pub token: DecoderBuildToken,
    pub mode: DecoderBuildMode,
    pub result: Result<D, String>,
}

/// The mailbox between the media thread and the thread that builds decoders: at
/// most one request waits in it, and at most one result.
pub struct DecoderBuilderState<D> {
    pub latest: Option<DecoderBuildToken>,
    pub pending: Option<DecoderBuildRequest>,
    pub completed: Option<DecoderBuildCompleted<D>>,
    pub shutdown: bool,
}

/// What the building thread does next.
#[derive(Clone, Copy, Debug, PartialEq, Eq, Structural)]
pub enum BuilderStep {
    Wait,
    Stop,
    Build(DecoderBuildRequest),
}

impl<D> DecoderBuilderState<D> {
    /// A result is only ever that of the latest request, and it is gone once
    /// the next request is there.
    pub open spec fn consistent(self) -> bool {
        &&& self.pending matches Some(request) ==> self.latest == Some(request.token)
            && self.completed is None
        &&& self.completed matches Some(completed) ==> self.latest == Some(completed.token)
        &&& self.shutdown ==> self.pending is None && self.completed is None
    }

    /// The mailbox once a request has been put into it.
    pub open spec fn requested(self, request: DecoderBuildRequest) -> DecoderBuilderState<D> {
        DecoderBuilderState {
            latest: Some(request.token),
            pending: Some(request),
            completed: None,
            shutdown: self.shutdown,
        }
    }

    /// The mailbox once the waiting request has been taken from it.
    pub open spec fn stepped(self) -> DecoderBuilderState<D> {
        if self.shutdown {
            self
        } else {
            DecoderBuilderState { pending: None, ..self }
        }
    }

    /// The mailbox once a build has ended.
    pub open spec fn finished(
        self,
        request: DecoderBuildRequest,
        result: Result<D, String>,
    ) -> DecoderBuilderState<D> {
        if !self.shutdown && self.latest == Some(request.token) {
            DecoderBuilderState {
                completed: Some(
                    DecoderBuildCompleted { token: request.token, mode: request.mode, result },
                ),
                ..self
            }
        } else {
            self
        }
    }

    pub fn new() -> (state: DecoderBuilderState<D>)
        ensures
            state == (DecoderBuilderState::<D> {
                latest: None,
                pending: None,
                completed: None,
                shutdown: false,
            }),
            state.consistent(),
    {
        DecoderBuilderState { latest: None, pending: None, completed: None, shutdown: false }
    }

    /// Puts a request in place of what is there.
    pub fn request(&mut self, request: DecoderBuildRequest)
        ensures
            *final(self) == old(self).requested(request),
            !old(self).shutdown ==> final(self).consistent(),
    {
        self.latest = Some(request.token);
        self.pending = Some(request);
        self.completed = None;
    }

    pub fn take_completed(&mut self) -> (completed: Option<DecoderBuildCompleted<D>>)
        ensures
            completed == old(self).completed,
            *final(self) == (DecoderBuilderState::<D> { completed: None, ..*old(self) }),
            old(self).consistent() ==> final(self).consistent(),
    {
        self.completed.take()
    }

    pub fn shut_down(&mut self)
        ensures
            *final(self) == (DecoderBuilderState::<D> {
                latest: old(self).latest,
                pending: None,
                completed: None,
                shutdown: true,
            }),
            final(self).consistent(),
    {
        self.shutdown = true;
        self.pending = None;
        self.completed = None;
    }

    /// Takes the request that is to be built now.
    pub fn next_step(&mut self) -> (step: BuilderStep)
        ensures
            step == if old(self).shutdown {
                BuilderStep::Stop
            } else {
                match old(self).pending {
                    Some(request) => BuilderStep::Build(request),
                    None => BuilderStep::Wait,
                }
            },
            *final(self) == old(self).stepped(),
            old(self).consistent() ==> final(self).consistent(),
    {
        if self.shutdown {
            return BuilderStep::Stop;
        }
        match self.pending.take() {
            Some(request) => BuilderStep::Build(request),
            None => BuilderStep::Wait,
        }
    }

    /// Hands in the result of a build. It is kept only if no other build has
    /// been requested since. Returns whether the thread goes on.
    pub fn finish(&mut self, request: DecoderBuildRequest, result: Result<D, String>) -> (go_on:
        bool)
        ensures
            go_on == !old(self).shutdown,
            *final(self) == old(self).finished(request, result),
            old(self).consistent() && old(self).pending is None ==> final(self).consistent(),
    {
        if self.shutdown {
            return false;
        }
        let is_latest = match self.latest {
            Some(latest) => latest == request.token,
            None => false,
        };
        if is_latest {
            self.completed = Some(
                DecoderBuildCompleted { token: request.token, mode: request.mode, result },
            );
        }
        true
    }
}

/// A result that comes in after another build has been requested is discarded,
/// whether or not the other build has been started.
pub proof fn superseded_results_are_discarded<D>(
    before: DecoderBuilderState<D>,
    superseded: DecoderBuildRequest,
    request: DecoderBuildRequest,
    result: Result<D, String>,
)
    requires
        superseded.token != request.token,
    ensures
        ({
            let waiting = before.requested(request);
            let started = waiting.stepped();
            &&& waiting.finished(superseded, result) == waiting
            &&& started.finished(superseded, result) == started
        }),
{
}

/// The latest request's result is what the media thread gets.
pub proof fn latest_result_is_delivered<D>(
    before: DecoderBuilderState<D>,
    request: DecoderBuildRequest,
    result: Result<D, String>,
)
    requires
        !before.shutdown,
    ensures
        before.requested(request).stepped().finished(request, result).completed == Some(
            DecoderBuildCompleted { token: request.token, mode: request.mode, result },
        ),
{
}

} // verus!
