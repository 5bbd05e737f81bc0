//! The media thread's decisions: what to do with stream changes, finished
//! decoder builds, received data and decoded frames.
use crate::frames::{FrameDebugTiming, VideoFrameBuffer};
use crate::pacing;
use crate::pacing::{
    present_due_video_frames, recycle_video_frame, recycle_video_frames, Presented,
    RecoveryKeyframes, RepaintPacer, Stage,
};
use crate::playout::{PlayoutSettings, QueuedVideoFrame, VideoPlayoutBuffer};
use crate::profile;
use crate::profile::{
    frame_matches_profile, DecoderBuildMode, DecoderBuildRequest, DecoderBuildToken,
    VideoDecodeProgress, VideoProfileState, VideoProfileUpdate,
};
use crate::protocol::{AudioPacket, CompletedFrame, StreamConfig, VideoCodec};
use crate::text;
use crate::text::push_decimal;
use crate::time::{Duration, Instant};
use vstd::prelude::*;
use vstd::string::*;

verus! {

/// The longest that an idle media thread sleeps.
pub const MEDIA_MAINTENANCE_INTERVAL_NANOS: u64 = 20_000_000;

/// How many units are taken off the socket before the first is decoded.
pub const MAX_DRAINED_UNITS: usize = 64;

/// Why the media thread gave up.
#[derive(Clone, Debug)]
pub struct VideoProfileError {
    pub codec: VideoCodec,
    pub message: String,
}

/// The stream's first decoder could not be built: the media thread gives up.
pub fn first_decoder_failed(codec: VideoCodec, message: String) -> (e: VideoProfileError)
    ensures
        e == (VideoProfileError { codec, message }),
{
    VideoProfileError { codec, message }
}

/// What the transport hands over. A video unit comes with the wall-clock and the
/// monotonic time at which it was complete.
pub enum ReceivedData {
    Video(CompletedFrame, u64, u64),
    Audio(AudioPacket),
    Keepalive,
}

pub struct PendingUnit {
    pub unit: CompletedFrame,
    pub assembled_micros: u64,
    pub assembled_mono: u64,
}

pub struct ReceivePipeline {
    pub profile: VideoProfileState,
    pub playout: VideoPlayoutBuffer,
    pub recycled_frames: Vec<VideoFrameBuffer>,
    pub repaint_pacer: RepaintPacer,
    pub keyframes: RecoveryKeyframes,
    /// The frame that the decoder writes into.
    pub decoded_frame: VideoFrameBuffer,
    pub has_decoder: bool,
    pub attempted_software_fallback: bool,
    pub settings: PlayoutSettings,
}

/// What a change of the stream's configuration asks for.
#[derive(Clone, Copy, Debug, PartialEq, Eq, Structural)]
pub struct ConfigActions {
    /// Forget the video units that the receiver has not completed.
    pub reset_receiver: bool,
    /// Drop the decoder and have another one built.
    pub build: Option<DecoderBuildRequest>,
    /// Have the decoder wait for a keyframe.
    pub enter_recovery: bool,
    pub send_keyframe_request: bool,
}

/// What a finished build asks for.
pub enum InstallActions {
    /// The build is stale: its decoder is dropped.
    Discard,
    /// No decoder could be built: the thread ends.
    Fail(VideoProfileError),
    /// The decoder replaces the old one and waits for a keyframe. The receiver forgets
    /// the video units that it has not completed.
    Install { reason: &'static str, send_keyframe_request: bool },
}

/// What a decoder said of one unit.
#[derive(Clone, Copy, Debug, PartialEq, Eq, Structural)]
pub struct DecodedUnit {
    pub produced_frame: bool,
    pub frame_id: Option<u32>,
    pub dropped_stale_output: bool,
    pub waiting_for_recovery: bool,
}

/// What a run of decoded units has come to.
#[derive(Clone, Copy, Debug, PartialEq, Eq, Structural)]
pub struct DecodeBatch {
    pub produced_frame: bool,
    pub latest_timing: Option<FrameDebugTiming>,
}

/// What a decoder failure asks for.
pub enum DecodeErrorActions {
    /// Try again with a software decoder. The receiver forgets the video units that
    /// it has not completed.
    FallBack { request: DecoderBuildRequest, send_keyframe_request: bool },
    /// Give up.
    Fail(VideoProfileError),
}

/// What a batch with a new frame asks for.
#[derive(Clone, Copy, Debug, PartialEq, Eq, Structural)]
pub struct FrameActions {
    /// Decoding has begun for this configuration.
    pub started: Option<VideoDecodeProgress>,
    /// Whether queueing the frame dropped one.
    pub queue_dropped: bool,
    pub presented: Presented,
}

/// The units taken off the socket in one go.
pub struct DrainState {
    pub pending: Vec<PendingUnit>,
    pub drained: usize,
    pub deadline: Instant,
}

/// What a received item asks for besides being counted as a sign of life.
pub enum DrainAction {
    Nothing,
    QueueAudio(AudioPacket),
}

impl DrainState {
    /// Starts with one unit and two milliseconds for the rest.
    pub fn new(first: PendingUnit, now: Instant) -> (state: DrainState)
        ensures
            state.pending@ == seq![first],
            state.drained == 0,
            state.deadline == now.later(Duration { nanos: 2_000_000 }),
    {
        let mut pending: Vec<PendingUnit> = Vec::new();
        pending.push(first);
        DrainState {
            pending,
            drained: 0,
            deadline: now.saturating_add(Duration::from_millis(2)),
        }
    }

    pub fn wants_more(&self, now: Instant) -> (r: bool)
        ensures
            r == (self.drained < 64 && now.nanos < self.deadline.nanos),
    {
        self.drained < MAX_DRAINED_UNITS && now.nanos < self.deadline.nanos
    }

    /// Takes in one more item. Video units of another epoch are left out; the
    /// others stay in order, because a decoder must not miss any.
    pub fn receive(
        &mut self,
        data: ReceivedData,
        profile: &VideoProfileState,
        audio_enabled: bool,
    ) -> (action: DrainAction)
        requires
            old(self).drained < 64,
        ensures
            final(self).drained == old(self).drained + 1,
            final(self).deadline == old(self).deadline,
            match data {
                ReceivedData::Video(unit, assembled_micros, assembled_mono) => {
                    &&& action is Nothing
                    &&& final(self).pending@ == if unit.video_epoch == profile.config.video_epoch {
                        old(self).pending@.push(
                            PendingUnit { unit, assembled_micros, assembled_mono },
                        )
                    } else {
                        old(self).pending@
                    }
                },
                ReceivedData::Audio(packet) => {
                    &&& final(self).pending@ == old(self).pending@
                    &&& action == if audio_enabled {
                        DrainAction::QueueAudio(packet)
                    } else {
                        DrainAction::Nothing
                    }
                },
                ReceivedData::Keepalive => {
                    &&& final(self).pending@ == old(self).pending@
                    &&& action is Nothing
                },
            },
    {
        self.drained = self.drained + 1;
        match data {
            ReceivedData::Video(unit, assembled_micros, assembled_mono) => {
                if frame_matches_profile(&unit, profile) {
                    self.pending.push(PendingUnit { unit, assembled_micros, assembled_mono });
                }
                DrainAction::Nothing
            },
            ReceivedData::Audio(packet) => if audio_enabled {
                DrainAction::QueueAudio(packet)
            } else {
                DrainAction::Nothing
            },
            ReceivedData::Keepalive => DrainAction::Nothing,
        }
    }
}

impl DecodeBatch {
    pub fn new() -> (batch: DecodeBatch)
        ensures
            batch == (DecodeBatch { produced_frame: false, latest_timing: None }),
    {
        DecodeBatch { produced_frame: false, latest_timing: None }
    }
}

/// The message of a stream whose decoder stays silent.
pub open spec fn silent_decoder_message(video_epoch: u64) -> Seq<char> {
    "decoder produced no frame for epoch "@ + text::decimal(video_epoch as nat) + " within 5s"@
}

pub open spec fn fatal_decode_message(error: Seq<char>) -> Seq<char> {
    "fatal runtime decode failure: "@ + error
}

/// The timing of a frame: what the unit that completed it carried, and the
/// decoder's own number for it where it gave one.
pub open spec fn timing_of(
    unit: PendingUnit,
    decoded: DecodedUnit,
    start_mono: u64,
    done_mono: u64,
) -> FrameDebugTiming {
    FrameDebugTiming {
        frame_id: match decoded.frame_id {
            Some(id) => id,
            None => unit.unit.frame_id,
        },
        server_capture_micros: unit.unit.timing.capture_ts_micros,
        server_send_micros: unit.unit.timing.send_ts_micros,
        client_assembled_micros: unit.assembled_micros,
        client_assembled_mono: unit.assembled_mono,
        client_decode_start_mono: start_mono,
        client_decode_done_mono: done_mono,
    }
}

impl ReceivePipeline {
    /// There is a decoder exactly when no build is pending, and then it is the
    /// one for the stream's profile. The playout delay's bounds are in order,
    /// and few frame buffers are kept.
    pub open spec fn consistent(self) -> bool {
        &&& self.profile.consistent()
        &&& self.has_decoder == (self.profile.pending_build is None)
        &&& self.playout.delay_floor.nanos <= self.playout.delay_ceiling.nanos
        &&& self.recycled_frames@.len() <= 3
    }

    pub fn new(
        stream_config: StreamConfig,
        refresh_millihz: Option<u32>,
        settings: PlayoutSettings,
    ) -> (pipeline: ReceivePipeline)
        ensures
            pipeline.consistent(),
            pipeline.profile == (VideoProfileState {
                config: stream_config,
                generation: 0,
                installed_profile: Some(profile::profile_of(stream_config)),
                pending_build: None,
                output_deadline: None,
                output_seen: false,
            }),
            pipeline.playout.is_fresh(stream_config.framerate, settings),
            pipeline.playout.queued@.len() == 0,
            pipeline.playout.last_scheduled_at is None,
            pipeline.playout.last_presented_frame_id is None,
            pipeline.recycled_frames@.len() == 0,
            pipeline.repaint_pacer == (RepaintPacer {
                min_interval: pacing::refresh_interval_of(refresh_millihz),
                last_request: None,
                immediate_pending: false,
            }),
            pipeline.keyframes.last_request is None,
            pipeline.decoded_frame.is_blank(),
            pipeline.has_decoder,
            !pipeline.attempted_software_fallback,
            pipeline.settings == settings,
    {
        let profile = VideoProfileState::new(stream_config);
        let playout = VideoPlayoutBuffer::new(stream_config.framerate, settings);
        proof {
            crate::playout_laws::fresh_buffers_start_at_the_floor(
                playout,
                stream_config.framerate,
                settings,
            );
        }
        ReceivePipeline {
            profile,
            playout,
            recycled_frames: Vec::new(),
            repaint_pacer: RepaintPacer::new(refresh_millihz),
            keyframes: RecoveryKeyframes::new(),
            decoded_frame: VideoFrameBuffer::default(),
            has_decoder: true,
            attempted_software_fallback: false,
            settings,
        }
    }

    pub open spec fn queued_frames(self) -> Seq<VideoFrameBuffer> {
        self.playout.queued@.map_values(|queued: QueuedVideoFrame| queued.frame)
    }

    /// Forgets what belongs to the stream before a break: the queued frames and
    /// the frame that is being decoded.
    pub fn drop_decoded_video(&mut self)
        requires
            old(self).consistent(),
        ensures
            final(self).playout.is_fresh(old(self).profile.config.framerate, old(self).settings),
            final(self).playout.queued@.len() == 0,
            final(self).playout.last_scheduled_at is None,
            final(self).playout.last_presented_frame_id is None,
            final(self).playout.delay_floor.nanos <= final(self).playout.delay_ceiling.nanos,
            final(self).recycled_frames@ == pacing::with_all_recycled(
                old(self).recycled_frames@,
                old(self).queued_frames(),
                old(self).settings.platform,
            ),
            final(self).recycled_frames@.len() <= 3,
            final(self).decoded_frame.is_blank(),
            *final(self) == (ReceivePipeline {
                playout: final(self).playout,
                recycled_frames: final(self).recycled_frames,
                decoded_frame: final(self).decoded_frame,
                ..*old(self)
            }),
    {
        let fps: u16 = self.profile.config.framerate;
        let dropped = self.playout.reset_for_discontinuity(fps, self.settings);
        proof {
            pacing::few_buffers_are_kept(self.recycled_frames@, dropped@, self.settings.platform);
            crate::playout_laws::fresh_buffers_start_at_the_floor(
                self.playout,
                fps,
                self.settings,
            );
        }
        recycle_video_frames(&mut self.recycled_frames, dropped, self.settings.platform);
        self.decoded_frame = VideoFrameBuffer::default();
    }

    /// Adopts the stream's new configuration. `refresh_millihz` is the rate to
    /// present at from then on.
    pub fn apply_config(
        &mut self,
        next: StreamConfig,
        refresh_millihz: Option<u32>,
        now: Instant,
    ) -> (actions: ConfigActions)
        requires
            old(self).consistent(),
        ensures
            final(self).consistent(),
            final(self).profile == old(self).profile.applied(next, now),
            final(self).settings == old(self).settings,
            final(self).repaint_pacer == (RepaintPacer {
                min_interval: pacing::refresh_interval_of(refresh_millihz),
                last_request: None,
                immediate_pending: false,
            }),
            ({
                let update = profile::update_between(old(self).profile.config, next);
                let discontinuity = update == VideoProfileUpdate::EpochReset || update
                    == VideoProfileUpdate::ReplaceDecoder;
                let build = old(self).profile.needs_build(next);
                let recover = update == VideoProfileUpdate::EpochReset && !build;
                &&& actions.reset_receiver == discontinuity
                &&& actions.build == if build {
                    Some(
                        DecoderBuildRequest {
                            token: (VideoProfileState {
                                config: next,
                                ..old(self).profile
                            }).next_token(),
                            mode: DecoderBuildMode::Automatic,
                        },
                    )
                } else {
                    None
                }
                &&& actions.enter_recovery == (recover && old(self).has_decoder)
                &&& actions.send_keyframe_request == (recover && old(self).keyframes.allowed(now))
                &&& final(self).keyframes == if recover {
                    old(self).keyframes.asked(now)
                } else {
                    old(self).keyframes
                }
                &&& final(self).has_decoder == (old(self).has_decoder && !build)
                &&& final(self).attempted_software_fallback == (old(
                    self,
                ).attempted_software_fallback && !build)
                &&& if discontinuity {
                    &&& final(self).playout.is_fresh(next.framerate, old(self).settings)
                    &&& final(self).playout.queued@.len() == 0
                    &&& final(self).playout.last_scheduled_at is None
                    &&& final(self).playout.last_presented_frame_id is None
                    &&& final(self).recycled_frames@ == pacing::with_all_recycled(
                        old(self).recycled_frames@,
                        old(self).queued_frames(),
                        old(self).settings.platform,
                    )
                    &&& final(self).decoded_frame.is_blank()
                } else {
                    &&& final(self).recycled_frames == old(self).recycled_frames
                    &&& final(self).decoded_frame == old(self).decoded_frame
                    &&& if update == VideoProfileUpdate::FrameRateOnly {
                        &&& final(self).playout.is_fresh(next.framerate, old(self).settings)
                        &&& final(self).playout.queued == old(self).playout.queued
                        &&& final(self).playout.last_scheduled_at == old(
                            self,
                        ).playout.last_scheduled_at
                        &&& final(self).playout.last_presented_frame_id == old(
                            self,
                        ).playout.last_presented_frame_id
                    } else {
                        final(self).playout == old(self).playout
                    }
                }
            }),
    {
        let transition = self.profile.apply(next, now);
        let discontinuity = transition.update == VideoProfileUpdate::EpochReset
            || transition.update == VideoProfileUpdate::ReplaceDecoder;
        let mut actions = ConfigActions {
            reset_receiver: discontinuity,
            build: None,
            enter_recovery: false,
            send_keyframe_request: false,
        };
        if let Some(token) = transition.build {
            self.has_decoder = false;
            self.attempted_software_fallback = false;
            actions.build = Some(DecoderBuildRequest { token, mode: DecoderBuildMode::Automatic });
        } else if transition.update == VideoProfileUpdate::EpochReset {
            actions.enter_recovery = self.has_decoder;
            actions.send_keyframe_request = self.keyframes.request_recovery_keyframe(now);
        }
        if discontinuity {
            self.drop_decoded_video();
        }
        if transition.update == VideoProfileUpdate::FrameRateOnly {
            self.playout.update_framerate(next.framerate, self.settings);
            proof {
                crate::playout_laws::fresh_buffers_start_at_the_floor(
                    self.playout,
                    next.framerate,
                    self.settings,
                );
            }
        }
        self.repaint_pacer.set_refresh_millihz(refresh_millihz);
        actions
    }

    /// Takes in the outcome of a decoder build.
    pub fn install_decoder(
        &mut self,
        token: DecoderBuildToken,
        mode: DecoderBuildMode,
        failure: Option<String>,
        now: Instant,
    ) -> (actions: InstallActions)
        requires
            old(self).consistent(),
        ensures
            final(self).consistent(),
            !old(self).profile.expects(token) ==> actions is Discard && *final(self) == *old(self),
            old(self).profile.expects(token) ==> match failure {
                Some(message) => {
                    &&& *final(self) == *old(self)
                    &&& actions == InstallActions::Fail(
                        VideoProfileError { codec: old(self).profile.config.codec, message },
                    )
                },
                None => {
                    &&& *final(self) == (ReceivePipeline {
                        profile: (VideoProfileState {
                            pending_build: None,
                            installed_profile: Some(token.profile),
                            ..old(self).profile
                        }).awaiting_output(now),
                        keyframes: old(self).keyframes.asked(now),
                        has_decoder: true,
                        attempted_software_fallback: mode == DecoderBuildMode::Software,
                        ..*old(self)
                    })
                    &&& actions matches InstallActions::Install { reason, send_keyframe_request }
                    &&& reason@ == match mode {
                        DecoderBuildMode::Automatic => "stream profile changed"@,
                        DecoderBuildMode::Software => "hardware decoder failure"@,
                    }
                    &&& send_keyframe_request == old(self).keyframes.allowed(now)
                },
            },
    {
        if !self.profile.expects_build(token) {
            return InstallActions::Discard;
        }
        if let Some(message) = failure {
            return InstallActions::Fail(
                VideoProfileError { codec: self.profile.config.codec, message },
            );
        }
        let _accepted = self.profile.accept_build(token, now);
        self.has_decoder = true;
        self.attempted_software_fallback = mode == DecoderBuildMode::Software;
        let send_keyframe_request = self.keyframes.request_recovery_keyframe(now);
        let reason = match mode {
            DecoderBuildMode::Automatic => "stream profile changed",
            DecoderBuildMode::Software => "hardware decoder failure",
        };
        InstallActions::Install { reason, send_keyframe_request }
    }

    /// The error that ends the thread once a decoder has been silent too long.
    pub fn check_output_deadline(&self, now: Instant) -> (error: Option<VideoProfileError>)
        ensures
            match error {
                Some(error) => self.profile.overdue(now) && error.codec == self.profile.config.codec
                    && error.message@ == silent_decoder_message(self.profile.config.video_epoch),
                None => !self.profile.overdue(now),
            },
    {
        if !self.profile.output_deadline_expired(now) {
            return None;
        }
        let mut message = "decoder produced no frame for epoch ".to_owned();
        push_decimal(&mut message, self.profile.config.video_epoch);
        message.append(" within 5s");
        Some(VideoProfileError { codec: self.profile.config.codec, message })
    }

    /// Whether a video unit can be decoded: it belongs to the stream's epoch,
    /// and there is a decoder.
    pub fn accepts_unit(&self, unit: &CompletedFrame) -> (r: bool)
        ensures
            r == (unit.video_epoch == self.profile.config.video_epoch && self.has_decoder),
    {
        frame_matches_profile(unit, &self.profile) && self.has_decoder
    }

    /// How long an idle thread waits for data: until the next frame is due, and
    /// no longer than the maintenance interval.
    pub fn idle_wait(&self, now: Instant) -> (wait: Duration)
        ensures
            wait.nanos == if self.playout.queued@.len() == 0 {
                MEDIA_MAINTENANCE_INTERVAL_NANOS as int
            } else {
                crate::time::min_int(
                    self.playout.queued@[0].present_at.since(now).nanos as int,
                    MEDIA_MAINTENANCE_INTERVAL_NANOS as int,
                )
            },
    {
        let longest = Duration::from_nanos(MEDIA_MAINTENANCE_INTERVAL_NANOS);
        match self.playout.next_present_delay(now) {
            Some(until) => until.min(longest),
            None => longest,
        }
    }

    /// What presentation works on, with `shown` as the frame that is painted.
    pub open spec fn stage(self, shown: VideoFrameBuffer) -> Stage {
        Stage {
            queue: self.playout.queued@,
            last_presented: self.playout.last_presented_frame_id,
            kept: self.recycled_frames@,
            shown,
            pacer: self.repaint_pacer,
        }
    }

    /// Presents what is due while no data has come in.
    pub fn present_when_idle(&mut self, shown: &mut VideoFrameBuffer, now: Instant) -> (presented:
        Presented)
        requires
            old(self).consistent(),
        ensures
            final(self).consistent(),
            (final(self).stage(*final(shown)), presented.repaint, presented.dropped as nat) == old(
                self,
            ).stage(*old(shown)).presented(false, now, old(self).settings.platform),
            *final(self) == (ReceivePipeline {
                playout: VideoPlayoutBuffer {
                    queued: final(self).playout.queued,
                    last_presented_frame_id: final(self).playout.last_presented_frame_id,
                    ..old(self).playout
                },
                recycled_frames: final(self).recycled_frames,
                repaint_pacer: final(self).repaint_pacer,
                ..*old(self)
            }),
    {
        proof {
            self.stage(*shown).presenting_keeps_few_buffers(false, now, self.settings.platform);
        }
        present_due_video_frames(
            &mut self.playout,
            &mut self.recycled_frames,
            shown,
            &mut self.repaint_pacer,
            false,
            now,
            self.settings.platform,
        )
    }

    /// Takes in what the decoder said of one unit. Returns whether to ask the
    /// server for a keyframe.
    pub fn after_decode(
        &mut self,
        batch: &mut DecodeBatch,
        unit: &PendingUnit,
        decoded: DecodedUnit,
        start_mono: u64,
        done_mono: u64,
        now: Instant,
    ) -> (send_keyframe_request: bool)
        ensures
            ({
                let ask = decoded.waiting_for_recovery || decoded.dropped_stale_output;
                &&& send_keyframe_request == (ask && old(self).keyframes.allowed(now))
                &&& *final(self) == (ReceivePipeline {
                    keyframes: if ask {
                        old(self).keyframes.asked(now)
                    } else {
                        old(self).keyframes
                    },
                    ..*old(self)
                })
            }),
            *final(batch) == if decoded.produced_frame {
                DecodeBatch {
                    produced_frame: true,
                    latest_timing: Some(timing_of(*unit, decoded, start_mono, done_mono)),
                }
            } else {
                *old(batch)
            },
    {
        let mut send = false;
        if decoded.waiting_for_recovery {
            send = self.keyframes.request_recovery_keyframe(now);
        }
        if decoded.dropped_stale_output {
            let again = self.keyframes.request_recovery_keyframe(now);
            send = send || again;
        }
        if decoded.produced_frame {
            let frame_id: u32 = match decoded.frame_id {
                Some(id) => id,
                None => unit.unit.frame_id,
            };
            batch.produced_frame = true;
            batch.latest_timing = Some(
                FrameDebugTiming {
                    frame_id,
                    server_capture_micros: unit.unit.timing.capture_ts_micros,
                    server_send_micros: unit.unit.timing.send_ts_micros,
                    client_assembled_micros: unit.assembled_micros,
                    client_assembled_mono: unit.assembled_mono,
                    client_decode_start_mono: start_mono,
                    client_decode_done_mono: done_mono,
                },
            );
        }
        send
    }

    /// Deals with a failure of the decoder: a hardware decoder is replaced by a
    /// software one, once; any other failure ends the thread.
    pub fn on_decode_error(
        &mut self,
        hardware_accelerated: bool,
        error: String,
        now: Instant,
    ) -> (actions: DecodeErrorActions)
        requires
            old(self).consistent(),
        ensures
            final(self).consistent(),
            if hardware_accelerated && !old(self).attempted_software_fallback {
                &&& actions == (DecodeErrorActions::FallBack {
                    request: DecoderBuildRequest {
                        token: old(self).profile.next_token(),
                        mode: DecoderBuildMode::Software,
                    },
                    send_keyframe_request: old(self).keyframes.allowed(now),
                })
                &&& final(self).profile == old(self).profile.building(now)
                &&& final(self).keyframes == old(self).keyframes.asked(now)
                &&& !final(self).has_decoder
                &&& final(self).attempted_software_fallback
                &&& final(self).playout.is_fresh(
                    old(self).profile.config.framerate,
                    old(self).settings,
                )
                &&& final(self).playout.queued@.len() == 0
                &&& final(self).playout.last_scheduled_at is None
                &&& final(self).playout.last_presented_frame_id is None
                &&& final(self).recycled_frames@ == pacing::with_all_recycled(
                    old(self).recycled_frames@,
                    old(self).queued_frames(),
                    old(self).settings.platform,
                )
                &&& final(self).decoded_frame.is_blank()
                &&& final(self).repaint_pacer == old(self).repaint_pacer
                &&& final(self).settings == old(self).settings
            } else {
                &&& actions matches DecodeErrorActions::Fail(failure)
                &&& failure.codec == old(self).profile.config.codec
                &&& failure.message@ == fatal_decode_message(error@)
                &&& *final(self) == *old(self)
            },
    {
        if hardware_accelerated && !self.attempted_software_fallback {
            self.attempted_software_fallback = true;
            self.drop_decoded_video();
            self.has_decoder = false;
            let token = self.profile.begin_rebuild(now);
            let send_keyframe_request = self.keyframes.request_recovery_keyframe(now);
            DecodeErrorActions::FallBack {
                request: DecoderBuildRequest { token, mode: DecoderBuildMode::Software },
                send_keyframe_request,
            }
        } else {
            let mut message = "fatal runtime decode failure: ".to_owned();
            message.append(error.as_str());
            DecodeErrorActions::Fail(
                VideoProfileError { codec: self.profile.config.codec, message },
            )
        }
    }

    /// The pipeline after a frame has been queued at `now`, and whether that
    /// dropped one.
    pub open spec fn queues(self, frame: VideoFrameBuffer, now: Instant) -> (
        Seq<QueuedVideoFrame>,
        Option<VideoFrameBuffer>,
    ) {
        let entry = QueuedVideoFrame {
            present_at: self.playout.observed(now).schedule(now),
            frame_id: frame.id(),
            frame,
        };
        let longer = self.playout.queued@.push(entry);
        if self.playout.refuses(frame.id()) {
            (self.playout.queued@, Some(frame))
        } else if longer.len() > self.playout.capacity() {
            (longer.skip(1), Some(longer[0].frame))
        } else {
            (longer, None)
        }
    }

    /// Queues the frame that a batch has produced, and presents what is due.
    pub fn finish_batch(
        &mut self,
        latest_timing: Option<FrameDebugTiming>,
        shown: &mut VideoFrameBuffer,
        now: Instant,
    ) -> (actions: FrameActions)
        requires
            old(self).consistent(),
        ensures
            final(self).consistent(),
            final(self).profile == (VideoProfileState {
                output_seen: true,
                output_deadline: None,
                ..old(self).profile
            }),
            actions.started == if old(self).profile.output_seen {
                None
            } else {
                Some(
                    VideoDecodeProgress {
                        video_epoch: old(self).profile.config.video_epoch,
                        profile: profile::profile_of(old(self).profile.config),
                    },
                )
            },
            final(self).keyframes == old(self).keyframes,
            final(self).has_decoder == old(self).has_decoder,
            final(self).attempted_software_fallback == old(self).attempted_software_fallback,
            final(self).settings == old(self).settings,
            ({
                let frame = VideoFrameBuffer {
                    debug_timing: latest_timing,
                    ..old(self).decoded_frame
                };
                let before = old(self).playout;
                let observed = before.observed(now);
                let refused = before.refuses(frame.id());
                let (queue, dropped) = old(self).queues(frame, now);
                let spare = old(self).recycled_frames@;
                let taken = if spare.len() > 0 {
                    spare.drop_last()
                } else {
                    spare
                };
                let stage = Stage {
                    queue,
                    kept: match dropped {
                        Some(frame) => pacing::with_recycled(
                            taken,
                            frame,
                            old(self).settings.platform,
                        ),
                        None => taken,
                    },
                    ..old(self).stage(*old(shown))
                };
                &&& if spare.len() > 0 {
                    final(self).decoded_frame == spare.last()
                } else {
                    final(self).decoded_frame.is_blank()
                }
                &&& actions.queue_dropped == (dropped is Some)
                &&& (
                    final(self).stage(*final(shown)),
                    actions.presented.repaint,
                    actions.presented.dropped as nat,
                ) == stage.presented(true, now, old(self).settings.platform)
                &&& final(self).playout == if refused {
                    VideoPlayoutBuffer {
                        queued: final(self).playout.queued,
                        last_presented_frame_id: final(self).playout.last_presented_frame_id,
                        ..before
                    }
                } else {
                    VideoPlayoutBuffer {
                        queued: final(self).playout.queued,
                        last_presented_frame_id: final(self).playout.last_presented_frame_id,
                        last_scheduled_at: Some(observed.schedule(now)),
                        ..observed
                    }
                }
            }),
    {
        let first = self.profile.note_output();
        let started = if first {
            Some(self.profile.progress())
        } else {
            None
        };
        self.decoded_frame.debug_timing = latest_timing;
        let mut queued_frame = match self.recycled_frames.pop() {
            Some(frame) => frame,
            None => VideoFrameBuffer::default(),
        };
        std::mem::swap(&mut queued_frame, &mut self.decoded_frame);
        let dropped = self.playout.enqueue(queued_frame, now);
        let queue_dropped = dropped.is_some();
        if let Some(frame) = dropped {
            recycle_video_frame(&mut self.recycled_frames, frame, self.settings.platform);
        }
        proof {
            self.stage(*shown).presenting_keeps_few_buffers(true, now, self.settings.platform);
        }
        let presented = present_due_video_frames(
            &mut self.playout,
            &mut self.recycled_frames,
            shown,
            &mut self.repaint_pacer,
            true,
            now,
            self.settings.platform,
        );
        FrameActions { started, queue_dropped, presented }
    }
}

} // verus!
