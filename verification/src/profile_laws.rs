//! What holds of a stream whose configuration changes while it runs.
use crate::profile;
use crate::profile::{
    DecoderBuildRequest, DecoderBuildToken, DecoderBuilderState, VideoDecodeProgress,
    VideoProfileState, VideoProfileUpdate,
};
use crate::protocol::StreamConfig;
use crate::time::Instant;
use vstd::prelude::*;

verus! {

/// A decoder that fits one stream does not fit another of another codec, chroma, dynamic
/// range or size.
pub open spec fn same_picture(a: StreamConfig, b: StreamConfig) -> bool {
    a.codec == b.codec && a.chroma == b.chroma && a.hdr == b.hdr && a.width == b.width && a.height
        == b.height
}

/// A change of codec, chroma, dynamic range, width or height replaces the decoder, and
/// nothing else does.
pub proof fn another_picture_needs_another_decoder(current: StreamConfig, next: StreamConfig)
    ensures
        current.codec != next.codec || current.chroma != next.chroma || current.hdr != next.hdr
            || current.width != next.width || current.height != next.height
            <==> profile::update_between(current, next) == VideoProfileUpdate::ReplaceDecoder,
{
}

/// The same picture in another epoch is a break in the stream; in the same epoch a change
/// of the frame rate is only that; and what concerns the sound alone changes nothing.
pub proof fn the_same_picture_keeps_the_decoder(current: StreamConfig, next: StreamConfig)
    requires
        same_picture(current, next),
    ensures
        current.video_epoch != next.video_epoch <==> profile::update_between(current, next)
            == VideoProfileUpdate::EpochReset,
        current.video_epoch == next.video_epoch && current.framerate != next.framerate
            <==> profile::update_between(current, next) == VideoProfileUpdate::FrameRateOnly,
        current.video_epoch == next.video_epoch && current.framerate == next.framerate
            <==> profile::update_between(current, next) == VideoProfileUpdate::Unchanged,
{
}

/// When the picture changes, the decoder is dropped and one is asked for that fits the
/// new stream in every respect. Its frames have five seconds.
pub proof fn another_picture_is_built_for(
    state: VideoProfileState,
    next: StreamConfig,
    now: Instant,
)
    requires
        !same_picture(state.config, next),
        now.nanos + 5_000_000_000 <= u64::MAX,
    ensures
        state.needs_build(next),
        ({
            let after = state.applied(next, now);
            &&& after.config == next
            &&& after.installed_profile is None
            &&& !after.output_seen
            &&& after.output_deadline matches Some(at) && at.nanos == now.nanos + 5_000_000_000
            &&& after.pending_build matches Some(token) && token.profile.codec == next.codec
                && token.profile.chroma == next.chroma && token.profile.hdr == next.hdr
                && token.profile.width == next.width && token.profile.height == next.height
                && token.video_epoch == next.video_epoch && token.generation == after.generation
                && token.generation != state.generation
        }),
{
}

/// In a new epoch with the same picture, the decoder that is installed stays, and its
/// frames have five seconds; where one is still being built, another build is asked for.
pub proof fn new_epochs_keep_the_installed_decoder(
    state: VideoProfileState,
    next: StreamConfig,
    now: Instant,
)
    requires
        state.consistent(),
        same_picture(state.config, next),
        state.config.video_epoch != next.video_epoch,
        now.nanos + 5_000_000_000 <= u64::MAX,
    ensures
        state.pending_build is Some <==> state.needs_build(next),
        ({
            let after = state.applied(next, now);
            &&& after.config == next
            &&& !after.output_seen
            &&& after.output_deadline matches Some(at) && at.nanos == now.nanos + 5_000_000_000
            &&& state.pending_build is None ==> after.pending_build is None
                && after.installed_profile == state.installed_profile && after.generation
                == state.generation
            &&& state.pending_build is Some ==> (after.pending_build matches Some(token)
                && token.video_epoch == next.video_epoch && token.generation != state.generation)
        }),
{
}

/// A change of the frame rate, and one that does not concern the picture, is adopted and
/// disturbs nothing.
pub proof fn lesser_changes_disturb_nothing(
    state: VideoProfileState,
    next: StreamConfig,
    now: Instant,
)
    requires
        same_picture(state.config, next),
        state.config.video_epoch == next.video_epoch,
    ensures
        !state.needs_build(next),
        state.applied(next, now) == (VideoProfileState { config: next, ..state }),
{
}

/// A build or a report belongs to a stream if epoch, codec, chroma, dynamic range and
/// size are those of the stream, and only then.
pub proof fn builds_belong_to_one_stream(
    token: DecoderBuildToken,
    progress: VideoDecodeProgress,
    config: StreamConfig,
)
    ensures
        token.fits(config) <==> token.video_epoch == config.video_epoch && token.profile.codec
            == config.codec && token.profile.chroma == config.chroma && token.profile.hdr
            == config.hdr && token.profile.width == config.width && token.profile.height
            == config.height,
        progress.fits(config) <==> progress.video_epoch == config.video_epoch
            && progress.profile.codec == config.codec && progress.profile.chroma == config.chroma
            && progress.profile.hdr == config.hdr && progress.profile.width == config.width
            && progress.profile.height == config.height,
{
}

/// A build is accepted only while it is the one that was asked for last and fits the
/// stream as it is now.
pub proof fn only_the_awaited_build_is_accepted(state: VideoProfileState, token: DecoderBuildToken)
    ensures
        state.expects(token) ==> state.pending_build == Some(token) && token.video_epoch
            == state.config.video_epoch && token.profile.codec == state.config.codec
            && token.profile.width == state.config.width && token.profile.height
            == state.config.height && token.profile.chroma == state.config.chroma
            && token.profile.hdr == state.config.hdr,
        state.consistent() && state.pending_build == Some(token) ==> state.expects(token),
        state.pending_build is None ==> !state.expects(token),
{
}

/// A decoder counts as silent when its frames are not there at their deadline, and only
/// where there is one.
pub proof fn silence_is_measured_by_the_deadline(state: VideoProfileState, now: Instant)
    ensures
        state.overdue(now) <==> !state.output_seen && (state.output_deadline matches Some(at)
            && at.nanos <= now.nanos),
{
}

/// In a consistent state the decoder fits the stream, or one that fits is being built.
pub proof fn decoders_fit_their_stream(state: VideoProfileState)
    requires
        state.consistent(),
    ensures
        state.pending_build is None ==> (state.installed_profile matches Some(p) && p.codec
            == state.config.codec && p.chroma == state.config.chroma && p.hdr == state.config.hdr
            && p.width == state.config.width && p.height == state.config.height),
        state.pending_build matches Some(token) ==> state.installed_profile is None
            && token.generation == state.generation && token.video_epoch
            == state.config.video_epoch && token.profile.codec == state.config.codec
            && token.profile.width == state.config.width && token.profile.height
            == state.config.height,
{
}

/// Adopting a configuration keeps the state consistent.
pub proof fn consistency_survives_changes(
    state: VideoProfileState,
    next: StreamConfig,
    now: Instant,
)
    requires
        state.consistent(),
    ensures
        state.applied(next, now).consistent(),
        state.applied(next, now).config == next,
{
}

/// Each build has a number of its own: the next one after that of the last.
pub proof fn builds_are_numbered(state: VideoProfileState)
    ensures
        state.generation < u64::MAX ==> state.next_token().generation == state.generation + 1,
        state.generation == u64::MAX ==> state.next_token().generation == 0,
        state.next_token().fits(state.config),
{
}

/// The builder's thread takes up the latest request once, and forgets what was asked
/// before it and what came of that.
pub proof fn the_latest_request_is_taken_up<D>(
    before: DecoderBuilderState<D>,
    request: DecoderBuildRequest,
)
    ensures
        before.requested(request).latest == Some(request.token),
        before.requested(request).pending == Some(request),
        before.requested(request).completed is None,
        before.requested(request).shutdown == before.shutdown,
        !before.shutdown ==> before.requested(request).stepped().pending is None,
        !before.shutdown ==> before.requested(request).stepped().latest == Some(request.token),
        before.shutdown ==> before.stepped() == before,
{
}

/// A builder that has been shut down delivers nothing more.
pub proof fn closed_builders_deliver_nothing<D>(
    builder: DecoderBuilderState<D>,
    request: DecoderBuildRequest,
    result: Result<D, String>,
)
    requires
        builder.shutdown,
    ensures
        builder.finished(request, result) == builder,
{
}

/// In a new epoch with the same picture another decoder is needed where one is being built,
/// and where none that fits is installed; otherwise not.
pub proof fn new_epochs_need_a_fitting_decoder(state: VideoProfileState, next: StreamConfig)
    requires
        same_picture(state.config, next),
        state.config.video_epoch != next.video_epoch,
    ensures
        state.pending_build is Some ==> state.needs_build(next),
        state.installed_profile is None ==> state.needs_build(next),
        state.installed_profile matches Some(p) ==> (p.codec != next.codec || p.chroma
            != next.chroma || p.hdr != next.hdr || p.width != next.width || p.height
            != next.height ==> state.needs_build(next)),
        state.pending_build is None ==> (state.installed_profile matches Some(p) ==> (p.codec
            == next.codec && p.chroma == next.chroma && p.hdr == next.hdr && p.width
            == next.width && p.height == next.height ==> !state.needs_build(next))),
{
}

} // verus!
