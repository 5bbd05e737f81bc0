//! What holds of a frame on its way from the decoder to the screen.
use crate::cursors;
use crate::cursors::RemoteCursors;
use crate::dmabuf;
use crate::dmabuf::{DmaBufCapabilities, Holdings, ImportStep, PlaneFormat};
use crate::frames::{LinuxDmaBufFormat, LinuxDmaBufPlane, Platform, VideoFormat, VideoFrameBuffer};
use crate::gl_video;
use crate::gl_video::{NativeVideoTexture, PboRing, StageStep, UploadWork, YuvPipeline};
use crate::home;
use crate::pacing;
use crate::pacing::{RecoveryKeyframes, Repaint, RepaintPacer, Stage};
use crate::pipeline;
use crate::pipeline::{DecodedUnit, PendingUnit, ReceivePipeline};
use crate::playout;
use crate::presenters::{
    DrawWork, LinuxDirectVideoPresenter, MacosDirectVideoPresenter, MacosMetalVideoPresenter,
};
use crate::server_laws;
use crate::settings;
use crate::text;
use crate::time::{Duration, Instant};
use crate::video_texture::{Presenters, VideoTexture};
use crate::videotoolbox;
use crate::wgpu_video;
use crate::wgpu_video::{DmaBufSupportState, FrameShape, PipelineState, WgpuVideoTexture};
use vstd::prelude::*;
use vstd::string::*;

verus! {

/// A repaint is asked for at once for the first frame and where no rate limits it; otherwise
/// when an interval has passed since the last, and no later.
pub proof fn repaints_keep_the_rate(pacer: RepaintPacer, now: Instant)
    ensures
        pacer.min_interval is None || pacer.last_request is None ==> pacer.paced(now)
            == Repaint::Now,
        pacer.min_interval matches Some(step) ==> (pacer.last_request matches Some(last) ==> {
            &&& now.nanos >= last.nanos + step.nanos ==> pacer.paced(now) == Repaint::Now
            &&& last.nanos <= now.nanos < last.nanos + step.nanos ==> (
            pacer.paced(now) matches Repaint::After(wait) && now.nanos + wait.nanos == last.nanos
                + step.nanos)
        }),
{
}

/// A frame needs no repaint of its own while one is pending, unless it is to be shown at once
/// and the pending one is not.
pub proof fn pending_repaints_suffice(
    pacer: RepaintPacer,
    immediate: bool,
    pending: bool,
    now: Instant,
)
    ensures
        ({
            let (repaint, after) = pacer.video_request(immediate, pending, now);
            let suffices = pending && (!immediate || pacer.immediate_pending);
            &&& suffices ==> repaint == Repaint::No && after == pacer
            &&& !suffices ==> repaint != Repaint::No
            &&& !suffices && immediate ==> repaint == Repaint::Now && after.last_request == Some(
                now,
            ) && after.immediate_pending
            &&& !suffices && !immediate ==> repaint == pacer.paced(now) && !after.immediate_pending
            &&& !suffices && !immediate && repaint == Repaint::Now ==> after.last_request == Some(
                now,
            )
            &&& !suffices && !immediate && repaint != Repaint::Now ==> after.last_request
                == pacer.last_request
            &&& after.min_interval == pacer.min_interval
        }),
{
}

/// The interval of a display is a second divided by its rate, to the nearest nanosecond.
pub proof fn refresh_intervals_divide_the_second(millihz: u32)
    ensures
        pacing::refresh_interval_of(None) is None,
        pacing::refresh_interval_of(Some(0)) is None,
        millihz > 0 ==> (pacing::refresh_interval_of(Some(millihz)) matches Some(step) && -millihz
            <= 2 * (step.nanos * millihz - 1_000_000_000_000) <= millihz),
{
    if millihz > 0 {
        let d = millihz as int;
        crate::time::nearest_is_nearest(1_000_000_000_000, d);
        let q = crate::time::nearest(1_000_000_000_000, d);
        let r = 1_000_000_000_000int / d;
        assert(0 <= r <= 1_000_000_000_000) by (nonlinear_arith)
            requires
                d >= 1,
                r == 1_000_000_000_000int / d,
        ;
        assert(0 <= q <= u64::MAX);
    }
}

/// A keyframe is asked for at most four times a second.
pub proof fn keyframes_are_asked_for_rarely(limiter: RecoveryKeyframes, now: Instant)
    ensures
        limiter.last_request is None ==> limiter.allowed(now),
        limiter.last_request matches Some(last) ==> (limiter.allowed(now) <==> now.nanos
            >= last.nanos + 250_000_000),
        limiter.allowed(now) ==> limiter.asked(now).last_request == Some(now),
        !limiter.allowed(now) ==> limiter.asked(now) == limiter,
{
}

/// A frame's buffer is kept for another frame with its memory, but not as a new picture;
/// on macOS it lets go of the decoder's surface. No more than three are kept.
pub proof fn buffers_are_kept(
    kept: Seq<VideoFrameBuffer>,
    frame: VideoFrameBuffer,
    platform: Platform,
)
    ensures
        kept.len() >= 3 ==> pacing::with_recycled(kept, frame, platform) == kept,
        kept.len() < 3 ==> {
            let after = pacing::with_recycled(kept, frame, platform);
            &&& after.len() == kept.len() + 1
            &&& kept == after.drop_last()
            &&& !after.last().dirty
            &&& after.last().plane0 == frame.plane0 && after.last().plane1 == frame.plane1
                && after.last().plane2 == frame.plane2
            &&& after.last().width == frame.width && after.last().height == frame.height
            &&& platform == Platform::Macos ==> after.last().videotoolbox is None
                && after.last().dmabuf is None && after.last().d3d11 is None
            &&& platform != Platform::Macos ==> after.last().videotoolbox == frame.videotoolbox
                && after.last().dmabuf == frame.dmabuf && after.last().d3d11 == frame.d3d11
        },
{
    if kept.len() < 3 {
        assert(pacing::with_recycled(kept, frame, platform).drop_last() =~= kept);
    }
}

/// Buffers are kept one after the other, in order, as long as there is room.
pub proof fn buffers_are_kept_in_order(
    kept: Seq<VideoFrameBuffer>,
    frames: Seq<VideoFrameBuffer>,
    next: VideoFrameBuffer,
    platform: Platform,
)
    ensures
        pacing::with_all_recycled(kept, Seq::empty(), platform) == kept,
        pacing::with_all_recycled(kept, frames.push(next), platform) == pacing::with_recycled(
            pacing::with_all_recycled(kept, frames, platform),
            next,
            platform,
        ),
{
    assert(frames.push(next).drop_last() =~= frames);
}

/// What is presented is shown, marked as new, and painted; the frame before it is kept for
/// its buffer. Where nothing is due, what is shown stays and nothing is painted.
pub proof fn presented_frames_are_shown(
    stage: Stage,
    immediate: bool,
    now: Instant,
    platform: Platform,
)
    ensures
        ({
            let count = playout::due_count(stage.queue, now) as int;
            let (present, dropped, last) = playout::settle(
                stage.queue.take(count),
                stage.last_presented,
            );
            let (after, repaint, skipped) = stage.presented(immediate, now, platform);
            &&& after.queue == stage.queue.skip(count)
            &&& after.last_presented == last
            &&& skipped == dropped.len()
            &&& present is None ==> after.shown == stage.shown && after.pacer == stage.pacer
                && repaint == Repaint::No
            &&& present matches Some(frame) ==> after.shown.dirty && after.shown.plane0
                == frame.plane0 && after.shown.plane1 == frame.plane1 && after.shown.plane2
                == frame.plane2 && after.shown.width == frame.width && after.shown.height
                == frame.height && after.shown.format == frame.format
                && after.shown.debug_timing == frame.debug_timing && after.shown.dmabuf
                == frame.dmabuf && after.shown.videotoolbox == frame.videotoolbox
                && after.shown.d3d11 == frame.d3d11
            &&& present is Some ==> (repaint, after.pacer) == stage.pacer.video_request(
                immediate,
                stage.shown.dirty,
                now,
            )
        }),
{
}

/// What is known of a frame's way: when the server captured and sent it, when it was
/// complete here, and when it was decoded. The decoder's number for it comes before the
/// stream's.
pub proof fn timings_come_from_their_sources(
    unit: PendingUnit,
    decoded: DecodedUnit,
    start: u64,
    done: u64,
)
    ensures
        ({
            let timing = pipeline::timing_of(unit, decoded, start, done);
            &&& decoded.frame_id matches Some(id) ==> timing.frame_id == id
            &&& decoded.frame_id is None ==> timing.frame_id == unit.unit.frame_id
            &&& timing.server_capture_micros == unit.unit.timing.capture_ts_micros
            &&& timing.server_send_micros == unit.unit.timing.send_ts_micros
            &&& timing.client_assembled_micros == unit.assembled_micros
            &&& timing.client_assembled_mono == unit.assembled_mono
            &&& timing.client_decode_start_mono == start
            &&& timing.client_decode_done_mono == done
        }),
{
}

/// A decoded frame is queued behind the others under its number and for its time. One that
/// is behind the stream is dropped itself; where the queue is full, the oldest is.
pub proof fn decoded_frames_are_queued(p: ReceivePipeline, frame: VideoFrameBuffer, now: Instant)
    ensures
        ({
            let (queue, dropped) = p.queues(frame, now);
            let before = p.playout.queued@;
            &&& p.playout.refuses(frame.id()) ==> queue == before && dropped == Some(frame)
            &&& !p.playout.refuses(frame.id()) ==> {
                &&& queue.len() > 0
                &&& queue.last().frame == frame
                &&& queue.last().frame_id == frame.id()
                &&& queue.last().present_at == p.playout.observed(now).schedule(now)
                &&& before.len() + 1 <= p.playout.capacity() ==> queue.drop_last() == before
                    && dropped is None
                &&& before.len() + 1 > p.playout.capacity() && before.len() > 0 ==> queue.drop_last()
                    == before.skip(1) && dropped == Some(before[0].frame)
            }
        }),
{
    let (queue, dropped) = p.queues(frame, now);
    let before = p.playout.queued@;
    if !p.playout.refuses(frame.id()) {
        if before.len() + 1 <= p.playout.capacity() {
            assert(queue.drop_last() =~= before);
        } else if before.len() > 0 {
            assert(queue.drop_last() =~= before.skip(1));
        }
    }
}

/// A frame's number is the one that it was decoded under.
pub proof fn frames_have_numbers(frame: VideoFrameBuffer)
    ensures
        frame.debug_timing matches Some(timing) ==> frame.id() == Some(timing.frame_id),
        frame.debug_timing is None ==> frame.id() is None,
{
}

/// A layout is linear if it says so, or says nothing.
pub proof fn linear_layouts(modifier: u64)
    ensures
        dmabuf::linear(modifier) <==> modifier == 0 || modifier == 0x00ff_ffff_ffff_ffff,
{
}

/// Brightness is one byte a pixel; the colours of NV12 come in pairs in one plane, those of
/// the other formats in two.
pub proof fn planes_have_formats(index: nat, format: LinuxDmaBufFormat)
    ensures
        dmabuf::import_format(0, format) == Some(PlaneFormat::R8Unorm),
        dmabuf::import_format(1, LinuxDmaBufFormat::Nv12) == Some(PlaneFormat::Rg8Unorm),
        index >= 2 ==> dmabuf::import_format(index, LinuxDmaBufFormat::Nv12) is None,
        format != LinuxDmaBufFormat::Nv12 ==> dmabuf::import_format(index, format) == Some(
            PlaneFormat::R8Unorm,
        ),
        dmabuf::plane_count(LinuxDmaBufFormat::Nv12) == 2,
        format != LinuxDmaBufFormat::Nv12 ==> dmabuf::plane_count(format) == 3,
        dmabuf::same_format(LinuxDmaBufFormat::Nv12) == VideoFormat::Nv12,
        dmabuf::same_format(LinuxDmaBufFormat::Yuv420p8) == VideoFormat::Yuv420p8,
        dmabuf::same_format(LinuxDmaBufFormat::Yuv444p8) == VideoFormat::Yuv444p8,
{
}

/// A device can import frames if it names both extensions, and only then; and frames are
/// imported if it offers everything.
pub proof fn imports_need_both_extensions(extensions: Vec<String>, caps: DmaBufCapabilities)
    ensures
        dmabuf::imports_frames(Some(extensions)) <==> (exists|i: int|
            0 <= i < extensions@.len() && (#[trigger] extensions@[i])@
                == "VK_KHR_external_memory_fd"@) && (exists|i: int|
            0 <= i < extensions@.len() && (#[trigger] extensions@[i])@
                == "VK_EXT_external_memory_dma_buf"@),
        !dmabuf::imports_frames(None),
        caps.supported() <==> caps.is_vulkan && caps.external_memory_fd
            && caps.external_memory_dma_buf,
{
}

/// A buffer is described by its size, format, descriptor, place and pitch, in pairs, and by
/// its layout where that is not linear; the list is closed.
pub proof fn buffers_are_described(plane: LinuxDmaBufPlane)
    ensures
        ({
            let list = dmabuf::image_attribs(plane);
            &&& dmabuf::linear(plane.modifier) ==> list.len() == 13
            &&& !dmabuf::linear(plane.modifier) ==> list.len() == 17 && list[12] == 0x3443
                && list[13] == plane.modifier % 0x1_0000_0000 && list[14] == 0x3444 && list[15]
                == plane.modifier / 0x1_0000_0000
            &&& list[0] == 0x3057 && list[1] == plane.width
            &&& list[2] == 0x3056 && list[3] == plane.height
            &&& list[4] == 0x3271 && list[5] == plane.drm_format
            &&& list[6] == 0x3272 && (plane.fd >= 0 ==> list[7] == plane.fd)
            &&& list[8] == 0x3273 && list[9] == plane.offset
            &&& list[10] == 0x3274 && list[11] == plane.pitch
            &&& list.last() == 0x3038
        }),
{
}

/// A texture shows a frame once it has a size, and an image of its own or a presenter's.
pub proof fn textures_show_frames<Id: Copy>(
    t: NativeVideoTexture<Id>,
    w: WgpuVideoTexture<Id>,
    presented: bool,
)
    ensures
        t.shows(presented) <==> t.width > 0 && t.height > 0 && (presented || t.texture_id is Some),
        t.cleared() == (NativeVideoTexture { width: 0, height: 0, ..t }),
        w.shows() <==> w.width > 0 && w.height > 0 && w.texture_id is Some,
        w.cleared() == (WgpuVideoTexture { width: 0, height: 0, ..w }),
{
}

/// A frame has a surface of the platform's own kind, or none.
pub proof fn surfaces_are_of_the_platform(video: VideoFrameBuffer)
    ensures
        gl_video::has_surface(Platform::Linux, video) == (video.dmabuf is Some),
        gl_video::has_surface(Platform::Macos, video) == (video.videotoolbox is Some),
        gl_video::has_surface(Platform::Windows, video) == (video.d3d11 is Some),
        !gl_video::has_surface(Platform::Other, video),
{
}

/// A surface is offered to the presenter with a view of its own where there is one at work
/// that has not refused it; then to the one inside the window; and uploaded otherwise.
pub proof fn surfaces_are_offered<Id: Copy>(
    t: NativeVideoTexture<Id>,
    video: VideoFrameBuffer,
    native: Option<bool>,
    direct: Option<bool>,
    refused: bool,
)
    ensures
        ({
            let step = t.staging(video, native, direct, refused);
            let usable = t.surface_supported && gl_video::has_surface(t.platform, video);
            let own_view = native == Some(true) && !refused && (t.platform == Platform::Macos || (
            t.platform == Platform::Windows && t.windows_overlayless_preferred));
            &&& step == StageStep::Native <==> usable && own_view
            &&& step == StageStep::Direct <==> usable && !own_view && direct == Some(true)
            &&& step == StageStep::Decline <==> !usable || (!own_view && direct != Some(true))
        }),
{
}

/// An upload begins with an output texture and ends with the frame in it: drawn from its
/// surface, copied, or converted from its planes. What is missing for that is made between.
pub proof fn uploads_end_with_the_frame<Id: Copy>(
    t: NativeVideoTexture<Id>,
    video: VideoFrameBuffer,
    work: UploadWork,
)
    ensures
        ({
            let plan = t.plan(video);
            let surface = gl_video::has_surface(t.platform, video);
            let resize = t.width != video.width || t.height != video.height;
            &&& plan.len() >= 2
            &&& plan[0] == (UploadWork::Output { resize: resize && !(surface && t.platform
                == Platform::Windows) })
            &&& surface ==> plan.last() == UploadWork::Import
            &&& !surface && video.format == VideoFormat::Rgba8 ==> plan.last() == UploadWork::Rgba
                && plan.len() == 2
            &&& !surface && video.format != VideoFormat::Rgba8 ==> plan.last()
                == UploadWork::Planes
            &&& surface && !t.importer ==> plan[1] == UploadWork::Importer
            &&& !surface && video.format != VideoFormat::Rgba8 && !t.yuv_pipeline ==> plan
                == seq![plan[0], UploadWork::YuvPipeline, UploadWork::Planes]
            &&& !surface && video.format != VideoFormat::Rgba8 && t.yuv_pipeline ==> plan.len()
                == 2
            &&& surface && t.platform == Platform::Linux && !t.yuv_pipeline ==> plan[plan.len() - 2]
                == UploadWork::YuvPipeline
            &&& surface && t.platform == Platform::Macos && !t.rect_pipeline ==> plan[plan.len()
                - 2] == UploadWork::RectPipeline
        }),
{
    let plan = t.plan(video);
    if !gl_video::has_surface(t.platform, video) && video.format != VideoFormat::Rgba8
        && !t.yuv_pipeline {
        assert(plan =~= seq![plan[0], UploadWork::YuvPipeline, UploadWork::Planes]);
    }
}

/// A piece of work that is done is there; the last gives the texture the frame's size. Where
/// drawing a surface fails, what imports it is made again; and only such a failure is the
/// surface's fault.
pub proof fn done_work_is_remembered<Id: Copy>(
    t: NativeVideoTexture<Id>,
    video: VideoFrameBuffer,
    resize: bool,
)
    ensures
        t.after_done(UploadWork::Output { resize }, video) == t,
        t.after_done(UploadWork::Importer, video) == (NativeVideoTexture { importer: true, ..t }),
        t.after_done(UploadWork::YuvPipeline, video) == (NativeVideoTexture {
            yuv_pipeline: true,
            ..t
        }),
        t.after_done(UploadWork::RectPipeline, video) == (NativeVideoTexture {
            rect_pipeline: true,
            ..t
        }),
        forall|work: UploadWork|
            work == UploadWork::Import || work == UploadWork::Rgba || work == UploadWork::Planes
                ==> (#[trigger] t.after_done(work, video)) == (NativeVideoTexture {
                width: video.width,
                height: video.height,
                ..t
            }),
        !t.after_failed(UploadWork::Import).importer,
        !t.after_failed(UploadWork::RectPipeline).importer,
        t.after_failed(UploadWork::Rgba) == t,
        t.after_failed(UploadWork::Planes) == t,
        t.after_failed(UploadWork::YuvPipeline) == t,
        gl_video::blames_surface(UploadWork::Import),
        gl_video::blames_surface(UploadWork::Importer),
        gl_video::blames_surface(UploadWork::RectPipeline),
        !gl_video::blames_surface(UploadWork::Rgba),
        !gl_video::blames_surface(UploadWork::Planes),
        !gl_video::blames_surface(UploadWork::YuvPipeline),
        !gl_video::blames_surface(UploadWork::Output { resize }),
{
}

/// Two colour planes follow the brightness, or one with both colours in it; an RGBA frame
/// has none. The shader is told which.
pub proof fn colour_planes_follow_the_format(format: VideoFormat)
    ensures
        ({
            let planes = gl_video::chroma_of(format);
            &&& format == VideoFormat::Rgba8 ==> planes.len() == 0
            &&& format == VideoFormat::Nv12 ==> planes.len() == 1 && planes[0].plane == 1
                && planes[0].interleaved
            &&& format == VideoFormat::Yuv420p8 || format == VideoFormat::Yuv444p8 ==> planes.len()
                == 2 && planes[0].plane == 1 && planes[1].plane == 2 && !planes[0].interleaved
                && !planes[1].interleaved
        }),
        gl_video::mode_of(format) == if format == VideoFormat::Nv12 {
            1int
        } else {
            0
        },
{
}

/// Textures are used again for a frame of the same format and sizes, and for no other.
pub proof fn textures_fit_one_shape(
    p: YuvPipeline,
    format: VideoFormat,
    luma: (u32, u32),
    chroma: (u32, u32),
)
    ensures
        p.made_for(format, luma, chroma) <==> p.last_format == Some(format) && p.last_luma_size
            == luma && p.last_chroma_size == chroma,
        p.after(format, luma, chroma).made_for(format, luma, chroma),
        p.after(format, luma, chroma).pbo_enabled == p.pbo_enabled,
{
}

/// Pixels go through the buffer whose turn it is, made where it is missing and enlarged
/// where it is too small.
pub proof fn pixel_buffers_take_turns(ring: PboRing, len: usize)
    requires
        ring.wf(),
    ensures
        ({
            let plan = ring.planned(len);
            &&& plan.slot == ring.current
            &&& plan.create == !ring.created@[ring.current as int]
            &&& plan.size >= len && plan.size >= ring.capacities@[ring.current as int]
            &&& plan.size == len || plan.size == ring.capacities@[ring.current as int]
        }),
        ring.wf() <==> ring.current < 3,
{
}

/// The first upload finds out whether frames can be imported: where the user has not switched
/// it off and the device offers all that is needed.
pub proof fn the_first_upload_probes<Id: Copy>(
    t: WgpuVideoTexture<Id>,
    requested: bool,
    caps: DmaBufCapabilities,
    has_buffers: bool,
)
    ensures
        t.linux && t.dmabuf_support == DmaBufSupportState::Unprobed ==> (t.probed(
            requested,
            caps,
        ).dmabuf_support == DmaBufSupportState::Enabled <==> requested && caps.is_vulkan
            && caps.external_memory_fd && caps.external_memory_dma_buf),
        t.linux && t.dmabuf_support == DmaBufSupportState::Unprobed ==> t.probed(
            requested,
            caps,
        ).dmabuf_support != DmaBufSupportState::Unprobed,
        !t.linux || t.dmabuf_support != DmaBufSupportState::Unprobed ==> t.probed(requested, caps)
            == t,
        t.imports(has_buffers) <==> t.linux && has_buffers && t.dmabuf_support
            == DmaBufSupportState::Enabled,
{
}

/// After an upload the texture has the frame's size and image; an import that failed is not
/// tried again.
pub proof fn uploads_are_noted<Id: Copy>(
    t: WgpuVideoTexture<Id>,
    id: Id,
    width: u32,
    height: u32,
    failed: bool,
)
    ensures
        ({
            let after = t.after_upload(id, width, height, failed);
            &&& after.texture_id == Some(id)
            &&& after.width == width && after.height == height
            &&& after.linux == t.linux
            &&& t.linux && failed ==> after.dmabuf_support == DmaBufSupportState::Disabled
            &&& !failed ==> after.dmabuf_support == t.dmabuf_support
        }),
{
}

/// Each plane has the texture format that its pixels need, and the shader knows the frame's.
pub proof fn layouts_follow_the_format(format: VideoFormat, imported: LinuxDmaBufFormat)
    ensures
        ({
            let layout = wgpu_video::layout_of(format);
            &&& layout.luma == if format == VideoFormat::Rgba8 {
                PlaneFormat::Rgba8Unorm
            } else {
                PlaneFormat::R8Unorm
            }
            &&& layout.chroma == if format == VideoFormat::Nv12 {
                PlaneFormat::Rg8Unorm
            } else {
                PlaneFormat::R8Unorm
            }
            &&& layout.chroma_v == PlaneFormat::R8Unorm
            &&& layout.plane1_bpp == wgpu_video::texel_bytes(layout.chroma)
            &&& layout.plane2_bpp == wgpu_video::texel_bytes(layout.chroma_v)
            &&& format == VideoFormat::Yuv420p8 || format == VideoFormat::Yuv444p8 ==> layout.mode
                == 0
            &&& format == VideoFormat::Nv12 ==> layout.mode == 1
            &&& format == VideoFormat::Rgba8 ==> layout.mode == 2
        }),
        wgpu_video::import_mode(imported) == wgpu_video::layout_of(
            dmabuf::same_format(imported),
        ).mode,
        wgpu_video::texel_bytes(PlaneFormat::R8Unorm) == 1,
        wgpu_video::texel_bytes(PlaneFormat::Rg8Unorm) == 2,
        wgpu_video::texel_bytes(PlaneFormat::Rgba8Unorm) == 4,
{
}

/// Every plane of a frame is written, each once and in order, with all its rows.
pub proof fn all_planes_are_written(shape: FrameShape)
    requires
        wgpu_video::rows_fit(shape),
    ensures
        ({
            let writes = wgpu_video::writes_of(shape);
            &&& shape.format == VideoFormat::Rgba8 ==> writes.len() == 1
            &&& shape.format == VideoFormat::Nv12 ==> writes.len() == 2
            &&& shape.format == VideoFormat::Yuv420p8 || shape.format == VideoFormat::Yuv444p8
                ==> writes.len() == 3
            &&& forall|i: int|
                0 <= i < writes.len() ==> (#[trigger] writes[i]).plane == i && writes[i].height
                    == if i == 0 {
                    shape.height
                } else {
                    shape.chroma_height
                }
            &&& writes[0].bytes_per_row == if shape.format == VideoFormat::Rgba8 {
                4 * shape.width
            } else {
                shape.width as int
            }
            &&& writes.len() > 1 ==> writes[1].bytes_per_row == if shape.format
                == VideoFormat::Nv12 {
                2 * shape.chroma_width
            } else {
                shape.chroma_width as int
            }
        }),
{
}

/// The mode goes to the shader as four bytes, the lowest first, and twelve that are zero.
pub proof fn modes_are_sent_as_bytes(mode: u32)
    ensures
        ({
            let bytes = wgpu_video::parameters(mode);
            &&& bytes.len() == 16
            &&& bytes[0] + 0x100 * bytes[1] + 0x1_0000 * bytes[2] + 0x100_0000 * bytes[3] == mode
            &&& forall|i: int| 4 <= i < 16 ==> #[trigger] bytes[i] == 0
        }),
{
}

/// Textures are bound anew for a frame of another shape, and stay bound otherwise.
pub proof fn bindings_follow_the_shape(
    s: PipelineState,
    shape: FrameShape,
    width: u32,
    height: u32,
)
    ensures
        s.planes == Some(shape) ==> s.with_planes(shape) == s,
        s.planes != Some(shape) ==> s.with_planes(shape) == (PipelineState {
            planes: Some(shape),
            bind_group: false,
            ..s
        }),
        s.with_output(width, height) == (PipelineState { output: Some((width, height)), ..s }),
        s.unbound() == (PipelineState { bind_group: false, ..s }),
        wgpu_video::at_least_one(0) == 1,
        width > 0 ==> wgpu_video::at_least_one(width) == width,
{
}

/// A presenter that is at work and has a frame makes what it needs, in order, and then draws.
/// One that fails stops for good; the others go on.
pub proof fn presenters_draw<F>(
    linux: LinuxDirectVideoPresenter<F>,
    macos: MacosDirectVideoPresenter<F>,
    work: DrawWork,
)
    ensures
        linux.shows() <==> linux.enabled && linux.frame is Some,
        macos.shows() <==> macos.enabled && macos.frame is Some,
        linux.next_work() is None <==> !linux.shows(),
        macos.next_work() is None <==> !macos.shows(),
        linux.next_work() == Some(DrawWork::MakeImporter) <==> linux.shows() && !linux.importer,
        macos.next_work() == Some(DrawWork::MakeImporter) <==> macos.shows() && !macos.importer,
        linux.next_work() == Some(DrawWork::Draw) <==> linux.shows() && linux.importer
            && linux.pipeline,
        macos.next_work() == Some(DrawWork::Draw) <==> macos.shows() && macos.importer
            && macos.pipeline,
        !linux.after_work(work, false).enabled && linux.after_work(work, false).frame is None,
        !macos.after_work(work, false).enabled && macos.after_work(work, false).frame is None,
        linux.after_work(work, true).enabled == linux.enabled && linux.after_work(work, true).frame
            == linux.frame,
        macos.after_work(work, true).enabled == macos.enabled && macos.after_work(work, true).frame
            == macos.frame,
        linux.after_work(DrawWork::MakeImporter, true).importer,
        linux.after_work(DrawWork::MakePipeline, true).pipeline,
        macos.after_work(DrawWork::MakeImporter, true).importer,
        macos.after_work(DrawWork::MakePipeline, true).pipeline,
{
}

/// A frame that is staged is the one to show, and has to be drawn; one that has been shown
/// has not.
pub proof fn staged_frames_are_shown<F>(metal: MacosMetalVideoPresenter<F>, frame: F)
    ensures
        metal.shows() <==> metal.enabled && metal.frame is Some,
        metal.enabled ==> metal.staged(frame).frame == Some(frame) && metal.staged(
            frame,
        ).staged_serial != metal.staged_serial,
        !metal.enabled ==> metal.staged(frame) == metal,
        metal.dirty() <==> metal.staged_serial != metal.rendered_serial,
        !metal.shown().dirty() && metal.shown().frame == metal.frame,
        !metal.off().enabled && metal.off().frame is None && !metal.off().renderer,
{
}

/// Whichever way the video is drawn, the window sees the same of it: a size, an image, and
/// whether there is a frame.
pub proof fn both_ways_look_alike<Id: Copy>(
    t: NativeVideoTexture<Id>,
    w: WgpuVideoTexture<Id>,
    p: Presenters,
)
    ensures
        VideoTexture::Glow(t).dimensions() == (t.width, t.height),
        VideoTexture::Wgpu(w).dimensions() == (w.width, w.height),
        VideoTexture::Glow(t).id() == t.texture_id,
        VideoTexture::Wgpu(w).id() == w.texture_id,
        VideoTexture::Glow(t).shows(p) <==> t.width > 0 && t.height > 0 && (p.native_has_frame
            || p.direct_has_frame || t.texture_id is Some),
        VideoTexture::Wgpu(w).shows(p) <==> w.width > 0 && w.height > 0 && w.texture_id is Some,
{
}

/// A new cursor shape is kept, and so are the seven newest others; only the oldest leaves.
pub proof fn the_oldest_shape_leaves<T>(shapes: Map<u64, T>, serial: u64, shape: T, other: u64)
    requires
        shapes.dom().finite(),
    ensures
        ({
            let all = shapes.insert(serial, shape);
            let after = cursors::with_shape(shapes, serial, shape);
            &&& all.dom().len() <= 8 ==> after == all
            &&& all.dom().len() > 8 && cursors::is_smallest(all, other) ==> after == all.remove(
                other,
            )
        }),
{
    let all = shapes.insert(serial, shape);
    if all.dom().len() > 8 && cursors::is_smallest(all, other) {
        let least = cursors::smallest(all);
        assert(cursors::is_smallest(all, least));
        assert(all.contains_key(least) && all.contains_key(other));
        assert(least == other);
    }
}

/// The shape that is drawn is the one the server names; where it names none, or one that is
/// not known, the latest.
pub proof fn the_named_shape_is_drawn<T>(c: RemoteCursors<T>, serial: u64)
    ensures
        serial != 0 && c.textures@.contains_key(serial) ==> c.drawn(serial) == Some(
            c.textures@[serial],
        ),
        serial == 0 || !c.textures@.contains_key(serial) ==> match c.latest {
            Some(latest) => c.textures@.contains_key(latest) ==> c.drawn(serial) == Some(
                c.textures@[latest],
            ),
            None => c.drawn(serial) is None,
        },
{
}

/// A repaint that is waited for comes when it was promised.
pub proof fn promised_repaints_come(pacer: RepaintPacer, now: Instant, wait: Duration)
    requires
        pacer.paced(now) == Repaint::After(wait),
        pacer.last_request matches Some(last) && last.nanos <= now.nanos,
        now.nanos + wait.nanos <= u64::MAX,
    ensures
        pacer.paced(now.later(wait)) == Repaint::Now,
{
}

/// A path that is switched off keeps nothing, and a path that has drawn knows that it works.
pub proof fn paths_forget_and_learn<F>(
    linux: LinuxDirectVideoPresenter<F>,
    macos: MacosDirectVideoPresenter<F>,
)
    ensures
        !linux.off().enabled && !linux.off().logged_success && linux.off().frame is None,
        !linux.off().importer && !linux.off().pipeline,
        !macos.off().enabled && !macos.off().logged_success && macos.off().frame is None,
        !macos.off().importer && !macos.off().pipeline,
        linux.after_work(DrawWork::Draw, true) == (LinuxDirectVideoPresenter {
            logged_success: true,
            ..linux
        }),
        macos.after_work(DrawWork::Draw, true) == (MacosDirectVideoPresenter {
            logged_success: true,
            ..macos
        }),
        linux.after_work(DrawWork::MakeImporter, true).logged_success == linux.logged_success,
        linux.after_work(DrawWork::MakePipeline, true).logged_success == linux.logged_success,
        linux.after_work(DrawWork::MakeImporter, true).pipeline == linux.pipeline,
        linux.after_work(DrawWork::MakePipeline, true).importer == linux.importer,
        macos.after_work(DrawWork::MakeImporter, true).logged_success == macos.logged_success,
        macos.after_work(DrawWork::MakePipeline, true).logged_success == macos.logged_success,
        macos.after_work(DrawWork::MakeImporter, true).pipeline == macos.pipeline,
        macos.after_work(DrawWork::MakePipeline, true).importer == macos.importer,
{
}

/// There is a decoder exactly while none is being built, and at most three buffers are kept.
pub proof fn pipelines_decode_unless_they_build(p: ReceivePipeline)
    requires
        p.consistent(),
    ensures
        p.has_decoder <==> p.profile.pending_build is None,
        p.recycled_frames@.len() <= 3,
        p.playout.delay_floor.nanos <= p.playout.delay_ceiling.nanos,
        p.profile.pending_build is Some ==> p.profile.installed_profile is None,
{
}

/// Rows can be measured in four bytes whenever their length in bytes fits.
pub proof fn rows_are_measured_in_bytes(shape: FrameShape)
    ensures
        shape.format == VideoFormat::Rgba8 ==> (wgpu_video::rows_fit(shape) <==> shape.width * 4
            < 0x1_0000_0000),
        shape.format == VideoFormat::Nv12 ==> (wgpu_video::rows_fit(shape) <==> shape.chroma_width
            * 2 < 0x1_0000_0000),
        shape.format == VideoFormat::Yuv420p8 || shape.format == VideoFormat::Yuv444p8
            ==> wgpu_video::rows_fit(shape),
{
}

/// A frame that holds nothing has no size, no pixels and nothing to import.
pub proof fn blank_frames_hold_nothing(frame: VideoFrameBuffer)
    requires
        frame.is_blank(),
    ensures
        frame.width == 0 && frame.height == 0 && !frame.dirty,
        frame.plane0@.len() == 0 && frame.plane1@.len() == 0 && frame.plane2@.len() == 0,
        frame.dmabuf is None && frame.videotoolbox is None && frame.d3d11 is None,
        frame.debug_timing is None,
{
}

/// A list that names an extension still does so when it grows, and names what is added.
pub proof fn listed_extensions_are_named(extensions: Seq<String>, more: String, wanted: Seq<char>)
    ensures
        dmabuf::names(extensions.push(more), more@),
        dmabuf::names(extensions, wanted) ==> dmabuf::names(extensions.push(more), wanted),
        !dmabuf::names(extensions, wanted) && more@ != wanted ==> !dmabuf::names(
            extensions.push(more),
            wanted,
        ),
        !dmabuf::names(Seq::empty(), wanted),
{
    let longer = extensions.push(more);
    assert(longer[extensions.len() as int]@ == more@);
    if dmabuf::names(extensions, wanted) {
        let i = choose|i: int|
            0 <= i < extensions.len() && (#[trigger] extensions[i])@ == wanted;
        assert(longer[i]@ == wanted);
    }
    if dmabuf::names(longer, wanted) && more@ != wanted {
        let i = choose|i: int| 0 <= i < longer.len() && (#[trigger] longer[i])@ == wanted;
        assert(extensions[i]@ == wanted);
    }
}

/// A single bit is the bit at its place and no other.
pub proof fn bits_have_their_places(n: u32, m: u32)
    requires
        n < 32,
        m < 32,
    ensures
        dmabuf::has_bit(1u32 << n, m as nat) <==> n == m,
        !dmabuf::has_bit(0, m as nat),
{
    assert(((1u32 << n) >> m) & 1u32 == 1u32 <==> n == m) by (bit_vector)
        requires
            n < 32,
            m < 32,
    ;
    assert((0u32 >> m) & 1u32 == 0u32) by (bit_vector);
}

/// An import starts with nothing, holds the descriptor until the memory has it, and ends
/// with an image and its memory.
pub proof fn imports_hold_what_they_made(step: ImportStep)
    ensures
        dmabuf::held_before(ImportStep::DuplicateFd) == (Holdings {
            fd: false,
            image: false,
            memory: false,
        }),
        dmabuf::held_before(ImportStep::Done) == (Holdings { fd: false, image: true, memory: true }),
        !(dmabuf::held_before(step).fd && dmabuf::held_before(step).memory),
        step == ImportStep::CreateImage || step == ImportStep::QueryMemory || step
            == ImportStep::AllocateMemory <==> dmabuf::held_before(step).fd,
        dmabuf::held_before(step).memory ==> dmabuf::held_before(step).image,
        dmabuf::next_step(step) == step <==> step == ImportStep::Done,
        dmabuf::held_after(dmabuf::held_before(step), step) == dmabuf::held_before(
            dmabuf::next_step(step),
        ),
{
}

/// Every failure of an import has its words for the format.
pub proof fn formats_have_names()
    ensures
        dmabuf::format_name(LinuxDmaBufFormat::Yuv420p8) == "Yuv420p8"@,
        dmabuf::format_name(LinuxDmaBufFormat::Yuv444p8) == "Yuv444p8"@,
        dmabuf::format_name(LinuxDmaBufFormat::Nv12) == "Nv12"@,
{
}

/// A decoder that is silent, or fails, is told of with its epoch or its error.
pub proof fn failures_of_decoders_are_told(video_epoch: u64, error: Seq<char>)
    ensures
        home::contains_text(
            pipeline::silent_decoder_message(video_epoch),
            "decoder produced no frame for epoch "@ + text::decimal(video_epoch as nat),
        ),
        home::contains_text(
            pipeline::silent_decoder_message(video_epoch),
            text::decimal(video_epoch as nat) + " within 5s"@,
        ),
        home::contains_text(
            pipeline::fatal_decode_message(error),
            "fatal runtime decode failure: "@ + error,
        ),
{
    assert(pipeline::silent_decoder_message(video_epoch)
        =~= (Seq::<char>::empty())
            + ("decoder produced no frame for epoch "@ + text::decimal(video_epoch as nat))
            + (" within 5s"@));
    server_laws::texts_contain_their_parts(
        Seq::<char>::empty(),
        "decoder produced no frame for epoch "@ + text::decimal(video_epoch as nat),
        " within 5s"@,
    );
    assert(pipeline::silent_decoder_message(video_epoch)
        =~= ("decoder produced no frame for epoch "@)
            + (text::decimal(video_epoch as nat) + " within 5s"@) + (Seq::<char>::empty()));
    server_laws::texts_contain_their_parts(
        "decoder produced no frame for epoch "@,
        text::decimal(video_epoch as nat) + " within 5s"@,
        Seq::<char>::empty(),
    );
    assert(pipeline::fatal_decode_message(error)
        =~= (Seq::<char>::empty()) + ("fatal runtime decode failure: "@ + error)
            + (Seq::<char>::empty()));
    server_laws::texts_contain_their_parts(
        Seq::<char>::empty(),
        "fatal runtime decode failure: "@ + error,
        Seq::<char>::empty(),
    );
}

/// A plane that is too small is told of with what it has and what it needs.
pub proof fn short_planes_are_told(got: nat, need: nat)
    ensures
        home::contains_text(
            wgpu_video::short_plane_text(got, need),
            "plane buffer too small: "@ + text::decimal(got),
        ),
        home::contains_text(wgpu_video::short_plane_text(got, need), " < "@ + text::decimal(need)),
{
    let has = "plane buffer too small: "@ + text::decimal(got);
    let needs = " < "@ + text::decimal(need);
    assert(wgpu_video::short_plane_text(got, need) =~= Seq::<char>::empty() + has + needs);
    server_laws::texts_contain_their_parts(Seq::empty(), has, needs);
    assert(wgpu_video::short_plane_text(got, need) =~= has + needs + Seq::<char>::empty());
    server_laws::texts_contain_their_parts(has, needs, Seq::empty());
}

/// A frame that is too small is told of with what it has and what it needs.
pub proof fn short_frames_are_told(got: nat, need: nat)
    ensures
        home::contains_text(
            wgpu_video::short_frame_text(got, need),
            "RGBA frame too small: "@ + text::decimal(got),
        ),
        home::contains_text(wgpu_video::short_frame_text(got, need), " < "@ + text::decimal(need)),
{
    let has = "RGBA frame too small: "@ + text::decimal(got);
    let needs = " < "@ + text::decimal(need);
    assert(wgpu_video::short_frame_text(got, need) =~= Seq::<char>::empty() + has + needs);
    server_laws::texts_contain_their_parts(Seq::empty(), has, needs);
    assert(wgpu_video::short_frame_text(got, need) =~= has + needs + Seq::<char>::empty());
    server_laws::texts_contain_their_parts(has, needs, Seq::empty());
}

/// A frame that is too small to upload is told of in the same way.
pub proof fn short_uploads_are_told(got: nat, need: nat)
    ensures
        home::contains_text(
            gl_video::short_rgba_text(got, need),
            "RGBA frame buffer too small: got "@ + text::decimal(got),
        ),
        home::contains_text(gl_video::short_rgba_text(got, need), ", need "@ + text::decimal(need)),
{
    let has = "RGBA frame buffer too small: got "@ + text::decimal(got);
    let needs = ", need "@ + text::decimal(need);
    assert(gl_video::short_rgba_text(got, need) =~= Seq::<char>::empty() + has + needs);
    server_laws::texts_contain_their_parts(Seq::empty(), has, needs);
    assert(gl_video::short_rgba_text(got, need) =~= has + needs + Seq::<char>::empty());
    server_laws::texts_contain_their_parts(has, needs, Seq::empty());
}

/// A buffer that cannot be imported is told of with what stands in the way.
pub proof fn unusable_buffers_are_told(modifier: u64, plane: nat, format: LinuxDmaBufFormat)
    ensures
        home::contains_text(
            dmabuf::tiled_text(modifier),
            "dmabuf modifier 0x"@ + settings::hex_digits(modifier as nat, 16),
        ),
        home::contains_text(
            dmabuf::tiled_text(modifier),
            settings::hex_digits(modifier as nat, 16)
                + " is not LINEAR; linear-only import is the only supported path"@,
        ),
        home::contains_text(
            dmabuf::no_format_text(plane, format),
            "no Vulkan format for plane "@ + text::decimal(plane),
        ),
        home::contains_text(dmabuf::no_format_text(plane, format), text::decimal(plane) + " ("@),
        home::contains_text(
            dmabuf::no_format_text(plane, format),
            " ("@ + dmabuf::format_name(format),
        ),
        home::contains_text(
            dmabuf::no_format_text(plane, format),
            dmabuf::format_name(format) + ")"@,
        ),
{
    assert(dmabuf::tiled_text(modifier)
        =~= (Seq::<char>::empty())
            + ("dmabuf modifier 0x"@ + settings::hex_digits(modifier as nat, 16))
            + (" is not LINEAR; linear-only import is the only supported path"@));
    server_laws::texts_contain_their_parts(
        Seq::<char>::empty(),
        "dmabuf modifier 0x"@ + settings::hex_digits(modifier as nat, 16),
        " is not LINEAR; linear-only import is the only supported path"@,
    );
    assert(dmabuf::tiled_text(modifier)
        =~= ("dmabuf modifier 0x"@)
            + (settings::hex_digits(modifier as nat, 16) + " is not LINEAR; linear-only import is the only supported path"@)
            + (Seq::<char>::empty()));
    server_laws::texts_contain_their_parts(
        "dmabuf modifier 0x"@,
        settings::hex_digits(modifier as nat, 16)
            + " is not LINEAR; linear-only import is the only supported path"@,
        Seq::<char>::empty(),
    );
    assert(dmabuf::no_format_text(plane, format)
        =~= (Seq::<char>::empty()) + ("no Vulkan format for plane "@ + text::decimal(plane))
            + (" ("@ + dmabuf::format_name(format) + ")"@));
    server_laws::texts_contain_their_parts(
        Seq::<char>::empty(),
        "no Vulkan format for plane "@ + text::decimal(plane),
        " ("@ + dmabuf::format_name(format) + ")"@,
    );
    assert(dmabuf::no_format_text(plane, format)
        =~= ("no Vulkan format for plane "@) + (text::decimal(plane) + " ("@)
            + (dmabuf::format_name(format) + ")"@));
    server_laws::texts_contain_their_parts(
        "no Vulkan format for plane "@,
        text::decimal(plane) + " ("@,
        dmabuf::format_name(format) + ")"@,
    );
    assert(dmabuf::no_format_text(plane, format)
        =~= ("no Vulkan format for plane "@ + text::decimal(plane))
            + (" ("@ + dmabuf::format_name(format)) + (")"@));
    server_laws::texts_contain_their_parts(
        "no Vulkan format for plane "@ + text::decimal(plane),
        " ("@ + dmabuf::format_name(format),
        ")"@,
    );
    assert(dmabuf::no_format_text(plane, format)
        =~= ("no Vulkan format for plane "@ + text::decimal(plane) + " ("@)
            + (dmabuf::format_name(format) + ")"@) + (Seq::<char>::empty()));
    server_laws::texts_contain_their_parts(
        "no Vulkan format for plane "@ + text::decimal(plane) + " ("@,
        dmabuf::format_name(format) + ")"@,
        Seq::<char>::empty(),
    );
}

/// A pixel buffer with other planes than are needed is told of with its planes.
pub proof fn unusable_planes_are_told(kind: Seq<char>, planes: nat, plane: nat, pixel_format: u32)
    ensures
        home::contains_text(
            videotoolbox::layout_text(kind, planes, pixel_format),
            "unsupported VideoToolbox "@ + kind,
        ),
        home::contains_text(
            videotoolbox::layout_text(kind, planes, pixel_format),
            kind + " layout: planes="@,
        ),
        home::contains_text(
            videotoolbox::layout_text(kind, planes, pixel_format),
            " layout: planes="@ + text::decimal(planes),
        ),
        home::contains_text(
            videotoolbox::layout_text(kind, planes, pixel_format),
            text::decimal(planes) + " format=0x"@,
        ),
        home::contains_text(
            videotoolbox::layout_text(kind, planes, pixel_format),
            " format=0x"@ + settings::hex_digits(pixel_format as nat, 8),
        ),
        home::contains_text(
            videotoolbox::missing_plane_text(planes, plane),
            "VideoToolbox pixel buffer has "@ + text::decimal(planes),
        ),
        home::contains_text(
            videotoolbox::missing_plane_text(planes, plane),
            text::decimal(planes) + " planes, need "@,
        ),
        home::contains_text(
            videotoolbox::missing_plane_text(planes, plane),
            " planes, need "@ + text::decimal(plane + 1),
        ),
        home::contains_text(
            videotoolbox::empty_plane_text(plane),
            "VideoToolbox plane "@ + text::decimal(plane),
        ),
        home::contains_text(
            videotoolbox::empty_plane_text(plane),
            text::decimal(plane) + " is empty"@,
        ),
{
    assert(videotoolbox::layout_text(kind, planes, pixel_format)
        =~= (Seq::<char>::empty()) + ("unsupported VideoToolbox "@ + kind)
            + (" layout: planes="@ + text::decimal(planes) + " format=0x"@ + settings::hex_digits(pixel_format as nat, 8)));
    server_laws::texts_contain_their_parts(
        Seq::<char>::empty(),
        "unsupported VideoToolbox "@ + kind,
        " layout: planes="@ + text::decimal(planes) + " format=0x"@
            + settings::hex_digits(pixel_format as nat, 8),
    );
    assert(videotoolbox::layout_text(kind, planes, pixel_format)
        =~= ("unsupported VideoToolbox "@) + (kind + " layout: planes="@)
            + (text::decimal(planes) + " format=0x"@ + settings::hex_digits(pixel_format as nat, 8)));
    server_laws::texts_contain_their_parts(
        "unsupported VideoToolbox "@,
        kind + " layout: planes="@,
        text::decimal(planes) + " format=0x"@ + settings::hex_digits(pixel_format as nat, 8),
    );
    assert(videotoolbox::layout_text(kind, planes, pixel_format)
        =~= ("unsupported VideoToolbox "@ + kind) + (" layout: planes="@ + text::decimal(planes))
            + (" format=0x"@ + settings::hex_digits(pixel_format as nat, 8)));
    server_laws::texts_contain_their_parts(
        "unsupported VideoToolbox "@ + kind,
        " layout: planes="@ + text::decimal(planes),
        " format=0x"@ + settings::hex_digits(pixel_format as nat, 8),
    );
    assert(videotoolbox::layout_text(kind, planes, pixel_format)
        =~= ("unsupported VideoToolbox "@ + kind + " layout: planes="@)
            + (text::decimal(planes) + " format=0x"@)
            + (settings::hex_digits(pixel_format as nat, 8)));
    server_laws::texts_contain_their_parts(
        "unsupported VideoToolbox "@ + kind + " layout: planes="@,
        text::decimal(planes) + " format=0x"@,
        settings::hex_digits(pixel_format as nat, 8),
    );
    assert(videotoolbox::layout_text(kind, planes, pixel_format)
        =~= ("unsupported VideoToolbox "@ + kind + " layout: planes="@ + text::decimal(planes))
            + (" format=0x"@ + settings::hex_digits(pixel_format as nat, 8))
            + (Seq::<char>::empty()));
    server_laws::texts_contain_their_parts(
        "unsupported VideoToolbox "@ + kind + " layout: planes="@ + text::decimal(planes),
        " format=0x"@ + settings::hex_digits(pixel_format as nat, 8),
        Seq::<char>::empty(),
    );
    assert(videotoolbox::missing_plane_text(planes, plane)
        =~= (Seq::<char>::empty()) + ("VideoToolbox pixel buffer has "@ + text::decimal(planes))
            + (" planes, need "@ + text::decimal(plane + 1)));
    server_laws::texts_contain_their_parts(
        Seq::<char>::empty(),
        "VideoToolbox pixel buffer has "@ + text::decimal(planes),
        " planes, need "@ + text::decimal(plane + 1),
    );
    assert(videotoolbox::missing_plane_text(planes, plane)
        =~= ("VideoToolbox pixel buffer has "@) + (text::decimal(planes) + " planes, need "@)
            + (text::decimal(plane + 1)));
    server_laws::texts_contain_their_parts(
        "VideoToolbox pixel buffer has "@,
        text::decimal(planes) + " planes, need "@,
        text::decimal(plane + 1),
    );
    assert(videotoolbox::missing_plane_text(planes, plane)
        =~= ("VideoToolbox pixel buffer has "@ + text::decimal(planes))
            + (" planes, need "@ + text::decimal(plane + 1)) + (Seq::<char>::empty()));
    server_laws::texts_contain_their_parts(
        "VideoToolbox pixel buffer has "@ + text::decimal(planes),
        " planes, need "@ + text::decimal(plane + 1),
        Seq::<char>::empty(),
    );
    assert(videotoolbox::empty_plane_text(plane)
        =~= (Seq::<char>::empty()) + ("VideoToolbox plane "@ + text::decimal(plane))
            + (" is empty"@));
    server_laws::texts_contain_their_parts(
        Seq::<char>::empty(),
        "VideoToolbox plane "@ + text::decimal(plane),
        " is empty"@,
    );
    assert(videotoolbox::empty_plane_text(plane)
        =~= ("VideoToolbox plane "@) + (text::decimal(plane) + " is empty"@)
            + (Seq::<char>::empty()));
    server_laws::texts_contain_their_parts(
        "VideoToolbox plane "@,
        text::decimal(plane) + " is empty"@,
        Seq::<char>::empty(),
    );
}


} // verus!
