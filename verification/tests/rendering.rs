use std::collections::VecDeque;
use stream_client::dmabuf::{
    acquire_fence_attribs, cleanup_after_failure, dmabuf_image_attribs, dmabuf_requested,
    egl_import_support, import_memory_type, modifier_is_linear, plan_plane_import,
    plane_vk_format, plane_views, planes_to_import, probe, DmaBufCapabilities, Holdings,
    ImportStep, PlaneFormat, DRM_FORMAT_MOD_INVALID, DRM_FORMAT_MOD_LINEAR,
};
use stream_client::frames::{
    LinuxDmaBufFormat, LinuxDmaBufFrame, LinuxDmaBufPlane, Platform, VideoFormat,
    VideoFrameBuffer,
};
use stream_client::gl_video::{
    chroma_planes, direct_present_enabled, ensure_yuv_gl_support, pbo_upload_supported,
    retain_recent_macos_frame, upload_rgba, NativeVideoTexture, PaintStep, PboOutcome, PboRing,
    StageStep, UploadEnd, UploadWork, YuvPipeline,
};
use stream_client::presenters::{
    reap_pending_submissions, view_step, DrawWork, LinuxDirectVideoPresenter,
    MacosDirectVideoPresenter, MacosMetalVideoPresenter, PresentWork, ViewStep,
};
use stream_client::video_texture::{Presenters, VideoTexture};
use stream_client::videotoolbox::{metal_planes, plane_size, BI_PLANAR_VIDEO_RANGE};
use stream_client::wgpu_video::{
    plane_layout, plane_writes, rgba_bytes, upload_plane, DmaBufSupportState, FrameShape,
    PipelineState, WgpuVideoTexture,
};

#[test]
fn dmabuf_requested_respects_env() {
    assert!(dmabuf_requested(None), "default should auto-enable");
    assert!(dmabuf_requested(Some("1")));
    assert!(!dmabuf_requested(Some("0")), "=0 must force-disable");
    assert!(!dmabuf_requested(Some("off")));
}

#[test]
fn modifier_linear_check() {
    assert!(modifier_is_linear(DRM_FORMAT_MOD_LINEAR));
    assert!(modifier_is_linear(DRM_FORMAT_MOD_INVALID));
    assert!(!modifier_is_linear(0x0100_0000_0000_0001));
}

#[test]
fn plane_format_mapping() {
    assert_eq!(plane_vk_format(0, LinuxDmaBufFormat::Yuv420p8), Some(PlaneFormat::R8Unorm));
    assert_eq!(plane_vk_format(2, LinuxDmaBufFormat::Yuv420p8), Some(PlaneFormat::R8Unorm));
    assert_eq!(plane_vk_format(0, LinuxDmaBufFormat::Nv12), Some(PlaneFormat::R8Unorm));
    assert_eq!(plane_vk_format(1, LinuxDmaBufFormat::Nv12), Some(PlaneFormat::Rg8Unorm));
    assert_eq!(plane_vk_format(2, LinuxDmaBufFormat::Nv12), None);
}

fn plane(modifier: u64) -> LinuxDmaBufPlane {
    LinuxDmaBufPlane {
        fd: 9,
        width: 640,
        height: 480,
        drm_format: 0x2020_3852,
        offset: 16,
        pitch: 768,
        modifier,
    }
}

#[test]
fn devices_need_both_extensions() {
    let nothing = DmaBufCapabilities {
        external_memory_fd: false,
        external_memory_dma_buf: false,
        is_vulkan: false,
    };
    assert_eq!(DmaBufCapabilities::default(), nothing);
    assert!(!nothing.is_supported());
    assert_eq!(probe(&None), nothing);
    assert_eq!(probe(&Some(Vec::new())), nothing);
    let fd = "VK_KHR_external_memory_fd".to_string();
    let dma_buf = "VK_EXT_external_memory_dma_buf".to_string();
    assert_eq!(probe(&Some(vec![fd.clone()])), nothing);
    assert_eq!(probe(&Some(vec![dma_buf.clone()])), nothing);
    let caps = probe(&Some(vec![fd, "VK_KHR_swapchain".to_string(), dma_buf]));
    assert_eq!(
        caps,
        DmaBufCapabilities {
            external_memory_fd: true,
            external_memory_dma_buf: true,
            is_vulkan: true,
        }
    );
    assert!(caps.is_supported());
    assert!(!DmaBufCapabilities { is_vulkan: false, ..caps }.is_supported());
}

#[test]
fn imports_name_what_is_wrong() {
    let frame = LinuxDmaBufFrame {
        width: 640,
        height: 480,
        format: LinuxDmaBufFormat::Yuv444p8,
        planes: vec![plane(0), plane(0)],
        acquire_fence_fd: None,
    };
    assert_eq!(
        planes_to_import(&frame),
        Err("dmabuf frame has 2 planes, need 3".to_string())
    );
    assert_eq!(
        plan_plane_import(0, &plane(0x0100_0000_0000_0001), LinuxDmaBufFormat::Nv12),
        Err(
            "dmabuf modifier 0x0100000000000001 is not LINEAR; linear-only import is the only \
             supported path"
                .to_string()
        )
    );
    assert_eq!(
        plan_plane_import(2, &plane(0), LinuxDmaBufFormat::Nv12),
        Err("no Vulkan format for plane 2 (Nv12)".to_string())
    );
    assert_eq!(
        plan_plane_import(1, &plane(0), LinuxDmaBufFormat::Nv12),
        Ok(PlaneFormat::Rg8Unorm)
    );
    assert_eq!(import_memory_type(0b1100, 0b0110), Ok(2));
    assert_eq!(
        import_memory_type(0b1000, 0b0110),
        Err("no compatible memory type for dmabuf import".to_string())
    );
    assert_eq!(plane_views(LinuxDmaBufFormat::Nv12), (0, 1, 1));
}

#[test]
fn failed_imports_give_back_what_they_hold() {
    assert_eq!(
        cleanup_after_failure(ImportStep::CreateImage),
        Holdings { fd: true, image: false, memory: false }
    );
    assert_eq!(
        cleanup_after_failure(ImportStep::BindMemory),
        Holdings { fd: false, image: true, memory: true }
    );
}

#[test]
fn tiled_planes_are_described_with_their_layout() {
    let plain = dmabuf_image_attribs(&plane(0));
    assert_eq!(
        plain,
        vec![
            0x3057, 640, 0x3056, 480, 0x3271, 0x2020_3852, 0x3272, 9, 0x3273, 16, 0x3274, 768,
            0x3038
        ]
    );
    let tiled = dmabuf_image_attribs(&plane(0x0100_0000_0000_0002));
    assert_eq!(tiled.len(), 17);
    assert_eq!(&tiled[12..], &[0x3443, 2, 0x3444, 0x0100_0000, 0x3038]);
}

#[test]
fn window_systems_are_asked_for_images_and_fences() {
    assert_eq!(
        egl_import_support(false, ""),
        Err("GL_OES_EGL_image not available".to_string())
    );
    assert_eq!(
        egl_import_support(true, "EGL_KHR_fence_sync"),
        Err("EGL_EXT_image_dma_buf_import not available".to_string())
    );
    assert_eq!(
        egl_import_support(true, "EGL_EXT_image_dma_buf_import EGL_ANDROID_native_fence_sync"),
        Ok(false)
    );
    assert_eq!(
        egl_import_support(
            true,
            "EGL_KHR_reusable_sync EGL_EXT_image_dma_buf_import EGL_ANDROID_native_fence_sync"
        ),
        Ok(true)
    );
}

#[test]
fn direct_presentation_can_be_switched_off() {
    assert!(direct_present_enabled(None));
    assert!(direct_present_enabled(Some("0")));
    assert!(!direct_present_enabled(Some("1")));
    assert!(!direct_present_enabled(Some("")));
}

#[test]
fn pixel_buffers_take_turns() {
    let mut ring = PboRing::new();
    let first = ring.plan(100);
    assert_eq!((first.slot, first.create, first.size), (0, true, 100));
    assert!(!ring.upload(100, PboOutcome::NotCreated));
    assert!(ring.plan(100).create);
    assert!(ring.upload(100, PboOutcome::Written));
    assert!(ring.upload(100, PboOutcome::Written));
    assert!(!ring.upload(100, PboOutcome::NotMapped));
    assert_eq!(ring.plan(10).slot, 2);
    assert!(ring.upload(100, PboOutcome::Written));
    let again = ring.plan(60);
    assert_eq!((again.slot, again.create, again.size), (0, false, 100));
    assert_eq!(ring.destroy(), [true, true, true]);
    assert_eq!(ring.plan(1).slot, 0);
}

#[test]
fn textures_are_made_anew_for_another_shape() {
    let mut pipeline = YuvPipeline::new(true);
    assert!(pipeline.needs_textures(VideoFormat::Nv12, (64, 64), (32, 32)));
    pipeline.rendered(VideoFormat::Nv12, (64, 64), (32, 32));
    assert!(!pipeline.needs_textures(VideoFormat::Nv12, (64, 64), (32, 32)));
    assert!(pipeline.needs_textures(VideoFormat::Yuv420p8, (64, 64), (32, 32)));
    assert!(pipeline.needs_textures(VideoFormat::Nv12, (64, 65), (32, 32)));
    assert_eq!(chroma_planes(VideoFormat::Yuv444p8).expect("planes").len(), 2);
    assert_eq!(
        chroma_planes(VideoFormat::Rgba8),
        Err("unexpected RGBA frame in YUV pipeline".to_string())
    );
}

#[test]
fn short_pixels_are_refused() {
    assert_eq!(upload_rgba(4, 2, 40), Ok(32));
    assert_eq!(
        upload_rgba(4, 2, 31),
        Err("RGBA frame buffer too small: got 31, need 32".to_string())
    );
    assert_eq!(rgba_bytes(4, 2, 32), Ok(32));
    assert_eq!(rgba_bytes(4, 2, 31), Err("RGBA frame too small: 31 < 32".to_string()));
    assert_eq!(
        rgba_bytes(u32::MAX, u32::MAX, 31),
        Err("rgba size overflow".to_string())
    );
    assert_eq!(upload_plane(64, 3, 200), Ok(192));
    assert_eq!(
        upload_plane(64, 3, 191),
        Err("plane buffer too small: 191 < 192".to_string())
    );
}

#[test]
fn old_opengl_is_refused() {
    assert_eq!(ensure_yuv_gl_support(3, "3.3"), Ok(()));
    assert_eq!(
        ensure_yuv_gl_support(2, "2.1"),
        Err("OpenGL 3.0+ required for YUV rendering, found 2.1".to_string())
    );
    assert!(pbo_upload_supported(false, false, 2, 1));
    assert!(!pbo_upload_supported(false, false, 2, 0));
    assert!(!pbo_upload_supported(false, true, 2, 1));
    assert!(!pbo_upload_supported(true, false, 4, 6));
}

fn dmabuf_video() -> VideoFrameBuffer {
    VideoFrameBuffer {
        width: 64,
        height: 32,
        dmabuf: Some(LinuxDmaBufFrame {
            width: 64,
            height: 32,
            format: LinuxDmaBufFormat::Nv12,
            planes: vec![plane(0), plane(0)],
            acquire_fence_fd: Some(9),
        }),
        ..VideoFrameBuffer::default()
    }
}

#[test]
fn frames_are_offered_to_presenters_in_order() {
    let linux: NativeVideoTexture<u32> = NativeVideoTexture::new(Platform::Linux, true);
    let video = dmabuf_video();
    assert_eq!(linux.stage_direct_frame(&video, None, Some(true), false), StageStep::Direct);
    assert_eq!(linux.stage_direct_frame(&video, None, Some(false), false), StageStep::Decline);
    let plain = VideoFrameBuffer::default();
    assert_eq!(linux.stage_direct_frame(&plain, None, Some(true), false), StageStep::Decline);

    let mac: NativeVideoTexture<u32> = NativeVideoTexture::new(Platform::Macos, true);
    let surface = VideoFrameBuffer { videotoolbox: Some(1), ..VideoFrameBuffer::default() };
    assert_eq!(
        mac.stage_direct_frame(&surface, Some(true), Some(true), false),
        StageStep::Native
    );
    assert_eq!(
        mac.stage_direct_frame(&surface, Some(true), Some(true), true),
        StageStep::Direct
    );

    let mut windows: NativeVideoTexture<u32> = NativeVideoTexture::new(Platform::Windows, true);
    let surface = VideoFrameBuffer { d3d11: Some(1), ..VideoFrameBuffer::default() };
    assert_eq!(
        windows.stage_direct_frame(&surface, Some(true), Some(true), false),
        StageStep::Direct
    );
    assert!(windows.set_windows_overlayless_preferred(true));
    assert_eq!(
        windows.stage_direct_frame(&surface, Some(true), Some(true), false),
        StageStep::Native
    );
    assert_eq!(mac.paint_direct_if_available(true, true, true), PaintStep::Direct);
    assert_eq!(linux.paint_direct_if_available(true, false, false), PaintStep::Nothing);
}

#[test]
fn uploads_prepare_once_and_blame_the_surface() {
    let mut texture: NativeVideoTexture<u32> = NativeVideoTexture::new(Platform::Linux, true);
    let video = dmabuf_video();
    let plan = texture.upload_plan(&video);
    assert_eq!(
        plan,
        vec![
            UploadWork::Output { resize: true },
            UploadWork::Importer,
            UploadWork::YuvPipeline,
            UploadWork::Import
        ]
    );
    texture.output_made(5);
    for work in plan {
        texture.work_done(work, &video);
    }
    assert!(texture.has_frame(false));
    assert_eq!(texture.size(), (64, 32));
    assert_eq!(
        texture.upload_plan(&video),
        vec![UploadWork::Output { resize: false }, UploadWork::Import]
    );
    assert!(matches!(
        texture.work_failed(UploadWork::Import, "lost".to_string()),
        UploadEnd::SurfaceRefused(message) if message == "lost"
    ));
    assert!(!texture.importer);
    assert!(matches!(
        texture.work_failed(UploadWork::Planes, "short".to_string()),
        UploadEnd::Failed(message) if message == "short"
    ));
    texture.clear_frame();
    assert!(!texture.has_frame(true));
    assert_eq!(texture.texture_id(), Some(5));
}

#[test]
fn surfaces_are_let_go_before_planes_are_shown() {
    let mut texture: NativeVideoTexture<u32> = NativeVideoTexture::new(Platform::Windows, true);
    let surface = VideoFrameBuffer {
        width: 8,
        height: 8,
        d3d11: Some(1),
        ..VideoFrameBuffer::default()
    };
    texture.work_done(UploadWork::Importer, &surface);
    texture.work_done(UploadWork::Import, &surface);
    assert!(!texture.release_registration(&surface, true));
    let planes = VideoFrameBuffer { width: 8, height: 8, ..VideoFrameBuffer::default() };
    assert!(texture.release_registration(&planes, true));
    assert_eq!(texture.size(), (0, 0));
}

#[test]
fn six_surfaces_are_kept_alive() {
    let mut recent = VecDeque::new();
    for frame in 0..9 {
        retain_recent_macos_frame(&mut recent, frame);
    }
    assert_eq!(recent, vec![3, 4, 5, 6, 7, 8]);
    let mut long: VecDeque<i32> = (0..10).collect();
    retain_recent_macos_frame(&mut long, 10);
    assert_eq!(long, vec![5, 6, 7, 8, 9, 10]);
}

#[test]
fn presenters_stop_at_the_first_failure() {
    let mut linux = LinuxDirectVideoPresenter::new();
    assert!(linux.stage_frame(Some(1)));
    assert_eq!(linux.render(), Some(DrawWork::MakeImporter));
    assert!(!linux.note_work(DrawWork::MakeImporter, true));
    assert!(!linux.note_work(DrawWork::MakePipeline, true));
    assert_eq!(linux.render(), Some(DrawWork::Draw));
    assert!(linux.note_work(DrawWork::Draw, true));
    assert!(!linux.note_work(DrawWork::Draw, true));
    assert!(!linux.stage_frame(None));
    assert!(!linux.is_enabled());
    assert!(!linux.stage_frame(Some(2)));
    assert_eq!(linux.render(), None);

    let mut direct = MacosDirectVideoPresenter::new();
    direct.stage_frame(1);
    assert!(direct.has_frame());
    direct.note_work(DrawWork::MakeImporter, false);
    direct.stage_frame(2);
    assert!(!direct.has_frame());
}

#[test]
fn metal_draws_each_frame_once() {
    let mut metal = MacosMetalVideoPresenter::new();
    assert_eq!(metal.present(), None);
    assert!(metal.stage_frame(1));
    assert_eq!(metal.present(), Some(PresentWork::MakeRenderer));
    metal.renderer_made();
    assert_eq!(metal.present(), Some(PresentWork::Present { dirty: true }));
    assert!(metal.presented());
    assert_eq!(metal.present(), Some(PresentWork::Present { dirty: false }));
    assert!(metal.clear());
    metal.disable();
    assert!(!metal.stage_frame(2));
    assert_eq!(view_step(true, false, false), ViewStep::Keep);
    assert_eq!(view_step(true, false, true), ViewStep::Draw);
    assert_eq!(view_step(false, true, true), ViewStep::Hide);
    assert_eq!(reap_pending_submissions(&vec![true, true, false, true]), 2);
}

#[test]
fn surfaces_of_the_decoder_are_checked() {
    assert_eq!(
        plane_size(1, 1, 8, 8),
        Err("VideoToolbox pixel buffer has 1 planes, need 2".to_string())
    );
    assert_eq!(plane_size(2, 1, 0, 8), Err("VideoToolbox plane 1 is empty".to_string()));
    assert_eq!(plane_size(2, 1, 7, 8), Ok((7, 8)));
    assert_eq!(metal_planes(VideoFormat::Nv12, 2, BI_PLANAR_VIDEO_RANGE), Ok((0, 1, 1)));
    assert_eq!(
        metal_planes(VideoFormat::Yuv420p8, 2, 0x79343230),
        Err("unsupported VideoToolbox YUV420 layout: planes=2 format=0x79343230".to_string())
    );
    assert_eq!(
        metal_planes(VideoFormat::Rgba8, 1, 0),
        Err("unexpected RGBA VideoToolbox frame".to_string())
    );
}

#[test]
fn failed_imports_end_the_fast_path() {
    let caps = DmaBufCapabilities {
        external_memory_fd: true,
        external_memory_dma_buf: true,
        is_vulkan: true,
    };
    let mut texture: WgpuVideoTexture<u32> = WgpuVideoTexture::new(true);
    assert!(!texture.tries_dmabuf(true));
    assert!(texture.maybe_probe_dmabuf(true, &caps));
    assert!(texture.tries_dmabuf(true));
    assert!(texture.native_surface_capabilities().linux_dmabuf);
    texture.uploaded(3, 64, 32, true);
    assert!(!texture.maybe_probe_dmabuf(true, &caps));
    assert!(!texture.tries_dmabuf(true));
    texture.uploaded(4, 64, 32, false);
    assert_eq!(texture.texture_id(), Some(3));
    assert!(texture.has_frame());
}

#[test]
fn shapes_and_modes_are_remembered() {
    let mut state = PipelineState::new();
    assert_eq!(state.ensure_output(0, 7), Some((1, 7)));
    assert_eq!(state.ensure_output(0, 7), None);
    let shape = FrameShape {
        format: VideoFormat::Nv12,
        width: 64,
        height: 32,
        chroma_width: 32,
        chroma_height: 16,
    };
    assert!(state.ensure_planes(shape));
    assert!(state.ensure_bind_group());
    assert!(!state.ensure_planes(shape));
    assert!(!state.ensure_bind_group());
    assert!(state.ensure_planes(FrameShape { width: 128, ..shape }));
    assert!(state.ensure_bind_group());
    state.rendered_from_dmabuf();
    assert!(state.ensure_bind_group());
    let layout = plane_layout(VideoFormat::Rgba8);
    assert_eq!((layout.mode, layout.luma), (2, PlaneFormat::Rgba8Unorm));
    let bytes = state.set_mode(2).expect("parameters");
    assert_eq!(bytes, vec![2, 0, 0, 0, 0, 0, 0, 0, 0, 0, 0, 0, 0, 0, 0, 0]);
    assert_eq!(state.set_mode(2), None);
    let writes = plane_writes(&shape);
    assert_eq!(writes.len(), 2);
    assert_eq!((writes[1].plane, writes[1].bytes_per_row, writes[1].height), (1, 64, 16));
}

#[test]
fn both_renderers_answer_alike() {
    let nobody = Presenters {
        native_enabled: None,
        native_has_frame: false,
        native_occludes: None,
        direct_enabled: None,
        direct_has_frame: false,
    };
    let glow: VideoTexture<u32> = VideoTexture::new(false, Platform::Linux, true);
    let wgpu: VideoTexture<u32> = VideoTexture::new(true, Platform::Linux, true);
    assert!(matches!(
        &wgpu,
        VideoTexture::Wgpu(t) if t.linux && t.dmabuf_support == DmaBufSupportState::Unprobed
    ));
    assert!(matches!(
        &glow,
        VideoTexture::Glow(t) if t.surface_supported && !t.importer && !t.yuv_pipeline
    ));
    assert!(!glow.has_frame(&nobody) && !wgpu.has_frame(&nobody));
    assert!(glow.native_surface_capabilities().linux_dmabuf);
    assert!(!wgpu.native_surface_capabilities().linux_dmabuf);
    let busy = Presenters { direct_enabled: Some(true), direct_has_frame: true, ..nobody };
    assert_eq!(glow.stage_direct_frame(&dmabuf_video(), &busy, false), StageStep::Direct);
    assert_eq!(wgpu.stage_direct_frame(&dmabuf_video(), &busy, false), StageStep::Decline);
    assert_eq!(glow.paint_direct_if_available(&busy, false), PaintStep::Direct);
    assert!(!glow.occludes_egui_overlay(&busy));
    assert_eq!(glow.current_native_video_rect(Some(1u8)), None);
    assert_eq!(wgpu.size(), (0, 0));
}

#[test]
fn only_known_fences_are_waited_for() {
    let frame = dmabuf_video().dmabuf.unwrap();
    assert_eq!(acquire_fence_attribs(true, &frame, 12), Some(vec![0x3145, 12, 0x3038]));
    assert_eq!(acquire_fence_attribs(false, &frame, 12), None);
    let unfenced = LinuxDmaBufFrame { acquire_fence_fd: None, ..frame };
    assert_eq!(acquire_fence_attribs(true, &unfenced, 12), None);
}
