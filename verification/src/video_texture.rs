//! The video as the window sees it, whichever way it is drawn.
use crate::frames::{Platform, VideoFrameBuffer};
use crate::gl_video::{NativeVideoTexture, PaintStep, StageStep};
use crate::labels::NativeSurfaceCapabilities;
use crate::wgpu_video::WgpuVideoTexture;
use vstd::prelude::*;

verus! {

#[derive(Clone, Debug)]
pub enum VideoTexture<Id> {
    Glow(NativeVideoTexture<Id>),
    Wgpu(WgpuVideoTexture<Id>),
}

/// What the presenters beside the texture say. Where there is no such presenter, it
/// is not at work and has no frame.
#[derive(Clone, Copy, Debug, PartialEq, Eq, Structural)]
pub struct Presenters {
    pub native_enabled: Option<bool>,
    pub native_has_frame: bool,
    pub native_occludes: Option<bool>,
    pub direct_enabled: Option<bool>,
    pub direct_has_frame: bool,
}

impl<Id: Copy> VideoTexture<Id> {
    /// Follows the window's own choice of how to draw.
    pub fn new(wgpu: bool, platform: Platform, surface_supported: bool) -> (t: VideoTexture<Id>)
        ensures
            t == if wgpu {
                VideoTexture::Wgpu(
                    WgpuVideoTexture::<Id> {
                        linux: platform == Platform::Linux,
                        texture_id: None,
                        width: 0,
                        height: 0,
                        dmabuf_support: crate::wgpu_video::DmaBufSupportState::Unprobed,
                    },
                )
            } else {
                VideoTexture::Glow(
                    NativeVideoTexture::<Id> {
                        platform,
                        texture_id: None,
                        width: 0,
                        height: 0,
                        surface_supported,
                        importer: false,
                        yuv_pipeline: false,
                        rect_pipeline: false,
                        windows_overlayless_preferred: false,
                    },
                )
            },
    {
        if wgpu {
            VideoTexture::Wgpu(WgpuVideoTexture::new(platform == Platform::Linux))
        } else {
            VideoTexture::Glow(NativeVideoTexture::new(platform, surface_supported))
        }
    }

    pub open spec fn shows(self, presenters: Presenters) -> bool {
        match self {
            VideoTexture::Glow(t) => t.shows(
                presenters.native_has_frame || presenters.direct_has_frame,
            ),
            VideoTexture::Wgpu(t) => t.shows(),
        }
    }

    pub fn has_frame(&self, presenters: &Presenters) -> (r: bool)
        ensures
            r == self.shows(*presenters),
    {
        match self {
            VideoTexture::Glow(t) => t.has_frame(
                presenters.native_has_frame || presenters.direct_has_frame,
            ),
            VideoTexture::Wgpu(t) => t.has_frame(),
        }
    }

    pub open spec fn id(self) -> Option<Id> {
        match self {
            VideoTexture::Glow(t) => t.texture_id,
            VideoTexture::Wgpu(t) => t.texture_id,
        }
    }

    pub fn texture_id(&self) -> (id: Option<Id>)
        ensures
            id == self.id(),
    {
        match self {
            VideoTexture::Glow(t) => t.texture_id(),
            VideoTexture::Wgpu(t) => t.texture_id(),
        }
    }

    pub open spec fn dimensions(self) -> (u32, u32) {
        match self {
            VideoTexture::Glow(t) => (t.width, t.height),
            VideoTexture::Wgpu(t) => (t.width, t.height),
        }
    }

    pub fn size(&self) -> (size: (u32, u32))
        ensures
            size == self.dimensions(),
    {
        match self {
            VideoTexture::Glow(t) => t.size(),
            VideoTexture::Wgpu(t) => t.size(),
        }
    }

    pub open spec fn cleared(self) -> VideoTexture<Id> {
        match self {
            VideoTexture::Glow(t) => VideoTexture::Glow(t.cleared()),
            VideoTexture::Wgpu(t) => VideoTexture::Wgpu(t.cleared()),
        }
    }

    pub fn clear_frame(&mut self)
        ensures
            *final(self) == old(self).cleared(),
    {
        match self {
            VideoTexture::Glow(t) => t.clear_frame(),
            VideoTexture::Wgpu(t) => t.clear_frame(),
        }
    }

    /// Chooses which presenter a frame is offered to.
    pub fn stage_direct_frame(
        &self,
        video: &VideoFrameBuffer,
        presenters: &Presenters,
        native_refused: bool,
    ) -> (step: StageStep)
        ensures
            step == match *self {
                VideoTexture::Glow(t) => t.staging(
                    *video,
                    presenters.native_enabled,
                    presenters.direct_enabled,
                    native_refused,
                ),
                VideoTexture::Wgpu(_) => StageStep::Decline,
            },
    {
        match self {
            VideoTexture::Glow(t) => t.stage_direct_frame(
                video,
                presenters.native_enabled,
                presenters.direct_enabled,
                native_refused,
            ),
            VideoTexture::Wgpu(_) => StageStep::Decline,
        }
    }

    /// Chooses who shows the staged frame.
    pub fn paint_direct_if_available(
        &self,
        presenters: &Presenters,
        native_failed: bool,
    ) -> (step: PaintStep)
        ensures
            step == match *self {
                VideoTexture::Glow(t) => match t.platform {
                    Platform::Other => PaintStep::Nothing,
                    _ => if t.platform != Platform::Linux && presenters.native_has_frame
                        && !native_failed {
                        PaintStep::Native
                    } else if presenters.direct_has_frame {
                        PaintStep::Direct
                    } else {
                        PaintStep::Nothing
                    },
                },
                VideoTexture::Wgpu(_) => PaintStep::Nothing,
            },
    {
        match self {
            VideoTexture::Glow(t) => t.paint_direct_if_available(
                presenters.native_has_frame,
                presenters.direct_has_frame,
                native_failed,
            ),
            VideoTexture::Wgpu(_) => PaintStep::Nothing,
        }
    }

    pub fn native_surface_capabilities(&self) -> (caps: NativeSurfaceCapabilities)
        ensures
            match *self {
                VideoTexture::Glow(t) => caps == (NativeSurfaceCapabilities {
                    linux_dmabuf: t.platform == Platform::Linux && t.surface_supported,
                    macos_videotoolbox: t.platform == Platform::Macos && t.surface_supported,
                    windows_d3d11: t.platform == Platform::Windows && t.surface_supported,
                }),
                VideoTexture::Wgpu(t) => caps == (NativeSurfaceCapabilities {
                    linux_dmabuf: t.imports(true),
                    macos_videotoolbox: false,
                    windows_d3d11: false,
                }),
            },
    {
        match self {
            VideoTexture::Glow(t) => t.native_surface_capabilities(),
            VideoTexture::Wgpu(t) => t.native_surface_capabilities(),
        }
    }

    /// Where the video lies, if it has a view of its own. `native`: what the presenter
    /// with such a view says.
    pub fn current_native_video_rect<R: Copy>(&self, native: Option<R>) -> (rect: Option<R>)
        ensures
            rect == match *self {
                VideoTexture::Glow(t) => if t.platform == Platform::Macos || t.platform
                    == Platform::Windows {
                    native
                } else {
                    None
                },
                VideoTexture::Wgpu(_) => None,
            },
    {
        match self {
            VideoTexture::Glow(t) => match t.platform {
                Platform::Macos | Platform::Windows => native,
                _ => None,
            },
            VideoTexture::Wgpu(_) => None,
        }
    }

    /// Returns whether the presenter with a view of its own has to be told.
    pub fn set_windows_overlayless_preferred(&mut self, preferred: bool) -> (tells: bool)
        ensures
            match *old(self) {
                VideoTexture::Glow(t) => {
                    &&& tells == (t.platform == Platform::Windows)
                    &&& *final(self) == VideoTexture::Glow(
                        if tells {
                            NativeVideoTexture { windows_overlayless_preferred: preferred, ..t }
                        } else {
                            t
                        },
                    )
                },
                VideoTexture::Wgpu(_) => !tells && *final(self) == *old(self),
            },
    {
        match self {
            VideoTexture::Glow(t) => t.set_windows_overlayless_preferred(preferred),
            VideoTexture::Wgpu(_) => false,
        }
    }

    pub fn occludes_egui_overlay(&self, presenters: &Presenters) -> (r: bool)
        ensures
            r == match *self {
                VideoTexture::Glow(t) => t.platform == Platform::Windows
                    && presenters.native_occludes == Some(true),
                VideoTexture::Wgpu(_) => false,
            },
    {
        match self {
            VideoTexture::Glow(t) => t.occludes_egui_overlay(presenters.native_occludes),
            VideoTexture::Wgpu(_) => false,
        }
    }
}

/// Once it has been cleared, the video is gone, whatever the presenters hold.
pub proof fn cleared_video_is_gone<Id: Copy>(t: VideoTexture<Id>, presenters: Presenters)
    ensures
        !t.cleared().shows(presenters),
        t.cleared().id() == t.id(),
{
}

} // verus!
