//! Showing video through OpenGL: what is uploaded, in which order, and what happens
//! when a step fails.
use crate::frames::{Platform, VideoFormat, VideoFrameBuffer};
use crate::labels::NativeSurfaceCapabilities;
use crate::text;
use crate::text::{concat, decimal_string, str_eq};
use std::collections::VecDeque;
use vstd::prelude::*;
use vstd::string::*;

verus! {

/// Whether frames may be shown past the window's own textures.
pub fn direct_present_enabled(setting: Option<&str>) -> (r: bool)
    ensures
        r == match setting {
            Some(setting) => setting@ == "0"@,
            None => true,
        },
{
    match setting {
        Some(setting) => str_eq(setting, "0"),
        None => true,
    }
}

pub const PBO_RING_SIZE: usize = 3;

/// Three pixel buffers that are filled in turn, so that none is written while the
/// hardware may still read it.
#[derive(Clone, Debug)]
pub struct PboRing {
    pub created: [bool; 3],
    pub capacities: [usize; 3],
    pub current: usize,
}

/// How the next pixel buffer is to be prepared.
#[derive(Clone, Copy, Debug, PartialEq, Eq, Structural)]
pub struct PboPlan {
    pub slot: usize,
    pub create: bool,
    /// The size the buffer is given anew, its old contents dropped.
    pub size: usize,
}

/// What became of a plan.
#[derive(Clone, Copy, Debug, PartialEq, Eq, Structural)]
pub enum PboOutcome {
    NotCreated,
    NotMapped,
    Written,
}

impl PboRing {
    pub open spec fn wf(self) -> bool {
        self.current < 3
    }

    pub fn new() -> (ring: PboRing)
        ensures
            ring.wf(),
            ring.created@ == seq![false, false, false],
            ring.capacities@ == seq![0usize, 0usize, 0usize],
            ring.current == 0,
    {
        let ring = PboRing { created: [false, false, false], capacities: [0, 0, 0], current: 0 };
        proof {
            assert(ring.created@ =~= seq![false, false, false]);
            assert(ring.capacities@ =~= seq![0usize, 0usize, 0usize]);
        }
        ring
    }

    pub open spec fn planned(self, len: usize) -> PboPlan {
        PboPlan {
            slot: self.current,
            create: !self.created@[self.current as int],
            size: if self.capacities@[self.current as int] < len {
                len
            } else {
                self.capacities@[self.current as int]
            },
        }
    }

    /// Prepares to upload some bytes through the next buffer.
    pub fn plan(&self, len: usize) -> (plan: PboPlan)
        requires
            self.wf(),
        ensures
            plan == self.planned(len),
    {
        let capacity: usize = self.capacities[self.current];
        PboPlan {
            slot: self.current,
            create: !self.created[self.current],
            size: if capacity < len {
                len
            } else {
                capacity
            },
        }
    }

    /// Notes what became of the upload. Returns whether the bytes are in the buffer;
    /// if not, they have to be handed over directly.
    pub fn upload(&mut self, len: usize, outcome: PboOutcome) -> (used: bool)
        requires
            old(self).wf(),
        ensures
            final(self).wf(),
            used == (outcome == PboOutcome::Written),
            outcome == PboOutcome::NotCreated ==> *final(self) == *old(self),
            outcome != PboOutcome::NotCreated ==> {
                &&& final(self).created@ == old(self).created@.update(
                    old(self).current as int,
                    true,
                )
                &&& final(self).capacities@ == old(self).capacities@.update(
                    old(self).current as int,
                    old(self).planned(len).size,
                )
            },
            final(self).current == if used {
                (old(self).current + 1) % 3
            } else {
                old(self).current as int
            },
    {
        let slot: usize = self.current;
        match outcome {
            PboOutcome::NotCreated => false,
            PboOutcome::NotMapped | PboOutcome::Written => {
                self.created[slot] = true;
                if self.capacities[slot] < len {
                    self.capacities[slot] = len;
                }
                proof {
                    assert(self.capacities@ =~= old(self).capacities@.update(
                        slot as int,
                        old(self).planned(len).size,
                    ));
                }
                match outcome {
                    PboOutcome::Written => {
                        self.current = (slot + 1) % PBO_RING_SIZE;
                        true
                    },
                    _ => false,
                }
            },
        }
    }

    /// Empties the ring. Returns which of its buffers have to be deleted.
    pub fn destroy(&mut self) -> (created: [bool; 3])
        ensures
            created@ == old(self).created@,
            final(self).wf(),
            final(self).created@ == seq![false, false, false],
            final(self).capacities@ == seq![0usize, 0usize, 0usize],
            final(self).current == 0,
    {
        let created = self.created;
        self.created = [false, false, false];
        self.capacities = [0, 0, 0];
        self.current = 0;
        proof {
            assert(self.created@ =~= seq![false, false, false]);
            assert(self.capacities@ =~= seq![0usize, 0usize, 0usize]);
        }
        created
    }
}

/// What is written fits into the buffer that was prepared for it.
pub proof fn pbo_has_room(ring: PboRing, len: usize)
    requires
        ring.wf(),
    ensures
        len <= ring.planned(len).size,
        ring.planned(len).slot < PBO_RING_SIZE,
{
}

/// The slot after some number of uploads that succeeded.
pub open spec fn slot_after(start: nat, uploads: nat) -> nat {
    (start + uploads) % 3
}

/// A buffer is written again only after the two others have been.
pub proof fn pbo_slots_rotate(start: nat)
    requires
        start < 3,
    ensures
        slot_after(start, 1) != start,
        slot_after(start, 2) != start,
        slot_after(start, 1) != slot_after(start, 2),
        slot_after(start, 3) == start,
{
}

/// How a plane's pixels reach its texture.
#[derive(Clone, Copy, Debug, PartialEq, Eq, Structural)]
pub enum PlaneUpload {
    /// The texture is made anew from them.
    Allocate,
    /// They replace the texture's, from the pixel buffer.
    FromBuffer,
    /// They replace the texture's, from memory.
    FromMemory,
}

/// Whether a plane should go through a pixel buffer: only if its texture stays as
/// it is.
pub fn tries_pixel_buffer(reallocate: bool, pbo_enabled: bool) -> (r: bool)
    ensures
        r == (!reallocate && pbo_enabled),
{
    !reallocate && pbo_enabled
}

pub fn upload_plane_texture(reallocate: bool, pbo_used: bool) -> (r: PlaneUpload)
    ensures
        r == if reallocate {
            PlaneUpload::Allocate
        } else if pbo_used {
            PlaneUpload::FromBuffer
        } else {
            PlaneUpload::FromMemory
        },
{
    if reallocate {
        PlaneUpload::Allocate
    } else if pbo_used {
        PlaneUpload::FromBuffer
    } else {
        PlaneUpload::FromMemory
    }
}

/// What a texture for colour is filled from.
#[derive(Clone, Copy, Debug, PartialEq, Eq, Structural)]
pub struct ChromaPlane {
    /// The frame's plane, 1 or 2.
    pub plane: u8,
    /// Each texel holds both colour values.
    pub interleaved: bool,
}

pub open spec fn chroma_of(format: VideoFormat) -> Seq<ChromaPlane> {
    match format {
        VideoFormat::Yuv420p8 | VideoFormat::Yuv444p8 => seq![
            ChromaPlane { plane: 1, interleaved: false },
            ChromaPlane { plane: 2, interleaved: false },
        ],
        VideoFormat::Nv12 => seq![ChromaPlane { plane: 1, interleaved: true }],
        VideoFormat::Rgba8 => Seq::empty(),
    }
}

/// The colour planes of a frame, in the order in which they are uploaded after the
/// luminance.
pub fn chroma_planes(format: VideoFormat) -> (r: Result<Vec<ChromaPlane>, String>)
    ensures
        match r {
            Ok(planes) => format != VideoFormat::Rgba8 && planes@ == chroma_of(format),
            Err(message) => format == VideoFormat::Rgba8 && message@
                == "unexpected RGBA frame in YUV pipeline"@,
        },
{
    let mut planes: Vec<ChromaPlane> = Vec::new();
    match format {
        VideoFormat::Yuv420p8 | VideoFormat::Yuv444p8 => {
            planes.push(ChromaPlane { plane: 1, interleaved: false });
            planes.push(ChromaPlane { plane: 2, interleaved: false });
        },
        VideoFormat::Nv12 => {
            planes.push(ChromaPlane { plane: 1, interleaved: true });
        },
        VideoFormat::Rgba8 => {
            return Err("unexpected RGBA frame in YUV pipeline".to_owned());
        },
    }
    proof {
        assert(planes@ =~= chroma_of(format));
    }
    Ok(planes)
}

/// What the pipeline's textures were made for.
#[derive(Clone, Copy, Debug)]
pub struct YuvPipeline {
    pub last_format: Option<VideoFormat>,
    pub last_luma_size: (u32, u32),
    pub last_chroma_size: (u32, u32),
    pub pbo_enabled: bool,
}

impl YuvPipeline {
    pub fn new(pbo_enabled: bool) -> (p: YuvPipeline)
        ensures
            p == (YuvPipeline {
                last_format: None,
                last_luma_size: (0, 0),
                last_chroma_size: (0, 0),
                pbo_enabled,
            }),
    {
        YuvPipeline {
            last_format: None,
            last_luma_size: (0, 0),
            last_chroma_size: (0, 0),
            pbo_enabled,
        }
    }

    pub open spec fn made_for(self, format: VideoFormat, luma: (u32, u32), chroma: (u32, u32)) -> bool {
        self.last_format == Some(format) && self.last_luma_size == luma && self.last_chroma_size
            == chroma
    }

    /// Whether the textures have to be made anew for a frame.
    pub fn needs_textures(
        &self,
        format: VideoFormat,
        luma: (u32, u32),
        chroma: (u32, u32),
    ) -> (r: bool)
        ensures
            r == !self.made_for(format, luma, chroma),
    {
        let same_format = match self.last_format {
            Some(last) => last == format,
            None => false,
        };
        !(same_format && self.last_luma_size.0 == luma.0 && self.last_luma_size.1 == luma.1
            && self.last_chroma_size.0 == chroma.0 && self.last_chroma_size.1 == chroma.1)
    }

    pub open spec fn after(self, format: VideoFormat, luma: (u32, u32), chroma: (u32, u32)) -> YuvPipeline {
        YuvPipeline {
            last_format: Some(format),
            last_luma_size: luma,
            last_chroma_size: chroma,
            pbo_enabled: self.pbo_enabled,
        }
    }

    /// A frame has been drawn.
    pub fn rendered(&mut self, format: VideoFormat, luma: (u32, u32), chroma: (u32, u32))
        ensures
            *final(self) == old(self).after(format, luma, chroma),
    {
        self.last_format = Some(format);
        self.last_luma_size = luma;
        self.last_chroma_size = chroma;
    }
}

/// Frames of one shape are drawn with the textures of the first; a frame of another
/// shape gets new ones.
pub proof fn textures_are_reused(
    p: YuvPipeline,
    format: VideoFormat,
    luma: (u32, u32),
    chroma: (u32, u32),
    other: VideoFormat,
    other_luma: (u32, u32),
    other_chroma: (u32, u32),
)
    ensures
        p.after(format, luma, chroma).made_for(other, other_luma, other_chroma) == (other == format
            && other_luma == luma && other_chroma == chroma),
{
}

/// How the shader reads colour: from two textures (0) or from one (1).
pub open spec fn mode_of(format: VideoFormat) -> i32 {
    match format {
        VideoFormat::Nv12 => 1,
        _ => 0,
    }
}

pub fn shader_mode(format: VideoFormat) -> (mode: i32)
    ensures
        mode == mode_of(format),
{
    match format {
        VideoFormat::Nv12 => 1,
        VideoFormat::Yuv420p8 | VideoFormat::Yuv444p8 | VideoFormat::Rgba8 => 0,
    }
}

/// Whether the shader's third texture is the second colour plane. Otherwise it is
/// the first one again.
pub fn reads_second_chroma(format: VideoFormat) -> (r: bool)
    ensures
        r == (format == VideoFormat::Yuv420p8 || format == VideoFormat::Yuv444p8),
{
    match format {
        VideoFormat::Yuv420p8 | VideoFormat::Yuv444p8 => true,
        VideoFormat::Nv12 | VideoFormat::Rgba8 => false,
    }
}

/// The shader reads the second colour plane exactly if one has been uploaded.
pub proof fn shaders_read_uploaded_planes(format: VideoFormat)
    requires
        format != VideoFormat::Rgba8,
    ensures
        (chroma_of(format).len() == 2) == (mode_of(format) == 0),
        mode_of(format) == 1 ==> chroma_of(format)[0].interleaved,
{
}

pub open spec fn short_rgba_text(got: nat, need: nat) -> Seq<char> {
    "RGBA frame buffer too small: got "@ + text::decimal(got) + ", need "@ + text::decimal(need)
}

/// How many bytes of an RGBA frame are uploaded.
pub fn upload_rgba(width: u32, height: u32, len: usize) -> (r: Result<usize, String>)
    requires
        width * height * 4 <= usize::MAX,
    ensures
        match r {
            Ok(used) => used == width * height * 4 && used <= len,
            Err(message) => len < width * height * 4 && message@ == short_rgba_text(
                len as nat,
                (width * height * 4) as nat,
            ),
        },
{
    proof {
        assert(0 <= width * height) by (nonlinear_arith);
    }
    let expected: usize = width as usize * height as usize * 4;
    if len < expected {
        let mut message = concat(
            "RGBA frame buffer too small: got ",
            decimal_string(len as u64).as_str(),
        );
        message.append(", need ");
        message.append(decimal_string(expected as u64).as_str());
        return Err(message);
    }
    Ok(expected)
}

/// Whether pixels can be uploaded through buffers.
pub fn pbo_upload_supported(disabled: bool, embedded: bool, major: u32, minor: u32) -> (r: bool)
    ensures
        r == (!disabled && if embedded {
            major >= 3
        } else {
            major > 2 || (major == 2 && minor >= 1)
        }),
{
    if disabled {
        return false;
    }
    if embedded {
        major >= 3
    } else {
        major > 2 || (major == 2 && minor >= 1)
    }
}

/// Whether the window's OpenGL can convert colours. `found` describes its version.
pub fn ensure_yuv_gl_support(major: u32, found: &str) -> (r: Result<(), String>)
    ensures
        match r {
            Ok(_) => major >= 3,
            Err(message) => major < 3 && message@
                == "OpenGL 3.0+ required for YUV rendering, found "@ + found@,
        },
{
    if major >= 3 {
        Ok(())
    } else {
        Err(concat("OpenGL 3.0+ required for YUV rendering, found ", found))
    }
}

/// The first lines of the shaders.
pub fn shader_header(embedded: bool) -> (s: &'static str)
    ensures
        s@ == if embedded {
            "#version 300 es\nprecision mediump float;\n"@
        } else {
            "#version 330 core\n"@
        },
{
    if embedded {
        "#version 300 es\nprecision mediump float;\n"
    } else {
        "#version 330 core\n"
    }
}

pub const MACOS_FRAME_KEEPALIVE_DEPTH: usize = 6;

/// The texture that the window draws video from, and what is known of the ways
/// around it. The presenters themselves are shared with the window's painter; what
/// they say is handed in.
#[derive(Clone, Debug)]
pub struct NativeVideoTexture<Id> {
    pub platform: Platform,
    pub texture_id: Option<Id>,
    pub width: u32,
    pub height: u32,
    /// The platform's surfaces can be drawn.
    pub surface_supported: bool,
    /// What imports the platform's surfaces exists.
    pub importer: bool,
    /// What converts planes in memory exists.
    pub yuv_pipeline: bool,
    /// What converts rectangle textures exists.
    pub rect_pipeline: bool,
    pub windows_overlayless_preferred: bool,
}

/// What to do with a frame that might be shown directly.
#[derive(Clone, Copy, Debug, PartialEq, Eq, Structural)]
pub enum StageStep {
    /// Offer it to the presenter with a view of its own.
    Native,
    /// Offer it to the presenter inside the window.
    Direct,
    /// Upload it.
    Decline,
}

/// What to do to show the frame that was staged.
#[derive(Clone, Copy, Debug, PartialEq, Eq, Structural)]
pub enum PaintStep {
    Native,
    Direct,
    Nothing,
}

/// A piece of an upload.
#[derive(Clone, Copy, Debug, PartialEq, Eq, Structural)]
pub enum UploadWork {
    /// Have the output texture, made anew if it is missing. With `resize` it gets
    /// the frame's size.
    Output { resize: bool },
    Importer,
    YuvPipeline,
    RectPipeline,
    /// Draw the surface into the output texture.
    Import,
    /// Copy the pixels into it.
    Rgba,
    /// Convert the planes into it.
    Planes,
}

/// How an upload ended.
#[derive(Clone, Debug)]
pub enum UploadEnd {
    Uploaded,
    /// The surface could not be drawn, and no more of its kind are wanted.
    SurfaceRefused(String),
    Failed(String),
}

/// A frame lies on a surface of the platform.
pub open spec fn has_surface(platform: Platform, video: VideoFrameBuffer) -> bool {
    match platform {
        Platform::Linux => video.dmabuf is Some,
        Platform::Macos => video.videotoolbox is Some,
        Platform::Windows => video.d3d11 is Some,
        Platform::Other => false,
    }
}

fn on_surface(platform: Platform, video: &VideoFrameBuffer) -> (r: bool)
    ensures
        r == has_surface(platform, *video),
{
    match platform {
        Platform::Linux => video.dmabuf.is_some(),
        Platform::Macos => video.videotoolbox.is_some(),
        Platform::Windows => video.d3d11.is_some(),
        Platform::Other => false,
    }
}

/// Work that is not needed if something is there already.
pub open spec fn unless(there: bool, work: UploadWork) -> Seq<UploadWork> {
    if there {
        Seq::empty()
    } else {
        seq![work]
    }
}

/// Work whose failure is put down to the surface, not to the frame.
pub open spec fn blames_surface(work: UploadWork) -> bool {
    match work {
        UploadWork::Importer | UploadWork::RectPipeline | UploadWork::Import => true,
        _ => false,
    }
}

impl<Id: Copy> NativeVideoTexture<Id> {
    pub fn new(platform: Platform, surface_supported: bool) -> (t: NativeVideoTexture<Id>)
        ensures
            t == (NativeVideoTexture::<Id> {
                platform,
                texture_id: None,
                width: 0,
                height: 0,
                surface_supported,
                importer: false,
                yuv_pipeline: false,
                rect_pipeline: false,
                windows_overlayless_preferred: false,
            }),
    {
        NativeVideoTexture {
            platform,
            texture_id: None,
            width: 0,
            height: 0,
            surface_supported,
            importer: false,
            yuv_pipeline: false,
            rect_pipeline: false,
            windows_overlayless_preferred: false,
        }
    }

    pub open spec fn shows(self, presented: bool) -> bool {
        self.width != 0 && self.height != 0 && (presented || self.texture_id is Some)
    }

    /// Whether there is a frame to show. `presented`: one of the presenters has one.
    pub fn has_frame(&self, presented: bool) -> (r: bool)
        ensures
            r == self.shows(presented),
    {
        self.width != 0 && self.height != 0 && (presented || self.texture_id.is_some())
    }

    pub fn texture_id(&self) -> (id: Option<Id>)
        ensures
            id == self.texture_id,
    {
        self.texture_id
    }

    pub fn size(&self) -> (size: (u32, u32))
        ensures
            size == (self.width, self.height),
    {
        (self.width, self.height)
    }

    /// Returns whether the presenter with a view of its own has to be told.
    pub fn set_windows_overlayless_preferred(&mut self, preferred: bool) -> (tells: bool)
        ensures
            tells == (old(self).platform == Platform::Windows),
            *final(self) == if tells {
                NativeVideoTexture { windows_overlayless_preferred: preferred, ..*old(self) }
            } else {
                *old(self)
            },
    {
        match self.platform {
            Platform::Windows => {
                self.windows_overlayless_preferred = preferred;
                true
            },
            _ => false,
        }
    }

    /// Whether the video lies above what the window draws. `native`: what the
    /// presenter with a view of its own says, if there is one.
    pub fn occludes_egui_overlay(&self, native: Option<bool>) -> (r: bool)
        ensures
            r == (self.platform == Platform::Windows && native == Some(true)),
    {
        match self.platform {
            Platform::Windows => match native {
                Some(occludes) => occludes,
                None => false,
            },
            _ => false,
        }
    }

    pub open spec fn cleared(self) -> NativeVideoTexture<Id> {
        NativeVideoTexture { width: 0, height: 0, ..self }
    }

    pub fn clear_frame(&mut self)
        ensures
            *final(self) == old(self).cleared(),
    {
        self.width = 0;
        self.height = 0;
    }

    pub open spec fn offers_native(self) -> bool {
        self.platform == Platform::Macos || (self.platform == Platform::Windows
            && self.windows_overlayless_preferred)
    }

    pub open spec fn staging(
        self,
        video: VideoFrameBuffer,
        native: Option<bool>,
        direct: Option<bool>,
        native_refused: bool,
    ) -> StageStep {
        if !self.surface_supported || !has_surface(self.platform, video) {
            StageStep::Decline
        } else if self.offers_native() && native == Some(true) && !native_refused {
            StageStep::Native
        } else if direct == Some(true) {
            StageStep::Direct
        } else {
            StageStep::Decline
        }
    }

    /// Chooses which presenter a frame is offered to. `native` and `direct`: whether
    /// the presenters, where there are such, are still at work; `native_refused`:
    /// the first of them has been asked in vain.
    pub fn stage_direct_frame(
        &self,
        video: &VideoFrameBuffer,
        native: Option<bool>,
        direct: Option<bool>,
        native_refused: bool,
    ) -> (step: StageStep)
        ensures
            step == self.staging(*video, native, direct, native_refused),
    {
        if !self.surface_supported || !on_surface(self.platform, video) {
            return StageStep::Decline;
        }
        let offers_native = match self.platform {
            Platform::Macos => true,
            Platform::Windows => self.windows_overlayless_preferred,
            _ => false,
        };
        match native {
            Some(enabled) => if offers_native && enabled && !native_refused {
                return StageStep::Native;
            },
            None => {},
        }
        match direct {
            Some(enabled) => if enabled {
                StageStep::Direct
            } else {
                StageStep::Decline
            },
            None => StageStep::Decline,
        }
    }

    pub open spec fn sized(self, width: u32, height: u32) -> NativeVideoTexture<Id> {
        NativeVideoTexture { width, height, ..self }
    }

    /// A presenter has taken a frame. Returns whether the frame has to be kept alive
    /// for a while.
    pub fn staged(&mut self, video: &VideoFrameBuffer) -> (keeps: bool)
        ensures
            *final(self) == old(self).sized(video.width, video.height),
            keeps == (old(self).platform == Platform::Macos),
    {
        self.width = video.width;
        self.height = video.height;
        self.platform == Platform::Macos
    }

    /// Chooses who shows the staged frame. `native_has_frame` and `direct_has_frame`
    /// are false where there is no such presenter; `native_failed`: the first of
    /// them has been asked in vain.
    pub fn paint_direct_if_available(
        &self,
        native_has_frame: bool,
        direct_has_frame: bool,
        native_failed: bool,
    ) -> (step: PaintStep)
        ensures
            step == match self.platform {
                Platform::Linux => if direct_has_frame {
                    PaintStep::Direct
                } else {
                    PaintStep::Nothing
                },
                Platform::Macos | Platform::Windows => if native_has_frame && !native_failed {
                    PaintStep::Native
                } else if direct_has_frame {
                    PaintStep::Direct
                } else {
                    PaintStep::Nothing
                },
                Platform::Other => PaintStep::Nothing,
            },
    {
        match self.platform {
            Platform::Linux => {},
            Platform::Macos | Platform::Windows => if native_has_frame && !native_failed {
                return PaintStep::Native;
            },
            Platform::Other => {
                return PaintStep::Nothing;
            },
        }
        if direct_has_frame {
            PaintStep::Direct
        } else {
            PaintStep::Nothing
        }
    }

    pub fn native_surface_capabilities(&self) -> (caps: NativeSurfaceCapabilities)
        ensures
            caps == (NativeSurfaceCapabilities {
                linux_dmabuf: self.platform == Platform::Linux && self.surface_supported,
                macos_videotoolbox: self.platform == Platform::Macos && self.surface_supported,
                windows_d3d11: self.platform == Platform::Windows && self.surface_supported,
            }),
    {
        NativeSurfaceCapabilities {
            linux_dmabuf: self.platform == Platform::Linux && self.surface_supported,
            macos_videotoolbox: self.platform == Platform::Macos && self.surface_supported,
            windows_d3d11: self.platform == Platform::Windows && self.surface_supported,
        }
    }

    /// Before an upload: a surface that is bound to the output texture is let go if
    /// the frame does not lie on one. The texture then counts as having no size.
    pub fn release_registration(&mut self, video: &VideoFrameBuffer, registered: bool) -> (released: bool)
        ensures
            released == (old(self).platform == Platform::Windows && video.d3d11 is None
                && old(self).importer && registered),
            *final(self) == if released {
                old(self).cleared()
            } else {
                *old(self)
            },
    {
        if self.platform == Platform::Windows && video.d3d11.is_none() && self.importer
            && registered {
            self.width = 0;
            self.height = 0;
            return true;
        }
        false
    }

    /// The work of an upload, in order.
    pub open spec fn plan(self, video: VideoFrameBuffer) -> Seq<UploadWork> {
        let resize = self.width != video.width || self.height != video.height;
        if has_surface(self.platform, video) {
            match self.platform {
                Platform::Windows => seq![UploadWork::Output { resize: false }] + unless(
                    self.importer,
                    UploadWork::Importer,
                ) + seq![UploadWork::Import],
                Platform::Linux => seq![UploadWork::Output { resize }] + unless(
                    self.importer,
                    UploadWork::Importer,
                ) + unless(self.yuv_pipeline, UploadWork::YuvPipeline) + seq![UploadWork::Import],
                _ => seq![UploadWork::Output { resize }] + unless(
                    self.importer,
                    UploadWork::Importer,
                ) + unless(self.rect_pipeline, UploadWork::RectPipeline)
                    + seq![UploadWork::Import],
            }
        } else if video.format == VideoFormat::Rgba8 {
            seq![UploadWork::Output { resize }, UploadWork::Rgba]
        } else {
            seq![UploadWork::Output { resize }] + unless(
                self.yuv_pipeline,
                UploadWork::YuvPipeline,
            ) + seq![UploadWork::Planes]
        }
    }

    /// Lists the work of an upload, in order.
    pub fn upload_plan(&self, video: &VideoFrameBuffer) -> (plan: Vec<UploadWork>)
        ensures
            plan@ == self.plan(*video),
    {
        let resize = self.width != video.width || self.height != video.height;
        let surface = on_surface(self.platform, video);
        let mut plan: Vec<UploadWork> = Vec::new();
        if surface {
            match self.platform {
                Platform::Windows => {
                    plan.push(UploadWork::Output { resize: false });
                },
                _ => {
                    plan.push(UploadWork::Output { resize });
                },
            }
            if !self.importer {
                plan.push(UploadWork::Importer);
            }
            match self.platform {
                Platform::Windows => {},
                Platform::Linux => if !self.yuv_pipeline {
                    plan.push(UploadWork::YuvPipeline);
                },
                _ => if !self.rect_pipeline {
                    plan.push(UploadWork::RectPipeline);
                },
            }
            plan.push(UploadWork::Import);
        } else {
            plan.push(UploadWork::Output { resize });
            match video.format {
                VideoFormat::Rgba8 => {
                    plan.push(UploadWork::Rgba);
                },
                _ => {
                    if !self.yuv_pipeline {
                        plan.push(UploadWork::YuvPipeline);
                    }
                    plan.push(UploadWork::Planes);
                },
            }
        }
        proof {
            assert(plan@ =~= self.plan(*video));
        }
        plan
    }

    pub open spec fn after_done(self, work: UploadWork, video: VideoFrameBuffer) -> NativeVideoTexture<Id> {
        match work {
            UploadWork::Output { .. } => self,
            UploadWork::Importer => NativeVideoTexture { importer: true, ..self },
            UploadWork::YuvPipeline => NativeVideoTexture { yuv_pipeline: true, ..self },
            UploadWork::RectPipeline => NativeVideoTexture { rect_pipeline: true, ..self },
            UploadWork::Import | UploadWork::Rgba | UploadWork::Planes => self.sized(
                video.width,
                video.height,
            ),
        }
    }

    /// Notes that a piece of the work is done.
    pub fn work_done(&mut self, work: UploadWork, video: &VideoFrameBuffer)
        ensures
            *final(self) == old(self).after_done(work, *video),
    {
        match work {
            UploadWork::Output { .. } => {},
            UploadWork::Importer => {
                self.importer = true;
            },
            UploadWork::YuvPipeline => {
                self.yuv_pipeline = true;
            },
            UploadWork::RectPipeline => {
                self.rect_pipeline = true;
            },
            UploadWork::Import | UploadWork::Rgba | UploadWork::Planes => {
                self.width = video.width;
                self.height = video.height;
            },
        }
    }

    /// The output texture has been made and is known to the window.
    pub fn output_made(&mut self, id: Id)
        ensures
            *final(self) == (NativeVideoTexture { texture_id: Some(id), ..*old(self) }),
    {
        self.texture_id = Some(id);
    }

    pub open spec fn after_failed(self, work: UploadWork) -> NativeVideoTexture<Id> {
        match work {
            UploadWork::RectPipeline | UploadWork::Import => NativeVideoTexture {
                importer: false,
                ..self
            },
            _ => self,
        }
    }

    /// Notes that a piece of the work failed, which ends the upload.
    pub fn work_failed(&mut self, work: UploadWork, error: String) -> (end: UploadEnd)
        ensures
            *final(self) == old(self).after_failed(work),
            end == if blames_surface(work) {
                UploadEnd::SurfaceRefused(error)
            } else {
                UploadEnd::Failed(error)
            },
    {
        match work {
            UploadWork::RectPipeline | UploadWork::Import => {
                self.importer = false;
                UploadEnd::SurfaceRefused(error)
            },
            UploadWork::Importer => UploadEnd::SurfaceRefused(error),
            _ => UploadEnd::Failed(error),
        }
    }
}

/// Keeps the newest of the surfaces alive while the hardware may still read them.
pub fn retain_recent_macos_frame<F>(recent: &mut VecDeque<F>, frame: F)
    ensures
        final(recent)@ == if old(recent)@.len() < MACOS_FRAME_KEEPALIVE_DEPTH {
            old(recent)@.push(frame)
        } else {
            old(recent)@.push(frame).skip(old(recent)@.len() + 1 - MACOS_FRAME_KEEPALIVE_DEPTH)
        },
{
    recent.push_back(frame);
    let ghost all = recent@;
    let ghost mut gone: int = 0;
    proof {
        assert(recent@ =~= all.skip(0));
    }
    while recent.len() > MACOS_FRAME_KEEPALIVE_DEPTH
        invariant
            0 <= gone <= all.len(),
            recent@ == all.skip(gone),
            gone > 0 ==> recent@.len() >= MACOS_FRAME_KEEPALIVE_DEPTH,
        decreases recent@.len(),
    {
        let _oldest = recent.pop_front();
        proof {
            gone = gone + 1;
            assert(recent@ =~= all.skip(gone));
        }
    }
}

/// What a texture is after a whole plan.
pub open spec fn after_all<Id: Copy>(
    t: NativeVideoTexture<Id>,
    plan: Seq<UploadWork>,
    video: VideoFrameBuffer,
) -> NativeVideoTexture<Id>
    decreases plan.len(),
{
    if plan.len() == 0 {
        t
    } else {
        after_all(t.after_done(plan[0], video), plan.subrange(1, plan.len() as int), video)
    }
}

/// A texture that has been cleared shows nothing, whatever the presenters say.
pub proof fn cleared_textures_show_nothing<Id: Copy>(t: NativeVideoTexture<Id>, presented: bool)
    ensures
        !t.cleared().shows(presented),
{
}

/// Only the last piece of an upload gives the texture the frame's size: an upload
/// that fails leaves the size as it was, and the output texture is resized again
/// next time.
pub proof fn failed_uploads_keep_the_size<Id: Copy>(
    t: NativeVideoTexture<Id>,
    video: VideoFrameBuffer,
    done: nat,
)
    requires
        done < t.plan(video).len(),
    ensures
        after_all(t, t.plan(video).subrange(0, done as int), video).width == t.width,
        after_all(t, t.plan(video).subrange(0, done as int), video).height == t.height,
{
    let plan = t.plan(video);
    let last = plan[plan.len() - 1];
    assert(forall|i: int| 0 <= i < plan.len() - 1 ==> !(#[trigger] plan[i] is Import
        || plan[i] is Rgba || plan[i] is Planes));
    sizes_stay(t, plan.subrange(0, done as int), video);
}

proof fn sizes_stay<Id: Copy>(t: NativeVideoTexture<Id>, plan: Seq<UploadWork>, video: VideoFrameBuffer)
    requires
        forall|i: int|
            0 <= i < plan.len() ==> !(#[trigger] plan[i] is Import || plan[i] is Rgba
                || plan[i] is Planes),
    ensures
        after_all(t, plan, video).width == t.width,
        after_all(t, plan, video).height == t.height,
    decreases plan.len(),
{
    if plan.len() > 0 {
        sizes_stay(t.after_done(plan[0], video), plan.subrange(1, plan.len() as int), video);
    }
}

/// An upload that succeeds leaves the texture with the frame's size, and nothing that
/// is needed for frames of this kind has to be made again: the next upload of such a
/// frame only has the output texture to look up, and draws.
pub proof fn uploads_get_shorter<Id: Copy>(t: NativeVideoTexture<Id>, video: VideoFrameBuffer)
    ensures
        ({
            let after = after_all(t, t.plan(video), video);
            &&& after.width == video.width
            &&& after.height == video.height
            &&& after.plan(video).len() == 2
            &&& after.plan(video)[0] == (UploadWork::Output { resize: false })
        }),
{
    reveal_with_fuel(after_all, 6);
    let plan = t.plan(video);
    assert(plan.len() <= 4);
    after_all_unfolds(t, plan, video);
}

proof fn after_all_unfolds<Id: Copy>(
    t: NativeVideoTexture<Id>,
    plan: Seq<UploadWork>,
    video: VideoFrameBuffer,
)
    requires
        2 <= plan.len() <= 4,
    ensures
        plan.len() == 2 ==> after_all(t, plan, video) == t.after_done(plan[0], video).after_done(
            plan[1],
            video,
        ),
        plan.len() == 3 ==> after_all(t, plan, video) == t.after_done(plan[0], video).after_done(
            plan[1],
            video,
        ).after_done(plan[2], video),
        plan.len() == 4 ==> after_all(t, plan, video) == t.after_done(plan[0], video).after_done(
            plan[1],
            video,
        ).after_done(plan[2], video).after_done(plan[3], video),
{
    reveal_with_fuel(after_all, 6);
    let one = plan.subrange(1, plan.len() as int);
    let two = one.subrange(1, one.len() as int);
    assert(one[0] == plan[1]);
    assert(two.len() > 0 ==> two[0] == plan[2]);
    if plan.len() == 4 {
        let three = two.subrange(1, two.len() as int);
        assert(three[0] == plan[3]);
    }
}

} // verus!
