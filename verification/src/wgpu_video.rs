//! Showing video through the newer graphics interface: the textures it needs, what is
//! written into them, and when frames are taken from the driver's buffers.
use crate::dmabuf::{DmaBufCapabilities, PlaneFormat};
use crate::frames::{LinuxDmaBufFormat, VideoFormat};
use crate::labels::NativeSurfaceCapabilities;
use crate::text;
use crate::text::{concat, decimal_string};
use vstd::prelude::*;
use vstd::string::*;

verus! {

/// Whether frames are taken from the driver's buffers.
#[derive(Clone, Copy, Debug, PartialEq, Eq, Structural)]
pub enum DmaBufSupportState {
    /// The first upload will find out.
    Unprobed,
    Enabled,
    /// Not before the client is started again.
    Disabled,
}

/// The texture that the window draws video from.
#[derive(Clone, Debug)]
pub struct WgpuVideoTexture<Id> {
    /// The platform has such buffers.
    pub linux: bool,
    pub texture_id: Option<Id>,
    pub width: u32,
    pub height: u32,
    pub dmabuf_support: DmaBufSupportState,
}

impl<Id: Copy> WgpuVideoTexture<Id> {
    pub fn new(linux: bool) -> (t: WgpuVideoTexture<Id>)
        ensures
            t == (WgpuVideoTexture::<Id> {
                linux,
                texture_id: None,
                width: 0,
                height: 0,
                dmabuf_support: DmaBufSupportState::Unprobed,
            }),
    {
        WgpuVideoTexture {
            linux,
            texture_id: None,
            width: 0,
            height: 0,
            dmabuf_support: DmaBufSupportState::Unprobed,
        }
    }

    pub open spec fn shows(self) -> bool {
        self.texture_id is Some && self.width != 0 && self.height != 0
    }

    pub fn has_frame(&self) -> (r: bool)
        ensures
            r == self.shows(),
    {
        self.texture_id.is_some() && self.width != 0 && self.height != 0
    }

    pub fn texture_id(&self) -> (id: Option<Id>)
        ensures
            id == self.texture_id,
    {
        self.texture_id
    }

    pub fn size(&self) -> (size: (u32, u32))
        ensures
            size == (self.width, self.height),
    {
        (self.width, self.height)
    }

    pub open spec fn cleared(self) -> WgpuVideoTexture<Id> {
        WgpuVideoTexture { width: 0, height: 0, ..self }
    }

    pub fn clear_frame(&mut self)
        ensures
            *final(self) == old(self).cleared(),
    {
        self.width = 0;
        self.height = 0;
    }

    pub fn native_surface_capabilities(&self) -> (caps: NativeSurfaceCapabilities)
        ensures
            caps == (NativeSurfaceCapabilities {
                linux_dmabuf: self.linux && self.dmabuf_support == DmaBufSupportState::Enabled,
                macos_videotoolbox: false,
                windows_d3d11: false,
            }),
    {
        NativeSurfaceCapabilities {
            linux_dmabuf: self.linux && self.dmabuf_support == DmaBufSupportState::Enabled,
            macos_videotoolbox: false,
            windows_d3d11: false,
        }
    }

    pub open spec fn probed(self, requested: bool, caps: DmaBufCapabilities) -> WgpuVideoTexture<Id> {
        if !self.linux || self.dmabuf_support != DmaBufSupportState::Unprobed {
            self
        } else {
            WgpuVideoTexture {
                dmabuf_support: if requested && caps.supported() {
                    DmaBufSupportState::Enabled
                } else {
                    DmaBufSupportState::Disabled
                },
                ..self
            }
        }
    }

    /// Finds out, once, whether frames can be taken from the driver's buffers:
    /// if the user has not switched it off and the device offers it. Returns whether
    /// it has just been found out.
    pub fn maybe_probe_dmabuf(&mut self, requested: bool, caps: &DmaBufCapabilities) -> (news: bool)
        ensures
            *final(self) == old(self).probed(requested, *caps),
            news == (old(self).linux && old(self).dmabuf_support == DmaBufSupportState::Unprobed),
    {
        if !self.linux || self.dmabuf_support != DmaBufSupportState::Unprobed {
            return false;
        }
        if requested && caps.is_supported() {
            self.dmabuf_support = DmaBufSupportState::Enabled;
        } else {
            self.dmabuf_support = DmaBufSupportState::Disabled;
        }
        true
    }

    pub open spec fn imports(self, has_dmabuf: bool) -> bool {
        self.linux && self.dmabuf_support == DmaBufSupportState::Enabled && has_dmabuf
    }

    /// Whether a frame is to be taken from the driver's buffers. If that fails, its
    /// planes are uploaded after all.
    pub fn tries_dmabuf(&self, has_dmabuf: bool) -> (r: bool)
        ensures
            r == self.imports(has_dmabuf),
    {
        self.linux && self.dmabuf_support == DmaBufSupportState::Enabled && has_dmabuf
    }

    pub open spec fn after_upload(
        self,
        id: Id,
        width: u32,
        height: u32,
        dmabuf_failed: bool,
    ) -> WgpuVideoTexture<Id> {
        WgpuVideoTexture {
            linux: self.linux,
            texture_id: Some(id),
            width,
            height,
            dmabuf_support: if self.linux && dmabuf_failed {
                DmaBufSupportState::Disabled
            } else {
                self.dmabuf_support
            },
        }
    }

    /// Notes that a frame has been uploaded. The output texture keeps the name under
    /// which the window knows it; `new_id` names it the first time.
    pub fn uploaded(&mut self, new_id: Id, width: u32, height: u32, dmabuf_failed: bool)
        ensures
            *final(self) == old(self).after_upload(
                match old(self).texture_id {
                    Some(id) => id,
                    None => new_id,
                },
                width,
                height,
                dmabuf_failed,
            ),
    {
        let id = match self.texture_id {
            Some(id) => id,
            None => new_id,
        };
        self.texture_id = Some(id);
        self.width = width;
        self.height = height;
        if self.linux && dmabuf_failed {
            self.dmabuf_support = DmaBufSupportState::Disabled;
        }
    }
}

/// The device is looked at once: what has been found out is not asked again, and
/// nothing but the first look enables the driver's buffers.
pub proof fn devices_are_probed_once<Id: Copy>(
    t: WgpuVideoTexture<Id>,
    requested: bool,
    caps: DmaBufCapabilities,
    again: bool,
    caps_again: DmaBufCapabilities,
)
    ensures
        t.probed(requested, caps).probed(again, caps_again) == t.probed(requested, caps),
        t.dmabuf_support == DmaBufSupportState::Disabled ==> t.probed(requested, caps) == t,
{
}

/// Once an import has failed, frames are uploaded for the rest of the session.
pub proof fn failed_imports_are_final<Id: Copy>(
    t: WgpuVideoTexture<Id>,
    id: Id,
    width: u32,
    height: u32,
    requested: bool,
    caps: DmaBufCapabilities,
    has_dmabuf: bool,
)
    ensures
        !t.after_upload(id, width, height, true).probed(requested, caps).imports(has_dmabuf),
{
}

/// What each texture of the shader holds, and how the shader reads them: as three
/// planes (0), as two (1), or as finished pixels (2).
#[derive(Clone, Copy, Debug, PartialEq, Eq, Structural)]
pub struct PlaneLayout {
    pub luma: PlaneFormat,
    pub chroma: PlaneFormat,
    pub chroma_v: PlaneFormat,
    pub plane1_bpp: u32,
    pub plane2_bpp: u32,
    pub mode: u32,
}

pub open spec fn layout_of(format: VideoFormat) -> PlaneLayout {
    PlaneLayout {
        luma: if format == VideoFormat::Rgba8 {
            PlaneFormat::Rgba8Unorm
        } else {
            PlaneFormat::R8Unorm
        },
        chroma: if format == VideoFormat::Nv12 {
            PlaneFormat::Rg8Unorm
        } else {
            PlaneFormat::R8Unorm
        },
        chroma_v: PlaneFormat::R8Unorm,
        plane1_bpp: if format == VideoFormat::Nv12 {
            2
        } else {
            1
        },
        plane2_bpp: 1,
        mode: match format {
            VideoFormat::Yuv420p8 | VideoFormat::Yuv444p8 => 0,
            VideoFormat::Nv12 => 1,
            VideoFormat::Rgba8 => 2,
        },
    }
}

pub fn plane_layout(format: VideoFormat) -> (layout: PlaneLayout)
    ensures
        layout == layout_of(format),
{
    match format {
        VideoFormat::Yuv420p8 | VideoFormat::Yuv444p8 => PlaneLayout {
            luma: PlaneFormat::R8Unorm,
            chroma: PlaneFormat::R8Unorm,
            chroma_v: PlaneFormat::R8Unorm,
            plane1_bpp: 1,
            plane2_bpp: 1,
            mode: 0,
        },
        VideoFormat::Nv12 => PlaneLayout {
            luma: PlaneFormat::R8Unorm,
            chroma: PlaneFormat::Rg8Unorm,
            chroma_v: PlaneFormat::R8Unorm,
            plane1_bpp: 2,
            plane2_bpp: 1,
            mode: 1,
        },
        VideoFormat::Rgba8 => PlaneLayout {
            luma: PlaneFormat::Rgba8Unorm,
            chroma: PlaneFormat::R8Unorm,
            chroma_v: PlaneFormat::R8Unorm,
            plane1_bpp: 1,
            plane2_bpp: 1,
            mode: 2,
        },
    }
}

pub open spec fn import_mode(format: LinuxDmaBufFormat) -> u32 {
    match format {
        LinuxDmaBufFormat::Nv12 => 1,
        _ => 0,
    }
}

/// How the shader reads a frame in the driver's buffers.
pub fn dmabuf_mode(format: LinuxDmaBufFormat) -> (mode: u32)
    ensures
        mode == import_mode(format),
{
    match format {
        LinuxDmaBufFormat::Yuv420p8 | LinuxDmaBufFormat::Yuv444p8 => 0,
        LinuxDmaBufFormat::Nv12 => 1,
    }
}

/// The shape of a frame.
#[derive(Clone, Copy, Debug, PartialEq, Eq, Structural)]
pub struct FrameShape {
    pub format: VideoFormat,
    pub width: u32,
    pub height: u32,
    pub chroma_width: u32,
    pub chroma_height: u32,
}

/// What the textures were made for, and what the shader was told last.
#[derive(Clone, Copy, Debug)]
pub struct PipelineState {
    pub output: Option<(u32, u32)>,
    pub planes: Option<FrameShape>,
    /// The textures are bound to the shader.
    pub bind_group: bool,
    pub last_mode: u32,
}

pub open spec fn at_least_one(n: u32) -> u32 {
    if n == 0 {
        1
    } else {
        n
    }
}

fn positive(n: u32) -> (r: u32)
    ensures
        r == at_least_one(n),
{
    if n == 0 {
        1
    } else {
        n
    }
}

/// What the shader's parameters look like in memory.
pub open spec fn parameters(mode: u32) -> Seq<u8> {
    seq![
        (mode % 256) as u8,
        (mode / 0x100 % 256) as u8,
        (mode / 0x1_0000 % 256) as u8,
        (mode / 0x100_0000) as u8,
        0u8,
        0u8,
        0u8,
        0u8,
        0u8,
        0u8,
        0u8,
        0u8,
        0u8,
        0u8,
        0u8,
        0u8,
    ]
}

impl PipelineState {
    /// A pipeline without textures. The shader has been told to read three planes.
    pub fn new() -> (s: PipelineState)
        ensures
            s == (PipelineState { output: None, planes: None, bind_group: false, last_mode: 0 }),
    {
        PipelineState { output: None, planes: None, bind_group: false, last_mode: 0 }
    }

    pub open spec fn with_output(self, width: u32, height: u32) -> PipelineState {
        PipelineState { output: Some((width, height)), ..self }
    }

    /// Asks for an output texture of the frame's size. Returns the size of the one
    /// to make, unless there is one already.
    pub fn ensure_output(&mut self, width: u32, height: u32) -> (made: Option<(u32, u32)>)
        ensures
            *final(self) == old(self).with_output(width, height),
            made == if old(self).output == Some((width, height)) {
                None
            } else {
                Some((at_least_one(width), at_least_one(height)))
            },
    {
        let same = match self.output {
            Some(size) => size.0 == width && size.1 == height,
            None => false,
        };
        if same {
            return None;
        }
        self.output = Some((width, height));
        Some((positive(width), positive(height)))
    }

    pub open spec fn with_planes(self, shape: FrameShape) -> PipelineState {
        if self.planes == Some(shape) {
            self
        } else {
            PipelineState { planes: Some(shape), bind_group: false, ..self }
        }
    }

    /// Asks for textures of the frame's shape. Returns whether they have to be made;
    /// what was bound to the shader is then bound no more.
    pub fn ensure_planes(&mut self, shape: FrameShape) -> (made: bool)
        ensures
            *final(self) == old(self).with_planes(shape),
            made == (old(self).planes != Some(shape)),
    {
        let same = match self.planes {
            Some(planes) => planes == shape,
            None => false,
        };
        if same {
            return false;
        }
        self.planes = Some(shape);
        self.bind_group = false;
        true
    }

    /// Tells the shader how to read the textures. Returns the parameters to write,
    /// unless it has been told so already.
    pub fn set_mode(&mut self, mode: u32) -> (write: Option<Vec<u8>>)
        ensures
            *final(self) == (PipelineState { last_mode: mode, ..*old(self) }),
            match write {
                Some(bytes) => mode != old(self).last_mode && bytes@ == parameters(mode),
                None => mode == old(self).last_mode,
            },
    {
        if mode == self.last_mode {
            return None;
        }
        self.last_mode = mode;
        let mut bytes: Vec<u8> = Vec::new();
        bytes.push((mode % 256) as u8);
        bytes.push((mode / 0x100 % 256) as u8);
        bytes.push((mode / 0x1_0000 % 256) as u8);
        bytes.push((mode / 0x100_0000) as u8);
        let mut i: usize = 4;
        while i < 16
            invariant
                4 <= i <= 16,
                bytes@.len() == i,
                bytes@[0] == (mode % 256) as u8,
                bytes@[1] == (mode / 0x100 % 256) as u8,
                bytes@[2] == (mode / 0x1_0000 % 256) as u8,
                bytes@[3] == (mode / 0x100_0000) as u8,
                forall|k: int| 4 <= k < i ==> bytes@[k] == 0,
            decreases 16 - i,
        {
            bytes.push(0);
            i = i + 1;
        }
        proof {
            assert(bytes@ =~= parameters(mode));
        }
        Some(bytes)
    }

    /// Binds the textures. Returns whether that has to be done.
    pub fn ensure_bind_group(&mut self) -> (made: bool)
        ensures
            made == !old(self).bind_group,
            *final(self) == (PipelineState { bind_group: true, ..*old(self) }),
    {
        let made = !self.bind_group;
        self.bind_group = true;
        made
    }

    pub open spec fn unbound(self) -> PipelineState {
        PipelineState { bind_group: false, ..self }
    }

    /// A frame has been drawn from the driver's buffers: its textures are bound in
    /// place of the others.
    pub fn rendered_from_dmabuf(&mut self)
        ensures
            *final(self) == old(self).unbound(),
    {
        self.bind_group = false;
    }
}

/// What the shader's parameters hold after a frame of some mode: what was written,
/// or what they held before.
pub open spec fn parameters_after(held: Seq<u8>, last_mode: u32, mode: u32) -> Seq<u8> {
    if mode != last_mode {
        parameters(mode)
    } else {
        held
    }
}

/// The shader always reads a frame as its format asks, whatever came before.
pub proof fn shaders_know_the_mode(held: Seq<u8>, last_mode: u32, mode: u32)
    requires
        held == parameters(last_mode),
    ensures
        parameters_after(held, last_mode, mode) == parameters(mode),
{
}

/// Textures of another shape are never left bound: after a change of shape, or
/// after a frame from the driver's buffers, they are bound anew.
pub proof fn stale_textures_are_not_bound(s: PipelineState, shape: FrameShape)
    ensures
        s.planes != Some(shape) ==> !s.with_planes(shape).bind_group,
        !s.unbound().with_planes(shape).bind_group,
        s.with_planes(shape).planes == Some(shape),
        s.with_planes(shape).with_planes(shape) == s.with_planes(shape),
{
}

pub open spec fn short_plane_text(got: nat, need: nat) -> Seq<char> {
    "plane buffer too small: "@ + text::decimal(got) + " < "@ + text::decimal(need)
}

pub open spec fn short_frame_text(got: nat, need: nat) -> Seq<char> {
    "RGBA frame too small: "@ + text::decimal(got) + " < "@ + text::decimal(need)
}

fn too_small(prefix: &str, got: usize, need: usize) -> (message: String)
    ensures
        message@ == prefix@ + text::decimal(got as nat) + " < "@ + text::decimal(need as nat),
{
    let mut message = concat(prefix, decimal_string(got as u64).as_str());
    message.append(" < ");
    message.append(decimal_string(need as u64).as_str());
    message
}

/// How many bytes of a plane are written into its texture.
pub fn upload_plane(bytes_per_row: u32, height: u32, len: usize) -> (r: Result<usize, String>)
    ensures
        match r {
            Ok(used) => used == bytes_per_row * height && used <= len,
            Err(message) => if bytes_per_row * height > usize::MAX {
                message@ == "plane size overflow"@
            } else {
                len < bytes_per_row * height && message@ == short_plane_text(
                    len as nat,
                    (bytes_per_row * height) as nat,
                )
            },
        },
{
    let expected: usize = match (bytes_per_row as usize).checked_mul(height as usize) {
        Some(expected) => expected,
        None => {
            return Err("plane size overflow".to_owned());
        },
    };
    if len < expected {
        return Err(too_small("plane buffer too small: ", len, expected));
    }
    Ok(expected)
}

/// How many bytes of a frame of finished pixels are used.
pub fn rgba_bytes(width: u32, height: u32, len: usize) -> (r: Result<usize, String>)
    ensures
        match r {
            Ok(used) => used == width * height * 4 && used <= len,
            Err(message) => if width * height * 4 > usize::MAX {
                message@ == "rgba size overflow"@
            } else {
                len < width * height * 4 && message@ == short_frame_text(
                    len as nat,
                    (width * height * 4) as nat,
                )
            },
        },
{
    let pixels: usize = match (width as usize).checked_mul(height as usize) {
        Some(pixels) => pixels,
        None => {
            return Err("rgba size overflow".to_owned());
        },
    };
    let expected: usize = match pixels.checked_mul(4) {
        Some(expected) => expected,
        None => {
            return Err("rgba size overflow".to_owned());
        },
    };
    if len < expected {
        return Err(too_small("RGBA frame too small: ", len, expected));
    }
    Ok(expected)
}

/// A texture to write: which of the shader's three, and how long its rows are.
#[derive(Clone, Copy, Debug, PartialEq, Eq, Structural)]
pub struct PlaneWrite {
    pub plane: u8,
    pub bytes_per_row: u32,
    pub height: u32,
}

/// The rows of a frame's planes can be measured.
pub open spec fn rows_fit(shape: FrameShape) -> bool {
    match shape.format {
        VideoFormat::Rgba8 => shape.width * 4 <= u32::MAX,
        VideoFormat::Nv12 => shape.chroma_width * 2 <= u32::MAX,
        _ => true,
    }
}

pub open spec fn writes_of(shape: FrameShape) -> Seq<PlaneWrite> {
    let luma = PlaneWrite { plane: 0, bytes_per_row: shape.width, height: shape.height };
    match shape.format {
        VideoFormat::Rgba8 => seq![
            PlaneWrite { plane: 0, bytes_per_row: (shape.width * 4) as u32, height: shape.height },
        ],
        VideoFormat::Yuv420p8 | VideoFormat::Yuv444p8 => seq![
            luma,
            PlaneWrite {
                plane: 1,
                bytes_per_row: shape.chroma_width,
                height: shape.chroma_height,
            },
            PlaneWrite {
                plane: 2,
                bytes_per_row: shape.chroma_width,
                height: shape.chroma_height,
            },
        ],
        VideoFormat::Nv12 => seq![
            luma,
            PlaneWrite {
                plane: 1,
                bytes_per_row: (shape.chroma_width * 2) as u32,
                height: shape.chroma_height,
            },
        ],
    }
}

/// The textures to write for a frame, in order.
pub fn plane_writes(shape: &FrameShape) -> (writes: Vec<PlaneWrite>)
    requires
        rows_fit(*shape),
    ensures
        writes@ == writes_of(*shape),
{
    let mut writes: Vec<PlaneWrite> = Vec::new();
    match shape.format {
        VideoFormat::Rgba8 => {
            writes.push(
                PlaneWrite { plane: 0, bytes_per_row: shape.width * 4, height: shape.height },
            );
        },
        VideoFormat::Yuv420p8 | VideoFormat::Yuv444p8 => {
            writes.push(PlaneWrite { plane: 0, bytes_per_row: shape.width, height: shape.height });
            writes.push(
                PlaneWrite {
                    plane: 1,
                    bytes_per_row: shape.chroma_width,
                    height: shape.chroma_height,
                },
            );
            writes.push(
                PlaneWrite {
                    plane: 2,
                    bytes_per_row: shape.chroma_width,
                    height: shape.chroma_height,
                },
            );
        },
        VideoFormat::Nv12 => {
            writes.push(PlaneWrite { plane: 0, bytes_per_row: shape.width, height: shape.height });
            writes.push(
                PlaneWrite {
                    plane: 1,
                    bytes_per_row: shape.chroma_width * 2,
                    height: shape.chroma_height,
                },
            );
        },
    }
    proof {
        assert(writes@ =~= writes_of(*shape));
    }
    writes
}

/// The bytes of a texel.
pub open spec fn texel_bytes(format: PlaneFormat) -> nat {
    match format {
        PlaneFormat::R8Unorm => 1,
        PlaneFormat::Rg8Unorm => 2,
        PlaneFormat::Rgba8Unorm => 4,
    }
}

/// Every row that is written is as long as a row of its texture.
pub proof fn rows_match_textures(shape: FrameShape, i: int)
    requires
        rows_fit(shape),
        0 <= i < writes_of(shape).len(),
    ensures
        ({
            let layout = layout_of(shape.format);
            let write = writes_of(shape)[i];
            write.bytes_per_row == if write.plane == 0 {
                shape.width * texel_bytes(layout.luma)
            } else if write.plane == 1 {
                shape.chroma_width * texel_bytes(layout.chroma)
            } else {
                shape.chroma_width * texel_bytes(layout.chroma_v)
            }
        }),
{
}

} // verus!
