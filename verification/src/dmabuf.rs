//! Frames that the decoder leaves in buffers of the graphics driver: when they can
//! be shown from there, and how.
use crate::frames::{LinuxDmaBufFormat, LinuxDmaBufFrame, LinuxDmaBufPlane, VideoFormat};
use crate::home;
use crate::home::text_contains;
use crate::settings;
use crate::text;
use crate::text::{concat, decimal_string, says_no, str_eq};
use vstd::prelude::*;
use vstd::string::*;

verus! {

/// Rows of pixels, one after another.
pub const DRM_FORMAT_MOD_LINEAR: u64 = 0;

/// The driver does not say how the pixels are laid out.
pub const DRM_FORMAT_MOD_INVALID: u64 = 0x00ff_ffff_ffff_ffff;

/// Whether the user wants frames to be shown from the driver's buffers.
pub fn dmabuf_requested(setting: Option<&str>) -> (r: bool)
    ensures
        r == match setting {
            Some(setting) => !text::is_no(setting@),
            None => true,
        },
{
    match setting {
        Some(setting) => !says_no(setting),
        None => true,
    }
}

/// What the graphics device offers.
#[derive(Clone, Copy, Debug, PartialEq, Eq, Structural)]
pub struct DmaBufCapabilities {
    pub external_memory_fd: bool,
    pub external_memory_dma_buf: bool,
    pub is_vulkan: bool,
}

impl Default for DmaBufCapabilities {
    fn default() -> (caps: DmaBufCapabilities)
        ensures
            caps == (DmaBufCapabilities {
                external_memory_fd: false,
                external_memory_dma_buf: false,
                is_vulkan: false,
            }),
    {
        DmaBufCapabilities {
            external_memory_fd: false,
            external_memory_dma_buf: false,
            is_vulkan: false,
        }
    }
}

impl DmaBufCapabilities {
    pub open spec fn supported(self) -> bool {
        self.is_vulkan && self.external_memory_fd && self.external_memory_dma_buf
    }

    pub fn is_supported(&self) -> (r: bool)
        ensures
            r == self.supported(),
    {
        self.is_vulkan && self.external_memory_fd && self.external_memory_dma_buf
    }
}

pub open spec fn names(extensions: Seq<String>, wanted: Seq<char>) -> bool {
    exists|i: int| 0 <= i < extensions.len() && (#[trigger] extensions[i])@ == wanted
}

fn has_name(extensions: &Vec<String>, wanted: &str) -> (r: bool)
    ensures
        r == names(extensions@, wanted@),
{
    let mut i: usize = 0;
    while i < extensions.len()
        invariant
            i <= extensions.len(),
            forall|k: int| 0 <= k < i ==> (#[trigger] extensions@[k])@ != wanted@,
        decreases extensions.len() - i,
    {
        if str_eq(extensions[i].as_str(), wanted) {
            return true;
        }
        i = i + 1;
    }
    false
}

/// The device can import frames: it is of the right kind, and both extensions that
/// the import needs are among those it names.
pub open spec fn imports_frames(extensions: Option<Vec<String>>) -> bool {
    match extensions {
        Some(extensions) => names(extensions@, "VK_KHR_external_memory_fd"@) && names(
            extensions@,
            "VK_EXT_external_memory_dma_buf"@,
        ),
        None => false,
    }
}

/// What a device offers, by the names of its extensions. `None` stands for a
/// device of another kind; an empty list for one that does not answer. A device
/// that lacks one of the extensions offers nothing.
pub fn probe(extensions: &Option<Vec<String>>) -> (caps: DmaBufCapabilities)
    ensures
        caps == (DmaBufCapabilities {
            external_memory_fd: imports_frames(*extensions),
            external_memory_dma_buf: imports_frames(*extensions),
            is_vulkan: imports_frames(*extensions),
        }),
{
    let all = match extensions {
        Some(extensions) => has_name(extensions, "VK_KHR_external_memory_fd") && has_name(
            extensions,
            "VK_EXT_external_memory_dma_buf",
        ),
        None => false,
    };
    DmaBufCapabilities { external_memory_fd: all, external_memory_dma_buf: all, is_vulkan: all }
}

pub open spec fn linear(modifier: u64) -> bool {
    modifier == DRM_FORMAT_MOD_LINEAR || modifier == DRM_FORMAT_MOD_INVALID
}

/// Whether the pixels can be read row by row.
pub fn modifier_is_linear(modifier: u64) -> (r: bool)
    ensures
        r == linear(modifier),
{
    modifier == DRM_FORMAT_MOD_LINEAR || modifier == DRM_FORMAT_MOD_INVALID
}

/// What a texel of a plane holds.
#[derive(Clone, Copy, Debug, PartialEq, Eq, Structural)]
pub enum PlaneFormat {
    R8Unorm,
    Rg8Unorm,
    Rgba8Unorm,
}

pub open spec fn import_format(plane_index: nat, format: LinuxDmaBufFormat) -> Option<PlaneFormat> {
    match format {
        LinuxDmaBufFormat::Nv12 => if plane_index == 0 {
            Some(PlaneFormat::R8Unorm)
        } else if plane_index == 1 {
            Some(PlaneFormat::Rg8Unorm)
        } else {
            None
        },
        _ => Some(PlaneFormat::R8Unorm),
    }
}

/// How the device is to read a plane, if there is such a plane.
pub fn plane_vk_format(plane_index: usize, format: LinuxDmaBufFormat) -> (r: Option<PlaneFormat>)
    ensures
        r == import_format(plane_index as nat, format),
{
    match format {
        LinuxDmaBufFormat::Yuv420p8 | LinuxDmaBufFormat::Yuv444p8 => Some(PlaneFormat::R8Unorm),
        LinuxDmaBufFormat::Nv12 => if plane_index == 0 {
            Some(PlaneFormat::R8Unorm)
        } else if plane_index == 1 {
            Some(PlaneFormat::Rg8Unorm)
        } else {
            None
        },
    }
}

/// How the renderer is to read a plane.
pub fn plane_wgpu_format(plane_index: usize, format: LinuxDmaBufFormat) -> (r: PlaneFormat)
    ensures
        r == match format {
            LinuxDmaBufFormat::Nv12 => if plane_index == 0 {
                PlaneFormat::R8Unorm
            } else {
                PlaneFormat::Rg8Unorm
            },
            _ => PlaneFormat::R8Unorm,
        },
{
    match format {
        LinuxDmaBufFormat::Yuv420p8 | LinuxDmaBufFormat::Yuv444p8 => PlaneFormat::R8Unorm,
        LinuxDmaBufFormat::Nv12 => if plane_index == 0 {
            PlaneFormat::R8Unorm
        } else {
            PlaneFormat::Rg8Unorm
        },
    }
}

pub open spec fn plane_count(format: LinuxDmaBufFormat) -> nat {
    match format {
        LinuxDmaBufFormat::Nv12 => 2,
        _ => 3,
    }
}

pub open spec fn format_name(format: LinuxDmaBufFormat) -> Seq<char> {
    match format {
        LinuxDmaBufFormat::Yuv420p8 => "Yuv420p8"@,
        LinuxDmaBufFormat::Yuv444p8 => "Yuv444p8"@,
        LinuxDmaBufFormat::Nv12 => "Nv12"@,
    }
}

/// How many planes of a frame are to be imported, or why it has too few.
pub fn planes_to_import(frame: &LinuxDmaBufFrame) -> (r: Result<usize, String>)
    ensures
        match r {
            Ok(count) => count == plane_count(frame.format) && count <= frame.planes@.len(),
            Err(message) => frame.planes@.len() < plane_count(frame.format) && message@
                == "dmabuf frame has "@ + text::decimal(frame.planes@.len()) + " planes, need "@
                + text::decimal(plane_count(frame.format)),
        },
{
    let expected: usize = match frame.format {
        LinuxDmaBufFormat::Yuv420p8 | LinuxDmaBufFormat::Yuv444p8 => 3,
        LinuxDmaBufFormat::Nv12 => 2,
    };
    if frame.planes.len() < expected {
        let mut message = concat(
            "dmabuf frame has ",
            decimal_string(frame.planes.len() as u64).as_str(),
        );
        message.append(" planes, need ");
        message.append(decimal_string(expected as u64).as_str());
        return Err(message);
    }
    Ok(expected)
}

pub open spec fn tiled_text(modifier: u64) -> Seq<char> {
    "dmabuf modifier 0x"@ + settings::hex_digits(modifier as nat, 16)
        + " is not LINEAR; linear-only import is the only supported path"@
}

pub open spec fn no_format_text(plane_index: nat, format: LinuxDmaBufFormat) -> Seq<char> {
    "no Vulkan format for plane "@ + text::decimal(plane_index) + " ("@ + format_name(format)
        + ")"@
}

/// How a plane is imported, or why it cannot be.
pub fn plan_plane_import(
    plane_index: usize,
    plane: &LinuxDmaBufPlane,
    format: LinuxDmaBufFormat,
) -> (r: Result<PlaneFormat, String>)
    ensures
        match r {
            Ok(texel) => linear(plane.modifier) && import_format(plane_index as nat, format)
                == Some(texel),
            Err(message) => if !linear(plane.modifier) {
                message@ == tiled_text(plane.modifier)
            } else {
                import_format(plane_index as nat, format) is None && message@ == no_format_text(
                    plane_index as nat,
                    format,
                )
            },
        },
{
    if !modifier_is_linear(plane.modifier) {
        let mut message = "dmabuf modifier 0x".to_owned();
        settings::push_hex(&mut message, plane.modifier, 16);
        message.append(" is not LINEAR; linear-only import is the only supported path");
        return Err(message);
    }
    match plane_vk_format(plane_index, format) {
        Some(texel) => Ok(texel),
        None => {
            let mut message = concat(
                "no Vulkan format for plane ",
                decimal_string(plane_index as u64).as_str(),
            );
            message.append(" (");
            match format {
                LinuxDmaBufFormat::Yuv420p8 => message.append("Yuv420p8"),
                LinuxDmaBufFormat::Yuv444p8 => message.append("Yuv444p8"),
                LinuxDmaBufFormat::Nv12 => message.append("Nv12"),
            }
            message.append(")");
            Err(message)
        },
    }
}

/// A kind of memory is among some that are given as bits.
pub open spec fn has_bit(bits: u32, n: nat) -> bool {
    n < 32 && (bits >> (n as u32)) & 1 == 1
}

/// Chooses the kind of memory for a plane: the first that suits both the image
/// and the buffer.
pub fn import_memory_type(image_bits: u32, buffer_bits: u32) -> (r: Result<u32, String>)
    ensures
        match r {
            Ok(n) => {
                &&& has_bit(image_bits, n as nat)
                &&& has_bit(buffer_bits, n as nat)
                &&& forall|m: nat|
                    m < n ==> !(#[trigger] has_bit(image_bits, m) && has_bit(buffer_bits, m))
            },
            Err(message) => {
                &&& message@ == "no compatible memory type for dmabuf import"@
                &&& forall|m: nat| !(#[trigger] has_bit(image_bits, m) && has_bit(buffer_bits, m))
            },
        },
{
    let mut n: u32 = 0;
    while n < 32
        invariant
            n <= 32,
            forall|m: nat|
                m < n ==> !(#[trigger] has_bit(image_bits, m) && has_bit(buffer_bits, m)),
        decreases 32 - n,
    {
        if (image_bits >> n) & 1 == 1 && (buffer_bits >> n) & 1 == 1 {
            return Ok(n);
        }
        n = n + 1;
    }
    Err("no compatible memory type for dmabuf import".to_owned())
}

/// The steps of an import, in order.
#[derive(Clone, Copy, Debug, PartialEq, Eq, Structural)]
pub enum ImportStep {
    DuplicateFd,
    CreateImage,
    QueryMemory,
    AllocateMemory,
    BindMemory,
    Done,
}

/// What an import holds that has to be given back.
#[derive(Clone, Copy, Debug, PartialEq, Eq, Structural)]
pub struct Holdings {
    /// A copy of the buffer's descriptor that nobody else closes.
    pub fd: bool,
    pub image: bool,
    pub memory: bool,
}

/// What is held when a step begins. Memory that has been allocated for a
/// descriptor owns it.
pub open spec fn held_before(step: ImportStep) -> Holdings {
    match step {
        ImportStep::DuplicateFd => Holdings { fd: false, image: false, memory: false },
        ImportStep::CreateImage => Holdings { fd: true, image: false, memory: false },
        ImportStep::QueryMemory => Holdings { fd: true, image: true, memory: false },
        ImportStep::AllocateMemory => Holdings { fd: true, image: true, memory: false },
        ImportStep::BindMemory => Holdings { fd: false, image: true, memory: true },
        ImportStep::Done => Holdings { fd: false, image: true, memory: true },
    }
}

/// What a step adds to what is held, if it succeeds, and takes from it.
pub open spec fn held_after(held: Holdings, step: ImportStep) -> Holdings {
    match step {
        ImportStep::DuplicateFd => Holdings { fd: true, ..held },
        ImportStep::CreateImage => Holdings { image: true, ..held },
        ImportStep::AllocateMemory => Holdings { memory: true, fd: false, ..held },
        _ => held,
    }
}

pub open spec fn next_step(step: ImportStep) -> ImportStep {
    match step {
        ImportStep::DuplicateFd => ImportStep::CreateImage,
        ImportStep::CreateImage => ImportStep::QueryMemory,
        ImportStep::QueryMemory => ImportStep::AllocateMemory,
        ImportStep::AllocateMemory => ImportStep::BindMemory,
        ImportStep::BindMemory => ImportStep::Done,
        ImportStep::Done => ImportStep::Done,
    }
}

/// What has to be given back when a step fails.
pub fn cleanup_after_failure(step: ImportStep) -> (held: Holdings)
    ensures
        held == held_before(step),
{
    match step {
        ImportStep::DuplicateFd => Holdings { fd: false, image: false, memory: false },
        ImportStep::CreateImage => Holdings { fd: true, image: false, memory: false },
        ImportStep::QueryMemory | ImportStep::AllocateMemory => Holdings {
            fd: true,
            image: true,
            memory: false,
        },
        ImportStep::BindMemory | ImportStep::Done => Holdings {
            fd: false,
            image: true,
            memory: true,
        },
    }
}

/// Whatever step an import fails at, all that it holds is given back, and nothing
/// twice: what is given back is what the steps before have left.
pub proof fn failed_imports_leak_nothing(step: ImportStep)
    requires
        step != ImportStep::Done,
    ensures
        held_before(ImportStep::DuplicateFd) == (Holdings {
            fd: false,
            image: false,
            memory: false,
        }),
        held_before(next_step(step)) == held_after(held_before(step), step),
{
}

/// Which of a frame's imported planes each of the shader's three textures reads.
pub fn plane_views(format: LinuxDmaBufFormat) -> (r: (usize, usize, usize))
    ensures
        r == match format {
            LinuxDmaBufFormat::Nv12 => (0usize, 1usize, 1usize),
            _ => (0usize, 1usize, 2usize),
        },
        r.0 < plane_count(format),
        r.1 < plane_count(format),
        r.2 < plane_count(format),
{
    match format {
        LinuxDmaBufFormat::Nv12 => (0, 1, 1),
        _ => (0, 1, 2),
    }
}

pub open spec fn same_format(format: LinuxDmaBufFormat) -> VideoFormat {
    match format {
        LinuxDmaBufFormat::Yuv420p8 => VideoFormat::Yuv420p8,
        LinuxDmaBufFormat::Yuv444p8 => VideoFormat::Yuv444p8,
        LinuxDmaBufFormat::Nv12 => VideoFormat::Nv12,
    }
}

pub fn dmabuf_video_format(format: LinuxDmaBufFormat) -> (r: VideoFormat)
    ensures
        r == same_format(format),
{
    match format {
        LinuxDmaBufFormat::Yuv420p8 => VideoFormat::Yuv420p8,
        LinuxDmaBufFormat::Yuv444p8 => VideoFormat::Yuv444p8,
        LinuxDmaBufFormat::Nv12 => VideoFormat::Nv12,
    }
}

pub const EGL_WIDTH: u64 = 0x3057;

pub const EGL_HEIGHT: u64 = 0x3056;

pub const EGL_LINUX_DRM_FOURCC_EXT: u64 = 0x3271;

pub const EGL_DMA_BUF_PLANE0_FD_EXT: u64 = 0x3272;

pub const EGL_DMA_BUF_PLANE0_OFFSET_EXT: u64 = 0x3273;

pub const EGL_DMA_BUF_PLANE0_PITCH_EXT: u64 = 0x3274;

pub const EGL_DMA_BUF_PLANE0_MODIFIER_LO_EXT: u64 = 0x3443;

pub const EGL_DMA_BUF_PLANE0_MODIFIER_HI_EXT: u64 = 0x3444;

pub const EGL_ATTRIB_NONE: u64 = 0x3038;

/// What describes a plane to the window system: names and values in turn. A layout
/// is given, in two halves, only if it is not row by row.
pub open spec fn image_attribs(plane: LinuxDmaBufPlane) -> Seq<u64> {
    let plain = seq![
        EGL_WIDTH,
        plane.width as u64,
        EGL_HEIGHT,
        plane.height as u64,
        EGL_LINUX_DRM_FOURCC_EXT,
        plane.drm_format as u64,
        EGL_DMA_BUF_PLANE0_FD_EXT,
        plane.fd as u64,
        EGL_DMA_BUF_PLANE0_OFFSET_EXT,
        plane.offset as u64,
        EGL_DMA_BUF_PLANE0_PITCH_EXT,
        plane.pitch as u64,
    ];
    let layout = seq![
        EGL_DMA_BUF_PLANE0_MODIFIER_LO_EXT,
        plane.modifier % 0x1_0000_0000,
        EGL_DMA_BUF_PLANE0_MODIFIER_HI_EXT,
        plane.modifier / 0x1_0000_0000,
    ];
    if linear(plane.modifier) {
        plain.push(EGL_ATTRIB_NONE)
    } else {
        (plain + layout).push(EGL_ATTRIB_NONE)
    }
}

/// Describes a plane to the window system.
pub fn dmabuf_image_attribs(plane: &LinuxDmaBufPlane) -> (attribs: Vec<u64>)
    ensures
        attribs@ == image_attribs(*plane),
{
    let mut attribs: Vec<u64> = Vec::new();
    attribs.push(EGL_WIDTH);
    attribs.push(plane.width as u64);
    attribs.push(EGL_HEIGHT);
    attribs.push(plane.height as u64);
    attribs.push(EGL_LINUX_DRM_FOURCC_EXT);
    attribs.push(plane.drm_format as u64);
    attribs.push(EGL_DMA_BUF_PLANE0_FD_EXT);
    attribs.push(plane.fd as u64);
    attribs.push(EGL_DMA_BUF_PLANE0_OFFSET_EXT);
    attribs.push(plane.offset as u64);
    attribs.push(EGL_DMA_BUF_PLANE0_PITCH_EXT);
    attribs.push(plane.pitch as u64);
    if !modifier_is_linear(plane.modifier) {
        attribs.push(EGL_DMA_BUF_PLANE0_MODIFIER_LO_EXT);
        attribs.push(plane.modifier % 0x1_0000_0000);
        attribs.push(EGL_DMA_BUF_PLANE0_MODIFIER_HI_EXT);
        attribs.push(plane.modifier / 0x1_0000_0000);
    }
    attribs.push(EGL_ATTRIB_NONE);
    proof {
        assert(attribs@ =~= image_attribs(*plane));
    }
    attribs
}

/// The layout is found again in the two halves.
pub proof fn layouts_are_kept(modifier: u64)
    ensures
        (modifier / 0x1_0000_0000) * 0x1_0000_0000 + modifier % 0x1_0000_0000 == modifier,
{
}

/// Whether the window system can import buffers at all: it knows images in
/// textures, and buffers as images. Returns whether it can also wait for a buffer
/// to be finished.
pub fn egl_import_support(has_image_textures: bool, extensions: &str) -> (r: Result<bool, String>)
    ensures
        match r {
            Ok(fences) => {
                &&& has_image_textures
                &&& home::contains_text(extensions@, "EGL_EXT_image_dma_buf_import"@)
                &&& fences == ((home::contains_text(extensions@, "EGL_KHR_fence_sync"@)
                    || home::contains_text(extensions@, "EGL_KHR_reusable_sync"@))
                    && home::contains_text(extensions@, "EGL_ANDROID_native_fence_sync"@))
            },
            Err(message) => if !has_image_textures {
                message@ == "GL_OES_EGL_image not available"@
            } else {
                !home::contains_text(extensions@, "EGL_EXT_image_dma_buf_import"@) && message@
                    == "EGL_EXT_image_dma_buf_import not available"@
            },
        },
{
    if !has_image_textures {
        return Err("GL_OES_EGL_image not available".to_owned());
    }
    if !text_contains(extensions, "EGL_EXT_image_dma_buf_import") {
        return Err("EGL_EXT_image_dma_buf_import not available".to_owned());
    }
    Ok(
        (text_contains(extensions, "EGL_KHR_fence_sync") || text_contains(
            extensions,
            "EGL_KHR_reusable_sync",
        )) && text_contains(extensions, "EGL_ANDROID_native_fence_sync"),
    )
}

pub const EGL_SYNC_NATIVE_FENCE_FD_ANDROID: u64 = 0x3145;

/// What the window system has to wait for before it reads a frame, as names and values
/// in turn: the frame's fence, if the window system knows fences and the frame has one.
/// `fence_copy` is the descriptor that is handed over.
pub fn acquire_fence_attribs(
    fences: bool,
    frame: &LinuxDmaBufFrame,
    fence_copy: i32,
) -> (attribs: Option<Vec<u64>>)
    ensures
        attribs is Some == (fences && frame.acquire_fence_fd is Some),
        attribs matches Some(attribs) ==> attribs@ == seq![
            EGL_SYNC_NATIVE_FENCE_FD_ANDROID,
            fence_copy as u64,
            EGL_ATTRIB_NONE,
        ],
{
    if !fences || frame.acquire_fence_fd.is_none() {
        return None;
    }
    let mut attribs: Vec<u64> = Vec::new();
    attribs.push(EGL_SYNC_NATIVE_FENCE_FD_ANDROID);
    attribs.push(fence_copy as u64);
    attribs.push(EGL_ATTRIB_NONE);
    proof {
        assert(attribs@ =~= seq![
            EGL_SYNC_NATIVE_FENCE_FD_ANDROID,
            fence_copy as u64,
            EGL_ATTRIB_NONE,
        ]);
    }
    Some(attribs)
}

} // verus!
