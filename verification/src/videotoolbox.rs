//! Surfaces of the Mac's hardware decoder: which of them can be drawn.
use crate::frames::VideoFormat;
use crate::settings;
use crate::text;
use crate::text::{concat, decimal_string};
use vstd::prelude::*;
use vstd::string::*;

verus! {

/// Luminance in one plane, both colour values in another.
pub const BI_PLANAR_VIDEO_RANGE: u32 = 0x34323076;

/// Three planes.
pub const PLANAR: u32 = 0x79343230;

/// Whether surfaces can be drawn through OpenGL.
pub fn supports_extensions(arb: bool, ext: bool, major: u32, embedded: bool) -> (r: bool)
    ensures
        r == (arb || ext || (major >= 3 && !embedded)),
{
    arb || ext || (major >= 3 && !embedded)
}

/// Whether an importer can be made.
pub fn importer_available(supported: bool, has_context: bool) -> (r: Result<(), String>)
    ensures
        match r {
            Ok(_) => supported && has_context,
            Err(message) => message@ == if !supported {
                "macOS rectangle-texture import unavailable"@
            } else {
                "macOS current OpenGL context unavailable"@
            } && !(supported && has_context),
        },
{
    if !supported {
        Err("macOS rectangle-texture import unavailable".to_owned())
    } else if !has_context {
        Err("macOS current OpenGL context unavailable".to_owned())
    } else {
        Ok(())
    }
}

/// Whether a frame's planes can be imported.
pub fn surface_check(has_context: bool, plane_count: usize, has_surface: bool) -> (r: Result<
    (),
    String,
>)
    ensures
        match r {
            Ok(_) => has_context && plane_count > 0 && has_surface,
            Err(message) => message@ == if !has_context {
                "CGL current context unavailable"@
            } else if plane_count == 0 {
                "VideoToolbox frame has no IOSurface planes"@
            } else {
                "VideoToolbox frame is not IOSurface-backed"@
            } && !(has_context && plane_count > 0 && has_surface),
        },
{
    if !has_context {
        Err("CGL current context unavailable".to_owned())
    } else if plane_count == 0 {
        Err("VideoToolbox frame has no IOSurface planes".to_owned())
    } else if !has_surface {
        Err("VideoToolbox frame is not IOSurface-backed".to_owned())
    } else {
        Ok(())
    }
}

/// The planes that are imported after the luminance; the flag says that a plane
/// holds both colour values.
pub fn colour_planes(format: VideoFormat) -> (r: Result<Vec<(usize, bool)>, String>)
    ensures
        match r {
            Ok(planes) => match format {
                VideoFormat::Nv12 => planes@ == seq![(1usize, true)],
                VideoFormat::Yuv420p8 | VideoFormat::Yuv444p8 => planes@ == seq![
                    (1usize, false),
                    (2usize, false),
                ],
                VideoFormat::Rgba8 => false,
            },
            Err(message) => format == VideoFormat::Rgba8 && message@
                == "unexpected RGBA VideoToolbox frame"@,
        },
{
    let mut planes: Vec<(usize, bool)> = Vec::new();
    match format {
        VideoFormat::Nv12 => {
            planes.push((1, true));
        },
        VideoFormat::Yuv420p8 | VideoFormat::Yuv444p8 => {
            planes.push((1, false));
            planes.push((2, false));
        },
        VideoFormat::Rgba8 => {
            return Err("unexpected RGBA VideoToolbox frame".to_owned());
        },
    }
    Ok(planes)
}

pub open spec fn missing_plane_text(plane_count: nat, plane: nat) -> Seq<char> {
    "VideoToolbox pixel buffer has "@ + text::decimal(plane_count) + " planes, need "@
        + text::decimal(plane + 1)
}

pub open spec fn empty_plane_text(plane: nat) -> Seq<char> {
    "VideoToolbox plane "@ + text::decimal(plane) + " is empty"@
}

/// The size of a plane as the hardware takes it. `width` and `height` are what the
/// surface says of it.
pub fn plane_size(plane_count: usize, plane: usize, width: usize, height: usize) -> (r: Result<
    (u32, u32),
    String,
>)
    requires
        plane < usize::MAX,
    ensures
        match r {
            Ok(size) => plane < plane_count && width != 0 && height != 0 && size == (
                width as u32,
                height as u32,
            ),
            Err(message) => if plane >= plane_count {
                message@ == missing_plane_text(plane_count as nat, plane as nat)
            } else {
                (width == 0 || height == 0) && message@ == empty_plane_text(plane as nat)
            },
        },
{
    if plane >= plane_count {
        let mut message = concat(
            "VideoToolbox pixel buffer has ",
            decimal_string(plane_count as u64).as_str(),
        );
        message.append(" planes, need ");
        message.append(decimal_string((plane + 1) as u64).as_str());
        return Err(message);
    }
    if width == 0 || height == 0 {
        let mut message = concat("VideoToolbox plane ", decimal_string(plane as u64).as_str());
        message.append(" is empty");
        return Err(message);
    }
    Ok((width as u32, height as u32))
}

pub open spec fn layout_text(kind: Seq<char>, plane_count: nat, pixel_format: u32) -> Seq<char> {
    "unsupported VideoToolbox "@ + kind + " layout: planes="@ + text::decimal(plane_count)
        + " format=0x"@ + settings::hex_digits(pixel_format as nat, 8)
}

fn bad_layout(kind: &str, plane_count: usize, pixel_format: u32) -> (message: String)
    ensures
        message@ == layout_text(kind@, plane_count as nat, pixel_format),
{
    let mut message = concat("unsupported VideoToolbox ", kind);
    message.append(" layout: planes=");
    message.append(decimal_string(plane_count as u64).as_str());
    message.append(" format=0x");
    settings::push_hex(&mut message, pixel_format as u64, 8);
    message
}

/// Which plane each of the shader's three textures shows, if the surface is laid out
/// as its format says.
pub fn metal_planes(format: VideoFormat, plane_count: usize, pixel_format: u32) -> (r: Result<
    (usize, usize, usize),
    String,
>)
    ensures
        match r {
            Ok(planes) => match format {
                VideoFormat::Nv12 => plane_count >= 2 && pixel_format == BI_PLANAR_VIDEO_RANGE
                    && planes == (0usize, 1usize, 1usize),
                VideoFormat::Yuv420p8 | VideoFormat::Yuv444p8 => plane_count >= 3 && pixel_format
                    == PLANAR && planes == (0usize, 1usize, 2usize),
                VideoFormat::Rgba8 => false,
            },
            Err(message) => match format {
                VideoFormat::Nv12 => (plane_count < 2 || pixel_format != BI_PLANAR_VIDEO_RANGE)
                    && message@ == layout_text("NV12"@, plane_count as nat, pixel_format),
                VideoFormat::Yuv420p8 | VideoFormat::Yuv444p8 => (plane_count < 3 || pixel_format
                    != PLANAR) && message@ == layout_text(
                    "YUV420"@,
                    plane_count as nat,
                    pixel_format,
                ),
                VideoFormat::Rgba8 => message@ == "unexpected RGBA VideoToolbox frame"@,
            },
        },
{
    match format {
        VideoFormat::Nv12 => {
            if plane_count < 2 || pixel_format != BI_PLANAR_VIDEO_RANGE {
                return Err(bad_layout("NV12", plane_count, pixel_format));
            }
            Ok((0, 1, 1))
        },
        VideoFormat::Yuv420p8 | VideoFormat::Yuv444p8 => {
            if plane_count < 3 || pixel_format != PLANAR {
                return Err(bad_layout("YUV420", plane_count, pixel_format));
            }
            Ok((0, 1, 2))
        },
        VideoFormat::Rgba8 => Err("unexpected RGBA VideoToolbox frame".to_owned()),
    }
}

} // verus!
