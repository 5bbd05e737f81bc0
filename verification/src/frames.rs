//! Decoded video frames.
use vstd::prelude::*;

verus! {

/// The operating system the client runs on.
#[derive(Clone, Copy, Debug, PartialEq, Eq, Structural)]
pub enum Platform {
    Linux,
    Macos,
    Windows,
    Other,
}

#[derive(Clone, Copy, Debug, PartialEq, Eq, Structural)]
pub enum VideoFormat {
    Rgba8,
    Yuv420p8,
    Yuv444p8,
    Nv12,
}

#[derive(Clone, Copy, Debug, PartialEq, Eq, Structural)]
pub enum LinuxDmaBufFormat {
    Yuv420p8,
    Yuv444p8,
    Nv12,
}

/// One plane of a frame that lies in a DMA buffer.
#[derive(Clone, Copy, Debug, PartialEq, Eq, Structural)]
pub struct LinuxDmaBufPlane {
    pub fd: i32,
    pub width: u32,
    pub height: u32,
    pub drm_format: u32,
    pub offset: u32,
    pub pitch: u32,
    pub modifier: u64,
}

#[derive(Clone, Debug)]
pub struct LinuxDmaBufFrame {
    pub width: u32,
    pub height: u32,
    pub format: LinuxDmaBufFormat,
    pub planes: Vec<LinuxDmaBufPlane>,
    /// Is signalled when the buffers are finished.
    pub acquire_fence_fd: Option<i32>,
}

/// When a frame passed the stages between the server's capture and here.
#[derive(Clone, Copy, Debug, PartialEq, Eq, Structural)]
pub struct FrameDebugTiming {
    pub frame_id: u32,
    pub server_capture_micros: u64,
    pub server_send_micros: u64,
    pub client_assembled_micros: u64,
    pub client_assembled_mono: u64,
    pub client_decode_start_mono: u64,
    pub client_decode_done_mono: u64,
}

impl Default for FrameDebugTiming {
    fn default() -> (t: FrameDebugTiming)
        ensures
            t == (FrameDebugTiming {
                frame_id: 0,
                server_capture_micros: 0,
                server_send_micros: 0,
                client_assembled_micros: 0,
                client_assembled_mono: 0,
                client_decode_start_mono: 0,
                client_decode_done_mono: 0,
            }),
    {
        FrameDebugTiming {
            frame_id: 0,
            server_capture_micros: 0,
            server_send_micros: 0,
            client_assembled_micros: 0,
            client_assembled_mono: 0,
            client_decode_start_mono: 0,
            client_decode_done_mono: 0,
        }
    }
}

/// A decoded frame: its pixels in up to three planes, or a surface that the
/// decoder left on the GPU (`videotoolbox` and `d3d11` hold its handle).
#[derive(Clone, Debug)]
pub struct VideoFrameBuffer {
    pub dirty: bool,
    pub width: u32,
    pub height: u32,
    pub format: VideoFormat,
    pub plane0: Vec<u8>,
    pub plane1: Vec<u8>,
    pub plane2: Vec<u8>,
    pub debug_timing: Option<FrameDebugTiming>,
    pub dmabuf: Option<LinuxDmaBufFrame>,
    pub videotoolbox: Option<u64>,
    pub d3d11: Option<u64>,
}

impl VideoFrameBuffer {
    /// The stream's number for this frame, where the decoder knew it.
    pub open spec fn id(self) -> Option<u32> {
        match self.debug_timing {
            Some(timing) => Some(timing.frame_id),
            None => None,
        }
    }

    pub fn frame_id(&self) -> (id: Option<u32>)
        ensures
            id == self.id(),
    {
        match self.debug_timing {
            Some(timing) => Some(timing.frame_id),
            None => None,
        }
    }

    /// A frame with no pixels and no surface.
    pub open spec fn is_blank(self) -> bool {
        &&& !self.dirty
        &&& self.width == 0
        &&& self.height == 0
        &&& self.format == VideoFormat::Yuv420p8
        &&& self.plane0@.len() == 0
        &&& self.plane1@.len() == 0
        &&& self.plane2@.len() == 0
        &&& self.debug_timing is None
        &&& self.dmabuf is None
        &&& self.videotoolbox is None
        &&& self.d3d11 is None
    }

    pub fn clear_native_surfaces(&mut self)
        ensures
            *final(self) == (VideoFrameBuffer {
                dmabuf: None,
                videotoolbox: None,
                d3d11: None,
                ..*old(self)
            }),
    {
        self.dmabuf = None;
        self.videotoolbox = None;
        self.d3d11 = None;
    }
}

impl Default for VideoFrameBuffer {
    fn default() -> (frame: VideoFrameBuffer)
        ensures
            frame.is_blank(),
    {
        VideoFrameBuffer {
            dirty: false,
            width: 0,
            height: 0,
            format: VideoFormat::Yuv420p8,
            plane0: Vec::new(),
            plane1: Vec::new(),
            plane2: Vec::new(),
            debug_timing: None,
            dmabuf: None,
            videotoolbox: None,
            d3d11: None,
        }
    }
}

} // verus!
