//! Plain values that the client and the server exchange.
use vstd::prelude::*;

verus! {

#[derive(Clone, Copy, Debug, PartialEq, Eq, Structural)]
pub enum VideoCodec {
    H264,
    Hevc,
    Av1,
}

#[derive(Clone, Copy, Debug, PartialEq, Eq, Structural)]
pub enum VideoChromaSampling {
    Yuv420,
    Yuv444,
}

/// What the server says of the stream it sends.
#[derive(Clone, Copy, Debug, PartialEq, Eq, Structural)]
pub struct StreamConfig {
    pub video_epoch: u64,
    pub codec: VideoCodec,
    pub width: u32,
    pub height: u32,
    pub framerate: u16,
    pub audio_sample_rate: u32,
    pub audio_channels: u8,
    pub hdr: bool,
    pub chroma: VideoChromaSampling,
    pub packet_duration_ms: u8,
}

#[derive(Clone, Copy, Debug, PartialEq, Eq, Structural)]
pub struct FrameTiming {
    pub capture_ts_micros: u64,
    pub send_ts_micros: u64,
}

/// One video unit that the transport has put together.
#[derive(Clone, Debug)]
pub struct CompletedFrame {
    pub frame_id: u32,
    pub video_epoch: u64,
    pub data: Vec<u8>,
    pub timing: FrameTiming,
    pub frame_type: u8,
}

/// One audio packet, with the payload of the packet before it for repair.
#[derive(Clone, Debug)]
pub struct AudioPacket {
    pub seq: u32,
    pub data: Vec<u8>,
    pub redundant_prev: Vec<u8>,
}

} // verus!
