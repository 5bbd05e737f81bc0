//! What the client says of itself and of a session, in words and in numbers.
//! Numbers with a fraction come as text.
use crate::capture::{ControllerState, InputCapabilities, LocalCaptureMode};
use crate::codecs;
use crate::codecs::{codec_label, stream_chroma_label};
use crate::frames::Platform;
use crate::protocol::{StreamConfig, VideoChromaSampling};
use crate::settings;
use crate::text;
use crate::text::{concat, decimal_string};
use vstd::prelude::*;
use vstd::string::*;

verus! {

/// The surfaces that the window can show without copying them.
#[derive(Clone, Copy, Debug, PartialEq, Eq, Structural)]
pub struct NativeSurfaceCapabilities {
    pub linux_dmabuf: bool,
    pub macos_videotoolbox: bool,
    pub windows_d3d11: bool,
}

impl NativeSurfaceCapabilities {
    /// What is left when the platform's own kind of surface could not be shown.
    pub fn without_surfaces_of(&self, platform: Platform) -> (left: NativeSurfaceCapabilities)
        ensures
            left == match platform {
                Platform::Linux => NativeSurfaceCapabilities { linux_dmabuf: false, ..*self },
                Platform::Macos => NativeSurfaceCapabilities {
                    macos_videotoolbox: false,
                    ..*self
                },
                Platform::Windows => NativeSurfaceCapabilities { windows_d3d11: false, ..*self },
                Platform::Other => *self,
            },
    {
        match platform {
            Platform::Linux => NativeSurfaceCapabilities { linux_dmabuf: false, ..*self },
            Platform::Macos => NativeSurfaceCapabilities { macos_videotoolbox: false, ..*self },
            Platform::Windows => NativeSurfaceCapabilities { windows_d3d11: false, ..*self },
            Platform::Other => *self,
        }
    }
}

pub fn about_platform_label(platform: Platform) -> (s: &'static str)
    ensures
        s@ == match platform {
            Platform::Linux => "Linux"@,
            Platform::Macos => "macOS"@,
            Platform::Windows => "Windows"@,
            Platform::Other => "Unknown"@,
        },
{
    match platform {
        Platform::Linux => "Linux",
        Platform::Macos => "macOS",
        Platform::Windows => "Windows",
        Platform::Other => "Unknown",
    }
}

pub fn about_native_surface(caps: NativeSurfaceCapabilities) -> (s: &'static str)
    ensures
        s@ == if caps.linux_dmabuf {
            "dmabuf / egl"@
        } else if caps.macos_videotoolbox {
            "videotoolbox / iosurface"@
        } else if caps.windows_d3d11 {
            "d3d11 interop"@
        } else {
            "cpu upload fallback"@
        },
{
    if caps.linux_dmabuf {
        "dmabuf / egl"
    } else if caps.macos_videotoolbox {
        "videotoolbox / iosurface"
    } else if caps.windows_d3d11 {
        "d3d11 interop"
    } else {
        "cpu upload fallback"
    }
}

/// How often the screen is drawn, for the page about the client. `hertz` is the
/// number with one place behind the point.
pub fn about_format_refresh(hertz: Option<&str>) -> (s: String)
    ensures
        s@ == match hertz {
            Some(hertz) => hertz@ + " Hz"@,
            None => "not detected"@,
        },
{
    match hertz {
        Some(hertz) => concat(hertz, " Hz"),
        None => "not detected".to_owned(),
    }
}

pub open spec fn text_or_dash(s: Option<String>) -> Seq<char> {
    match s {
        Some(s) => s@,
        None => "-"@,
    }
}

pub open spec fn refresh_text(hertz: Option<String>) -> Seq<char> {
    match hertz {
        Some(hertz) => hertz@ + " Hz"@,
        None => "-"@,
    }
}

/// How often the screen is drawn. `hertz` is the number with two places behind
/// the point.
pub fn format_refresh(hertz: &Option<String>) -> (s: String)
    ensures
        s@ == refresh_text(*hertz),
{
    match hertz {
        Some(hertz) => concat(hertz.as_str(), " Hz"),
        None => "-".to_owned(),
    }
}

/// A time in milliseconds with one place behind the point, or a dash.
pub fn fmt_ms(millis: &Option<String>) -> (s: String)
    ensures
        s@ == text_or_dash(*millis),
{
    match millis {
        Some(millis) => millis.clone(),
        None => "-".to_owned(),
    }
}

pub open spec fn controller_text(state: ControllerState) -> Seq<char> {
    match state {
        ControllerState::Unavailable => "Unavailable"@,
        ControllerState::Available => "Available"@,
        ControllerState::OwnedByYou => "OwnedByYou"@,
        ControllerState::OwnedByOther => "OwnedByOther"@,
    }
}

pub fn controller_label(state: ControllerState) -> (s: &'static str)
    ensures
        s@ == controller_text(state),
{
    match state {
        ControllerState::Unavailable => "Unavailable",
        ControllerState::Available => "Available",
        ControllerState::OwnedByYou => "OwnedByYou",
        ControllerState::OwnedByOther => "OwnedByOther",
    }
}

/// What the debug view shows of a connection.
#[derive(Clone, Debug)]
pub struct ConnectionDebugSnapshot {
    pub server_addr: String,
    pub display_refresh: Option<String>,
    pub decoder_name: String,
    pub encoder_name: String,
    pub capture_backend: String,
    pub input_backend: String,
    pub quality_preset: String,
    pub last_frame_id: Option<u32>,
    pub last_video_format: String,
    pub last_present_path: String,
    pub received_total_kbps: String,
    pub received_video_kbps: String,
    pub received_audio_kbps: String,
    pub target_bitrate_kbps: Option<u32>,
    pub receive_fps: String,
    pub decode_fps: String,
    pub present_fps: String,
    pub received_packets: u64,
    pub lost_packets: u64,
    pub late_packets: u64,
    pub dropped_frames: u64,
    pub playout_drops: u64,
    pub jitter_delay_ms: String,
    pub loss_percent: String,
    pub capture_to_send_ms: Option<String>,
    pub send_to_assemble_ms: Option<String>,
    pub assemble_to_decode_ms: Option<String>,
    pub decode_work_ms: Option<String>,
    pub decode_to_present_ms: Option<String>,
    pub total_latency_ms: Option<String>,
    pub latency_p95_ms: Option<String>,
    pub latency_max_ms: Option<String>,
    pub clock_rtt_ms: Option<String>,
    pub server_clock_ahead_ms: Option<String>,
    pub transport_interval_ms: u64,
}

/// What the debug view shows of input.
#[derive(Clone, Copy, Debug)]
pub struct InputDebug {
    pub stream_config: Option<StreamConfig>,
    pub controller_state: ControllerState,
    pub capabilities: InputCapabilities,
    pub client_id: Option<u32>,
    pub capture_mode: LocalCaptureMode,
    pub audio_enabled: bool,
    pub pointer_buttons: u8,
    pub pressed_keys: u64,
}

pub open spec fn dash_if_empty(s: Seq<char>) -> Seq<char> {
    if s.len() == 0 {
        "-"@
    } else {
        s
    }
}

fn push_or_dash(line: &mut String, s: &String)
    ensures
        final(line)@ == old(line)@ + dash_if_empty(s@),
{
    if s.as_str().is_empty() {
        line.append("-");
    } else {
        line.append(s.as_str());
    }
}

fn push_ms(line: &mut String, s: &Option<String>)
    ensures
        final(line)@ == old(line)@ + text_or_dash(*s),
{
    match s {
        Some(s) => line.append(s.as_str()),
        None => line.append("-"),
    }
}

pub open spec fn number_or_dash(n: Option<u32>) -> Seq<char> {
    match n {
        Some(n) => text::decimal(n as nat),
        None => "-"@,
    }
}

fn push_number_or_dash(line: &mut String, n: Option<u32>)
    ensures
        final(line)@ == old(line)@ + number_or_dash(n),
{
    match n {
        Some(n) => line.append(decimal_string(n as u64).as_str()),
        None => line.append("-"),
    }
}

fn push_number(line: &mut String, n: u64)
    ensures
        final(line)@ == old(line)@ + text::decimal(n as nat),
{
    line.append(decimal_string(n).as_str());
}

pub open spec fn yes_no(on: bool) -> Seq<char> {
    if on {
        "y"@
    } else {
        "n"@
    }
}

fn push_yes_no(line: &mut String, on: bool)
    ensures
        final(line)@ == old(line)@ + yes_no(on),
{
    if on {
        line.append("y");
    } else {
        line.append("n");
    }
}

pub open spec fn chroma_text(chroma: VideoChromaSampling) -> Seq<char> {
    match chroma {
        VideoChromaSampling::Yuv420 => "yuv420"@,
        VideoChromaSampling::Yuv444 => "yuv444"@,
    }
}

pub open spec fn true_false(on: bool) -> Seq<char> {
    if on {
        "true"@
    } else {
        "false"@
    }
}

pub open spec fn stream_text(config: Option<StreamConfig>) -> Seq<char> {
    match config {
        Some(c) => codecs::name_of(c.codec) + " "@ + chroma_text(c.chroma) + " "@ + text::decimal(
            c.width as nat,
        ) + "x"@ + text::decimal(c.height as nat) + " "@ + text::decimal(c.framerate as nat)
            + " fps hdr="@ + true_false(c.hdr) + " audio="@ + text::decimal(
            c.audio_channels as nat,
        ) + "ch/"@ + text::decimal(c.audio_sample_rate as nat) + "Hz"@,
        None => "-"@,
    }
}

fn stream_line(config: &Option<StreamConfig>) -> (s: String)
    ensures
        s@ == stream_text(*config),
{
    match config {
        Some(c) => {
            let mut s = concat(codec_label(c), " ");
            s.append(stream_chroma_label(c.chroma));
            s.append(" ");
            push_number(&mut s, c.width as u64);
            s.append("x");
            push_number(&mut s, c.height as u64);
            s.append(" ");
            push_number(&mut s, c.framerate as u64);
            s.append(" fps hdr=");
            if c.hdr {
                s.append("true");
            } else {
                s.append("false");
            }
            s.append(" audio=");
            push_number(&mut s, c.audio_channels as u64);
            s.append("ch/");
            push_number(&mut s, c.audio_sample_rate as u64);
            s.append("Hz");
            s
        },
        None => "-".to_owned(),
    }
}

pub open spec fn display_text(s: ConnectionDebugSnapshot, audio_enabled: bool) -> Seq<char> {
    "display: "@ + refresh_text(s.display_refresh) + "  audio="@ + (if audio_enabled {
        "on"@
    } else {
        "off"@
    }) + "  decoder="@ + dash_if_empty(s.decoder_name@) + "  encoder="@ + dash_if_empty(
        s.encoder_name@,
    ) + "  capture="@ + dash_if_empty(s.capture_backend@) + "  input="@ + dash_if_empty(
        s.input_backend@,
    ) + "  quality="@ + dash_if_empty(s.quality_preset@)
}

fn display_line(s: &ConnectionDebugSnapshot, audio_enabled: bool) -> (line: String)
    ensures
        line@ == display_text(*s, audio_enabled),
{
    let mut line = concat("display: ", format_refresh(&s.display_refresh).as_str());
    line.append("  audio=");
    if audio_enabled {
        line.append("on");
    } else {
        line.append("off");
    }
    line.append("  decoder=");
    push_or_dash(&mut line, &s.decoder_name);
    line.append("  encoder=");
    push_or_dash(&mut line, &s.encoder_name);
    line.append("  capture=");
    push_or_dash(&mut line, &s.capture_backend);
    line.append("  input=");
    push_or_dash(&mut line, &s.input_backend);
    line.append("  quality=");
    push_or_dash(&mut line, &s.quality_preset);
    line
}

pub open spec fn input_text(i: InputDebug) -> Seq<char> {
    "input: controller="@ + controller_text(i.controller_state) + " mode="@
        + i.capture_mode.name() + " client_id="@ + number_or_dash(i.client_id) + " keys="@
        + text::decimal(i.pressed_keys as nat) + " buttons=0x"@ + settings::hex_digits(
        i.pointer_buttons as nat,
        2,
    ) + " caps=abs:"@ + yes_no(i.capabilities.mouse_absolute) + " rel:"@ + yes_no(
        i.capabilities.mouse_relative,
    ) + " kb:"@ + yes_no(i.capabilities.keyboard) + " cursor:"@ + yes_no(
        i.capabilities.separate_cursor,
    ) + " hover:"@ + yes_no(i.capabilities.hover_capture)
}

fn input_line(i: &InputDebug) -> (line: String)
    ensures
        line@ == input_text(*i),
{
    let mut line = concat("input: controller=", controller_label(i.controller_state));
    line.append(" mode=");
    line.append(i.capture_mode.label());
    line.append(" client_id=");
    push_number_or_dash(&mut line, i.client_id);
    line.append(" keys=");
    push_number(&mut line, i.pressed_keys);
    line.append(" buttons=0x");
    settings::push_hex(&mut line, i.pointer_buttons as u64, 2);
    line.append(" caps=abs:");
    push_yes_no(&mut line, i.capabilities.mouse_absolute);
    line.append(" rel:");
    push_yes_no(&mut line, i.capabilities.mouse_relative);
    line.append(" kb:");
    push_yes_no(&mut line, i.capabilities.keyboard);
    line.append(" cursor:");
    push_yes_no(&mut line, i.capabilities.separate_cursor);
    line.append(" hover:");
    push_yes_no(&mut line, i.capabilities.hover_capture);
    line
}

pub open spec fn frame_text(s: ConnectionDebugSnapshot) -> Seq<char> {
    "frame: id="@ + number_or_dash(s.last_frame_id) + " format="@ + dash_if_empty(
        s.last_video_format@,
    ) + " present_path="@ + dash_if_empty(s.last_present_path@)
}

fn frame_line(s: &ConnectionDebugSnapshot) -> (line: String)
    ensures
        line@ == frame_text(*s),
{
    let mut line = "frame: id=".to_owned();
    push_number_or_dash(&mut line, s.last_frame_id);
    line.append(" format=");
    push_or_dash(&mut line, &s.last_video_format);
    line.append(" present_path=");
    push_or_dash(&mut line, &s.last_present_path);
    line
}

pub open spec fn net_text(s: ConnectionDebugSnapshot) -> Seq<char> {
    "net: "@ + s.received_total_kbps@ + " kbps (video "@ + s.received_video_kbps@ + " / audio "@
        + s.received_audio_kbps@ + ")  target="@ + match s.target_bitrate_kbps {
        Some(b) => text::decimal(b as nat) + " kbps"@,
        None => "-"@,
    }
}

fn net_line(s: &ConnectionDebugSnapshot) -> (line: String)
    ensures
        line@ == net_text(*s),
{
    let mut line = concat("net: ", s.received_total_kbps.as_str());
    line.append(" kbps (video ");
    line.append(s.received_video_kbps.as_str());
    line.append(" / audio ");
    line.append(s.received_audio_kbps.as_str());
    line.append(")  target=");
    match s.target_bitrate_kbps {
        Some(b) => {
            let target = concat(decimal_string(b as u64).as_str(), " kbps");
            line.append(target.as_str());
        },
        None => {
            line.append("-");
        },
    }
    line
}

pub open spec fn fps_text(s: ConnectionDebugSnapshot) -> Seq<char> {
    "fps: recv "@ + s.receive_fps@ + "  decode "@ + s.decode_fps@ + "  present "@ + s.present_fps@
}

fn fps_line(s: &ConnectionDebugSnapshot) -> (line: String)
    ensures
        line@ == fps_text(*s),
{
    let mut line = concat("fps: recv ", s.receive_fps.as_str());
    line.append("  decode ");
    line.append(s.decode_fps.as_str());
    line.append("  present ");
    line.append(s.present_fps.as_str());
    line
}

pub open spec fn packets_text(s: ConnectionDebugSnapshot) -> Seq<char> {
    "packets: rx="@ + text::decimal(s.received_packets as nat) + " lost="@ + text::decimal(
        s.lost_packets as nat,
    ) + " late="@ + text::decimal(s.late_packets as nat) + " dropped_frames="@ + text::decimal(
        s.dropped_frames as nat,
    ) + " playout_drops="@ + text::decimal(s.playout_drops as nat) + " jitter_buf="@
        + s.jitter_delay_ms@ + "ms  loss="@ + s.loss_percent@ + "%"@
}

fn packets_line(s: &ConnectionDebugSnapshot) -> (line: String)
    ensures
        line@ == packets_text(*s),
{
    let mut line = "packets: rx=".to_owned();
    push_number(&mut line, s.received_packets);
    line.append(" lost=");
    push_number(&mut line, s.lost_packets);
    line.append(" late=");
    push_number(&mut line, s.late_packets);
    line.append(" dropped_frames=");
    push_number(&mut line, s.dropped_frames);
    line.append(" playout_drops=");
    push_number(&mut line, s.playout_drops);
    line.append(" jitter_buf=");
    line.append(s.jitter_delay_ms.as_str());
    line.append("ms  loss=");
    line.append(s.loss_percent.as_str());
    line.append("%");
    line
}

pub open spec fn latency_text(s: ConnectionDebugSnapshot) -> Seq<char> {
    "latency ms: cap→send "@ + text_or_dash(s.capture_to_send_ms) + " | send→asm "@
        + text_or_dash(s.send_to_assemble_ms) + " | asm→dec "@ + text_or_dash(
        s.assemble_to_decode_ms,
    ) + " | decode "@ + text_or_dash(s.decode_work_ms) + " | dec→present "@ + text_or_dash(
        s.decode_to_present_ms,
    ) + " | total "@ + text_or_dash(s.total_latency_ms)
}

fn latency_line(s: &ConnectionDebugSnapshot) -> (line: String)
    ensures
        line@ == latency_text(*s),
{
    let mut line = "latency ms: cap→send ".to_owned();
    push_ms(&mut line, &s.capture_to_send_ms);
    line.append(" | send→asm ");
    push_ms(&mut line, &s.send_to_assemble_ms);
    line.append(" | asm→dec ");
    push_ms(&mut line, &s.assemble_to_decode_ms);
    line.append(" | decode ");
    push_ms(&mut line, &s.decode_work_ms);
    line.append(" | dec→present ");
    push_ms(&mut line, &s.decode_to_present_ms);
    line.append(" | total ");
    push_ms(&mut line, &s.total_latency_ms);
    line
}

pub open spec fn latency_total_text(s: ConnectionDebugSnapshot) -> Seq<char> {
    "latency total ms: avg "@ + text_or_dash(s.total_latency_ms) + " | p95 "@ + text_or_dash(
        s.latency_p95_ms,
    ) + " | max "@ + text_or_dash(s.latency_max_ms) + "  (last 3s)"@
}

fn latency_total_line(s: &ConnectionDebugSnapshot) -> (line: String)
    ensures
        line@ == latency_total_text(*s),
{
    let mut line = "latency total ms: avg ".to_owned();
    push_ms(&mut line, &s.total_latency_ms);
    line.append(" | p95 ");
    push_ms(&mut line, &s.latency_p95_ms);
    line.append(" | max ");
    push_ms(&mut line, &s.latency_max_ms);
    line.append("  (last 3s)");
    line
}

pub open spec fn clock_text(s: ConnectionDebugSnapshot) -> Seq<char> {
    "clock: rtt="@ + text_or_dash(s.clock_rtt_ms) + " ms  server_ahead="@ + text_or_dash(
        s.server_clock_ahead_ms,
    ) + " ms  fb_window="@ + text::decimal(s.transport_interval_ms as nat) + " ms"@
}

fn clock_line(s: &ConnectionDebugSnapshot) -> (line: String)
    ensures
        line@ == clock_text(*s),
{
    let mut line = "clock: rtt=".to_owned();
    push_ms(&mut line, &s.clock_rtt_ms);
    line.append(" ms  server_ahead=");
    push_ms(&mut line, &s.server_clock_ahead_ms);
    line.append(" ms  fb_window=");
    push_number(&mut line, s.transport_interval_ms);
    line.append(" ms");
    line
}

pub open spec fn lines_of(lines: Seq<String>) -> Seq<Seq<char>> {
    lines.map_values(|line: String| line@)
}

pub open spec fn general_lines(s: ConnectionDebugSnapshot, i: InputDebug) -> Seq<Seq<char>> {
    seq![
        "server: "@ + s.server_addr@,
        "stream: "@ + stream_text(i.stream_config),
        display_text(s, i.audio_enabled),
        input_text(i),
        frame_text(s),
        net_text(s),
        fps_text(s),
        packets_text(s),
        latency_text(s),
        latency_total_text(s),
        clock_text(s),
    ]
}

/// The lines of the debug view's first page.
pub fn build_debug_general_lines(snapshot: &ConnectionDebugSnapshot, input: &InputDebug) -> (lines:
    Vec<String>)
    ensures
        lines_of(lines@) == general_lines(*snapshot, *input),
{
    let mut lines: Vec<String> = Vec::new();
    lines.push(concat("server: ", snapshot.server_addr.as_str()));
    lines.push(concat("stream: ", stream_line(&input.stream_config).as_str()));
    lines.push(display_line(snapshot, input.audio_enabled));
    lines.push(input_line(input));
    lines.push(frame_line(snapshot));
    lines.push(net_line(snapshot));
    lines.push(fps_line(snapshot));
    lines.push(packets_line(snapshot));
    lines.push(latency_line(snapshot));
    lines.push(latency_total_line(snapshot));
    lines.push(clock_line(snapshot));
    proof {
        assert(lines_of(lines@) =~= general_lines(*snapshot, *input));
    }
    lines
}

/// What the debug view shows of the server's cursor. Positions and sizes come as
/// text.
#[derive(Clone, Debug)]
pub struct CursorDebug {
    pub capture_mode: LocalCaptureMode,
    pub controller_state: ControllerState,
    pub visible: bool,
    pub app_grab: bool,
    pub separate_cursor: bool,
    pub hover_capture: bool,
    pub native_fallback: bool,
    pub serial: u64,
    pub server_pos: String,
    pub latest_shape: Option<u64>,
    pub shape_version: u64,
    pub state_version: u64,
    pub decoded_size: String,
    pub cursor_space: String,
    pub video_rect: Option<String>,
    pub pointer_pos: Option<String>,
    pub over_video: bool,
    pub over_local_ui: bool,
    /// The shape's size and hot spot, if there is one.
    pub shape: Option<CursorShapeDebug>,
    /// Where the cursor is drawn, if it is.
    pub mapped: Option<CursorMappedDebug>,
}

#[derive(Clone, Debug)]
pub struct CursorShapeDebug {
    pub size: String,
    pub hotspot: String,
}

#[derive(Clone, Debug)]
pub struct CursorMappedDebug {
    pub pos: String,
    pub rect: String,
    pub local_driven: bool,
    pub source_size: String,
    pub hotspot: String,
    pub scale: String,
    pub display_scale: String,
}

pub open spec fn cursor_mode_text(c: CursorDebug) -> Seq<char> {
    "cursor: mode="@ + c.capture_mode.name() + " controller="@ + controller_text(
        c.controller_state,
    ) + " visible="@ + yes_no(c.visible) + " app_grab="@ + yes_no(c.app_grab) + " separate="@
        + yes_no(c.separate_cursor) + " hover="@ + yes_no(c.hover_capture) + " overlay_active="@
        + yes_no(c.mapped is Some) + " native_fallback="@ + yes_no(c.native_fallback)
}

pub open spec fn cursor_serial_text(c: CursorDebug) -> Seq<char> {
    "cursor: serial="@ + text::decimal(c.serial as nat) + " shape_cached="@ + yes_no(
        c.shape is Some,
    ) + " latest_shape="@ + (match c.latest_shape {
        Some(serial) => text::decimal(serial as nat),
        None => "-"@,
    }) + " shape_ver="@ + text::decimal(c.shape_version as nat) + " state_ver="@ + text::decimal(
        c.state_version as nat,
    )
}

pub open spec fn cursor_video_text(c: CursorDebug) -> Seq<char> {
    "video: decoded="@ + c.decoded_size@ + " cursor_space="@ + c.cursor_space@ + " video_rect="@
        + text_or_dash(c.video_rect)
}

pub open spec fn cursor_pointer_text(c: CursorDebug) -> Seq<char> {
    "pointer: pos="@ + text_or_dash(c.pointer_pos) + " over_video="@ + yes_no(c.over_video)
        + " over_local_ui="@ + yes_no(c.over_local_ui)
}

pub open spec fn cursor_server_text(c: CursorDebug) -> Seq<char> {
    "server: pos="@ + c.server_pos@ + " visible="@ + yes_no(c.visible) + " serial="@
        + text::decimal(c.serial as nat)
}

pub open spec fn cursor_shape_text(c: CursorDebug) -> Seq<char> {
    match c.shape {
        Some(shape) => "shape: source="@ + shape.size@ + " hotspot="@ + shape.hotspot@,
        None => "shape: -"@,
    }
}

pub open spec fn cursor_mapped_texts(c: CursorDebug) -> Seq<Seq<char>> {
    match c.mapped {
        Some(m) => seq![
            "mapped: serial="@ + text::decimal(c.serial as nat) + " pos="@ + m.pos@ + " rect="@
                + m.rect@ + " local_driven="@ + yes_no(m.local_driven),
            "mapped: source="@ + m.source_size@ + " hotspot="@ + m.hotspot@ + " scale="@
                + m.scale@ + " display_scale="@ + m.display_scale@,
        ],
        None => seq!["mapped: -"@],
    }
}

pub open spec fn cursor_lines(c: CursorDebug) -> Seq<Seq<char>> {
    seq![
        cursor_mode_text(c),
        cursor_serial_text(c),
        cursor_video_text(c),
        cursor_pointer_text(c),
        cursor_server_text(c),
        cursor_shape_text(c),
    ] + cursor_mapped_texts(c)
}

fn cursor_mode_line(c: &CursorDebug) -> (line: String)
    ensures
        line@ == cursor_mode_text(*c),
{
    let mut line = concat("cursor: mode=", c.capture_mode.label());
    line.append(" controller=");
    line.append(controller_label(c.controller_state));
    line.append(" visible=");
    push_yes_no(&mut line, c.visible);
    line.append(" app_grab=");
    push_yes_no(&mut line, c.app_grab);
    line.append(" separate=");
    push_yes_no(&mut line, c.separate_cursor);
    line.append(" hover=");
    push_yes_no(&mut line, c.hover_capture);
    line.append(" overlay_active=");
    push_yes_no(&mut line, c.mapped.is_some());
    line.append(" native_fallback=");
    push_yes_no(&mut line, c.native_fallback);
    line
}

fn cursor_serial_line(c: &CursorDebug) -> (line: String)
    ensures
        line@ == cursor_serial_text(*c),
{
    let mut line = "cursor: serial=".to_owned();
    push_number(&mut line, c.serial);
    line.append(" shape_cached=");
    push_yes_no(&mut line, c.shape.is_some());
    line.append(" latest_shape=");
    match c.latest_shape {
        Some(serial) => push_number(&mut line, serial),
        None => line.append("-"),
    }
    line.append(" shape_ver=");
    push_number(&mut line, c.shape_version);
    line.append(" state_ver=");
    push_number(&mut line, c.state_version);
    line
}

fn cursor_place_lines(c: &CursorDebug) -> (r: (String, String, String))
    ensures
        r.0@ == cursor_video_text(*c),
        r.1@ == cursor_pointer_text(*c),
        r.2@ == cursor_server_text(*c),
{
    let mut video = concat("video: decoded=", c.decoded_size.as_str());
    video.append(" cursor_space=");
    video.append(c.cursor_space.as_str());
    video.append(" video_rect=");
    push_ms(&mut video, &c.video_rect);
    let mut pointer = "pointer: pos=".to_owned();
    push_ms(&mut pointer, &c.pointer_pos);
    pointer.append(" over_video=");
    push_yes_no(&mut pointer, c.over_video);
    pointer.append(" over_local_ui=");
    push_yes_no(&mut pointer, c.over_local_ui);
    let mut server = concat("server: pos=", c.server_pos.as_str());
    server.append(" visible=");
    push_yes_no(&mut server, c.visible);
    server.append(" serial=");
    push_number(&mut server, c.serial);
    (video, pointer, server)
}

fn cursor_shape_line(c: &CursorDebug) -> (line: String)
    ensures
        line@ == cursor_shape_text(*c),
{
    match &c.shape {
        Some(shape) => {
            let mut line = concat("shape: source=", shape.size.as_str());
            line.append(" hotspot=");
            line.append(shape.hotspot.as_str());
            line
        },
        None => "shape: -".to_owned(),
    }
}

/// The lines of the debug view's second page.
pub fn cursor_debug_lines(c: &CursorDebug) -> (lines: Vec<String>)
    ensures
        lines_of(lines@) == cursor_lines(*c),
{
    let mut lines: Vec<String> = Vec::new();
    lines.push(cursor_mode_line(c));
    lines.push(cursor_serial_line(c));
    let (video, pointer, server) = cursor_place_lines(c);
    lines.push(video);
    lines.push(pointer);
    lines.push(server);
    lines.push(cursor_shape_line(c));
    match &c.mapped {
        Some(m) => {
            let mut place = "mapped: serial=".to_owned();
            push_number(&mut place, c.serial);
            place.append(" pos=");
            place.append(m.pos.as_str());
            place.append(" rect=");
            place.append(m.rect.as_str());
            place.append(" local_driven=");
            push_yes_no(&mut place, m.local_driven);
            let mut shape = concat("mapped: source=", m.source_size.as_str());
            shape.append(" hotspot=");
            shape.append(m.hotspot.as_str());
            shape.append(" scale=");
            shape.append(m.scale.as_str());
            shape.append(" display_scale=");
            shape.append(m.display_scale.as_str());
            lines.push(place);
            lines.push(shape);
        },
        None => {
            lines.push("mapped: -".to_owned());
        },
    }
    proof {
        assert(lines_of(lines@) =~= cursor_lines(*c));
    }
    lines
}

} // verus!
