//! What holds of the lines that the overlay shows.
use crate::capture::{ControllerState, LocalCaptureMode};
use crate::codecs;
use crate::home;
use crate::labels;
use crate::labels::{ConnectionDebugSnapshot, CursorDebug, InputDebug};
use crate::protocol::{StreamConfig, VideoChromaSampling};
use crate::server_laws;
use crate::settings;
use crate::text;
use vstd::prelude::*;
use vstd::string::*;

verus! {

pub open spec fn on_off(on: bool) -> Seq<char> {
    if on {
        "on"@
    } else {
        "off"@
    }
}

pub open spec fn target_text(kbps: Option<u32>) -> Seq<char> {
    match kbps {
        Some(b) => text::decimal(b as nat) + " kbps"@,
        None => "-"@,
    }
}

pub open spec fn serial_text(serial: Option<u64>) -> Seq<char> {
    match serial {
        Some(serial) => text::decimal(serial as nat),
        None => "-"@,
    }
}

/// A value that is not known is a dash; others are as they are.
pub proof fn unknown_values_are_dashes(s: String, n: u32)
    ensures
        labels::text_or_dash(Some(s)) == s@,
        labels::text_or_dash(None) == "-"@,
        labels::refresh_text(Some(s)) == s@ + " Hz"@,
        labels::refresh_text(None) == "-"@,
        s@.len() > 0 ==> labels::dash_if_empty(s@) == s@,
        s@.len() == 0 ==> labels::dash_if_empty(s@) == "-"@,
        labels::number_or_dash(Some(n)) == text::decimal(n as nat),
        labels::number_or_dash(None) == "-"@,
        labels::stream_text(None) == "-"@,
{
}

/// What can be so or not, and what can be one of several, has a word for each.
pub proof fn choices_have_words()
    ensures
        labels::yes_no(true) == "y"@,
        labels::yes_no(false) == "n"@,
        labels::true_false(true) == "true"@,
        labels::true_false(false) == "false"@,
        labels::chroma_text(VideoChromaSampling::Yuv420) == "yuv420"@,
        labels::chroma_text(VideoChromaSampling::Yuv444) == "yuv444"@,
        labels::controller_text(ControllerState::Unavailable) == "Unavailable"@,
        labels::controller_text(ControllerState::Available) == "Available"@,
        labels::controller_text(ControllerState::OwnedByYou) == "OwnedByYou"@,
        labels::controller_text(ControllerState::OwnedByOther) == "OwnedByOther"@,
        LocalCaptureMode::Idle.name() == "idle"@,
        LocalCaptureMode::HoverAbsolute.name() == "hover"@,
        LocalCaptureMode::CapturedRelative.name() == "relative"@,
        LocalCaptureMode::ForceReleased.name() == "released"@,
{
}

/// The lines are shown in this order, the server first.
pub proof fn lines_are_in_order(s: ConnectionDebugSnapshot, i: InputDebug, c: CursorDebug)
    ensures
        labels::general_lines(s, i).len() == 11,
        labels::general_lines(s, i)[0] == "server: "@ + s.server_addr@,
        labels::general_lines(s, i)[1] == "stream: "@ + labels::stream_text(i.stream_config),
        labels::general_lines(s, i)[2] == labels::display_text(s, i.audio_enabled),
        labels::general_lines(s, i)[3] == labels::input_text(i),
        labels::general_lines(s, i)[4] == labels::frame_text(s),
        labels::general_lines(s, i)[5] == labels::net_text(s),
        labels::general_lines(s, i)[6] == labels::fps_text(s),
        labels::general_lines(s, i)[7] == labels::packets_text(s),
        labels::general_lines(s, i)[8] == labels::latency_text(s),
        labels::general_lines(s, i)[9] == labels::latency_total_text(s),
        labels::general_lines(s, i)[10] == labels::clock_text(s),
        labels::cursor_lines(c).len() == 6 + labels::cursor_mapped_texts(c).len(),
        labels::cursor_lines(c)[0] == labels::cursor_mode_text(c),
        labels::cursor_lines(c)[1] == labels::cursor_serial_text(c),
        labels::cursor_lines(c)[2] == labels::cursor_video_text(c),
        labels::cursor_lines(c)[3] == labels::cursor_pointer_text(c),
        labels::cursor_lines(c)[4] == labels::cursor_server_text(c),
        labels::cursor_lines(c)[5] == labels::cursor_shape_text(c),
        c.mapped is None ==> labels::cursor_mapped_texts(c) == seq!["mapped: -"@],
        c.mapped is Some ==> labels::cursor_mapped_texts(c).len() == 2,
        c.shape is None ==> labels::cursor_shape_text(c) == "shape: -"@,
        c.shape matches Some(shape) ==> labels::cursor_shape_text(c) == "shape: source="@
            + shape.size@ + " hotspot="@ + shape.hotspot@,
{
}

/// The stream is described by its codec, chroma, size, frame rate, range and sound.
pub proof fn the_stream_is_described(c: StreamConfig)
    ensures
        text::starts_with(labels::stream_text(Some(c)), codecs::name_of(c.codec)),
        home::contains_text(labels::stream_text(Some(c)), " "@ + labels::chroma_text(c.chroma)),
        home::contains_text(labels::stream_text(Some(c)), " "@ + text::decimal(c.width as nat)),
        home::contains_text(labels::stream_text(Some(c)), "x"@ + text::decimal(c.height as nat)),
        home::contains_text(labels::stream_text(Some(c)), " "@ + text::decimal(c.framerate as nat)),
        home::contains_text(labels::stream_text(Some(c)), " fps hdr="@ + labels::true_false(c.hdr)),
        home::contains_text(
            labels::stream_text(Some(c)),
            " audio="@ + text::decimal(c.audio_channels as nat),
        ),
        home::contains_text(
            labels::stream_text(Some(c)),
            "ch/"@ + text::decimal(c.audio_sample_rate as nat),
        ),
{
    let l0 = codecs::name_of(c.codec);
    let p0 = seq![l0];
    one_piece(l0);
    let x1 = " "@;
    let p1 = p0.push(x1);
    let l1 = l0 + x1;
    one_more_piece(p0, x1);
    let x2 = labels::chroma_text(c.chroma);
    let p2 = p1.push(x2);
    let l2 = l1 + x2;
    one_more_piece(p1, x2);
    let x3 = " "@;
    let p3 = p2.push(x3);
    let l3 = l2 + x3;
    one_more_piece(p2, x3);
    let x4 = text::decimal(c.width as nat);
    let p4 = p3.push(x4);
    let l4 = l3 + x4;
    one_more_piece(p3, x4);
    let x5 = "x"@;
    let p5 = p4.push(x5);
    let l5 = l4 + x5;
    one_more_piece(p4, x5);
    let x6 = text::decimal(c.height as nat);
    let p6 = p5.push(x6);
    let l6 = l5 + x6;
    one_more_piece(p5, x6);
    let x7 = " "@;
    let p7 = p6.push(x7);
    let l7 = l6 + x7;
    one_more_piece(p6, x7);
    let x8 = text::decimal(c.framerate as nat);
    let p8 = p7.push(x8);
    let l8 = l7 + x8;
    one_more_piece(p7, x8);
    let x9 = " fps hdr="@;
    let p9 = p8.push(x9);
    let l9 = l8 + x9;
    one_more_piece(p8, x9);
    let x10 = labels::true_false(c.hdr);
    let p10 = p9.push(x10);
    let l10 = l9 + x10;
    one_more_piece(p9, x10);
    let x11 = " audio="@;
    let p11 = p10.push(x11);
    let l11 = l10 + x11;
    one_more_piece(p10, x11);
    let x12 = text::decimal(c.audio_channels as nat);
    let p12 = p11.push(x12);
    let l12 = l11 + x12;
    one_more_piece(p11, x12);
    let x13 = "ch/"@;
    let p13 = p12.push(x13);
    let l13 = l12 + x13;
    one_more_piece(p12, x13);
    let x14 = text::decimal(c.audio_sample_rate as nat);
    let p14 = p13.push(x14);
    let l14 = l13 + x14;
    one_more_piece(p13, x14);
    let x15 = "Hz"@;
    let p15 = p14.push(x15);
    let l15 = l14 + x15;
    one_more_piece(p14, x15);
    assert(labels::stream_text(Some(c)) == l15);
    first_piece(p15);
    pieces_stand(p15, 2);
    pieces_stand(p15, 4);
    pieces_stand(p15, 6);
    pieces_stand(p15, 8);
    pieces_stand(p15, 10);
    pieces_stand(p15, 12);
    pieces_stand(p15, 14);
}

/// The display, the decoder and what the server works with are named.
pub proof fn the_display_is_described(s: ConnectionDebugSnapshot, on: bool)
    ensures
        home::contains_text(
            labels::display_text(s, on),
            "display: "@ + labels::refresh_text(s.display_refresh),
        ),
        home::contains_text(labels::display_text(s, on), "  audio="@ + on_off(on)),
        home::contains_text(
            labels::display_text(s, on),
            "  decoder="@ + labels::dash_if_empty(s.decoder_name@),
        ),
        home::contains_text(
            labels::display_text(s, on),
            "  encoder="@ + labels::dash_if_empty(s.encoder_name@),
        ),
        home::contains_text(
            labels::display_text(s, on),
            "  capture="@ + labels::dash_if_empty(s.capture_backend@),
        ),
        home::contains_text(
            labels::display_text(s, on),
            "  input="@ + labels::dash_if_empty(s.input_backend@),
        ),
        home::contains_text(
            labels::display_text(s, on),
            "  quality="@ + labels::dash_if_empty(s.quality_preset@),
        ),
{
    let l0 = "display: "@;
    let p0 = seq![l0];
    one_piece(l0);
    let x1 = labels::refresh_text(s.display_refresh);
    let p1 = p0.push(x1);
    let l1 = l0 + x1;
    one_more_piece(p0, x1);
    let x2 = "  audio="@;
    let p2 = p1.push(x2);
    let l2 = l1 + x2;
    one_more_piece(p1, x2);
    let x3 = on_off(on);
    let p3 = p2.push(x3);
    let l3 = l2 + x3;
    one_more_piece(p2, x3);
    let x4 = "  decoder="@;
    let p4 = p3.push(x4);
    let l4 = l3 + x4;
    one_more_piece(p3, x4);
    let x5 = labels::dash_if_empty(s.decoder_name@);
    let p5 = p4.push(x5);
    let l5 = l4 + x5;
    one_more_piece(p4, x5);
    let x6 = "  encoder="@;
    let p6 = p5.push(x6);
    let l6 = l5 + x6;
    one_more_piece(p5, x6);
    let x7 = labels::dash_if_empty(s.encoder_name@);
    let p7 = p6.push(x7);
    let l7 = l6 + x7;
    one_more_piece(p6, x7);
    let x8 = "  capture="@;
    let p8 = p7.push(x8);
    let l8 = l7 + x8;
    one_more_piece(p7, x8);
    let x9 = labels::dash_if_empty(s.capture_backend@);
    let p9 = p8.push(x9);
    let l9 = l8 + x9;
    one_more_piece(p8, x9);
    let x10 = "  input="@;
    let p10 = p9.push(x10);
    let l10 = l9 + x10;
    one_more_piece(p9, x10);
    let x11 = labels::dash_if_empty(s.input_backend@);
    let p11 = p10.push(x11);
    let l11 = l10 + x11;
    one_more_piece(p10, x11);
    let x12 = "  quality="@;
    let p12 = p11.push(x12);
    let l12 = l11 + x12;
    one_more_piece(p11, x12);
    let x13 = labels::dash_if_empty(s.quality_preset@);
    let p13 = p12.push(x13);
    let l13 = l12 + x13;
    one_more_piece(p12, x13);
    assert(labels::display_text(s, on) == l13);
    pieces_stand(p13, 1);
    pieces_stand(p13, 3);
    pieces_stand(p13, 5);
    pieces_stand(p13, 7);
    pieces_stand(p13, 9);
    pieces_stand(p13, 11);
    pieces_stand(p13, 13);
}

/// Who has control, how the pointer is used, what is held and what the server can take is told.
pub proof fn the_input_is_described(i: InputDebug)
    ensures
        home::contains_text(
            labels::input_text(i),
            "input: controller="@ + labels::controller_text(i.controller_state),
        ),
        home::contains_text(labels::input_text(i), " mode="@ + i.capture_mode.name()),
        home::contains_text(
            labels::input_text(i),
            " client_id="@ + labels::number_or_dash(i.client_id),
        ),
        home::contains_text(
            labels::input_text(i),
            " keys="@ + text::decimal(i.pressed_keys as nat),
        ),
        home::contains_text(
            labels::input_text(i),
            " buttons=0x"@ + settings::hex_digits(i.pointer_buttons as nat, 2),
        ),
        home::contains_text(
            labels::input_text(i),
            " caps=abs:"@ + labels::yes_no(i.capabilities.mouse_absolute),
        ),
        home::contains_text(
            labels::input_text(i),
            " rel:"@ + labels::yes_no(i.capabilities.mouse_relative),
        ),
        home::contains_text(
            labels::input_text(i),
            " kb:"@ + labels::yes_no(i.capabilities.keyboard),
        ),
        home::contains_text(
            labels::input_text(i),
            " cursor:"@ + labels::yes_no(i.capabilities.separate_cursor),
        ),
        home::contains_text(
            labels::input_text(i),
            " hover:"@ + labels::yes_no(i.capabilities.hover_capture),
        ),
{
    let l0 = "input: controller="@;
    let p0 = seq![l0];
    one_piece(l0);
    let x1 = labels::controller_text(i.controller_state);
    let p1 = p0.push(x1);
    let l1 = l0 + x1;
    one_more_piece(p0, x1);
    let x2 = " mode="@;
    let p2 = p1.push(x2);
    let l2 = l1 + x2;
    one_more_piece(p1, x2);
    let x3 = i.capture_mode.name();
    let p3 = p2.push(x3);
    let l3 = l2 + x3;
    one_more_piece(p2, x3);
    let x4 = " client_id="@;
    let p4 = p3.push(x4);
    let l4 = l3 + x4;
    one_more_piece(p3, x4);
    let x5 = labels::number_or_dash(i.client_id);
    let p5 = p4.push(x5);
    let l5 = l4 + x5;
    one_more_piece(p4, x5);
    let x6 = " keys="@;
    let p6 = p5.push(x6);
    let l6 = l5 + x6;
    one_more_piece(p5, x6);
    let x7 = text::decimal(i.pressed_keys as nat);
    let p7 = p6.push(x7);
    let l7 = l6 + x7;
    one_more_piece(p6, x7);
    let x8 = " buttons=0x"@;
    let p8 = p7.push(x8);
    let l8 = l7 + x8;
    one_more_piece(p7, x8);
    let x9 = settings::hex_digits(i.pointer_buttons as nat, 2);
    let p9 = p8.push(x9);
    let l9 = l8 + x9;
    one_more_piece(p8, x9);
    let x10 = " caps=abs:"@;
    let p10 = p9.push(x10);
    let l10 = l9 + x10;
    one_more_piece(p9, x10);
    let x11 = labels::yes_no(i.capabilities.mouse_absolute);
    let p11 = p10.push(x11);
    let l11 = l10 + x11;
    one_more_piece(p10, x11);
    let x12 = " rel:"@;
    let p12 = p11.push(x12);
    let l12 = l11 + x12;
    one_more_piece(p11, x12);
    let x13 = labels::yes_no(i.capabilities.mouse_relative);
    let p13 = p12.push(x13);
    let l13 = l12 + x13;
    one_more_piece(p12, x13);
    let x14 = " kb:"@;
    let p14 = p13.push(x14);
    let l14 = l13 + x14;
    one_more_piece(p13, x14);
    let x15 = labels::yes_no(i.capabilities.keyboard);
    let p15 = p14.push(x15);
    let l15 = l14 + x15;
    one_more_piece(p14, x15);
    let x16 = " cursor:"@;
    let p16 = p15.push(x16);
    let l16 = l15 + x16;
    one_more_piece(p15, x16);
    let x17 = labels::yes_no(i.capabilities.separate_cursor);
    let p17 = p16.push(x17);
    let l17 = l16 + x17;
    one_more_piece(p16, x17);
    let x18 = " hover:"@;
    let p18 = p17.push(x18);
    let l18 = l17 + x18;
    one_more_piece(p17, x18);
    let x19 = labels::yes_no(i.capabilities.hover_capture);
    let p19 = p18.push(x19);
    let l19 = l18 + x19;
    one_more_piece(p18, x19);
    assert(labels::input_text(i) == l19);
    pieces_stand(p19, 1);
    pieces_stand(p19, 3);
    pieces_stand(p19, 5);
    pieces_stand(p19, 7);
    pieces_stand(p19, 9);
    pieces_stand(p19, 11);
    pieces_stand(p19, 13);
    pieces_stand(p19, 15);
    pieces_stand(p19, 17);
    pieces_stand(p19, 19);
}

/// The last frame's number, format and way are told.
pub proof fn the_frame_is_described(s: ConnectionDebugSnapshot)
    ensures
        home::contains_text(
            labels::frame_text(s),
            "frame: id="@ + labels::number_or_dash(s.last_frame_id),
        ),
        home::contains_text(
            labels::frame_text(s),
            " format="@ + labels::dash_if_empty(s.last_video_format@),
        ),
        home::contains_text(
            labels::frame_text(s),
            " present_path="@ + labels::dash_if_empty(s.last_present_path@),
        ),
{
    let l0 = "frame: id="@;
    let p0 = seq![l0];
    one_piece(l0);
    let x1 = labels::number_or_dash(s.last_frame_id);
    let p1 = p0.push(x1);
    let l1 = l0 + x1;
    one_more_piece(p0, x1);
    let x2 = " format="@;
    let p2 = p1.push(x2);
    let l2 = l1 + x2;
    one_more_piece(p1, x2);
    let x3 = labels::dash_if_empty(s.last_video_format@);
    let p3 = p2.push(x3);
    let l3 = l2 + x3;
    one_more_piece(p2, x3);
    let x4 = " present_path="@;
    let p4 = p3.push(x4);
    let l4 = l3 + x4;
    one_more_piece(p3, x4);
    let x5 = labels::dash_if_empty(s.last_present_path@);
    let p5 = p4.push(x5);
    let l5 = l4 + x5;
    one_more_piece(p4, x5);
    assert(labels::frame_text(s) == l5);
    pieces_stand(p5, 1);
    pieces_stand(p5, 3);
    pieces_stand(p5, 5);
}

/// What arrives is told in total, and for video and sound.
pub proof fn the_rates_are_told(s: ConnectionDebugSnapshot)
    ensures
        home::contains_text(labels::net_text(s), "net: "@ + s.received_total_kbps@),
        home::contains_text(labels::net_text(s), " kbps (video "@ + s.received_video_kbps@),
        home::contains_text(labels::net_text(s), " / audio "@ + s.received_audio_kbps@),
        home::contains_text(
            labels::net_text(s),
            ")  target="@ + target_text(s.target_bitrate_kbps),
        ),
{
    let l0 = "net: "@;
    let p0 = seq![l0];
    one_piece(l0);
    let x1 = s.received_total_kbps@;
    let p1 = p0.push(x1);
    let l1 = l0 + x1;
    one_more_piece(p0, x1);
    let x2 = " kbps (video "@;
    let p2 = p1.push(x2);
    let l2 = l1 + x2;
    one_more_piece(p1, x2);
    let x3 = s.received_video_kbps@;
    let p3 = p2.push(x3);
    let l3 = l2 + x3;
    one_more_piece(p2, x3);
    let x4 = " / audio "@;
    let p4 = p3.push(x4);
    let l4 = l3 + x4;
    one_more_piece(p3, x4);
    let x5 = s.received_audio_kbps@;
    let p5 = p4.push(x5);
    let l5 = l4 + x5;
    one_more_piece(p4, x5);
    let x6 = ")  target="@;
    let p6 = p5.push(x6);
    let l6 = l5 + x6;
    one_more_piece(p5, x6);
    let x7 = target_text(s.target_bitrate_kbps);
    let p7 = p6.push(x7);
    let l7 = l6 + x7;
    one_more_piece(p6, x7);
    assert(labels::net_text(s) == l7);
    pieces_stand(p7, 1);
    pieces_stand(p7, 3);
    pieces_stand(p7, 5);
    pieces_stand(p7, 7);
}

/// Frames are counted as they arrive, are decoded and are shown.
pub proof fn the_frame_rates_are_told(s: ConnectionDebugSnapshot)
    ensures
        home::contains_text(labels::fps_text(s), "fps: recv "@ + s.receive_fps@),
        home::contains_text(labels::fps_text(s), "  decode "@ + s.decode_fps@),
        home::contains_text(labels::fps_text(s), "  present "@ + s.present_fps@),
{
    let l0 = "fps: recv "@;
    let p0 = seq![l0];
    one_piece(l0);
    let x1 = s.receive_fps@;
    let p1 = p0.push(x1);
    let l1 = l0 + x1;
    one_more_piece(p0, x1);
    let x2 = "  decode "@;
    let p2 = p1.push(x2);
    let l2 = l1 + x2;
    one_more_piece(p1, x2);
    let x3 = s.decode_fps@;
    let p3 = p2.push(x3);
    let l3 = l2 + x3;
    one_more_piece(p2, x3);
    let x4 = "  present "@;
    let p4 = p3.push(x4);
    let l4 = l3 + x4;
    one_more_piece(p3, x4);
    let x5 = s.present_fps@;
    let p5 = p4.push(x5);
    let l5 = l4 + x5;
    one_more_piece(p4, x5);
    assert(labels::fps_text(s) == l5);
    pieces_stand(p5, 1);
    pieces_stand(p5, 3);
    pieces_stand(p5, 5);
}

/// Packets are counted by what became of them.
pub proof fn the_packets_are_told(s: ConnectionDebugSnapshot)
    ensures
        home::contains_text(
            labels::packets_text(s),
            "packets: rx="@ + text::decimal(s.received_packets as nat),
        ),
        home::contains_text(
            labels::packets_text(s),
            " lost="@ + text::decimal(s.lost_packets as nat),
        ),
        home::contains_text(
            labels::packets_text(s),
            " late="@ + text::decimal(s.late_packets as nat),
        ),
        home::contains_text(
            labels::packets_text(s),
            " dropped_frames="@ + text::decimal(s.dropped_frames as nat),
        ),
        home::contains_text(
            labels::packets_text(s),
            " playout_drops="@ + text::decimal(s.playout_drops as nat),
        ),
        home::contains_text(labels::packets_text(s), " jitter_buf="@ + s.jitter_delay_ms@),
        home::contains_text(labels::packets_text(s), "ms  loss="@ + s.loss_percent@),
{
    let l0 = "packets: rx="@;
    let p0 = seq![l0];
    one_piece(l0);
    let x1 = text::decimal(s.received_packets as nat);
    let p1 = p0.push(x1);
    let l1 = l0 + x1;
    one_more_piece(p0, x1);
    let x2 = " lost="@;
    let p2 = p1.push(x2);
    let l2 = l1 + x2;
    one_more_piece(p1, x2);
    let x3 = text::decimal(s.lost_packets as nat);
    let p3 = p2.push(x3);
    let l3 = l2 + x3;
    one_more_piece(p2, x3);
    let x4 = " late="@;
    let p4 = p3.push(x4);
    let l4 = l3 + x4;
    one_more_piece(p3, x4);
    let x5 = text::decimal(s.late_packets as nat);
    let p5 = p4.push(x5);
    let l5 = l4 + x5;
    one_more_piece(p4, x5);
    let x6 = " dropped_frames="@;
    let p6 = p5.push(x6);
    let l6 = l5 + x6;
    one_more_piece(p5, x6);
    let x7 = text::decimal(s.dropped_frames as nat);
    let p7 = p6.push(x7);
    let l7 = l6 + x7;
    one_more_piece(p6, x7);
    let x8 = " playout_drops="@;
    let p8 = p7.push(x8);
    let l8 = l7 + x8;
    one_more_piece(p7, x8);
    let x9 = text::decimal(s.playout_drops as nat);
    let p9 = p8.push(x9);
    let l9 = l8 + x9;
    one_more_piece(p8, x9);
    let x10 = " jitter_buf="@;
    let p10 = p9.push(x10);
    let l10 = l9 + x10;
    one_more_piece(p9, x10);
    let x11 = s.jitter_delay_ms@;
    let p11 = p10.push(x11);
    let l11 = l10 + x11;
    one_more_piece(p10, x11);
    let x12 = "ms  loss="@;
    let p12 = p11.push(x12);
    let l12 = l11 + x12;
    one_more_piece(p11, x12);
    let x13 = s.loss_percent@;
    let p13 = p12.push(x13);
    let l13 = l12 + x13;
    one_more_piece(p12, x13);
    let x14 = "%"@;
    let p14 = p13.push(x14);
    let l14 = l13 + x14;
    one_more_piece(p13, x14);
    assert(labels::packets_text(s) == l14);
    pieces_stand(p14, 1);
    pieces_stand(p14, 3);
    pieces_stand(p14, 5);
    pieces_stand(p14, 7);
    pieces_stand(p14, 9);
    pieces_stand(p14, 11);
    pieces_stand(p14, 13);
}

/// Each part of a frame's way is told with the time it takes.
pub proof fn the_latencies_are_told(s: ConnectionDebugSnapshot)
    ensures
        home::contains_text(
            labels::latency_text(s),
            "latency ms: cap→send "@ + labels::text_or_dash(s.capture_to_send_ms),
        ),
        home::contains_text(
            labels::latency_text(s),
            " | send→asm "@ + labels::text_or_dash(s.send_to_assemble_ms),
        ),
        home::contains_text(
            labels::latency_text(s),
            " | asm→dec "@ + labels::text_or_dash(s.assemble_to_decode_ms),
        ),
        home::contains_text(
            labels::latency_text(s),
            " | decode "@ + labels::text_or_dash(s.decode_work_ms),
        ),
        home::contains_text(
            labels::latency_text(s),
            " | dec→present "@ + labels::text_or_dash(s.decode_to_present_ms),
        ),
        home::contains_text(
            labels::latency_text(s),
            " | total "@ + labels::text_or_dash(s.total_latency_ms),
        ),
{
    let l0 = "latency ms: cap→send "@;
    let p0 = seq![l0];
    one_piece(l0);
    let x1 = labels::text_or_dash(s.capture_to_send_ms);
    let p1 = p0.push(x1);
    let l1 = l0 + x1;
    one_more_piece(p0, x1);
    let x2 = " | send→asm "@;
    let p2 = p1.push(x2);
    let l2 = l1 + x2;
    one_more_piece(p1, x2);
    let x3 = labels::text_or_dash(s.send_to_assemble_ms);
    let p3 = p2.push(x3);
    let l3 = l2 + x3;
    one_more_piece(p2, x3);
    let x4 = " | asm→dec "@;
    let p4 = p3.push(x4);
    let l4 = l3 + x4;
    one_more_piece(p3, x4);
    let x5 = labels::text_or_dash(s.assemble_to_decode_ms);
    let p5 = p4.push(x5);
    let l5 = l4 + x5;
    one_more_piece(p4, x5);
    let x6 = " | decode "@;
    let p6 = p5.push(x6);
    let l6 = l5 + x6;
    one_more_piece(p5, x6);
    let x7 = labels::text_or_dash(s.decode_work_ms);
    let p7 = p6.push(x7);
    let l7 = l6 + x7;
    one_more_piece(p6, x7);
    let x8 = " | dec→present "@;
    let p8 = p7.push(x8);
    let l8 = l7 + x8;
    one_more_piece(p7, x8);
    let x9 = labels::text_or_dash(s.decode_to_present_ms);
    let p9 = p8.push(x9);
    let l9 = l8 + x9;
    one_more_piece(p8, x9);
    let x10 = " | total "@;
    let p10 = p9.push(x10);
    let l10 = l9 + x10;
    one_more_piece(p9, x10);
    let x11 = labels::text_or_dash(s.total_latency_ms);
    let p11 = p10.push(x11);
    let l11 = l10 + x11;
    one_more_piece(p10, x11);
    assert(labels::latency_text(s) == l11);
    pieces_stand(p11, 1);
    pieces_stand(p11, 3);
    pieces_stand(p11, 5);
    pieces_stand(p11, 7);
    pieces_stand(p11, 9);
    pieces_stand(p11, 11);
}

/// The whole way is told on average, and for the slowest.
pub proof fn the_whole_latency_is_told(s: ConnectionDebugSnapshot)
    ensures
        home::contains_text(
            labels::latency_total_text(s),
            "latency total ms: avg "@ + labels::text_or_dash(s.total_latency_ms),
        ),
        home::contains_text(
            labels::latency_total_text(s),
            " | p95 "@ + labels::text_or_dash(s.latency_p95_ms),
        ),
        home::contains_text(
            labels::latency_total_text(s),
            " | max "@ + labels::text_or_dash(s.latency_max_ms),
        ),
{
    let l0 = "latency total ms: avg "@;
    let p0 = seq![l0];
    one_piece(l0);
    let x1 = labels::text_or_dash(s.total_latency_ms);
    let p1 = p0.push(x1);
    let l1 = l0 + x1;
    one_more_piece(p0, x1);
    let x2 = " | p95 "@;
    let p2 = p1.push(x2);
    let l2 = l1 + x2;
    one_more_piece(p1, x2);
    let x3 = labels::text_or_dash(s.latency_p95_ms);
    let p3 = p2.push(x3);
    let l3 = l2 + x3;
    one_more_piece(p2, x3);
    let x4 = " | max "@;
    let p4 = p3.push(x4);
    let l4 = l3 + x4;
    one_more_piece(p3, x4);
    let x5 = labels::text_or_dash(s.latency_max_ms);
    let p5 = p4.push(x5);
    let l5 = l4 + x5;
    one_more_piece(p4, x5);
    let x6 = "  (last 3s)"@;
    let p6 = p5.push(x6);
    let l6 = l5 + x6;
    one_more_piece(p5, x6);
    assert(labels::latency_total_text(s) == l6);
    pieces_stand(p6, 1);
    pieces_stand(p6, 3);
    pieces_stand(p6, 5);
}

/// The round trip and the distance of the clocks are told.
pub proof fn the_clocks_are_told(s: ConnectionDebugSnapshot)
    ensures
        home::contains_text(
            labels::clock_text(s),
            "clock: rtt="@ + labels::text_or_dash(s.clock_rtt_ms),
        ),
        home::contains_text(
            labels::clock_text(s),
            " ms  server_ahead="@ + labels::text_or_dash(s.server_clock_ahead_ms),
        ),
        home::contains_text(
            labels::clock_text(s),
            " ms  fb_window="@ + text::decimal(s.transport_interval_ms as nat),
        ),
{
    let l0 = "clock: rtt="@;
    let p0 = seq![l0];
    one_piece(l0);
    let x1 = labels::text_or_dash(s.clock_rtt_ms);
    let p1 = p0.push(x1);
    let l1 = l0 + x1;
    one_more_piece(p0, x1);
    let x2 = " ms  server_ahead="@;
    let p2 = p1.push(x2);
    let l2 = l1 + x2;
    one_more_piece(p1, x2);
    let x3 = labels::text_or_dash(s.server_clock_ahead_ms);
    let p3 = p2.push(x3);
    let l3 = l2 + x3;
    one_more_piece(p2, x3);
    let x4 = " ms  fb_window="@;
    let p4 = p3.push(x4);
    let l4 = l3 + x4;
    one_more_piece(p3, x4);
    let x5 = text::decimal(s.transport_interval_ms as nat);
    let p5 = p4.push(x5);
    let l5 = l4 + x5;
    one_more_piece(p4, x5);
    let x6 = " ms"@;
    let p6 = p5.push(x6);
    let l6 = l5 + x6;
    one_more_piece(p5, x6);
    assert(labels::clock_text(s) == l6);
    pieces_stand(p6, 1);
    pieces_stand(p6, 3);
    pieces_stand(p6, 5);
}

/// How the cursor is used is told.
pub proof fn the_cursor_is_described(c: CursorDebug)
    ensures
        home::contains_text(labels::cursor_mode_text(c), "cursor: mode="@ + c.capture_mode.name()),
        home::contains_text(
            labels::cursor_mode_text(c),
            " controller="@ + labels::controller_text(c.controller_state),
        ),
        home::contains_text(labels::cursor_mode_text(c), " visible="@ + labels::yes_no(c.visible)),
        home::contains_text(
            labels::cursor_mode_text(c),
            " app_grab="@ + labels::yes_no(c.app_grab),
        ),
        home::contains_text(
            labels::cursor_mode_text(c),
            " separate="@ + labels::yes_no(c.separate_cursor),
        ),
        home::contains_text(
            labels::cursor_mode_text(c),
            " hover="@ + labels::yes_no(c.hover_capture),
        ),
        home::contains_text(
            labels::cursor_mode_text(c),
            " overlay_active="@ + labels::yes_no(c.mapped is Some),
        ),
        home::contains_text(
            labels::cursor_mode_text(c),
            " native_fallback="@ + labels::yes_no(c.native_fallback),
        ),
{
    let l0 = "cursor: mode="@;
    let p0 = seq![l0];
    one_piece(l0);
    let x1 = c.capture_mode.name();
    let p1 = p0.push(x1);
    let l1 = l0 + x1;
    one_more_piece(p0, x1);
    let x2 = " controller="@;
    let p2 = p1.push(x2);
    let l2 = l1 + x2;
    one_more_piece(p1, x2);
    let x3 = labels::controller_text(c.controller_state);
    let p3 = p2.push(x3);
    let l3 = l2 + x3;
    one_more_piece(p2, x3);
    let x4 = " visible="@;
    let p4 = p3.push(x4);
    let l4 = l3 + x4;
    one_more_piece(p3, x4);
    let x5 = labels::yes_no(c.visible);
    let p5 = p4.push(x5);
    let l5 = l4 + x5;
    one_more_piece(p4, x5);
    let x6 = " app_grab="@;
    let p6 = p5.push(x6);
    let l6 = l5 + x6;
    one_more_piece(p5, x6);
    let x7 = labels::yes_no(c.app_grab);
    let p7 = p6.push(x7);
    let l7 = l6 + x7;
    one_more_piece(p6, x7);
    let x8 = " separate="@;
    let p8 = p7.push(x8);
    let l8 = l7 + x8;
    one_more_piece(p7, x8);
    let x9 = labels::yes_no(c.separate_cursor);
    let p9 = p8.push(x9);
    let l9 = l8 + x9;
    one_more_piece(p8, x9);
    let x10 = " hover="@;
    let p10 = p9.push(x10);
    let l10 = l9 + x10;
    one_more_piece(p9, x10);
    let x11 = labels::yes_no(c.hover_capture);
    let p11 = p10.push(x11);
    let l11 = l10 + x11;
    one_more_piece(p10, x11);
    let x12 = " overlay_active="@;
    let p12 = p11.push(x12);
    let l12 = l11 + x12;
    one_more_piece(p11, x12);
    let x13 = labels::yes_no(c.mapped is Some);
    let p13 = p12.push(x13);
    let l13 = l12 + x13;
    one_more_piece(p12, x13);
    let x14 = " native_fallback="@;
    let p14 = p13.push(x14);
    let l14 = l13 + x14;
    one_more_piece(p13, x14);
    let x15 = labels::yes_no(c.native_fallback);
    let p15 = p14.push(x15);
    let l15 = l14 + x15;
    one_more_piece(p14, x15);
    assert(labels::cursor_mode_text(c) == l15);
    pieces_stand(p15, 1);
    pieces_stand(p15, 3);
    pieces_stand(p15, 5);
    pieces_stand(p15, 7);
    pieces_stand(p15, 9);
    pieces_stand(p15, 11);
    pieces_stand(p15, 13);
    pieces_stand(p15, 15);
}

/// The numbers of the cursor and its shapes are told.
pub proof fn the_cursors_numbers_are_told(c: CursorDebug)
    ensures
        home::contains_text(
            labels::cursor_serial_text(c),
            "cursor: serial="@ + text::decimal(c.serial as nat),
        ),
        home::contains_text(
            labels::cursor_serial_text(c),
            " shape_cached="@ + labels::yes_no(c.shape is Some),
        ),
        home::contains_text(
            labels::cursor_serial_text(c),
            " latest_shape="@ + serial_text(c.latest_shape),
        ),
        home::contains_text(
            labels::cursor_serial_text(c),
            " shape_ver="@ + text::decimal(c.shape_version as nat),
        ),
        home::contains_text(
            labels::cursor_serial_text(c),
            " state_ver="@ + text::decimal(c.state_version as nat),
        ),
{
    let l0 = "cursor: serial="@;
    let p0 = seq![l0];
    one_piece(l0);
    let x1 = text::decimal(c.serial as nat);
    let p1 = p0.push(x1);
    let l1 = l0 + x1;
    one_more_piece(p0, x1);
    let x2 = " shape_cached="@;
    let p2 = p1.push(x2);
    let l2 = l1 + x2;
    one_more_piece(p1, x2);
    let x3 = labels::yes_no(c.shape is Some);
    let p3 = p2.push(x3);
    let l3 = l2 + x3;
    one_more_piece(p2, x3);
    let x4 = " latest_shape="@;
    let p4 = p3.push(x4);
    let l4 = l3 + x4;
    one_more_piece(p3, x4);
    let x5 = serial_text(c.latest_shape);
    let p5 = p4.push(x5);
    let l5 = l4 + x5;
    one_more_piece(p4, x5);
    let x6 = " shape_ver="@;
    let p6 = p5.push(x6);
    let l6 = l5 + x6;
    one_more_piece(p5, x6);
    let x7 = text::decimal(c.shape_version as nat);
    let p7 = p6.push(x7);
    let l7 = l6 + x7;
    one_more_piece(p6, x7);
    let x8 = " state_ver="@;
    let p8 = p7.push(x8);
    let l8 = l7 + x8;
    one_more_piece(p7, x8);
    let x9 = text::decimal(c.state_version as nat);
    let p9 = p8.push(x9);
    let l9 = l8 + x9;
    one_more_piece(p8, x9);
    assert(labels::cursor_serial_text(c) == l9);
    pieces_stand(p9, 1);
    pieces_stand(p9, 3);
    pieces_stand(p9, 5);
    pieces_stand(p9, 7);
    pieces_stand(p9, 9);
}

/// Where the video lies is told.
pub proof fn the_video_is_placed(c: CursorDebug)
    ensures
        home::contains_text(labels::cursor_video_text(c), "video: decoded="@ + c.decoded_size@),
        home::contains_text(labels::cursor_video_text(c), " cursor_space="@ + c.cursor_space@),
        home::contains_text(
            labels::cursor_video_text(c),
            " video_rect="@ + labels::text_or_dash(c.video_rect),
        ),
{
    let l0 = "video: decoded="@;
    let p0 = seq![l0];
    one_piece(l0);
    let x1 = c.decoded_size@;
    let p1 = p0.push(x1);
    let l1 = l0 + x1;
    one_more_piece(p0, x1);
    let x2 = " cursor_space="@;
    let p2 = p1.push(x2);
    let l2 = l1 + x2;
    one_more_piece(p1, x2);
    let x3 = c.cursor_space@;
    let p3 = p2.push(x3);
    let l3 = l2 + x3;
    one_more_piece(p2, x3);
    let x4 = " video_rect="@;
    let p4 = p3.push(x4);
    let l4 = l3 + x4;
    one_more_piece(p3, x4);
    let x5 = labels::text_or_dash(c.video_rect);
    let p5 = p4.push(x5);
    let l5 = l4 + x5;
    one_more_piece(p4, x5);
    assert(labels::cursor_video_text(c) == l5);
    pieces_stand(p5, 1);
    pieces_stand(p5, 3);
    pieces_stand(p5, 5);
}

/// Where the pointer is, and over what, is told.
pub proof fn the_pointer_is_placed(c: CursorDebug)
    ensures
        home::contains_text(
            labels::cursor_pointer_text(c),
            "pointer: pos="@ + labels::text_or_dash(c.pointer_pos),
        ),
        home::contains_text(
            labels::cursor_pointer_text(c),
            " over_video="@ + labels::yes_no(c.over_video),
        ),
        home::contains_text(
            labels::cursor_pointer_text(c),
            " over_local_ui="@ + labels::yes_no(c.over_local_ui),
        ),
{
    let l0 = "pointer: pos="@;
    let p0 = seq![l0];
    one_piece(l0);
    let x1 = labels::text_or_dash(c.pointer_pos);
    let p1 = p0.push(x1);
    let l1 = l0 + x1;
    one_more_piece(p0, x1);
    let x2 = " over_video="@;
    let p2 = p1.push(x2);
    let l2 = l1 + x2;
    one_more_piece(p1, x2);
    let x3 = labels::yes_no(c.over_video);
    let p3 = p2.push(x3);
    let l3 = l2 + x3;
    one_more_piece(p2, x3);
    let x4 = " over_local_ui="@;
    let p4 = p3.push(x4);
    let l4 = l3 + x4;
    one_more_piece(p3, x4);
    let x5 = labels::yes_no(c.over_local_ui);
    let p5 = p4.push(x5);
    let l5 = l4 + x5;
    one_more_piece(p4, x5);
    assert(labels::cursor_pointer_text(c) == l5);
    pieces_stand(p5, 1);
    pieces_stand(p5, 3);
    pieces_stand(p5, 5);
}

/// Where the server's cursor is is told.
pub proof fn the_servers_cursor_is_placed(c: CursorDebug)
    ensures
        home::contains_text(labels::cursor_server_text(c), "server: pos="@ + c.server_pos@),
        home::contains_text(
            labels::cursor_server_text(c),
            " visible="@ + labels::yes_no(c.visible),
        ),
        home::contains_text(
            labels::cursor_server_text(c),
            " serial="@ + text::decimal(c.serial as nat),
        ),
{
    let l0 = "server: pos="@;
    let p0 = seq![l0];
    one_piece(l0);
    let x1 = c.server_pos@;
    let p1 = p0.push(x1);
    let l1 = l0 + x1;
    one_more_piece(p0, x1);
    let x2 = " visible="@;
    let p2 = p1.push(x2);
    let l2 = l1 + x2;
    one_more_piece(p1, x2);
    let x3 = labels::yes_no(c.visible);
    let p3 = p2.push(x3);
    let l3 = l2 + x3;
    one_more_piece(p2, x3);
    let x4 = " serial="@;
    let p4 = p3.push(x4);
    let l4 = l3 + x4;
    one_more_piece(p3, x4);
    let x5 = text::decimal(c.serial as nat);
    let p5 = p4.push(x5);
    let l5 = l4 + x5;
    one_more_piece(p4, x5);
    assert(labels::cursor_server_text(c) == l5);
    pieces_stand(p5, 1);
    pieces_stand(p5, 3);
    pieces_stand(p5, 5);
}

/// The first line on the drawn cursor tells its place.
pub proof fn the_drawn_cursors_place_is_told(c: CursorDebug)
    requires
        c.mapped is Some,
    ensures
        home::contains_text(
            labels::cursor_mapped_texts(c)[0],
            "mapped: serial="@ + text::decimal(c.serial as nat),
        ),
        home::contains_text(labels::cursor_mapped_texts(c)[0], " pos="@ + (c.mapped->0).pos@),
        home::contains_text(labels::cursor_mapped_texts(c)[0], " rect="@ + (c.mapped->0).rect@),
        home::contains_text(
            labels::cursor_mapped_texts(c)[0],
            " local_driven="@ + labels::yes_no((c.mapped->0).local_driven),
        ),
{
    let l0 = "mapped: serial="@;
    let p0 = seq![l0];
    one_piece(l0);
    let x1 = text::decimal(c.serial as nat);
    let p1 = p0.push(x1);
    let l1 = l0 + x1;
    one_more_piece(p0, x1);
    let x2 = " pos="@;
    let p2 = p1.push(x2);
    let l2 = l1 + x2;
    one_more_piece(p1, x2);
    let x3 = (c.mapped->0).pos@;
    let p3 = p2.push(x3);
    let l3 = l2 + x3;
    one_more_piece(p2, x3);
    let x4 = " rect="@;
    let p4 = p3.push(x4);
    let l4 = l3 + x4;
    one_more_piece(p3, x4);
    let x5 = (c.mapped->0).rect@;
    let p5 = p4.push(x5);
    let l5 = l4 + x5;
    one_more_piece(p4, x5);
    let x6 = " local_driven="@;
    let p6 = p5.push(x6);
    let l6 = l5 + x6;
    one_more_piece(p5, x6);
    let x7 = labels::yes_no((c.mapped->0).local_driven);
    let p7 = p6.push(x7);
    let l7 = l6 + x7;
    one_more_piece(p6, x7);
    assert(labels::cursor_mapped_texts(c)[0] == l7);
    pieces_stand(p7, 1);
    pieces_stand(p7, 3);
    pieces_stand(p7, 5);
    pieces_stand(p7, 7);
}

/// The second line on the drawn cursor tells its measure.
pub proof fn the_drawn_cursors_measure_is_told(c: CursorDebug)
    requires
        c.mapped is Some,
    ensures
        home::contains_text(
            labels::cursor_mapped_texts(c)[1],
            "mapped: source="@ + (c.mapped->0).source_size@,
        ),
        home::contains_text(
            labels::cursor_mapped_texts(c)[1],
            " hotspot="@ + (c.mapped->0).hotspot@,
        ),
        home::contains_text(labels::cursor_mapped_texts(c)[1], " scale="@ + (c.mapped->0).scale@),
        home::contains_text(
            labels::cursor_mapped_texts(c)[1],
            " display_scale="@ + (c.mapped->0).display_scale@,
        ),
{
    let l0 = "mapped: source="@;
    let p0 = seq![l0];
    one_piece(l0);
    let x1 = (c.mapped->0).source_size@;
    let p1 = p0.push(x1);
    let l1 = l0 + x1;
    one_more_piece(p0, x1);
    let x2 = " hotspot="@;
    let p2 = p1.push(x2);
    let l2 = l1 + x2;
    one_more_piece(p1, x2);
    let x3 = (c.mapped->0).hotspot@;
    let p3 = p2.push(x3);
    let l3 = l2 + x3;
    one_more_piece(p2, x3);
    let x4 = " scale="@;
    let p4 = p3.push(x4);
    let l4 = l3 + x4;
    one_more_piece(p3, x4);
    let x5 = (c.mapped->0).scale@;
    let p5 = p4.push(x5);
    let l5 = l4 + x5;
    one_more_piece(p4, x5);
    let x6 = " display_scale="@;
    let p6 = p5.push(x6);
    let l6 = l5 + x6;
    one_more_piece(p5, x6);
    let x7 = (c.mapped->0).display_scale@;
    let p7 = p6.push(x7);
    let l7 = l6 + x7;
    one_more_piece(p6, x7);
    assert(labels::cursor_mapped_texts(c)[1] == l7);
    pieces_stand(p7, 1);
    pieces_stand(p7, 3);
    pieces_stand(p7, 5);
    pieces_stand(p7, 7);
}

spec fn joined(pieces: Seq<Seq<char>>) -> Seq<char>
    decreases pieces.len(),
{
    if pieces.len() == 0 {
        Seq::empty()
    } else {
        joined(pieces.drop_last()) + pieces.last()
    }
}

proof fn one_piece(x: Seq<char>)
    ensures
        joined(seq![x]) == x,
{
    assert(seq![x].drop_last() =~= Seq::empty());
    assert(joined(Seq::empty()) + x =~= x);
}

proof fn one_more_piece(pieces: Seq<Seq<char>>, x: Seq<char>)
    ensures
        joined(pieces.push(x)) == joined(pieces) + x,
{
    assert(pieces.push(x).drop_last() =~= pieces);
}

proof fn first_piece(pieces: Seq<Seq<char>>)
    requires
        pieces.len() > 0,
    ensures
        text::starts_with(joined(pieces), pieces[0]),
    decreases pieces.len(),
{
    let head = pieces.drop_last();
    if head.len() == 0 {
        assert(joined(head) =~= Seq::empty());
        assert(joined(pieces) =~= pieces[0]);
        assert(pieces[0].take(pieces[0].len() as int) =~= pieces[0]);
    } else {
        first_piece(head);
        assert(joined(pieces).take(pieces[0].len() as int) =~= joined(head).take(
            pieces[0].len() as int,
        ));
    }
}

proof fn pieces_stand(pieces: Seq<Seq<char>>, k: int)
    requires
        1 <= k < pieces.len(),
    ensures
        home::contains_text(joined(pieces), pieces[k - 1] + pieces[k]),
    decreases pieces.len(),
{
    let head = pieces.drop_last();
    let part = pieces[k - 1] + pieces[k];
    if k < head.len() {
        pieces_stand(head, k);
        let at = choose|at: int| home::stands_at(joined(head), part, at);
        assert(joined(pieces).subrange(at, at + part.len()) =~= joined(head).subrange(
            at,
            at + part.len(),
        ));
        assert(home::stands_at(joined(pieces), part, at));
    } else {
        let before = joined(head.drop_last());
        assert(joined(head) == before + head.last());
        assert(joined(pieces) == joined(head) + pieces.last());
        assert(joined(pieces) =~= before + part + Seq::<char>::empty());
        server_laws::texts_contain_their_parts(before, part, Seq::empty());
    }
}


} // verus!
