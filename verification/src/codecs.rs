//! Video codecs: what the client can decode, what it tells the server, and what
//! it leaves out after a failure.
use crate::frames::Platform;
use crate::protocol::{StreamConfig, VideoChromaSampling, VideoCodec};
use vstd::prelude::*;
use vstd::string::*;

verus! {

/// A set of codecs.
#[derive(Clone, Copy, Debug, PartialEq, Eq, Structural)]
pub struct VideoCodecSupport {
    pub h264: bool,
    pub hevc: bool,
    pub av1: bool,
}

impl VideoCodecSupport {
    pub open spec fn has(self, codec: VideoCodec) -> bool {
        match codec {
            VideoCodec::H264 => self.h264,
            VideoCodec::Hevc => self.hevc,
            VideoCodec::Av1 => self.av1,
        }
    }

    pub fn empty() -> (s: VideoCodecSupport)
        ensures
            forall|codec: VideoCodec| !s.has(codec),
            s == (VideoCodecSupport { h264: false, hevc: false, av1: false }),
    {
        VideoCodecSupport { h264: false, hevc: false, av1: false }
    }

    pub fn all() -> (s: VideoCodecSupport)
        ensures
            forall|codec: VideoCodec| s.has(codec),
    {
        VideoCodecSupport { h264: true, hevc: true, av1: true }
    }

    pub fn h264_only() -> (s: VideoCodecSupport)
        ensures
            forall|codec: VideoCodec| s.has(codec) == (codec == VideoCodec::H264),
    {
        VideoCodecSupport { h264: true, hevc: false, av1: false }
    }

    pub fn supports(self, codec: VideoCodec) -> (r: bool)
        ensures
            r == self.has(codec),
    {
        match codec {
            VideoCodec::H264 => self.h264,
            VideoCodec::Hevc => self.hevc,
            VideoCodec::Av1 => self.av1,
        }
    }

    pub open spec fn none(self) -> bool {
        forall|codec: VideoCodec| !self.has(codec)
    }

    pub fn is_empty(self) -> (r: bool)
        ensures
            r == self.none(),
    {
        proof {
            assert(self.h264 == self.has(VideoCodec::H264));
            assert(self.hevc == self.has(VideoCodec::Hevc));
            assert(self.av1 == self.has(VideoCodec::Av1));
        }
        !self.h264 && !self.hevc && !self.av1
    }

    pub open spec fn without(self, other: VideoCodecSupport) -> VideoCodecSupport {
        VideoCodecSupport {
            h264: self.h264 && !other.h264,
            hevc: self.hevc && !other.hevc,
            av1: self.av1 && !other.av1,
        }
    }

    pub fn subtract(self, other: VideoCodecSupport) -> (s: VideoCodecSupport)
        ensures
            s == self.without(other),
            forall|codec: VideoCodec| s.has(codec) == (self.has(codec) && !other.has(codec)),
    {
        VideoCodecSupport {
            h264: self.h264 && !other.h264,
            hevc: self.hevc && !other.hevc,
            av1: self.av1 && !other.av1,
        }
    }

    pub fn insert(&mut self, codec: VideoCodec)
        ensures
            forall|other: VideoCodec|
                final(self).has(other) == (old(self).has(other) || other == codec),
    {
        match codec {
            VideoCodec::H264 => {
                self.h264 = true;
            },
            VideoCodec::Hevc => {
                self.hevc = true;
            },
            VideoCodec::Av1 => {
                self.av1 = true;
            },
        }
    }
}

/// What the client can decode: at all, in hardware, and with full chroma.
#[derive(Clone, Copy, Debug, PartialEq, Eq, Structural)]
pub struct VideoCodecSupportReport {
    pub supported: VideoCodecSupport,
    pub hardware: VideoCodecSupport,
    pub yuv444: VideoCodecSupport,
    pub hardware_yuv444: VideoCodecSupport,
}

/// The report with the full-chroma sets left out where they are not wanted or
/// not allowed.
pub open spec fn filtered_report(
    report: VideoCodecSupportReport,
    yuv444: bool,
    hardware_yuv444: bool,
) -> VideoCodecSupportReport {
    let nothing = VideoCodecSupport { h264: false, hevc: false, av1: false };
    VideoCodecSupportReport {
        yuv444: if yuv444 {
            report.yuv444
        } else {
            nothing
        },
        hardware_yuv444: if hardware_yuv444 {
            report.hardware_yuv444
        } else {
            nothing
        },
        ..report
    }
}

pub fn filter_advertised_video_codec_support(
    report: VideoCodecSupportReport,
    yuv444_enabled: bool,
    allow_yuv444_advertising: bool,
    allow_hardware_yuv444_advertising: bool,
) -> (filtered: VideoCodecSupportReport)
    ensures
        filtered == filtered_report(
            report,
            yuv444_enabled && allow_yuv444_advertising,
            yuv444_enabled && allow_hardware_yuv444_advertising,
        ),
{
    let mut filtered = report;
    if !(yuv444_enabled && allow_yuv444_advertising) {
        filtered.yuv444 = VideoCodecSupport::empty();
    }
    if !(yuv444_enabled && allow_hardware_yuv444_advertising) {
        filtered.hardware_yuv444 = VideoCodecSupport::empty();
    }
    filtered
}

/// macOS has no low-latency way to show full chroma that was decoded in
/// hardware, so it does not advertise that.
pub fn advertised_video_codec_support(
    report: VideoCodecSupportReport,
    yuv444_enabled: bool,
    platform: Platform,
) -> (filtered: VideoCodecSupportReport)
    ensures
        filtered == filtered_report(
            report,
            yuv444_enabled,
            yuv444_enabled && platform != Platform::Macos,
        ),
{
    filter_advertised_video_codec_support(
        report,
        yuv444_enabled,
        true,
        platform != Platform::Macos,
    )
}

/// The codecs to go on leaving out: those left out so far, unless that would
/// leave none. Then the list starts over.
pub open spec fn kept_exclusions(
    supported: VideoCodecSupport,
    excluded: VideoCodecSupport,
) -> VideoCodecSupport {
    if supported.without(excluded).none() {
        VideoCodecSupport { h264: false, hevc: false, av1: false }
    } else {
        excluded
    }
}

/// The report without the excluded codecs.
pub open spec fn report_without(
    report: VideoCodecSupportReport,
    excluded: VideoCodecSupport,
) -> VideoCodecSupportReport {
    VideoCodecSupportReport {
        supported: report.supported.without(excluded),
        hardware: report.hardware.without(excluded),
        yuv444: report.yuv444.without(excluded),
        hardware_yuv444: report.hardware_yuv444.without(excluded),
    }
}

/// What to tell the server when some codecs have failed before, and the codecs
/// that stay excluded.
pub fn effective_video_codecs(
    report: VideoCodecSupportReport,
    excluded: VideoCodecSupport,
) -> (r: (VideoCodecSupportReport, VideoCodecSupport))
    ensures
        r.1 == kept_exclusions(report.supported, excluded),
        r.0 == report_without(report, r.1),
{
    let mut excluded = excluded;
    if report.supported.subtract(excluded).is_empty() && !excluded.is_empty() {
        excluded = VideoCodecSupport::empty();
    }
    proof {
        if excluded.none() {
            assert(!excluded.has(VideoCodec::H264));
            assert(!excluded.has(VideoCodec::Hevc));
            assert(!excluded.has(VideoCodec::Av1));
        }
    }
    let effective = VideoCodecSupportReport {
        supported: report.supported.subtract(excluded),
        hardware: report.hardware.subtract(excluded),
        yuv444: report.yuv444.subtract(excluded),
        hardware_yuv444: report.hardware_yuv444.subtract(excluded),
    };
    (effective, excluded)
}

/// However many codecs have failed, a client that supports any offers one.
pub proof fn some_codec_is_always_offered(
    report: VideoCodecSupportReport,
    excluded: VideoCodecSupport,
)
    requires
        !report.supported.none(),
    ensures
        !report_without(report, kept_exclusions(report.supported, excluded)).supported.none(),
{
    let codec = choose|codec: VideoCodec| report.supported.has(codec);
    if report.supported.without(excluded).none() {
        let kept = kept_exclusions(report.supported, excluded);
        assert(report_without(report, kept).supported.has(codec));
    }
}

/// A codec that has just failed is not offered the next time, unless it was the
/// last one.
pub proof fn failed_codec_is_not_offered_again(
    report: VideoCodecSupportReport,
    excluded: VideoCodecSupport,
    failed: VideoCodec,
)
    requires
        excluded.has(failed),
        !report.supported.without(excluded).none(),
    ensures
        !report_without(report, kept_exclusions(report.supported, excluded)).supported.has(failed),
{
}

pub open spec fn name_of(codec: VideoCodec) -> Seq<char> {
    match codec {
        VideoCodec::H264 => "h264"@,
        VideoCodec::Hevc => "hevc"@,
        VideoCodec::Av1 => "av1"@,
    }
}

pub fn codec_name(codec: VideoCodec) -> (name: &'static str)
    ensures
        name@ == name_of(codec),
{
    match codec {
        VideoCodec::H264 => "h264",
        VideoCodec::Hevc => "hevc",
        VideoCodec::Av1 => "av1",
    }
}

pub fn codec_label(stream_config: &StreamConfig) -> (name: &'static str)
    ensures
        name@ == name_of(stream_config.codec),
{
    codec_name(stream_config.codec)
}

pub fn stream_chroma_label(chroma: VideoChromaSampling) -> (label: &'static str)
    ensures
        label@ == match chroma {
            VideoChromaSampling::Yuv420 => "yuv420"@,
            VideoChromaSampling::Yuv444 => "yuv444"@,
        },
{
    match chroma {
        VideoChromaSampling::Yuv420 => "yuv420",
        VideoChromaSampling::Yuv444 => "yuv444",
    }
}

/// A list's text with one more entry, entries being set apart by slashes.
pub open spec fn listed(so_far: Seq<char>, entry: Option<Seq<char>>) -> Seq<char> {
    match entry {
        None => so_far,
        Some(entry) => if so_far.len() == 0 {
            entry
        } else {
            so_far + " / "@ + entry
        },
    }
}

pub open spec fn dash_if_empty(s: Seq<char>) -> Seq<char> {
    if s.len() == 0 {
        "-"@
    } else {
        s
    }
}

pub open spec fn summary_entry(support: VideoCodecSupport, codec: VideoCodec) -> Option<Seq<char>> {
    if support.has(codec) {
        Some(name_of(codec))
    } else {
        None
    }
}

/// The names of the codecs in a set.
pub open spec fn summary_of(support: VideoCodecSupport) -> Seq<char> {
    let h264 = listed(Seq::empty(), summary_entry(support, VideoCodec::H264));
    let hevc = listed(h264, summary_entry(support, VideoCodec::Hevc));
    dash_if_empty(listed(hevc, summary_entry(support, VideoCodec::Av1)))
}

fn push_entry(list: &mut String, entry: &str)
    ensures
        final(list)@ == listed(old(list)@, Some(entry@)),
{
    if list.as_str().is_empty() {
        list.append(entry);
        proof {
            assert(list@ =~= entry@);
        }
    } else {
        list.append(" / ");
        list.append(entry);
    }
}

fn or_dash(list: String) -> (r: String)
    ensures
        r@ == dash_if_empty(list@),
{
    if list.as_str().is_empty() {
        "-".to_owned()
    } else {
        list
    }
}

pub fn codec_support_summary(support: VideoCodecSupport) -> (s: String)
    ensures
        s@ == summary_of(support),
{
    let mut list = String::new();
    if support.supports(VideoCodec::H264) {
        push_entry(&mut list, codec_name(VideoCodec::H264));
    }
    if support.supports(VideoCodec::Hevc) {
        push_entry(&mut list, codec_name(VideoCodec::Hevc));
    }
    if support.supports(VideoCodec::Av1) {
        push_entry(&mut list, codec_name(VideoCodec::Av1));
    }
    or_dash(list)
}

/// A codec's entry in the about page: whether it is decoded in hardware, and
/// whether with full chroma.
pub open spec fn about_entry(
    report: VideoCodecSupportReport,
    codec: VideoCodec,
) -> Option<Seq<char>> {
    if !report.supported.has(codec) {
        None
    } else {
        let plain = if report.hardware.has(codec) {
            "hw"@
        } else {
            "sw"@
        };
        let full = if !report.yuv444.has(codec) {
            Seq::empty()
        } else if report.hardware_yuv444.has(codec) {
            ",444hw"@
        } else {
            ",444sw"@
        };
        Some(name_of(codec) + "("@ + plain + full + ")"@)
    }
}

fn push_about_entry(list: &mut String, report: VideoCodecSupportReport, codec: VideoCodec)
    ensures
        final(list)@ == listed(old(list)@, about_entry(report, codec)),
{
    if !report.supported.supports(codec) {
        return;
    }
    let mut entry = codec_name(codec).to_owned();
    entry.append("(");
    if report.hardware.supports(codec) {
        entry.append("hw");
    } else {
        entry.append("sw");
    }
    let ghost before = entry@;
    if report.yuv444.supports(codec) {
        if report.hardware_yuv444.supports(codec) {
            entry.append(",444hw");
        } else {
            entry.append(",444sw");
        }
    } else {
        proof {
            assert(before =~= before + Seq::<char>::empty());
        }
    }
    entry.append(")");
    push_entry(list, entry.as_str());
}

pub fn about_codec_summary(report: VideoCodecSupportReport) -> (s: String)
    ensures
        ({
            let h264 = listed(Seq::empty(), about_entry(report, VideoCodec::H264));
            let hevc = listed(h264, about_entry(report, VideoCodec::Hevc));
            s@ == dash_if_empty(listed(hevc, about_entry(report, VideoCodec::Av1)))
        }),
{
    let mut list = String::new();
    push_about_entry(&mut list, report, VideoCodec::H264);
    push_about_entry(&mut list, report, VideoCodec::Hevc);
    push_about_entry(&mut list, report, VideoCodec::Av1);
    or_dash(list)
}

/// The client plays stereo at 48 kHz and nothing else.
pub fn stream_supports_client_audio(stream_config: &StreamConfig) -> (r: bool)
    ensures
        r == (stream_config.audio_sample_rate == 48_000 && stream_config.audio_channels == 2),
{
    stream_config.audio_sample_rate == 48_000 && stream_config.audio_channels == 2
}

} // verus!
