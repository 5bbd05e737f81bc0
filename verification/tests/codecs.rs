use stream_client::codecs::{
    about_codec_summary, advertised_video_codec_support, codec_name, codec_support_summary,
    effective_video_codecs, filter_advertised_video_codec_support, stream_chroma_label, VideoCodecSupport,
    VideoCodecSupportReport,
};
use stream_client::frames::Platform;
use stream_client::protocol::{VideoChromaSampling, VideoCodec};

fn report() -> VideoCodecSupportReport {
    VideoCodecSupportReport {
        supported: VideoCodecSupport::all(),
        hardware: VideoCodecSupport::all(),
        yuv444: VideoCodecSupport::h264_only(),
        hardware_yuv444: VideoCodecSupport::h264_only(),
    }
}

#[test]
fn advertised_video_codec_support_disables_yuv444_when_toggle_is_off() {
    let report = report();
    let filtered = filter_advertised_video_codec_support(report, false, true, true);

    assert_eq!(filtered.supported, report.supported);
    assert_eq!(filtered.hardware, report.hardware);
    assert!(filtered.yuv444.is_empty());
    assert!(filtered.hardware_yuv444.is_empty());
}

#[test]
fn advertised_video_codec_support_disables_yuv444_when_platform_policy_blocks_it() {
    let report = report();
    let filtered = filter_advertised_video_codec_support(report, true, true, false);

    assert_eq!(filtered.supported, report.supported);
    assert_eq!(filtered.hardware, report.hardware);
    assert_eq!(filtered.yuv444, report.yuv444);
    assert!(filtered.hardware_yuv444.is_empty());
}

#[test]
fn nothing_is_filtered_when_everything_is_allowed() {
    assert_eq!(filter_advertised_video_codec_support(report(), true, true, true), report());
}

#[test]
fn codec_sets_are_sets() {
    let mut set = VideoCodecSupport::empty();
    assert!(set.is_empty());
    set.insert(VideoCodec::Hevc);
    set.insert(VideoCodec::Hevc);
    assert!(set.supports(VideoCodec::Hevc));
    assert!(!set.supports(VideoCodec::Av1));
    let rest = VideoCodecSupport::all().subtract(set);
    assert!(rest.supports(VideoCodec::H264));
    assert!(!rest.supports(VideoCodec::Hevc));
}

#[test]
fn codecs_have_names() {
    let names = (
        codec_name(VideoCodec::H264),
        codec_name(VideoCodec::Hevc),
        codec_name(VideoCodec::Av1),
    );
    assert_ne!(names.0, names.1);
    assert_ne!(names.1, names.2);
    assert_ne!(
        stream_chroma_label(VideoChromaSampling::Yuv420),
        stream_chroma_label(VideoChromaSampling::Yuv444)
    );
    assert!(codec_support_summary(VideoCodecSupport::all()).contains(names.0));
    assert!(!about_codec_summary(report()).is_empty());
}

#[test]
fn macs_do_not_offer_full_chroma_in_hardware() {
    let mac = advertised_video_codec_support(report(), true, Platform::Macos);
    assert!(mac.hardware_yuv444.is_empty());
    let linux = advertised_video_codec_support(report(), true, Platform::Linux);
    assert_eq!(linux, report());
}

#[test]
fn failed_codecs_are_left_out_until_none_is_left() {
    let (rest, excluded) = effective_video_codecs(report(), VideoCodecSupport::h264_only());
    assert!(!rest.supported.supports(VideoCodec::H264));
    assert!(rest.supported.supports(VideoCodec::Av1));
    assert_eq!(excluded, VideoCodecSupport::h264_only());
    let (all, excluded) = effective_video_codecs(report(), VideoCodecSupport::all());
    assert_eq!(all, report());
    assert!(excluded.is_empty());
}
