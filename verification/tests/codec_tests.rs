use film_compressor::{AudioCodec, PixelFormat, SubtitleCodec, VideoCodec};

#[test]
fn video_codec_names() {
    assert_eq!(VideoCodec::Libx264.get_codec_name(), "libx264");
    assert_eq!(VideoCodec::H264Vaapi.get_codec_name(), "h264_vaapi");
    assert_eq!(VideoCodec::HevcVaapi.get_codec_name(), "hevc_vaapi");
    assert_eq!(VideoCodec::Libsvtav1.get_codec_name(), "libsvtav1");
    assert_eq!(VideoCodec::Av1Vaapi.get_codec_name(), "av1_vaapi");
}

#[test]
fn audio_and_subtitle_and_pixel_names() {
    assert_eq!(AudioCodec::Libopus.get_codec_name(), "libopus");
    assert_eq!(SubtitleCodec::Srt.get_codec_name(), "srt");
    assert_eq!(SubtitleCodec::Ass.get_codec_name(), "ass");
    assert_eq!(PixelFormat::Yuv420p.get_codec_name(), "yuv420p");
    assert_eq!(PixelFormat::Nv10.get_codec_name(), "nv10");
    assert_eq!(PixelFormat::Yuv420p10le.get_codec_name(), "yuv420p10le");
}

#[test]
fn family_defaults() {
    assert_eq!(VideoCodec::default(), VideoCodec::Av1Vaapi);
    assert_eq!(AudioCodec::default(), AudioCodec::Libopus);
    assert_eq!(SubtitleCodec::default(), SubtitleCodec::Ass);
    assert_eq!(PixelFormat::default(), PixelFormat::Yuv420p10le);
}

#[test]
fn hardware_acceleration_predicate() {
    assert!(!VideoCodec::Libx264.is_hardware_accelerated());
    assert!(VideoCodec::H264Vaapi.is_hardware_accelerated());
    assert!(VideoCodec::HevcVaapi.is_hardware_accelerated());
    assert!(!VideoCodec::Libsvtav1.is_hardware_accelerated());
    assert!(VideoCodec::Av1Vaapi.is_hardware_accelerated());
}

#[test]
fn all_variants_fixed_order() {
    let v = VideoCodec::all_variants();
    assert_eq!(v.len(), 5);
    assert_eq!(v[0], VideoCodec::Libx264);
    assert_eq!(v[4], VideoCodec::Av1Vaapi);
    assert_eq!(AudioCodec::all_variants(), vec![AudioCodec::Libopus]);
    assert_eq!(
        SubtitleCodec::all_variants(),
        vec![SubtitleCodec::Srt, SubtitleCodec::Ass]
    );
    assert_eq!(PixelFormat::all_variants().len(), 3);
}
