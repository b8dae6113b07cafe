use film_compressor::{str_is_blank, CompressSettings, PixelFormat, VideoCodec};

#[test]
fn default_settings() {
    let s = CompressSettings::default();
    assert_eq!(s.video_codec, VideoCodec::Av1Vaapi);
    assert_eq!(s.pixel_format, PixelFormat::Yuv420p10le);
    assert!(s.video_bitrate.is_none());
    assert!(s.audio_bitrate.is_none());
    assert!(s.crop.is_none());
    assert!(s.scale.is_none());
    assert_eq!(s.other_settings, "");
}

#[test]
fn init_arguments_only_for_hardware() {
    let mut s = CompressSettings::default();
    s.video_codec = VideoCodec::Libx264;
    assert!(s.init_arguments().is_empty());
    s.video_codec = VideoCodec::Av1Vaapi;
    assert_eq!(
        s.init_arguments(),
        vec!["-hwaccel", "vaapi", "-vaapi_device", "/dev/dri/renderD128"]
    );
}

#[test]
fn example_scenario_hardware_filter_graph() {
    let mut s = CompressSettings::default();
    s.video_codec = VideoCodec::Av1Vaapi;
    s.scale = Some("1280:720".to_string());
    s.pixel_format = PixelFormat::Yuv420p10le;
    let args = s.compress_arguments();
    let vf_pos = args.iter().position(|a| a == "-vf").expect("-vf must be present");
    assert_eq!(args[vf_pos + 1], "scale_vaapi=1280:720,format=yuv420p10le,hwupload");
    assert!(!args.iter().any(|a| a == "-pix_fmt"));
}

#[test]
fn hardware_filter_without_scale() {
    let mut s = CompressSettings::default();
    s.video_codec = VideoCodec::HevcVaapi;
    s.pixel_format = PixelFormat::Yuv420p;
    let args = s.compress_arguments();
    let vf_pos = args.iter().position(|a| a == "-vf").unwrap();
    assert_eq!(args[vf_pos + 1], "format=yuv420p,hwupload");
    assert!(!args.iter().any(|a| a == "-pix_fmt"));
}

#[test]
fn software_path_emits_pix_fmt_and_plain_scale() {
    let mut s = CompressSettings::default();
    s.video_codec = VideoCodec::Libx264;
    s.pixel_format = PixelFormat::Yuv420p;
    s.scale = Some("640:480".to_string());
    let args = s.compress_arguments();
    let vf_pos = args.iter().position(|a| a == "-vf").unwrap();
    assert_eq!(args[vf_pos + 1], "scale=640:480");
    let pix_pos = args.iter().position(|a| a == "-pix_fmt").unwrap();
    assert_eq!(args[pix_pos + 1], "yuv420p");
    assert!(!args.iter().any(|a| a.contains("hwupload")));
}

#[test]
fn software_path_without_scale_has_no_filter() {
    let mut s = CompressSettings::default();
    s.video_codec = VideoCodec::Libsvtav1;
    let args = s.compress_arguments();
    assert!(!args.iter().any(|a| a == "-vf"));
    assert!(args.iter().any(|a| a == "-pix_fmt"));
}

#[test]
fn compress_arguments_full_order() {
    let mut s = CompressSettings::default();
    s.video_codec = VideoCodec::Libx264;
    s.pixel_format = PixelFormat::Yuv420p;
    s.video_bitrate = Some("4M".to_string());
    s.audio_bitrate = Some("192k".to_string());
    s.other_settings = "-movflags +faststart".to_string();
    let args = s.compress_arguments();
    assert_eq!(
        args,
        vec![
            "-c:v",
            "libx264",
            "-c:a",
            "libopus",
            "-c:s",
            "ass",
            "-ac",
            "2",
            "-b:v",
            "4M",
            "-b:a",
            "192k",
            "-pix_fmt",
            "yuv420p",
            "-movflags +faststart",
        ]
    );
}

#[test]
fn opus_forces_stereo_downmix() {
    let s = CompressSettings::default();
    let args = s.compress_arguments();
    let ac_pos = args.iter().position(|a| a == "-ac").unwrap();
    assert_eq!(args[ac_pos + 1], "2");
}

#[test]
fn bitrates_omitted_when_unset() {
    let s = CompressSettings::default();
    let args = s.compress_arguments();
    assert!(!args.iter().any(|a| a == "-b:v"));
    assert!(!args.iter().any(|a| a == "-b:a"));
}

#[test]
fn get_all_fields_renders_auto_for_unset() {
    let s = CompressSettings::default();
    let fields = s.get_all_fields();
    assert_eq!(
        fields,
        vec!["av1_vaapi", "yuv420p10le", "libopus", "ass", "auto", "auto", "auto", "auto", ""]
    );
}

#[test]
fn set_text_field_blank_commits_unset() {
    let mut s = CompressSettings::default();
    s.set_text_field(4, "5M".to_string());
    assert_eq!(s.video_bitrate.as_deref(), Some("5M"));
    s.set_text_field(4, "".to_string());
    assert!(s.video_bitrate.is_none());
    s.set_text_field(5, "   ".to_string());
    assert!(s.audio_bitrate.is_none());
    s.set_text_field(7, "1280:720".to_string());
    assert_eq!(s.scale.as_deref(), Some("1280:720"));
    s.set_text_field(8, " \t ".to_string());
    assert_eq!(s.other_settings, "");
}

#[test]
fn set_enum_field_commits_variant_by_position() {
    let mut s = CompressSettings::default();
    s.set_enum_field(0, 1);
    assert_eq!(s.video_codec, VideoCodec::H264Vaapi);
    s.set_enum_field(1, 0);
    assert_eq!(s.pixel_format, PixelFormat::Yuv420p);
}

#[test]
fn blank_test_covers_whitespace() {
    assert!(str_is_blank(""));
    assert!(str_is_blank(" \t\r\n"));
    assert!(!str_is_blank(" a "));
}
