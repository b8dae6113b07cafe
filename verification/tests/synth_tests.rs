use film_compressor::{
    build_args, file_name_of, recompute, toggle_default, toggle_enabled, u64_to_string, AudioData,
    CompressSettings, InputFile, PixelFormat, Stream, StreamType, SubtitleData, VideoCodec,
    VideoData,
};

fn video(codec: &str, w: u64, h: u64) -> Stream {
    Stream {
        stream_type: StreamType::Video(VideoData { width: w, height: h }),
        codec_name: codec.to_string(),
        default: false,
    }
}

fn audio(codec: &str, channels: u64) -> Stream {
    Stream {
        stream_type: StreamType::Audio(AudioData {
            title: None,
            channels,
            language: None,
        }),
        codec_name: codec.to_string(),
        default: false,
    }
}

fn subtitle(codec: &str) -> Stream {
    Stream {
        stream_type: StreamType::Subtitle(SubtitleData {
            title: None,
            language: None,
        }),
        codec_name: codec.to_string(),
        default: false,
    }
}

#[test]
fn build_args_selects_enabled_streams_with_per_type_indices() {
    let file = InputFile::new(
        "movie.mkv".to_string(),
        vec![video("h264", 1280, 720), audio("ac3", 2), audio("dts", 6), subtitle("srt")],
    );
    let files = vec![file];
    let catalog = recompute(&files);
    let mut settings = CompressSettings::default();
    settings.video_codec = VideoCodec::Libx264;
    settings.pixel_format = PixelFormat::Yuv420p;
    let args = build_args(&settings, &files[0], &catalog, "output");
    let expected: Vec<String> = vec![
        "-i",
        "movie.mkv",
        "-map",
        "0:v:0",
        "-map",
        "0:a:0",
        "-map",
        "0:a:1",
        "-map",
        "0:s:0",
        "-c:v",
        "libx264",
        "-c:a",
        "libopus",
        "-c:s",
        "ass",
        "-ac",
        "2",
        "-pix_fmt",
        "yuv420p",
        "output/movie.mkv",
    ]
    .into_iter()
    .map(|s| s.to_string())
    .collect();
    assert_eq!(args, expected);
}

#[test]
fn build_args_counters_advance_over_disabled_streams() {
    let file = InputFile::new(
        "x.mkv".to_string(),
        vec![audio("ac3", 2), audio("dts", 6)],
    );
    let files = vec![file];
    let mut catalog = recompute(&files);
    toggle_enabled(&mut catalog, 0);
    let settings = CompressSettings::default();
    let args = build_args(&settings, &files[0], &catalog, "output");
    assert!(!args.iter().any(|a| a == "0:a:0"));
    assert!(args.iter().any(|a| a == "0:a:1"));
}

#[test]
fn build_args_emits_disposition_for_default_entries() {
    let file = InputFile::new(
        "x.mkv".to_string(),
        vec![audio("ac3", 2), audio("dts", 6)],
    );
    let files = vec![file];
    let mut catalog = recompute(&files);
    toggle_default(&mut catalog, 1);
    let settings = CompressSettings::default();
    let args = build_args(&settings, &files[0], &catalog, "output");
    let pos = args
        .iter()
        .position(|a| a == "-disposition:a:2")
        .expect("disposition flag for the second audio stream");
    assert_eq!(args[pos + 1], "default");
    assert!(!args.iter().any(|a| a == "-disposition:a:1"));
}

#[test]
fn build_args_hardware_init_comes_first() {
    let file = InputFile::new("x.mkv".to_string(), vec![video("h264", 10, 10)]);
    let files = vec![file];
    let catalog = recompute(&files);
    let mut settings = CompressSettings::default();
    settings.video_codec = VideoCodec::Av1Vaapi;
    let args = build_args(&settings, &files[0], &catalog, "output");
    assert_eq!(&args[0..4], &["-hwaccel", "vaapi", "-vaapi_device", "/dev/dri/renderD128"]);
    assert_eq!(args[4], "-i");
}

#[test]
fn build_args_deterministic() {
    let file = InputFile::new(
        "dir/movie.mkv".to_string(),
        vec![video("h264", 1280, 720), audio("ac3", 2)],
    );
    let files = vec![file];
    let catalog = recompute(&files);
    let settings = CompressSettings::default();
    let a1 = build_args(&settings, &files[0], &catalog, "output (1)");
    let a2 = build_args(&settings, &files[0], &catalog, "output (1)");
    assert_eq!(a1, a2);
}

#[test]
fn output_path_uses_file_name_inside_out_dir() {
    let file = InputFile::new("some/deep/dir/movie.mkv".to_string(), vec![audio("ac3", 2)]);
    let files = vec![file];
    let catalog = recompute(&files);
    let settings = CompressSettings::default();
    let args = build_args(&settings, &files[0], &catalog, "output (2)");
    assert_eq!(args.last().unwrap(), "output (2)/movie.mkv");
}

#[test]
fn file_name_extraction() {
    assert_eq!(file_name_of("a/b/c.mkv"), "c.mkv");
    assert_eq!(file_name_of("c.mkv"), "c.mkv");
    assert_eq!(file_name_of("a/b/"), "");
    assert_eq!(file_name_of(""), "");
}

#[test]
fn decimal_rendering() {
    assert_eq!(u64_to_string(0), "0");
    assert_eq!(u64_to_string(7), "7");
    assert_eq!(u64_to_string(10), "10");
    assert_eq!(u64_to_string(1080), "1080");
    assert_eq!(u64_to_string(u64::MAX), "18446744073709551615");
}

#[test]
fn attachment_streams_use_the_t_code() {
    let attachment = Stream {
        stream_type: StreamType::Attachment,
        codec_name: "ttf".to_string(),
        default: false,
    };
    let file = InputFile::new("x.mkv".to_string(), vec![attachment]);
    let files = vec![file];
    let catalog = recompute(&files);
    let settings = CompressSettings::default();
    let args = build_args(&settings, &files[0], &catalog, "output");
    assert!(args.iter().any(|a| a == "0:t:0"));
}

#[test]
fn video_disposition_is_one_based() {
    let file = InputFile::new("x.mkv".to_string(), vec![video("h264", 1, 1)]);
    let files = vec![file];
    let mut catalog = recompute(&files);
    toggle_default(&mut catalog, 0);
    let settings = CompressSettings::default();
    let args = build_args(&settings, &files[0], &catalog, "output");
    let pos = args.iter().position(|a| a == "-disposition:v:1").unwrap();
    assert_eq!(args[pos + 1], "default");
}
