use film_compressor::{classify_stream, streams_from_probe_json, ProbeOutcome, StreamType};

#[test]
fn classify_video_needs_resolution() {
    let r = classify_stream(
        Some("video".to_string()),
        Some("h264".to_string()),
        Some(1920),
        Some(1080),
        None,
        None,
        None,
        Some(true),
    );
    match r {
        ProbeOutcome::Parsed(s) => {
            assert_eq!(s.codec_name, "h264");
            assert!(s.default);
            match s.stream_type {
                StreamType::Video(d) => {
                    assert_eq!(d.width, 1920);
                    assert_eq!(d.height, 1080);
                }
                _ => panic!("expected a video stream"),
            }
        }
        _ => panic!("expected a parsed stream"),
    }
    let bad = classify_stream(
        Some("video".to_string()),
        Some("h264".to_string()),
        Some(1920),
        None,
        None,
        None,
        None,
        None,
    );
    assert!(matches!(bad, ProbeOutcome::Invalid));
}

#[test]
fn classify_audio_needs_channels() {
    let r = classify_stream(
        Some("audio".to_string()),
        Some("ac3".to_string()),
        None,
        None,
        Some(6),
        Some("Surround".to_string()),
        Some("eng".to_string()),
        None,
    );
    match r {
        ProbeOutcome::Parsed(s) => {
            assert!(!s.default);
            match s.stream_type {
                StreamType::Audio(d) => {
                    assert_eq!(d.channels, 6);
                    assert_eq!(d.title.as_deref(), Some("Surround"));
                    assert_eq!(d.language.as_deref(), Some("eng"));
                }
                _ => panic!("expected an audio stream"),
            }
        }
        _ => panic!("expected a parsed stream"),
    }
    let bad = classify_stream(
        Some("audio".to_string()),
        Some("ac3".to_string()),
        None,
        None,
        None,
        None,
        None,
        None,
    );
    assert!(matches!(bad, ProbeOutcome::Invalid));
}

#[test]
fn classify_unknown_kind_is_skipped() {
    let r = classify_stream(Some("data".to_string()), None, None, None, None, None, None, None);
    assert!(matches!(r, ProbeOutcome::Skipped));
    let missing = classify_stream(None, None, None, None, None, None, None, None);
    assert!(matches!(missing, ProbeOutcome::Invalid));
}

#[test]
fn probe_json_parses_stream_array() {
    let text = r#"{
        "streams": [
            {
                "codec_type": "video",
                "codec_name": "h264",
                "width": 1920,
                "height": 1080,
                "disposition": {"default": 0}
            },
            {
                "codec_type": "audio",
                "codec_name": "ac3",
                "channels": 6,
                "tags": {"title": "Surround", "language": "eng"},
                "disposition": {"default": true}
            },
            {
                "codec_type": "data",
                "codec_name": "bin_data"
            },
            {
                "codec_type": "subtitle",
                "codec_name": "subrip",
                "tags": {"language": "eng"}
            },
            {
                "codec_type": "attachment",
                "codec_name": "ttf"
            }
        ]
    }"#;
    let streams = streams_from_probe_json(text);
    assert_eq!(streams.len(), 4);
    assert!(matches!(streams[0].stream_type, StreamType::Video(_)));
    assert_eq!(streams[0].codec_name, "h264");
    assert!(!streams[0].default);
    match &streams[1].stream_type {
        StreamType::Audio(d) => {
            assert_eq!(d.channels, 6);
            assert_eq!(d.title.as_deref(), Some("Surround"));
        }
        _ => panic!("expected audio second"),
    }
    assert!(streams[1].default);
    assert!(matches!(streams[2].stream_type, StreamType::Subtitle(_)));
    assert!(matches!(streams[3].stream_type, StreamType::Attachment));
}

#[test]
fn probe_json_malformed_yields_no_streams() {
    assert!(streams_from_probe_json("not json at all").is_empty());
    assert!(streams_from_probe_json("{}").is_empty());
    assert!(streams_from_probe_json(r#"{"streams": 5}"#).is_empty());
    let missing_field = r#"{"streams": [{"codec_type": "video", "codec_name": "h264"}]}"#;
    assert!(streams_from_probe_json(missing_field).is_empty());
}

#[test]
fn probe_json_empty_stream_list() {
    assert!(streams_from_probe_json(r#"{"streams": []}"#).is_empty());
}
