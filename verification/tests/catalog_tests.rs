use film_compressor::{
    recompute, toggle_default, toggle_enabled, AudioData, FileMembership, InputFile, Stream,
    StreamType, VideoData,
};

fn video(codec: &str, w: u64, h: u64) -> Stream {
    Stream {
        stream_type: StreamType::Video(VideoData { width: w, height: h }),
        codec_name: codec.to_string(),
        default: false,
    }
}

fn audio(codec: &str, channels: u64, language: Option<&str>) -> Stream {
    Stream {
        stream_type: StreamType::Audio(AudioData {
            title: None,
            channels,
            language: language.map(|s| s.to_string()),
        }),
        codec_name: codec.to_string(),
        default: false,
    }
}

fn two_file_setup() -> Vec<InputFile> {
    let file_a = InputFile::new(
        "a.mkv".to_string(),
        vec![video("h264", 1920, 1080), audio("ac3", 2, Some("Eng"))],
    );
    let file_b = InputFile::new(
        "b.mkv".to_string(),
        vec![video("h264", 1920, 1080), audio("ac3", 6, Some("Eng"))],
    );
    vec![file_a, file_b]
}

#[test]
fn example_scenario_two_files() {
    let files = two_file_setup();
    let catalog = recompute(&files);
    assert_eq!(catalog.len(), 3);
    assert!(catalog[0].stream.same_as(&video("h264", 1920, 1080)));
    assert!(matches!(catalog[0].file_membership, FileMembership::AllFiles));
    assert!(catalog[1].stream.same_as(&audio("ac3", 2, Some("Eng"))));
    match &catalog[1].file_membership {
        FileMembership::SubsetOf(v) => assert_eq!(v, &vec![1]),
        FileMembership::AllFiles => panic!("entry 1 must be a subset"),
    }
    assert!(catalog[2].stream.same_as(&audio("ac3", 6, Some("Eng"))));
    match &catalog[2].file_membership {
        FileMembership::SubsetOf(v) => assert_eq!(v, &vec![2]),
        FileMembership::AllFiles => panic!("entry 2 must be a subset"),
    }
    assert!(catalog.iter().all(|e| e.enabled));
    assert!(catalog.iter().all(|e| !e.default));
}

#[test]
fn example_scenario_toggle_defaults() {
    let files = two_file_setup();
    let mut catalog = recompute(&files);
    toggle_default(&mut catalog, 1);
    assert!(catalog[1].default);
    toggle_default(&mut catalog, 2);
    assert!(!catalog[0].default);
    assert!(!catalog[1].default);
    assert!(catalog[2].default);
}

#[test]
fn toggle_default_does_not_touch_other_types() {
    let files = two_file_setup();
    let mut catalog = recompute(&files);
    toggle_default(&mut catalog, 0);
    toggle_default(&mut catalog, 1);
    assert!(catalog[0].default);
    assert!(catalog[1].default);
    toggle_default(&mut catalog, 0);
    assert!(!catalog[0].default);
    assert!(catalog[1].default);
}

#[test]
fn recompute_twice_identical() {
    let files = two_file_setup();
    let c1 = recompute(&files);
    let c2 = recompute(&files);
    assert_eq!(c1.len(), c2.len());
    for (a, b) in c1.iter().zip(c2.iter()) {
        assert!(a.stream.same_as(&b.stream));
        assert_eq!(a.enabled, b.enabled);
        assert_eq!(a.default, b.default);
        match (&a.file_membership, &b.file_membership) {
            (FileMembership::AllFiles, FileMembership::AllFiles) => {}
            (FileMembership::SubsetOf(x), FileMembership::SubsetOf(y)) => assert_eq!(x, y),
            _ => panic!("memberships differ"),
        }
    }
}

#[test]
fn recompute_empty_input() {
    let files: Vec<InputFile> = Vec::new();
    let catalog = recompute(&files);
    assert!(catalog.is_empty());
}

#[test]
fn dedup_copies_probe_default_of_first_occurrence() {
    let mut flagged = audio("ac3", 2, None);
    flagged.default = true;
    let file = InputFile::new("a.mkv".to_string(), vec![flagged, audio("ac3", 2, None)]);
    let catalog = recompute(&vec![file]);
    assert_eq!(catalog.len(), 2);
    assert!(catalog[0].default);
    assert!(!catalog[1].default);
}

#[test]
fn toggle_enabled_flips_only_one_entry() {
    let files = two_file_setup();
    let mut catalog = recompute(&files);
    toggle_enabled(&mut catalog, 1);
    assert!(catalog[0].enabled);
    assert!(!catalog[1].enabled);
    assert!(catalog[2].enabled);
    toggle_enabled(&mut catalog, 1);
    assert!(catalog[1].enabled);
}

#[test]
fn stream_equality_includes_every_field() {
    let a = audio("ac3", 2, Some("Eng"));
    let b = audio("ac3", 6, Some("Eng"));
    let c = audio("ac3", 2, Some("Ger"));
    let mut d = audio("ac3", 2, Some("Eng"));
    assert!(!a.same_as(&b));
    assert!(!a.same_as(&c));
    assert!(a.same_as(&d));
    d.default = true;
    assert!(!a.same_as(&d));
    assert!(!a.same_as(&video("ac3", 2, 2)));
}

#[test]
fn describe_renders_streams() {
    assert_eq!(video("h264", 1920, 1080).describe(), "Video h264 (1920:1080)");
    let mut a = audio("ac3", 6, Some("Eng"));
    assert_eq!(a.describe(), "Audio ac3 (6 ch) Eng");
    if let StreamType::Audio(d) = &mut a.stream_type {
        d.title = Some("Surround".to_string());
    }
    assert_eq!(a.describe(), "Audio ac3 (6 ch) Surround Eng");
    let s = Stream {
        stream_type: StreamType::Attachment,
        codec_name: "ttf".to_string(),
        default: false,
    };
    assert_eq!(s.describe(), "Attachment");
}
