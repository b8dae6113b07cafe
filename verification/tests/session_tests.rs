use film_compressor::{
    Action, AudioData, CompressSettings, EditFocus, KeyInput, Overlay, Pane, Session, Stream,
    StreamType, VideoCodec, VideoData,
};

fn video(codec: &str, w: u64, h: u64) -> Stream {
    Stream {
        stream_type: StreamType::Video(VideoData { width: w, height: h }),
        codec_name: codec.to_string(),
        default: false,
    }
}

fn audio(codec: &str, channels: u64) -> Stream {
    Stream {
        stream_type: StreamType::Audio(AudioData {
            title: None,
            channels,
            language: None,
        }),
        codec_name: codec.to_string(),
        default: false,
    }
}

fn focused(s: &Session) -> (Pane, usize, bool) {
    match &s.focus {
        EditFocus::Focused { pane, cursor, overlay } => (*pane, *cursor, overlay.is_some()),
        EditFocus::Unfocused => panic!("expected a focused session"),
    }
}

#[test]
fn fresh_session_is_unfocused_and_empty() {
    let s = Session::new();
    assert!(s.files.is_empty());
    assert!(s.catalog.is_empty());
    assert!(matches!(s.focus, EditFocus::Unfocused));
}

#[test]
fn quit_and_run_are_global() {
    let mut s = Session::new();
    assert_eq!(s.apply_event(KeyInput::Quit), Action::Quit);
    assert_eq!(s.apply_event(KeyInput::RunJob), Action::Run);
    assert_eq!(s.apply_event(KeyInput::Down), Action::Continue);
}

#[test]
fn directional_key_focuses_sources_first() {
    let mut s = Session::new();
    s.apply_event(KeyInput::Down);
    assert_eq!(focused(&s), (Pane::Sources, 0, false));
}

#[test]
fn panes_wrap_across_exactly_three() {
    let mut s = Session::new();
    s.apply_event(KeyInput::Up);
    s.apply_event(KeyInput::Right);
    assert_eq!(focused(&s).0, Pane::Settings);
    s.apply_event(KeyInput::Right);
    assert_eq!(focused(&s).0, Pane::Files);
    s.apply_event(KeyInput::Right);
    assert_eq!(focused(&s).0, Pane::Sources);
    s.apply_event(KeyInput::Left);
    assert_eq!(focused(&s).0, Pane::Files);
}

#[test]
fn escape_unfocuses_without_overlay() {
    let mut s = Session::new();
    s.apply_event(KeyInput::Down);
    s.apply_event(KeyInput::Escape);
    assert!(matches!(s.focus, EditFocus::Unfocused));
}

#[test]
fn cursor_moves_within_settings_pane() {
    let mut s = Session::new();
    s.apply_event(KeyInput::Down);
    s.apply_event(KeyInput::Right);
    for _ in 0..20 {
        s.apply_event(KeyInput::Down);
    }
    assert_eq!(focused(&s), (Pane::Settings, 8, false));
    s.apply_event(KeyInput::Up);
    assert_eq!(focused(&s).1, 7);
}

#[test]
fn enter_on_sources_toggles_enabled() {
    let mut s = Session::new();
    s.add_file("a.mkv".to_string(), vec![video("h264", 1, 1), audio("ac3", 2)]);
    s.apply_event(KeyInput::Down);
    assert!(s.catalog[0].enabled);
    s.apply_event(KeyInput::Enter);
    assert!(!s.catalog[0].enabled);
    s.apply_event(KeyInput::Enter);
    assert!(s.catalog[0].enabled);
}

#[test]
fn toggle_default_global_key_on_sources() {
    let mut s = Session::new();
    s.add_file("a.mkv".to_string(), vec![audio("ac3", 2), audio("dts", 6)]);
    s.apply_event(KeyInput::Down);
    s.apply_event(KeyInput::Down);
    s.apply_event(KeyInput::ToggleDefault);
    assert!(s.catalog[1].default);
    assert!(!s.catalog[0].default);
}

#[test]
fn choosing_enum_commits_on_enter() {
    let mut s = Session::new();
    s.apply_event(KeyInput::Down);
    s.apply_event(KeyInput::Right);
    s.apply_event(KeyInput::Enter);
    assert!(matches!(
        &s.focus,
        EditFocus::Focused { overlay: Some(Overlay::ChoosingEnum { setting: 0, cursor: 0 }), .. }
    ));
    s.apply_event(KeyInput::Down);
    s.apply_event(KeyInput::Enter);
    assert_eq!(s.settings.video_codec, VideoCodec::H264Vaapi);
    assert_eq!(focused(&s), (Pane::Settings, 0, false));
}

#[test]
fn choosing_enum_escape_discards() {
    let mut s = Session::new();
    s.apply_event(KeyInput::Down);
    s.apply_event(KeyInput::Right);
    s.apply_event(KeyInput::Enter);
    s.apply_event(KeyInput::Down);
    s.apply_event(KeyInput::Escape);
    assert_eq!(s.settings.video_codec, CompressSettings::default().video_codec);
    assert_eq!(focused(&s), (Pane::Settings, 0, false));
}

#[test]
fn text_edit_appends_and_commits() {
    let mut s = Session::new();
    s.apply_event(KeyInput::Down);
    s.apply_event(KeyInput::Right);
    for _ in 0..4 {
        s.apply_event(KeyInput::Down);
    }
    s.apply_event(KeyInput::Enter);
    assert!(s.in_text_edit());
    s.apply_event(KeyInput::Char('5'));
    s.apply_event(KeyInput::Char('M'));
    s.apply_event(KeyInput::Char('x'));
    s.apply_event(KeyInput::Backspace);
    s.apply_event(KeyInput::Enter);
    assert!(!s.in_text_edit());
    assert_eq!(s.settings.video_bitrate.as_deref(), Some("5M"));
}

#[test]
fn example_scenario_empty_commit_stores_unset() {
    let mut s = Session::new();
    s.settings.video_bitrate = Some("9M".to_string());
    s.apply_event(KeyInput::Down);
    s.apply_event(KeyInput::Right);
    for _ in 0..4 {
        s.apply_event(KeyInput::Down);
    }
    s.apply_event(KeyInput::Enter);
    for _ in 0..2 {
        s.apply_event(KeyInput::Backspace);
    }
    s.apply_event(KeyInput::Enter);
    assert!(s.settings.video_bitrate.is_none());
    let fields = s.settings.get_all_fields();
    assert_eq!(fields[4], "auto");
}

#[test]
fn text_edit_escape_discards_buffer() {
    let mut s = Session::new();
    s.settings.scale = Some("1:1".to_string());
    s.apply_event(KeyInput::Down);
    s.apply_event(KeyInput::Right);
    for _ in 0..7 {
        s.apply_event(KeyInput::Down);
    }
    s.apply_event(KeyInput::Enter);
    s.apply_event(KeyInput::Char('x'));
    s.apply_event(KeyInput::Escape);
    assert_eq!(s.settings.scale.as_deref(), Some("1:1"));
}

#[test]
fn add_file_recomputes_catalog() {
    let mut s = Session::new();
    s.add_file("a.mkv".to_string(), vec![video("h264", 1, 1)]);
    assert_eq!(s.catalog.len(), 1);
    s.add_file("b.mkv".to_string(), vec![video("h264", 1, 1), audio("ac3", 2)]);
    assert_eq!(s.catalog.len(), 2);
    assert_eq!(s.files.len(), 2);
}

#[test]
fn delete_file_key_recomputes_catalog() {
    let mut s = Session::new();
    s.add_file("a.mkv".to_string(), vec![video("h264", 1, 1)]);
    s.add_file("b.mkv".to_string(), vec![audio("ac3", 2)]);
    s.apply_event(KeyInput::Down);
    s.apply_event(KeyInput::Left);
    assert_eq!(focused(&s).0, Pane::Files);
    s.apply_event(KeyInput::Down);
    s.apply_event(KeyInput::DeleteFile);
    assert_eq!(s.files.len(), 1);
    assert_eq!(s.files[0].path, "a.mkv");
    assert_eq!(s.catalog.len(), 1);
    assert_eq!(focused(&s), (Pane::Files, 0, false));
}

#[test]
fn delete_resets_enable_state() {
    let mut s = Session::new();
    s.add_file("a.mkv".to_string(), vec![video("h264", 1, 1)]);
    s.add_file("b.mkv".to_string(), vec![video("h264", 1, 1)]);
    s.apply_event(KeyInput::Down);
    s.apply_event(KeyInput::Enter);
    assert!(!s.catalog[0].enabled);
    s.apply_event(KeyInput::Left);
    s.apply_event(KeyInput::DeleteFile);
    assert!(s.catalog[0].enabled);
}

#[test]
fn build_all_args_one_vector_per_file() {
    let mut s = Session::new();
    s.add_file("a.mkv".to_string(), vec![video("h264", 1, 1)]);
    s.add_file("b.mkv".to_string(), vec![audio("ac3", 2)]);
    let all = s.build_all_args("output");
    assert_eq!(all.len(), 2);
    assert_eq!(all[0].last().unwrap(), "output/a.mkv");
    assert_eq!(all[1].last().unwrap(), "output/b.mkv");
    assert!(all[0].iter().any(|a| a == "0:v:0"));
    assert!(all[1].iter().any(|a| a == "0:a:0"));
}
