//! Core of an interactive batch-transcoding front end: a deduplicated
//! cross-file stream catalog with per-stream enable/default state, global
//! encode settings, deterministic encoder argument synthesis, and the
//! key-driven interaction state machine that edits them.

mod catalog;
mod codec;
mod probe;
mod session;
mod settings;
mod stream;
mod synth;
mod text;

pub use catalog::{recompute, toggle_default, toggle_enabled, FileMembership, FileMembershipV, StreamSetting, StreamSettingV};
pub use catalog::{all_streams, apply_toggles, catalog_entry, catalog_view, default_exclusive, distinct_streams, files_view, first_seen, in_all_files, indices_view, member_indices, spec_membership, spec_recompute, spec_toggle_default, spec_toggle_enabled};
pub use catalog::{lemma_member_indices_all, lemma_member_indices_exact, lemma_recompute_distinct, lemma_recompute_repeatable, lemma_toggle_default_establishes_kind, lemma_toggle_default_exclusive, lemma_toggle_sequence_exclusive};
pub use codec::{AudioCodec, PixelFormat, SubtitleCodec, VideoCodec};
pub use probe::{classify_stream, spec_classify, streams_from_probe_json, ProbeOutcome, ProbeOutcomeV};
pub use session::{Action, EditFocus, EditFocusV, KeyInput, Overlay, OverlayV, Pane, Session, SessionV};
pub use session::{all_args_view, catalog_matches, focus_wf, next_pane, pane_len, prev_pane, session_wf, spec_delete_step, spec_enter_step, spec_enum_step, spec_focus_step, spec_pane_step, spec_step, spec_text_step, spec_toggle_default_step};
pub use settings::{CompressSettings, CompressSettingsV, SETTING_COUNT};
pub use settings::{lemma_filter_pixfmt_exclusive};
pub use settings::{args_view, bitrate_fragment, codec_fragment, downmix_fragment, enum_field_len, extra_fragment, filter_fragment, opt_or_auto, opt_or_empty, pix_fmt_fragment, spec_compress_arguments, spec_field_text, spec_default_settings, spec_get_all_fields, spec_hw_filter, spec_init_arguments, spec_set_enum, spec_set_text};
pub use stream::{AudioData, InputFile, Stream, StreamKind, StreamType, SubtitleData, VideoData};
pub use stream::{AudioDataV, InputFileV, StreamTypeV, StreamV, SubtitleDataV, VideoDataV};
pub use stream::{opt_view, same_kind, spec_describe, spec_kind, stream_in_file, streams_view};
pub use synth::{build_args, file_name_of, lemma_build_args_deterministic};
pub use synth::{count_kind, entry_for, has_entry, kind_code, spec_build_args, spec_file_name, stream_args, stream_args_one};
pub use text::{dec_str, spec_is_blank, str_is_blank, u64_to_string};
