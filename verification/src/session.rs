//! The interaction state machine: one session owns the input files, the
//! stream catalog, the encode settings and the current focus, and every key
//! event is applied through a single transition function. Focus moves
//! between three panes; inside the settings pane a key can open one of two
//! mutually exclusive overlays, an enumerated choice or a free-text editor.

use vstd::prelude::*;

use crate::catalog::{
    catalog_view, files_view, lemma_all_streams_elem, lemma_first_seen_contains,
    lemma_recompute_distinct, recompute, spec_recompute, spec_toggle_default, spec_toggle_enabled,
    toggle_default, toggle_enabled, StreamSetting, StreamSettingV,
};
use crate::settings::{
    args_view, enum_field_len, spec_field_text, spec_set_enum, spec_set_text, CompressSettings,
    CompressSettingsV, SETTING_COUNT,
};
use crate::stream::{InputFile, InputFileV, Stream};
use crate::synth::{build_args, has_entry, spec_build_args};

verus! {

/// The three logical panes focus can rest on.
#[derive(Clone, Copy, Debug, PartialEq, Eq, Structural)]
pub enum Pane {
    Sources,
    Settings,
    Files,
}

/// One key event, already mapped from the raw key source to its meaning.
#[derive(Clone, Copy, Debug, PartialEq, Eq, Structural)]
pub enum KeyInput {
    Up,
    Down,
    Left,
    Right,
    Enter,
    Escape,
    Backspace,
    Char(char),
    DeleteFile,
    ToggleDefault,
    RunJob,
    Quit,
}

/// What the caller must do after an event is applied.
#[derive(Clone, Copy, Debug, PartialEq, Eq, Structural)]
pub enum Action {
    Continue,
    Run,
    Quit,
}

/// A sub-editor open on top of the settings pane; at most one at a time.
#[derive(Clone, Debug)]
pub enum Overlay {
    ChoosingEnum { setting: usize, cursor: usize },
    EditingText { buffer: String },
}

/// Where the user's focus is: nowhere, or on one pane with a cursor, with
/// an optional overlay that only the settings pane can carry.
#[derive(Clone, Debug)]
pub enum EditFocus {
    Unfocused,
    Focused { pane: Pane, cursor: usize, overlay: Option<Overlay> },
}

/// Mathematical image of `Overlay`.
#[verifier::ext_equal]
pub enum OverlayV {
    ChoosingEnum { setting: int, cursor: int },
    EditingText { buffer: Seq<char> },
}

/// Mathematical image of `EditFocus`.
#[verifier::ext_equal]
pub enum EditFocusV {
    Unfocused,
    Focused { pane: Pane, cursor: int, overlay: Option<OverlayV> },
}

impl View for Overlay {
    type V = OverlayV;

    open spec fn view(&self) -> OverlayV {
        match self {
            Overlay::ChoosingEnum { setting, cursor } => OverlayV::ChoosingEnum {
                setting: *setting as int,
                cursor: *cursor as int,
            },
            Overlay::EditingText { buffer } => OverlayV::EditingText { buffer: buffer@ },
        }
    }
}

impl View for EditFocus {
    type V = EditFocusV;

    open spec fn view(&self) -> EditFocusV {
        match self {
            EditFocus::Unfocused => EditFocusV::Unfocused,
            EditFocus::Focused { pane, cursor, overlay } => EditFocusV::Focused {
                pane: *pane,
                cursor: *cursor as int,
                overlay: match overlay {
                    Some(o) => Some(o@),
                    None => None,
                },
            },
        }
    }
}

/// One interactive session: the whole mutable state of the tool.
#[derive(Debug)]
pub struct Session {
    pub files: Vec<InputFile>,
    pub catalog: Vec<StreamSetting>,
    pub settings: CompressSettings,
    pub focus: EditFocus,
}

/// Mathematical image of `Session`.
#[verifier::ext_equal]
pub struct SessionV {
    pub files: Seq<InputFileV>,
    pub catalog: Seq<StreamSettingV>,
    pub settings: CompressSettingsV,
    pub focus: EditFocusV,
}

impl View for Session {
    type V = SessionV;

    open spec fn view(&self) -> SessionV {
        SessionV {
            files: files_view(self.files@),
            catalog: catalog_view(self.catalog@),
            settings: self.settings@,
            focus: self.focus@,
        }
    }
}

/// The catalog always lists exactly the consolidated streams of the current
/// files, with their membership records; only the enable/default flags are
/// free to differ from a fresh consolidation.
pub open spec fn catalog_matches(files: Seq<InputFileV>, c: Seq<StreamSettingV>) -> bool {
    &&& c.len() == spec_recompute(files).len()
    &&& forall|i: int|
        0 <= i < c.len() ==> #[trigger] c[i].stream == spec_recompute(files)[i].stream
    &&& forall|i: int|
        0 <= i < c.len() ==> #[trigger] c[i].file_membership == spec_recompute(
            files,
        )[i].file_membership
}

/// Well-formedness of the focus state: overlays only on the settings pane,
/// the settings cursor within the field list, and overlay state within its
/// own bounds.
pub open spec fn focus_wf(s: SessionV) -> bool {
    match s.focus {
        EditFocusV::Unfocused => true,
        EditFocusV::Focused { pane, cursor, overlay } => {
            &&& cursor >= 0
            &&& (pane == Pane::Settings ==> cursor < SETTING_COUNT)
            &&& match overlay {
                None => true,
                Some(OverlayV::ChoosingEnum { setting, cursor: ec }) => pane == Pane::Settings
                    && setting == cursor && 0 <= setting < 4 && 0 <= ec < enum_field_len(setting),
                Some(OverlayV::EditingText { .. }) => pane == Pane::Settings && 4 <= cursor
                    < SETTING_COUNT,
            }
        },
    }
}

/// A session the library's operations keep: consistent catalog and
/// well-formed focus.
pub open spec fn session_wf(s: SessionV) -> bool {
    catalog_matches(s.files, s.catalog) && focus_wf(s)
}

/// How many entries the cursor can move over in a pane.
pub open spec fn pane_len(s: SessionV, p: Pane) -> int {
    match p {
        Pane::Sources => s.catalog.len() as int,
        Pane::Settings => SETTING_COUNT as int,
        Pane::Files => s.files.len() as int,
    }
}

/// The pane to the right, wrapping across exactly three panes.
pub open spec fn next_pane(p: Pane) -> Pane {
    match p {
        Pane::Sources => Pane::Settings,
        Pane::Settings => Pane::Files,
        Pane::Files => Pane::Sources,
    }
}

/// The pane to the left, wrapping across exactly three panes.
pub open spec fn prev_pane(p: Pane) -> Pane {
    match p {
        Pane::Sources => Pane::Files,
        Pane::Settings => Pane::Sources,
        Pane::Files => Pane::Settings,
    }
}

/// The toggle-default global binding: meaningful only while the sources
/// pane is focused, with no overlay, and an entry under the cursor.
pub open spec fn spec_toggle_default_step(s: SessionV) -> SessionV {
    match s.focus {
        EditFocusV::Focused { pane: Pane::Sources, cursor, overlay: None } => if 0 <= cursor
            < s.catalog.len() {
            SessionV { catalog: spec_toggle_default(s.catalog, cursor), ..s }
        } else {
            s
        },
        _ => s,
    }
}

/// Enter with no overlay: toggle on sources, open an overlay on settings,
/// nothing on files.
pub open spec fn spec_enter_step(s: SessionV, pane: Pane, cursor: int) -> SessionV {
    match pane {
        Pane::Sources => if 0 <= cursor < s.catalog.len() {
            SessionV { catalog: spec_toggle_enabled(s.catalog, cursor), ..s }
        } else {
            s
        },
        Pane::Settings => if cursor < 4 {
            SessionV {
                focus: EditFocusV::Focused {
                    pane,
                    cursor,
                    overlay: Some(OverlayV::ChoosingEnum { setting: cursor, cursor: 0 }),
                },
                ..s
            }
        } else {
            SessionV {
                focus: EditFocusV::Focused {
                    pane,
                    cursor,
                    overlay: Some(
                        OverlayV::EditingText { buffer: spec_field_text(s.settings, cursor) },
                    ),
                },
                ..s
            }
        },
        Pane::Files => s,
    }
}

/// Deleting the file under the cursor: the file leaves the set, the catalog
/// is recomputed from scratch, and the cursor is clamped to the new list.
pub open spec fn spec_delete_step(s: SessionV, cursor: int) -> SessionV {
    let nf = s.files.remove(cursor);
    let ncur: int = if cursor < nf.len() {
        cursor
    } else if nf.len() > 0 {
        nf.len() - 1
    } else {
        0
    };
    SessionV {
        files: nf,
        catalog: spec_recompute(nf),
        focus: EditFocusV::Focused { pane: Pane::Files, cursor: ncur, overlay: None },
        ..s
    }
}

/// A key applied to a focused pane with no overlay.
pub open spec fn spec_pane_step(s: SessionV, pane: Pane, cursor: int, e: KeyInput) -> SessionV {
    match e {
        KeyInput::Left => SessionV {
            focus: EditFocusV::Focused { pane: prev_pane(pane), cursor: 0, overlay: None },
            ..s
        },
        KeyInput::Right => SessionV {
            focus: EditFocusV::Focused { pane: next_pane(pane), cursor: 0, overlay: None },
            ..s
        },
        KeyInput::Up => SessionV {
            focus: EditFocusV::Focused {
                pane,
                cursor: if cursor > 0 {
                    cursor - 1
                } else {
                    0
                },
                overlay: None,
            },
            ..s
        },
        KeyInput::Down => SessionV {
            focus: EditFocusV::Focused {
                pane,
                cursor: if cursor + 1 < pane_len(s, pane) {
                    cursor + 1
                } else {
                    cursor
                },
                overlay: None,
            },
            ..s
        },
        KeyInput::Enter => spec_enter_step(s, pane, cursor),
        KeyInput::Escape => SessionV { focus: EditFocusV::Unfocused, ..s },
        KeyInput::DeleteFile => if pane == Pane::Files && 0 <= cursor < s.files.len() {
            spec_delete_step(s, cursor)
        } else {
            s
        },
        _ => s,
    }
}

/// A key applied while the enumerated-choice overlay is open.
pub open spec fn spec_enum_step(
    s: SessionV,
    pane: Pane,
    cursor: int,
    setting: int,
    ec: int,
    e: KeyInput,
) -> SessionV {
    match e {
        KeyInput::Up => SessionV {
            focus: EditFocusV::Focused {
                pane,
                cursor,
                overlay: Some(
                    OverlayV::ChoosingEnum {
                        setting,
                        cursor: if ec > 0 {
                            ec - 1
                        } else {
                            0
                        },
                    },
                ),
            },
            ..s
        },
        KeyInput::Down => SessionV {
            focus: EditFocusV::Focused {
                pane,
                cursor,
                overlay: Some(
                    OverlayV::ChoosingEnum {
                        setting,
                        cursor: if ec + 1 < enum_field_len(setting) {
                            ec + 1
                        } else {
                            ec
                        },
                    },
                ),
            },
            ..s
        },
        KeyInput::Enter => SessionV {
            settings: spec_set_enum(s.settings, setting, ec),
            focus: EditFocusV::Focused { pane, cursor, overlay: None },
            ..s
        },
        KeyInput::Escape => SessionV {
            focus: EditFocusV::Focused { pane, cursor, overlay: None },
            ..s
        },
        _ => s,
    }
}

/// A key applied while the free-text overlay is open.
pub open spec fn spec_text_step(
    s: SessionV,
    pane: Pane,
    cursor: int,
    buffer: Seq<char>,
    e: KeyInput,
) -> SessionV {
    match e {
        KeyInput::Char(c) => SessionV {
            focus: EditFocusV::Focused {
                pane,
                cursor,
                overlay: Some(OverlayV::EditingText { buffer: buffer.push(c) }),
            },
            ..s
        },
        KeyInput::Backspace => SessionV {
            focus: EditFocusV::Focused {
                pane,
                cursor,
                overlay: Some(
                    OverlayV::EditingText {
                        buffer: if buffer.len() > 0 {
                            buffer.drop_last()
                        } else {
                            buffer
                        },
                    },
                ),
            },
            ..s
        },
        KeyInput::Enter => SessionV {
            settings: spec_set_text(s.settings, cursor, buffer),
            focus: EditFocusV::Focused { pane, cursor, overlay: None },
            ..s
        },
        KeyInput::Escape => SessionV {
            focus: EditFocusV::Focused { pane, cursor, overlay: None },
            ..s
        },
        _ => s,
    }
}

/// A non-global key dispatched on the current focus.
pub open spec fn spec_focus_step(s: SessionV, e: KeyInput) -> SessionV {
    match s.focus {
        EditFocusV::Unfocused => match e {
            KeyInput::Up | KeyInput::Down | KeyInput::Left | KeyInput::Right => SessionV {
                focus: EditFocusV::Focused { pane: Pane::Sources, cursor: 0, overlay: None },
                ..s
            },
            _ => s,
        },
        EditFocusV::Focused { pane, cursor, overlay: None } => spec_pane_step(s, pane, cursor, e),
        EditFocusV::Focused {
            pane,
            cursor,
            overlay: Some(OverlayV::ChoosingEnum { setting, cursor: ec }),
        } => spec_enum_step(s, pane, cursor, setting, ec, e),
        EditFocusV::Focused { pane, cursor, overlay: Some(OverlayV::EditingText { buffer }) } =>
            spec_text_step(s, pane, cursor, buffer, e),
    }
}

/// The whole transition relation: the next session state and the action the
/// caller must take, for every state and key event. Run-job and quit are
/// global; toggle-default is global but only meaningful on the sources
/// pane; everything else is dispatched on the focus.
pub open spec fn spec_step(s: SessionV, e: KeyInput) -> (SessionV, Action) {
    match e {
        KeyInput::Quit => (s, Action::Quit),
        KeyInput::RunJob => (s, Action::Run),
        KeyInput::ToggleDefault => (spec_toggle_default_step(s), Action::Continue),
        _ => (spec_focus_step(s, e), Action::Continue),
    }
}


/// A default toggle changes only flags: the catalog still lists the same
/// streams with the same membership records.
proof fn lemma_toggle_default_matches(
    files: Seq<InputFileV>,
    c: Seq<StreamSettingV>,
    i: int,
)
    requires
        catalog_matches(files, c),
        0 <= i < c.len(),
    ensures
        catalog_matches(files, spec_toggle_default(c, i)),
{
    let c2 = spec_toggle_default(c, i);
    assert(forall|l: int| 0 <= l < c2.len() ==> #[trigger] c2[l].stream == c[l].stream);
    assert(forall|l: int|
        0 <= l < c2.len() ==> #[trigger] c2[l].file_membership == c[l].file_membership);
}

/// An enable toggle changes only flags: the catalog still lists the same
/// streams with the same membership records.
proof fn lemma_toggle_enabled_matches(
    files: Seq<InputFileV>,
    c: Seq<StreamSettingV>,
    i: int,
)
    requires
        catalog_matches(files, c),
        0 <= i < c.len(),
    ensures
        catalog_matches(files, spec_toggle_enabled(c, i)),
{
    let c2 = spec_toggle_enabled(c, i);
    assert(forall|l: int| 0 <= l < c2.len() ==> #[trigger] c2[l].stream == c[l].stream);
    assert(forall|l: int|
        0 <= l < c2.len() ==> #[trigger] c2[l].file_membership == c[l].file_membership);
}

/// How many variants the enumerated field at `index` offers.
fn enum_field_count(index: usize) -> (r: usize)
    requires
        index < 4,
    ensures
        r == enum_field_len(index as int),
{
    proof {
        assert(crate::codec::VideoCodec::spec_all_variants().len() == 5);
        assert(crate::codec::PixelFormat::spec_all_variants().len() == 3);
        assert(crate::codec::AudioCodec::spec_all_variants().len() == 1);
        assert(crate::codec::SubtitleCodec::spec_all_variants().len() == 2);
    }
    if index == 0 {
        5
    } else if index == 1 {
        3
    } else if index == 2 {
        1
    } else {
        2
    }
}

impl Session {
    /// A fresh session: no files, an empty catalog, default settings,
    /// nothing focused.
    pub fn new() -> (r: Session)
        ensures
            r@.files == Seq::<InputFileV>::empty(),
            r@.catalog == Seq::<StreamSettingV>::empty(),
            r@.settings == crate::settings::spec_default_settings(),
            r@.focus == EditFocusV::Unfocused,
            session_wf(r@),
    {
        let r = Session {
            files: Vec::new(),
            catalog: Vec::new(),
            settings: CompressSettings::default(),
            focus: EditFocus::Unfocused,
        };
        proof {
            assert(r@.files =~= Seq::<InputFileV>::empty());
            assert(r@.catalog =~= Seq::<StreamSettingV>::empty());
            assert(spec_recompute(r@.files).len() == 0);
        }
        r
    }

    /// Whether the free-text overlay is open, so a caller can route
    /// printable keys to the buffer instead of to command bindings.
    pub fn in_text_edit(&self) -> (r: bool)
        ensures
            r == (self@.focus matches EditFocusV::Focused {
                overlay: Some(OverlayV::EditingText { .. }),
                ..
            }),
    {
        match &self.focus {
            EditFocus::Focused { overlay: Some(Overlay::EditingText { .. }), .. } => true,
            _ => false,
        }
    }

    /// Adds one probed input file and rebuilds the catalog from scratch;
    /// enable/default edits are not preserved across the rebuild.
    pub fn add_file(&mut self, path: String, sources: Vec<Stream>)
        requires
            session_wf(old(self)@),
        ensures
            final(self)@.files == old(self)@.files.push(
                InputFileV { path: path@, sources: crate::stream::streams_view(sources@) },
            ),
            final(self)@.catalog == spec_recompute(final(self)@.files),
            final(self)@.settings == old(self)@.settings,
            final(self)@.focus == old(self)@.focus,
            session_wf(final(self)@),
    {
        let f = InputFile::new(path, sources);
        self.files.push(f);
        let c = recompute(&self.files);
        self.catalog = c;
        proof {
            assert(self@.files =~= old(self)@.files.push(
                InputFileV { path: path@, sources: crate::stream::streams_view(sources@) },
            ));
        }
    }

    /// Removes the file at `index` and rebuilds the catalog from scratch.
    pub fn remove_file(&mut self, index: usize)
        requires
            session_wf(old(self)@),
            index < old(self)@.files.len(),
        ensures
            final(self)@.files == old(self)@.files.remove(index as int),
            final(self)@.catalog == spec_recompute(final(self)@.files),
            final(self)@.settings == old(self)@.settings,
            final(self)@.focus == old(self)@.focus,
            session_wf(final(self)@),
    {
        let _ = self.files.remove(index);
        let c = recompute(&self.files);
        self.catalog = c;
        proof {
            assert(self@.files =~= old(self)@.files.remove(index as int));
        }
    }

    /// Applies one key event: the sole way the session changes during the
    /// interactive loop. Returns what the caller must do next.
    pub fn apply_event(&mut self, e: KeyInput) -> (a: Action)
        requires
            session_wf(old(self)@),
        ensures
            final(self)@ == spec_step(old(self)@, e).0,
            a == spec_step(old(self)@, e).1,
            session_wf(final(self)@),
    {
        match e {
            KeyInput::Quit => Action::Quit,
            KeyInput::RunJob => Action::Run,
            KeyInput::ToggleDefault => {
                let mut target: Option<usize> = None;
                match &self.focus {
                    EditFocus::Focused { pane: Pane::Sources, cursor, overlay: None } => {
                        if *cursor < self.catalog.len() {
                            target = Some(*cursor);
                        }
                    },
                    _ => {},
                }
                match target {
                    Some(cursor) => {
                        toggle_default(&mut self.catalog, cursor);
                        proof {
                            lemma_toggle_default_matches(
                                old(self)@.files,
                                old(self)@.catalog,
                                cursor as int,
                            );
                            assert(self@ =~= spec_toggle_default_step(old(self)@));
                        }
                    },
                    None => {
                        proof {
                            assert(self@ =~= spec_toggle_default_step(old(self)@));
                        }
                    },
                }
                Action::Continue
            },
            _ => {
                self.step_focus(e);
                Action::Continue
            },
        }
    }

    /// Dispatches a non-global key on the current focus.
    fn step_focus(&mut self, e: KeyInput)
        requires
            session_wf(old(self)@),
            !(e matches KeyInput::Quit),
            !(e matches KeyInput::RunJob),
            !(e matches KeyInput::ToggleDefault),
        ensures
            final(self)@ == spec_focus_step(old(self)@, e),
            session_wf(final(self)@),
    {
        let mut focus = EditFocus::Unfocused;
        core::mem::swap(&mut focus, &mut self.focus);
        match focus {
            EditFocus::Unfocused => {
                match e {
                    KeyInput::Up | KeyInput::Down | KeyInput::Left | KeyInput::Right => {
                        self.focus = EditFocus::Focused {
                            pane: Pane::Sources,
                            cursor: 0,
                            overlay: None,
                        };
                    },
                    _ => {},
                }
                proof {
                    assert(self@ =~= spec_focus_step(old(self)@, e));
                }
            },
            EditFocus::Focused { pane, cursor, overlay: None } => {
                self.step_pane(pane, cursor, e);
                proof {
                    assert(self@ =~= spec_focus_step(old(self)@, e));
                }
            },
            EditFocus::Focused {
                pane,
                cursor,
                overlay: Some(Overlay::ChoosingEnum { setting, cursor: ec }),
            } => {
                match e {
                    KeyInput::Up => {
                        let nec = if ec > 0 {
                            ec - 1
                        } else {
                            0
                        };
                        self.focus = EditFocus::Focused {
                            pane,
                            cursor,
                            overlay: Some(Overlay::ChoosingEnum { setting, cursor: nec }),
                        };
                    },
                    KeyInput::Down => {
                        let nec = if ec + 1 < enum_field_count(setting) {
                            ec + 1
                        } else {
                            ec
                        };
                        self.focus = EditFocus::Focused {
                            pane,
                            cursor,
                            overlay: Some(Overlay::ChoosingEnum { setting, cursor: nec }),
                        };
                    },
                    KeyInput::Enter => {
                        self.settings.set_enum_field(setting, ec);
                        self.focus = EditFocus::Focused { pane, cursor, overlay: None };
                    },
                    KeyInput::Escape => {
                        self.focus = EditFocus::Focused { pane, cursor, overlay: None };
                    },
                    _ => {
                        self.focus = EditFocus::Focused {
                            pane,
                            cursor,
                            overlay: Some(Overlay::ChoosingEnum { setting, cursor: ec }),
                        };
                    },
                }
                proof {
                    assert(self@ =~= spec_focus_step(old(self)@, e));
                }
            },
            EditFocus::Focused {
                pane,
                cursor,
                overlay: Some(Overlay::EditingText { mut buffer }),
            } => {
                match e {
                    KeyInput::Char(c) => {
                        buffer.push(c);
                        self.focus = EditFocus::Focused {
                            pane,
                            cursor,
                            overlay: Some(Overlay::EditingText { buffer }),
                        };
                    },
                    KeyInput::Backspace => {
                        let _ = buffer.pop();
                        self.focus = EditFocus::Focused {
                            pane,
                            cursor,
                            overlay: Some(Overlay::EditingText { buffer }),
                        };
                    },
                    KeyInput::Enter => {
                        self.settings.set_text_field(cursor, buffer);
                        self.focus = EditFocus::Focused { pane, cursor, overlay: None };
                    },
                    KeyInput::Escape => {
                        self.focus = EditFocus::Focused { pane, cursor, overlay: None };
                    },
                    _ => {
                        self.focus = EditFocus::Focused {
                            pane,
                            cursor,
                            overlay: Some(Overlay::EditingText { buffer }),
                        };
                    },
                }
                proof {
                    assert(self@ =~= spec_focus_step(old(self)@, e));
                }
            },
        }
    }

    /// A key on a focused pane with no overlay open.
    fn step_pane(&mut self, pane: Pane, cursor: usize, e: KeyInput)
        requires
            session_wf(old(self)@),
            old(self)@.focus == EditFocusV::Unfocused,
            pane == Pane::Settings ==> cursor < SETTING_COUNT,
            !(e matches KeyInput::Quit),
            !(e matches KeyInput::RunJob),
            !(e matches KeyInput::ToggleDefault),
        ensures
            final(self)@ == spec_pane_step(
                SessionV {
                    focus: EditFocusV::Focused {
                        pane,
                        cursor: cursor as int,
                        overlay: None,
                    },
                    ..old(self)@
                },
                pane,
                cursor as int,
                e,
            ),
            session_wf(final(self)@),
    {
        let ghost s0 = SessionV {
            focus: EditFocusV::Focused { pane, cursor: cursor as int, overlay: None },
            ..old(self)@
        };
        match e {
            KeyInput::Left => {
                let np = match pane {
                    Pane::Sources => Pane::Files,
                    Pane::Settings => Pane::Sources,
                    Pane::Files => Pane::Settings,
                };
                self.focus = EditFocus::Focused { pane: np, cursor: 0, overlay: None };
                proof {
                    assert(self@ =~= spec_pane_step(s0, pane, cursor as int, e));
                }
            },
            KeyInput::Right => {
                let np = match pane {
                    Pane::Sources => Pane::Settings,
                    Pane::Settings => Pane::Files,
                    Pane::Files => Pane::Sources,
                };
                self.focus = EditFocus::Focused { pane: np, cursor: 0, overlay: None };
                proof {
                    assert(self@ =~= spec_pane_step(s0, pane, cursor as int, e));
                }
            },
            KeyInput::Up => {
                let nc = if cursor > 0 {
                    cursor - 1
                } else {
                    0
                };
                self.focus = EditFocus::Focused { pane, cursor: nc, overlay: None };
                proof {
                    assert(self@ =~= spec_pane_step(s0, pane, cursor as int, e));
                }
            },
            KeyInput::Down => {
                let len: usize = match pane {
                    Pane::Sources => self.catalog.len(),
                    Pane::Settings => SETTING_COUNT,
                    Pane::Files => self.files.len(),
                };
                let nc = if cursor < usize::MAX && cursor + 1 < len {
                    cursor + 1
                } else {
                    cursor
                };
                self.focus = EditFocus::Focused { pane, cursor: nc, overlay: None };
                proof {
                    assert(self@ =~= spec_pane_step(s0, pane, cursor as int, e));
                }
            },
            KeyInput::Enter => {
                match pane {
                    Pane::Sources => {
                        if cursor < self.catalog.len() {
                            toggle_enabled(&mut self.catalog, cursor);
                            proof {
                                lemma_toggle_enabled_matches(
                                    old(self)@.files,
                                    old(self)@.catalog,
                                    cursor as int,
                                );
                            }
                        }
                        self.focus = EditFocus::Focused { pane, cursor, overlay: None };
                    },
                    Pane::Settings => {
                        if cursor < 4 {
                            self.focus = EditFocus::Focused {
                                pane,
                                cursor,
                                overlay: Some(
                                    Overlay::ChoosingEnum { setting: cursor, cursor: 0 },
                                ),
                            };
                            proof {
                                assert(enum_field_len(cursor as int) >= 1);
                            }
                        } else {
                            let seed = self.settings.field_text(cursor);
                            self.focus = EditFocus::Focused {
                                pane,
                                cursor,
                                overlay: Some(Overlay::EditingText { buffer: seed }),
                            };
                        }
                    },
                    Pane::Files => {
                        self.focus = EditFocus::Focused { pane, cursor, overlay: None };
                    },
                }
                proof {
                    assert(self@ =~= spec_pane_step(s0, pane, cursor as int, e));
                }
            },
            KeyInput::Escape => {
                proof {
                    assert(self@ =~= spec_pane_step(s0, pane, cursor as int, e));
                }
            },
            KeyInput::DeleteFile => {
                let mut is_delete = false;
                match pane {
                    Pane::Files => {
                        if cursor < self.files.len() {
                            is_delete = true;
                        }
                    },
                    _ => {},
                }
                if is_delete {
                    let _ = self.files.remove(cursor);
                    let c = recompute(&self.files);
                    self.catalog = c;
                    let nlen = self.files.len();
                    let nc = if cursor < nlen {
                        cursor
                    } else if nlen > 0 {
                        nlen - 1
                    } else {
                        0
                    };
                    self.focus = EditFocus::Focused { pane: Pane::Files, cursor: nc, overlay: None };
                    proof {
                        assert(self@.files =~= s0.files.remove(cursor as int));
                        assert(self@ =~= spec_delete_step(s0, cursor as int));
                        assert(self@ =~= spec_pane_step(s0, pane, cursor as int, e));
                    }
                } else {
                    self.focus = EditFocus::Focused { pane, cursor, overlay: None };
                    proof {
                        assert(self@ =~= spec_pane_step(s0, pane, cursor as int, e));
                    }
                }
            },
            _ => {
                self.focus = EditFocus::Focused { pane, cursor, overlay: None };
                proof {
                    assert(self@ =~= spec_pane_step(s0, pane, cursor as int, e));
                }
            },
        }
    }
}

impl Default for Session {
    fn default() -> (r: Session)
        ensures
            r@.files == Seq::<InputFileV>::empty(),
            r@.catalog == Seq::<StreamSettingV>::empty(),
            r@.settings == crate::settings::spec_default_settings(),
            r@.focus == EditFocusV::Unfocused,
            session_wf(r@),
    {
        Session::new()
    }
}


/// The views of a list of argument vectors.
pub open spec fn all_args_view(r: Seq<Vec<String>>) -> Seq<Seq<Seq<char>>> {
    Seq::new(r.len(), |i: int| args_view(r[i]@))
}

impl Session {
    /// The run-job synthesis: one argument vector per current input file,
    /// in file order, each a pure function of the settings, the file, the
    /// catalog and the output directory.
    pub fn build_all_args(&self, out_dir: &str) -> (r: Vec<Vec<String>>)
        requires
            session_wf(self@),
        ensures
            r@.len() == self@.files.len(),
            forall|i: int|
                0 <= i < r@.len() ==> args_view(#[trigger] r@[i]@) == spec_build_args(
                    self@.settings,
                    self@.files[i],
                    self@.catalog,
                    out_dir@,
                ),
    {
        proof {
            lemma_recompute_distinct(self@.files);
            assert forall|a: int, b: int|
                0 <= a < b < self@.catalog.len() implies self@.catalog[a].stream
                != self@.catalog[b].stream by {
                assert(self@.catalog[a].stream == spec_recompute(self@.files)[a].stream);
                assert(self@.catalog[b].stream == spec_recompute(self@.files)[b].stream);
            }
            assert forall|i: int, j: int|
                0 <= i < self@.files.len() && 0 <= j < self@.files[i].sources.len() implies
                has_entry(self@.catalog, #[trigger] self@.files[i].sources[j]) by {
                let x = self@.files[i].sources[j];
                lemma_all_streams_elem(self@.files, i, j);
                lemma_first_seen_contains(
                    crate::catalog::all_streams(self@.files),
                    x,
                );
                let base = crate::catalog::first_seen(
                    crate::catalog::all_streams(self@.files),
                );
                let k = choose|k: int| 0 <= k < base.len() && base[k] == x;
                assert(spec_recompute(self@.files)[k].stream == x);
                assert(self@.catalog[k].stream == x);
            }
        }
        let n = self.files.len();
        let mut r: Vec<Vec<String>> = Vec::new();
        let mut i: usize = 0;
        while i < n
            invariant
                i <= n,
                n == self.files.len(),
                session_wf(self@),
                crate::catalog::distinct_streams(self@.catalog),
                forall|l: int, j: int|
                    0 <= l < self@.files.len() && 0 <= j < self@.files[l].sources.len()
                        ==> has_entry(self@.catalog, #[trigger] self@.files[l].sources[j]),
                r@.len() == i,
                forall|l: int|
                    0 <= l < i ==> args_view(#[trigger] r@[l]@) == spec_build_args(
                        self@.settings,
                        self@.files[l],
                        self@.catalog,
                        out_dir@,
                    ),
            decreases n - i,
        {
            let f = &self.files[i];
            proof {
                assert(f@ == self@.files[i as int]);
            }
            let args = build_args(&self.settings, f, &self.catalog, out_dir);
            r.push(args);
            i = i + 1;
        }
        r
    }
}

} // verus!
