//! Typed representation of one decoded media stream, the input files that
//! own ordered sequences of them, and the equality semantics that drive
//! cross-file deduplication: two streams are the same catalog entry exactly
//! when every identity field matches.

use vstd::prelude::*;

use crate::text::{dec_str, push_dec};

verus! {

/// Payload of a video stream.
#[derive(Clone, Debug)]
pub struct VideoData {
    pub width: u64,
    pub height: u64,
}

/// Payload of an audio stream.
#[derive(Clone, Debug)]
pub struct AudioData {
    pub title: Option<String>,
    pub channels: u64,
    pub language: Option<String>,
}

/// Payload of a subtitle stream.
#[derive(Clone, Debug)]
pub struct SubtitleData {
    pub title: Option<String>,
    pub language: Option<String>,
}

/// The bare kind of a stream, without its payload: the tag the per-type
/// default rule and the per-type synthesis counters go by.
#[derive(Clone, Copy, Debug, PartialEq, Eq, Structural)]
pub enum StreamKind {
    Video,
    Audio,
    Subtitle,
    Attachment,
}

/// The kind of a stream together with its type-specific payload.
#[derive(Clone, Debug)]
pub enum StreamType {
    Video(VideoData),
    Audio(AudioData),
    Subtitle(SubtitleData),
    Attachment,
}

/// One decoded stream as the probe reports it. The `default` flag is the
/// probe's own disposition flag; after consolidation it is superseded by
/// catalog-level default bookkeeping.
#[derive(Clone, Debug)]
pub struct Stream {
    pub stream_type: StreamType,
    pub codec_name: String,
    pub default: bool,
}

/// One input file: its filesystem path and its streams in probe order.
/// The order is significant: it determines the per-type stream index the
/// synthesis engine emits.
#[derive(Clone, Debug)]
pub struct InputFile {
    pub path: String,
    pub sources: Vec<Stream>,
}

/// Mathematical image of `VideoData`.
#[verifier::ext_equal]
pub struct VideoDataV {
    pub width: u64,
    pub height: u64,
}

/// Mathematical image of `AudioData`.
#[verifier::ext_equal]
pub struct AudioDataV {
    pub title: Option<Seq<char>>,
    pub channels: u64,
    pub language: Option<Seq<char>>,
}

/// Mathematical image of `SubtitleData`.
#[verifier::ext_equal]
pub struct SubtitleDataV {
    pub title: Option<Seq<char>>,
    pub language: Option<Seq<char>>,
}

/// Mathematical image of `StreamType`.
#[verifier::ext_equal]
pub enum StreamTypeV {
    Video(VideoDataV),
    Audio(AudioDataV),
    Subtitle(SubtitleDataV),
    Attachment,
}

/// Mathematical image of `Stream`.
#[verifier::ext_equal]
pub struct StreamV {
    pub stream_type: StreamTypeV,
    pub codec_name: Seq<char>,
    pub default: bool,
}

/// Mathematical image of `InputFile`.
#[verifier::ext_equal]
pub struct InputFileV {
    pub path: Seq<char>,
    pub sources: Seq<StreamV>,
}

/// The views of a sequence of streams.
pub open spec fn streams_view(v: Seq<Stream>) -> Seq<StreamV> {
    Seq::new(v.len(), |i: int| v[i]@)
}

/// The view of an optional owned string.
pub open spec fn opt_view(o: Option<String>) -> Option<Seq<char>> {
    match o {
        Some(s) => Some(s@),
        None => None,
    }
}

impl View for VideoData {
    type V = VideoDataV;

    open spec fn view(&self) -> VideoDataV {
        VideoDataV { width: self.width, height: self.height }
    }
}

impl View for AudioData {
    type V = AudioDataV;

    open spec fn view(&self) -> AudioDataV {
        AudioDataV {
            title: opt_view(self.title),
            channels: self.channels,
            language: opt_view(self.language),
        }
    }
}

impl View for SubtitleData {
    type V = SubtitleDataV;

    open spec fn view(&self) -> SubtitleDataV {
        SubtitleDataV { title: opt_view(self.title), language: opt_view(self.language) }
    }
}

impl View for StreamType {
    type V = StreamTypeV;

    open spec fn view(&self) -> StreamTypeV {
        match self {
            StreamType::Video(d) => StreamTypeV::Video(d@),
            StreamType::Audio(d) => StreamTypeV::Audio(d@),
            StreamType::Subtitle(d) => StreamTypeV::Subtitle(d@),
            StreamType::Attachment => StreamTypeV::Attachment,
        }
    }
}

impl View for Stream {
    type V = StreamV;

    open spec fn view(&self) -> StreamV {
        StreamV {
            stream_type: self.stream_type@,
            codec_name: self.codec_name@,
            default: self.default,
        }
    }
}

impl View for InputFile {
    type V = InputFileV;

    open spec fn view(&self) -> InputFileV {
        InputFileV { path: self.path@, sources: streams_view(self.sources@) }
    }
}

/// The type discriminant of a stream kind.
pub open spec fn spec_kind(t: StreamTypeV) -> StreamKind {
    match t {
        StreamTypeV::Video(_) => StreamKind::Video,
        StreamTypeV::Audio(_) => StreamKind::Audio,
        StreamTypeV::Subtitle(_) => StreamKind::Subtitle,
        StreamTypeV::Attachment => StreamKind::Attachment,
    }
}

/// True when the two stream kinds share a type discriminant, whatever their
/// payloads; this is the match the per-type default rule uses.
pub open spec fn same_kind(a: StreamTypeV, b: StreamTypeV) -> bool {
    spec_kind(a) == spec_kind(b)
}

/// An equal copy of an optional owned string.
fn clone_opt_string(o: &Option<String>) -> (r: Option<String>)
    ensures
        r == *o,
{
    match o {
        Some(s) => Some(s.clone()),
        None => None,
    }
}

/// Whether two optional strings hold the same text (or are both unset).
fn opt_string_eq(a: &Option<String>, b: &Option<String>) -> (r: bool)
    ensures
        r == (opt_view(*a) == opt_view(*b)),
{
    match (a, b) {
        (Some(x), Some(y)) => *x == *y,
        (None, None) => true,
        _ => false,
    }
}

impl StreamType {
    /// Whether the two values match field for field.
    pub fn same_as(&self, other: &StreamType) -> (r: bool)
        ensures
            r == (self@ == other@),
    {
        match (self, other) {
            (StreamType::Video(a), StreamType::Video(b)) => {
                let r = a.width == b.width && a.height == b.height;
                proof {
                    assert(r == (a@ =~= b@));
                }
                r
            },
            (StreamType::Audio(a), StreamType::Audio(b)) => {
                let r = opt_string_eq(&a.title, &b.title) && a.channels == b.channels
                    && opt_string_eq(&a.language, &b.language);
                proof {
                    assert(r == (a@ =~= b@));
                }
                r
            },
            (StreamType::Subtitle(a), StreamType::Subtitle(b)) => {
                let r = opt_string_eq(&a.title, &b.title) && opt_string_eq(&a.language, &b.language);
                proof {
                    assert(r == (a@ =~= b@));
                }
                r
            },
            (StreamType::Attachment, StreamType::Attachment) => true,
            _ => false,
        }
    }

    /// The bare kind tag of this stream type.
    pub fn kind(&self) -> (k: StreamKind)
        ensures
            k == spec_kind(self@),
    {
        match self {
            StreamType::Video(_) => StreamKind::Video,
            StreamType::Audio(_) => StreamKind::Audio,
            StreamType::Subtitle(_) => StreamKind::Subtitle,
            StreamType::Attachment => StreamKind::Attachment,
        }
    }

    /// Whether the two values are streams of the same kind, whatever their
    /// payloads.
    pub fn same_kind_as(&self, other: &StreamType) -> (r: bool)
        ensures
            r == same_kind(self@, other@),
    {
        self.kind() == other.kind()
    }

    /// An equal copy of this value.
    pub fn duplicate(&self) -> (r: StreamType)
        ensures
            r == *self,
    {
        match self {
            StreamType::Video(d) => StreamType::Video(VideoData { width: d.width, height: d.height }),
            StreamType::Audio(d) => StreamType::Audio(
                AudioData {
                    title: clone_opt_string(&d.title),
                    channels: d.channels,
                    language: clone_opt_string(&d.language),
                },
            ),
            StreamType::Subtitle(d) => StreamType::Subtitle(
                SubtitleData {
                    title: clone_opt_string(&d.title),
                    language: clone_opt_string(&d.language),
                },
            ),
            StreamType::Attachment => StreamType::Attachment,
        }
    }
}

impl Stream {
    /// The equality that drives deduplication: every identity field must
    /// match, the probe's default flag included.
    pub fn same_as(&self, other: &Stream) -> (r: bool)
        ensures
            r == (self@ == other@),
    {
        let r = self.stream_type.same_as(&other.stream_type) && self.codec_name == other.codec_name
            && self.default == other.default;
        proof {
            assert(r == (self@ =~= other@));
        }
        r
    }

    /// An equal copy of this stream.
    pub fn duplicate(&self) -> (r: Stream)
        ensures
            r == *self,
    {
        Stream {
            stream_type: self.stream_type.duplicate(),
            codec_name: self.codec_name.clone(),
            default: self.default,
        }
    }
}

/// What a stream renders as in the catalog list: its kind, codec and the
/// payload fields a user tells streams apart by.
pub open spec fn spec_describe(s: StreamV) -> Seq<char> {
    match s.stream_type {
        StreamTypeV::Video(d) => "Video "@ + s.codec_name + " ("@ + dec_str(
            d.width as nat,
        ) + ":"@ + dec_str(d.height as nat) + ")"@,
        StreamTypeV::Audio(d) => "Audio "@ + s.codec_name + " ("@ + dec_str(d.channels as nat)
            + " ch)"@ + opt_suffix(d.title) + opt_suffix(d.language),
        StreamTypeV::Subtitle(d) => "Subtitle "@ + s.codec_name + opt_suffix(d.title) + opt_suffix(
            d.language,
        ),
        StreamTypeV::Attachment => "Attachment"@,
    }
}

/// An optional field renders as a space-prefixed suffix when present and as
/// nothing when absent.
pub open spec fn opt_suffix(o: Option<Seq<char>>) -> Seq<char> {
    match o {
        Some(s) => " "@ + s,
        None => Seq::<char>::empty(),
    }
}

/// Appends `" <text>"` when the field is set.
fn push_opt_suffix(o: &Option<String>, out: &mut String)
    ensures
        final(out)@ == old(out)@ + opt_suffix(opt_view(*o)),
{
    match o {
        Some(s) => {
            out.append(" ");
            out.append(s.as_str());
            proof {
                assert(out@ =~= old(out)@ + opt_suffix(opt_view(*o)));
            }
        },
        None => {
            proof {
                assert(out@ =~= old(out)@ + opt_suffix(opt_view(*o)));
            }
        },
    }
}

impl Stream {
    /// Renders the stream for the catalog list.
    pub fn describe(&self) -> (r: String)
        ensures
            r@ == spec_describe(self@),
    {
        let mut out = String::new();
        match &self.stream_type {
            StreamType::Video(d) => {
                out.append("Video ");
                out.append(self.codec_name.as_str());
                out.append(" (");
                push_dec(d.width, &mut out);
                out.append(":");
                push_dec(d.height, &mut out);
                out.append(")");
            },
            StreamType::Audio(d) => {
                out.append("Audio ");
                out.append(self.codec_name.as_str());
                out.append(" (");
                push_dec(d.channels, &mut out);
                out.append(" ch)");
                push_opt_suffix(&d.title, &mut out);
                push_opt_suffix(&d.language, &mut out);
            },
            StreamType::Subtitle(d) => {
                out.append("Subtitle ");
                out.append(self.codec_name.as_str());
                push_opt_suffix(&d.title, &mut out);
                push_opt_suffix(&d.language, &mut out);
            },
            StreamType::Attachment => {
                out.append("Attachment");
            },
        }
        proof {
            assert(out@ =~= spec_describe(self@));
        }
        out
    }
}

/// True when an equal stream occurs somewhere in the file.
pub open spec fn stream_in_file(f: InputFileV, s: StreamV) -> bool {
    exists|i: int| 0 <= i < f.sources.len() && f.sources[i] == s
}

impl InputFile {
    /// A file with the given path and probed streams. A file whose probe
    /// failed is represented with an empty stream list.
    pub fn new(path: String, sources: Vec<Stream>) -> (r: InputFile)
        ensures
            r@.path == path@,
            r@.sources == streams_view(sources@),
    {
        InputFile { path, sources }
    }

    /// Whether an equal stream occurs somewhere in this file.
    pub fn contains_stream(&self, s: &Stream) -> (r: bool)
        ensures
            r == stream_in_file(self@, s@),
    {
        let n = self.sources.len();
        let mut i: usize = 0;
        while i < n
            invariant
                i <= n,
                n == self.sources.len(),
                forall|j: int| 0 <= j < i ==> self@.sources[j] != s@,
            decreases n - i,
        {
            if self.sources[i].same_as(s) {
                proof {
                    assert(self@.sources[i as int] == s@);
                }
                return true;
            }
            i = i + 1;
        }
        false
    }
}

} // verus!
