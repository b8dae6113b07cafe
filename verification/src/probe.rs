//! Turning one probe report into typed streams. The probe collaborator
//! hands over its JSON text; decoding the text is delegated to an outside
//! parser behind trusted declarations, and the classification of each
//! decoded record into a stream — the part with rules in it — is verified
//! over plain values. Any malformed payload yields zero streams for the
//! file; this code never panics on probe data.

use vstd::prelude::*;

use crate::stream::{
    opt_view, AudioData, Stream, StreamType, StreamTypeV, StreamV, SubtitleData, VideoData,
};

verus! {

/// The JSON tree type of the outside parser; opaque here, read only
/// through the trusted accessors below.
#[verifier::external_type_specification]
#[verifier::external_body]
pub struct ExJsonValue(serde_json::Value);

/// Relies on serde_json::from_str: decodes JSON text into a tree, or fails
/// on text that is not valid JSON.
#[verifier::external_body]
fn parse_json(s: &str) -> Option<serde_json::Value> {
    serde_json::from_str(s).ok()
}

/// Relies on serde_json::Value::get: looks a key up in a JSON map, `None`
/// when the key is absent or the value is no map.
#[verifier::external_body]
fn json_get<'a>(v: &'a serde_json::Value, key: &str) -> Option<&'a serde_json::Value> {
    v.get(key)
}

/// Relies on serde_json::Value::as_array: the elements of a JSON array,
/// `None` for any other value.
#[verifier::external_body]
fn json_as_array(v: &serde_json::Value) -> Option<&Vec<serde_json::Value>> {
    v.as_array()
}

/// Relies on serde_json::Value::as_str: the text of a JSON string, `None`
/// for any other value.
#[verifier::external_body]
fn json_as_str<'a>(v: &'a serde_json::Value) -> Option<&'a str> {
    v.as_str()
}

/// Relies on serde_json::Value::as_u64: the value of a JSON number that
/// fits an unsigned 64-bit integer, `None` otherwise.
#[verifier::external_body]
fn json_as_u64(v: &serde_json::Value) -> Option<u64> {
    v.as_u64()
}

/// Relies on serde_json::Value::as_bool: the value of a JSON boolean,
/// `None` for any other value.
#[verifier::external_body]
fn json_as_bool(v: &serde_json::Value) -> Option<bool> {
    v.as_bool()
}

/// What one probed record classifies as: a typed stream, a record of a
/// kind this tool does not select (skipped), or a malformed record.
#[derive(Clone, Debug)]
pub enum ProbeOutcome {
    Parsed(Stream),
    Skipped,
    Invalid,
}

/// Mathematical image of `ProbeOutcome`.
#[verifier::ext_equal]
pub enum ProbeOutcomeV {
    Parsed(StreamV),
    Skipped,
    Invalid,
}

impl View for ProbeOutcome {
    type V = ProbeOutcomeV;

    open spec fn view(&self) -> ProbeOutcomeV {
        match self {
            ProbeOutcome::Parsed(s) => ProbeOutcomeV::Parsed(s@),
            ProbeOutcome::Skipped => ProbeOutcomeV::Skipped,
            ProbeOutcome::Invalid => ProbeOutcomeV::Invalid,
        }
    }
}

/// The classification rule for one probed record, over the plain values
/// read from it. A record of kind video needs a resolution, audio needs a
/// channel count, and every selectable kind needs a codec name; a record
/// of an unknown kind is skipped; anything else required but absent makes
/// the record malformed. The default flag defaults to false when absent.
pub open spec fn spec_classify(
    codec_type: Option<Seq<char>>,
    codec_name: Option<Seq<char>>,
    width: Option<u64>,
    height: Option<u64>,
    channels: Option<u64>,
    title: Option<Seq<char>>,
    language: Option<Seq<char>>,
    default_flag: Option<bool>,
) -> ProbeOutcomeV {
    match codec_type {
        None => ProbeOutcomeV::Invalid,
        Some(ct) => {
            if ct == "video"@ {
                match (codec_name, width, height) {
                    (Some(cn), Some(w), Some(h)) => ProbeOutcomeV::Parsed(
                        StreamV {
                            stream_type: StreamTypeV::Video(
                                crate::stream::VideoDataV { width: w, height: h },
                            ),
                            codec_name: cn,
                            default: default_flag == Some(true),
                        },
                    ),
                    _ => ProbeOutcomeV::Invalid,
                }
            } else if ct == "audio"@ {
                match (codec_name, channels) {
                    (Some(cn), Some(ch)) => ProbeOutcomeV::Parsed(
                        StreamV {
                            stream_type: StreamTypeV::Audio(
                                crate::stream::AudioDataV { title, channels: ch, language },
                            ),
                            codec_name: cn,
                            default: default_flag == Some(true),
                        },
                    ),
                    _ => ProbeOutcomeV::Invalid,
                }
            } else if ct == "subtitle"@ {
                match codec_name {
                    Some(cn) => ProbeOutcomeV::Parsed(
                        StreamV {
                            stream_type: StreamTypeV::Subtitle(
                                crate::stream::SubtitleDataV { title, language },
                            ),
                            codec_name: cn,
                            default: default_flag == Some(true),
                        },
                    ),
                    None => ProbeOutcomeV::Invalid,
                }
            } else if ct == "attachment"@ {
                match codec_name {
                    Some(cn) => ProbeOutcomeV::Parsed(
                        StreamV {
                            stream_type: StreamTypeV::Attachment,
                            codec_name: cn,
                            default: default_flag == Some(true),
                        },
                    ),
                    None => ProbeOutcomeV::Invalid,
                }
            } else {
                ProbeOutcomeV::Skipped
            }
        },
    }
}

/// Whether two string slices hold the same text.
fn str_eq(a: &str, b: &str) -> (r: bool)
    ensures
        r == (a@ == b@),
{
    let x = a.to_owned();
    let y = b.to_owned();
    x == y
}

/// Classifies one probed record from the plain values read out of it;
/// exactly the rule `spec_classify` states, for every combination of
/// present and absent fields.
pub fn classify_stream(
    codec_type: Option<String>,
    codec_name: Option<String>,
    width: Option<u64>,
    height: Option<u64>,
    channels: Option<u64>,
    title: Option<String>,
    language: Option<String>,
    default_flag: Option<bool>,
) -> (r: ProbeOutcome)
    ensures
        r@ == spec_classify(
            opt_view(codec_type),
            opt_view(codec_name),
            width,
            height,
            channels,
            opt_view(title),
            opt_view(language),
            default_flag,
        ),
{
    let ct = match codec_type {
        Some(ct) => ct,
        None => {
            return ProbeOutcome::Invalid;
        },
    };
    let default = match default_flag {
        Some(b) => b,
        None => false,
    };
    if str_eq(ct.as_str(), "video") {
        match (codec_name, width, height) {
            (Some(cn), Some(w), Some(h)) => ProbeOutcome::Parsed(
                Stream {
                    stream_type: StreamType::Video(VideoData { width: w, height: h }),
                    codec_name: cn,
                    default,
                },
            ),
            _ => ProbeOutcome::Invalid,
        }
    } else if str_eq(ct.as_str(), "audio") {
        match (codec_name, channels) {
            (Some(cn), Some(ch)) => ProbeOutcome::Parsed(
                Stream {
                    stream_type: StreamType::Audio(AudioData { title, channels: ch, language }),
                    codec_name: cn,
                    default,
                },
            ),
            _ => ProbeOutcome::Invalid,
        }
    } else if str_eq(ct.as_str(), "subtitle") {
        match codec_name {
            Some(cn) => ProbeOutcome::Parsed(
                Stream {
                    stream_type: StreamType::Subtitle(SubtitleData { title, language }),
                    codec_name: cn,
                    default,
                },
            ),
            None => ProbeOutcome::Invalid,
        }
    } else if str_eq(ct.as_str(), "attachment") {
        match codec_name {
            Some(cn) => ProbeOutcome::Parsed(
                Stream { stream_type: StreamType::Attachment, codec_name: cn, default },
            ),
            None => ProbeOutcome::Invalid,
        }
    } else {
        ProbeOutcome::Skipped
    }
}

/// The text under a key of a JSON map, as an owned value.
fn field_str(v: &serde_json::Value, key: &str) -> Option<String> {
    match json_get(v, key) {
        Some(w) => match json_as_str(w) {
            Some(s) => Some(s.to_owned()),
            None => None,
        },
        None => None,
    }
}

/// The unsigned number under a key of a JSON map.
fn field_u64(v: &serde_json::Value, key: &str) -> Option<u64> {
    match json_get(v, key) {
        Some(w) => json_as_u64(w),
        None => None,
    }
}

/// The text under a key of the record's `tags` map.
fn tag_str(v: &serde_json::Value, key: &str) -> Option<String> {
    match json_get(v, "tags") {
        Some(tags) => field_str(tags, key),
        None => None,
    }
}

/// Classifies one record of the probe's stream array by reading its fields
/// and applying the classification rule to whatever was present.
fn parse_stream(v: &serde_json::Value) -> (r: ProbeOutcome) {
    let codec_type = field_str(v, "codec_type");
    let codec_name = field_str(v, "codec_name");
    let width = field_u64(v, "width");
    let height = field_u64(v, "height");
    let channels = field_u64(v, "channels");
    let title = tag_str(v, "title");
    let language = tag_str(v, "language");
    let default_flag = match json_get(v, "disposition") {
        Some(d) => match json_get(d, "default") {
            Some(b) => json_as_bool(b),
            None => None,
        },
        None => None,
    };
    classify_stream(
        codec_type,
        codec_name,
        width,
        height,
        channels,
        title,
        language,
        default_flag,
    )
}

/// The streams of one probe report. Whatever the probe handed over —
/// invalid JSON, a missing or malformed stream array, a malformed record —
/// yields zero streams for the file rather than a failure; records of
/// unselectable kinds are skipped.
pub fn streams_from_probe_json(text: &str) -> (r: Vec<Stream>) {
    let root = match parse_json(text) {
        Some(root) => root,
        None => {
            return Vec::new();
        },
    };
    let streams = match json_get(&root, "streams") {
        Some(s) => s,
        None => {
            return Vec::new();
        },
    };
    let arr = match json_as_array(streams) {
        Some(a) => a,
        None => {
            return Vec::new();
        },
    };
    let n = arr.len();
    let mut result: Vec<Stream> = Vec::new();
    let mut i: usize = 0;
    while i < n
        invariant
            i <= n,
            n == arr.len(),
        decreases n - i,
    {
        match parse_stream(&arr[i]) {
            ProbeOutcome::Parsed(s) => {
                result.push(s);
            },
            ProbeOutcome::Skipped => {},
            ProbeOutcome::Invalid => {
                return Vec::new();
            },
        }
        i = i + 1;
    }
    result
}

} // verus!
