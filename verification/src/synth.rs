//! Command synthesis: the ordered encoder argument vector for one input
//! file, combining the global settings with the file's own streams and
//! their catalog entries, keeping the encoder's per-type relative stream
//! indices correct.

use vstd::prelude::*;

use crate::catalog::{catalog_view, distinct_streams, StreamSetting, StreamSettingV};
use crate::settings::{args_view, spec_compress_arguments, spec_init_arguments, CompressSettings, CompressSettingsV};
use crate::stream::{spec_kind, InputFile, InputFileV, Stream, StreamKind, StreamV};
use crate::text::{dec_str, push_dec};

verus! {

/// The encoder's one-letter code for a stream kind, used in stream
/// selectors and disposition flags.
pub open spec fn kind_code(k: StreamKind) -> Seq<char> {
    match k {
        StreamKind::Video => "v"@,
        StreamKind::Audio => "a"@,
        StreamKind::Subtitle => "s"@,
        StreamKind::Attachment => "t"@,
    }
}

/// How many streams of the given kind the sequence holds.
pub open spec fn count_kind(streams: Seq<StreamV>, k: StreamKind) -> nat
    decreases streams.len(),
{
    if streams.len() == 0 {
        0
    } else {
        count_kind(streams.drop_last(), k) + if spec_kind(streams.last().stream_type) == k {
            1nat
        } else {
            0nat
        }
    }
}

/// Whether the catalog has an entry for the stream, located by equality.
pub open spec fn has_entry(c: Seq<StreamSettingV>, s: StreamV) -> bool {
    exists|i: int| 0 <= i < c.len() && c[i].stream == s
}

/// The catalog entry for the stream. With distinct catalog streams there is
/// exactly one.
pub open spec fn entry_for(c: Seq<StreamSettingV>, s: StreamV) -> StreamSettingV {
    c[choose|i: int| 0 <= i < c.len() && c[i].stream == s]
}

/// The arguments one stream contributes: a `-map` selector when its entry
/// is enabled, and a disposition-default flag (1-based) when its entry is
/// default; `idx` is how many streams of the same kind this file has
/// already produced.
pub open spec fn stream_args_one(s: StreamV, c: Seq<StreamSettingV>, idx: nat) -> Seq<Seq<char>> {
    let e = entry_for(c, s);
    let code = kind_code(spec_kind(s.stream_type));
    (if e.enabled {
        seq!["-map"@, "0:"@ + code + ":"@ + dec_str(idx)]
    } else {
        Seq::<Seq<char>>::empty()
    }) + (if e.default {
        seq!["-disposition:"@ + code + ":"@ + dec_str((idx + 1) as nat), "default"@]
    } else {
        Seq::<Seq<char>>::empty()
    })
}

/// The arguments of all the file's streams, in the file's own order, with
/// the per-type counters advancing over every stream whether or not it is
/// selected.
pub open spec fn stream_args(streams: Seq<StreamV>, c: Seq<StreamSettingV>) -> Seq<Seq<char>>
    decreases streams.len(),
{
    if streams.len() == 0 {
        Seq::<Seq<char>>::empty()
    } else {
        stream_args(streams.drop_last(), c) + stream_args_one(
            streams.last(),
            c,
            count_kind(streams.drop_last(), spec_kind(streams.last().stream_type)),
        )
    }
}

/// The file name part of a path: everything after the last separator.
pub open spec fn spec_file_name(p: Seq<char>) -> Seq<char>
    decreases p.len(),
{
    if p.len() == 0 {
        Seq::<char>::empty()
    } else if p.last() == '/' {
        Seq::<char>::empty()
    } else {
        spec_file_name(p.drop_last()).push(p.last())
    }
}

/// The whole argument vector for one file: device init, the input, the
/// per-stream selections and dispositions, the global compress arguments,
/// and the output path inside the output directory.
pub open spec fn spec_build_args(
    settings: CompressSettingsV,
    file: InputFileV,
    c: Seq<StreamSettingV>,
    out_dir: Seq<char>,
) -> Seq<Seq<char>> {
    spec_init_arguments(settings) + seq!["-i"@, file.path] + stream_args(file.sources, c)
        + spec_compress_arguments(settings) + seq![out_dir + "/"@ + spec_file_name(file.path)]
}

/// The one-letter code of a stream kind.
fn kind_code_str(k: StreamKind) -> (r: &'static str)
    ensures
        r@ == kind_code(k),
{
    match k {
        StreamKind::Video => "v",
        StreamKind::Audio => "a",
        StreamKind::Subtitle => "s",
        StreamKind::Attachment => "t",
    }
}

/// The index of the catalog entry equal to the stream, scanning forward.
fn find_entry(catalog: &Vec<StreamSetting>, s: &Stream) -> (r: Option<usize>)
    ensures
        match r {
            Some(i) => i < catalog@.len() && catalog_view(catalog@)[i as int].stream == s@,
            None => !has_entry(catalog_view(catalog@), s@),
        },
{
    let n = catalog.len();
    let mut i: usize = 0;
    while i < n
        invariant
            i <= n,
            n == catalog@.len(),
            forall|j: int| 0 <= j < i ==> #[trigger] catalog_view(catalog@)[j].stream != s@,
        decreases n - i,
    {
        if catalog[i].stream.same_as(s) {
            proof {
                assert(catalog_view(catalog@)[i as int].stream == s@);
            }
            return Some(i);
        }
        i = i + 1;
    }
    None
}

/// The file name part of a path.
pub fn file_name_of(path: &str) -> (r: String)
    ensures
        r@ == spec_file_name(path@),
{
    let n = path.unicode_len();
    let mut start: usize = 0;
    let mut i: usize = 0;
    while i < n
        invariant
            start <= i <= n,
            n == path@.len(),
            spec_file_name(path@.take(i as int)) == path@.subrange(start as int, i as int),
        decreases n - i,
    {
        proof {
            assert(path@.take(i as int + 1).drop_last() =~= path@.take(i as int));
            assert(path@.take(i as int + 1).last() == path@[i as int]);
        }
        if path.get_char(i) == '/' {
            start = i + 1;
            proof {
                assert(spec_file_name(path@.take(i as int + 1)) =~= path@.subrange(
                    i as int + 1,
                    i as int + 1,
                ));
            }
        } else {
            proof {
                assert(spec_file_name(path@.take(i as int + 1)) =~= path@.subrange(
                    start as int,
                    i as int + 1,
                ));
            }
        }
        i = i + 1;
    }
    proof {
        assert(path@.take(n as int) =~= path@);
    }
    let tail = path.substring_char(start, n);
    String::from_str(tail)
}

/// Builds the encoder invocation for one input file. Synthesis is a pure
/// function of the settings, the file, the catalog and the output
/// directory; every stream of the file must have its catalog entry — a
/// missing entry is a programming-invariant violation, not an input.
pub fn build_args(
    settings: &CompressSettings,
    file: &InputFile,
    catalog: &Vec<StreamSetting>,
    out_dir: &str,
) -> (r: Vec<String>)
    requires
        distinct_streams(catalog_view(catalog@)),
        forall|j: int|
            0 <= j < file@.sources.len() ==> has_entry(
                catalog_view(catalog@),
                #[trigger] file@.sources[j],
            ),
    ensures
        args_view(r@) == spec_build_args(settings@, file@, catalog_view(catalog@), out_dir@),
{
    let ghost cv = catalog_view(catalog@);
    let mut r = settings.init_arguments();
    r.push(String::from_str("-i"));
    r.push(file.path.clone());
    proof {
        assert(args_view(r@) =~= spec_init_arguments(settings@) + seq!["-i"@, file@.path]);
    }
    let ghost head = spec_init_arguments(settings@) + seq!["-i"@, file@.path];

    let mut nv: u64 = 0;
    let mut na: u64 = 0;
    let mut ns: u64 = 0;
    let mut nt: u64 = 0;
    let nstreams = file.sources.len();
    let mut j: usize = 0;
    while j < nstreams
        invariant
            j <= nstreams,
            nstreams == file.sources.len(),
            cv == catalog_view(catalog@),
            distinct_streams(cv),
            forall|l: int|
                0 <= l < file@.sources.len() ==> has_entry(cv, #[trigger] file@.sources[l]),
            nv == count_kind(file@.sources.take(j as int), StreamKind::Video),
            na == count_kind(file@.sources.take(j as int), StreamKind::Audio),
            ns == count_kind(file@.sources.take(j as int), StreamKind::Subtitle),
            nt == count_kind(file@.sources.take(j as int), StreamKind::Attachment),
            nv + na + ns + nt == j,
            args_view(r@) == head + stream_args(file@.sources.take(j as int), cv),
        decreases nstreams - j,
    {
        let s = &file.sources[j];
        proof {
            assert(file@.sources[j as int] == s@);
            assert(file@.sources.take(j as int + 1).drop_last() =~= file@.sources.take(j as int));
            assert(file@.sources.take(j as int + 1).last() == s@);
        }
        let ei = match find_entry(catalog, s) {
            Some(i) => i,
            None => {
                proof {
                    assert(has_entry(cv, s@));
                }
                proof {
                    assert(false);
                }
                0
            },
        };
        proof {
            let i0 = choose|i: int| 0 <= i < cv.len() && cv[i].stream == s@;
            assert(has_entry(cv, s@));
            assert(cv[i0].stream == s@);
            assert(cv[ei as int].stream == s@);
            if ei as int != i0 {
                assert(false);
            }
            assert(cv[ei as int] == entry_for(cv, s@));
        }
        let k = s.stream_type.kind();
        let idx: u64 = match k {
            StreamKind::Video => nv,
            StreamKind::Audio => na,
            StreamKind::Subtitle => ns,
            StreamKind::Attachment => nt,
        };
        proof {
            assert(idx == count_kind(file@.sources.take(j as int), spec_kind(s@.stream_type)));
        }
        let enabled = catalog[ei].enabled;
        let is_default = catalog[ei].default;
        if enabled {
            r.push(String::from_str("-map"));
            let mut t = String::from_str("0:");
            t.append(kind_code_str(k));
            t.append(":");
            push_dec(idx, &mut t);
            proof {
                assert(t@ =~= "0:"@ + kind_code(spec_kind(s@.stream_type)) + ":"@ + dec_str(
                    idx as nat,
                ));
            }
            r.push(t);
        }
        if is_default {
            let mut t = String::from_str("-disposition:");
            t.append(kind_code_str(k));
            t.append(":");
            push_dec(idx + 1, &mut t);
            proof {
                assert(t@ =~= "-disposition:"@ + kind_code(spec_kind(s@.stream_type)) + ":"@
                    + dec_str((idx + 1) as nat));
            }
            r.push(t);
            r.push(String::from_str("default"));
        }
        match k {
            StreamKind::Video => {
                nv = nv + 1;
            },
            StreamKind::Audio => {
                na = na + 1;
            },
            StreamKind::Subtitle => {
                ns = ns + 1;
            },
            StreamKind::Attachment => {
                nt = nt + 1;
            },
        }
        proof {
            assert(args_view(r@) =~= head + stream_args(file@.sources.take(j as int), cv)
                + stream_args_one(
                s@,
                cv,
                count_kind(file@.sources.take(j as int), spec_kind(s@.stream_type)),
            ));
            assert(args_view(r@) =~= head + stream_args(file@.sources.take(j as int + 1), cv));
        }
        j = j + 1;
    }
    proof {
        assert(file@.sources.take(nstreams as int) =~= file@.sources);
    }
    let ghost head2 = head + stream_args(file@.sources, cv);

    let mut ca = settings.compress_arguments();
    r.append(&mut ca);
    proof {
        assert(args_view(r@) =~= head2 + spec_compress_arguments(settings@));
    }

    let mut out = String::from_str(out_dir);
    out.append("/");
    let fname = file_name_of(file.path.as_str());
    out.append(fname.as_str());
    proof {
        assert(out@ =~= out_dir@ + "/"@ + spec_file_name(file@.path));
    }
    r.push(out);
    proof {
        assert(args_view(r@) =~= spec_build_args(settings@, file@, cv, out_dir@));
    }
    r
}

/// Law (synthesis determinism): the argument vector is a pure function of
/// the settings, the file, the catalog and the output directory — the same
/// inputs always give the identical vector.
pub proof fn lemma_build_args_deterministic(
    settings: CompressSettingsV,
    file: InputFileV,
    c: Seq<StreamSettingV>,
    out_dir: Seq<char>,
    r1: Seq<Seq<char>>,
    r2: Seq<Seq<char>>,
)
    requires
        r1 == spec_build_args(settings, file, c, out_dir),
        r2 == spec_build_args(settings, file, c, out_dir),
    ensures
        r1 == r2,
{
}

} // verus!
