//! Stream consolidation: building the deduplicated cross-file stream catalog
//! from the current input files, tracking which files contain each entry,
//! and the per-entry enable/default toggles with the at-most-one-default-
//! per-type rule.

use vstd::prelude::*;

use crate::stream::{same_kind, spec_kind, stream_in_file, streams_view, InputFile, InputFileV, Stream, StreamV};

verus! {

/// Which of the current input files contain a catalog entry: either all of
/// them, or exactly the listed 1-based file indices, in input-file order.
#[derive(Clone, Debug)]
pub enum FileMembership {
    AllFiles,
    SubsetOf(Vec<usize>),
}

/// One catalog entry: a distinct stream, the files that contain it, and the
/// user-controlled enable/default flags.
#[derive(Clone, Debug)]
pub struct StreamSetting {
    pub stream: Stream,
    pub file_membership: FileMembership,
    pub enabled: bool,
    pub default: bool,
}

/// Mathematical image of `FileMembership`.
#[verifier::ext_equal]
pub enum FileMembershipV {
    AllFiles,
    SubsetOf(Seq<int>),
}

/// Mathematical image of `StreamSetting`.
#[verifier::ext_equal]
pub struct StreamSettingV {
    pub stream: StreamV,
    pub file_membership: FileMembershipV,
    pub enabled: bool,
    pub default: bool,
}

impl View for FileMembership {
    type V = FileMembershipV;

    open spec fn view(&self) -> FileMembershipV {
        match self {
            FileMembership::AllFiles => FileMembershipV::AllFiles,
            FileMembership::SubsetOf(v) => FileMembershipV::SubsetOf(indices_view(v@)),
        }
    }
}

/// The 1-based file indices as mathematical integers.
pub open spec fn indices_view(v: Seq<usize>) -> Seq<int> {
    Seq::new(v.len(), |i: int| v[i] as int)
}

impl View for StreamSetting {
    type V = StreamSettingV;

    open spec fn view(&self) -> StreamSettingV {
        StreamSettingV {
            stream: self.stream@,
            file_membership: self.file_membership@,
            enabled: self.enabled,
            default: self.default,
        }
    }
}

/// The views of a vector of input files.
pub open spec fn files_view(files: Seq<InputFile>) -> Seq<InputFileV> {
    Seq::new(files.len(), |i: int| files[i]@)
}

/// The views of a vector of catalog entries.
pub open spec fn catalog_view(c: Seq<StreamSetting>) -> Seq<StreamSettingV> {
    Seq::new(c.len(), |i: int| c[i]@)
}

/// Every stream of every file, walking the files in order and each file's
/// streams in probe order.
pub open spec fn all_streams(files: Seq<InputFileV>) -> Seq<StreamV>
    decreases files.len(),
{
    if files.len() == 0 {
        Seq::empty()
    } else {
        all_streams(files.drop_last()) + files.last().sources
    }
}

/// Deduplication keeping the first occurrence of each stream: the order of
/// the result is first-seen order.
pub open spec fn first_seen(s: Seq<StreamV>) -> Seq<StreamV>
    decreases s.len(),
{
    if s.len() == 0 {
        Seq::empty()
    } else {
        let p = first_seen(s.drop_last());
        if p.contains(s.last()) {
            p
        } else {
            p.push(s.last())
        }
    }
}

/// True when every current input file contains the stream.
pub open spec fn in_all_files(files: Seq<InputFileV>, s: StreamV) -> bool {
    forall|i: int| 0 <= i < files.len() ==> stream_in_file(files[i], s)
}

/// The 1-based indices of the files containing the stream, ascending.
pub open spec fn member_indices(files: Seq<InputFileV>, s: StreamV) -> Seq<int>
    decreases files.len(),
{
    if files.len() == 0 {
        Seq::empty()
    } else {
        member_indices(files.drop_last(), s) + if stream_in_file(files.last(), s) {
            seq![files.len() as int]
        } else {
            Seq::empty()
        }
    }
}

/// The membership record for a stream: `AllFiles` exactly when every current
/// file contains it, else the exact set of 1-based containing indices.
pub open spec fn spec_membership(files: Seq<InputFileV>, s: StreamV) -> FileMembershipV {
    if in_all_files(files, s) {
        FileMembershipV::AllFiles
    } else {
        FileMembershipV::SubsetOf(member_indices(files, s))
    }
}

/// The catalog entry a freshly consolidated stream gets: enabled, with the
/// default flag copied from the probe's own disposition flag.
pub open spec fn catalog_entry(files: Seq<InputFileV>, s: StreamV) -> StreamSettingV {
    StreamSettingV {
        stream: s,
        file_membership: spec_membership(files, s),
        enabled: true,
        default: s.default,
    }
}

/// The whole consolidation: the distinct streams across all files in
/// first-seen order, each with its membership record and fresh flags.
pub open spec fn spec_recompute(files: Seq<InputFileV>) -> Seq<StreamSettingV> {
    Seq::new(
        first_seen(all_streams(files)).len(),
        |i: int| catalog_entry(files, first_seen(all_streams(files))[i]),
    )
}

/// Whether an equal stream is already in the deduplicated list.
fn vec_contains_stream(v: &Vec<Stream>, s: &Stream) -> (r: bool)
    ensures
        r == streams_view(v@).contains(s@),
{
    let n = v.len();
    let mut i: usize = 0;
    while i < n
        invariant
            i <= n,
            n == v.len(),
            forall|j: int| 0 <= j < i ==> #[trigger] streams_view(v@)[j] != s@,
        decreases n - i,
    {
        if v[i].same_as(s) {
            proof {
                assert(streams_view(v@)[i as int] == s@);
            }
            return true;
        }
        i = i + 1;
    }
    false
}

/// Rebuilds the catalog from scratch from the current input files: walk the
/// files in order, append each stream not yet seen as a new enabled entry
/// whose default flag comes from the probe, then record for every entry
/// which files contain it.
pub fn recompute(files: &Vec<InputFile>) -> (r: Vec<StreamSetting>)
    ensures
        catalog_view(r@) == spec_recompute(files_view(files@)),
{
    let ghost fv = files_view(files@);
    let nfiles = files.len();

    let mut uniq: Vec<Stream> = Vec::new();
    let mut i: usize = 0;
    while i < nfiles
        invariant
            i <= nfiles,
            nfiles == files.len(),
            fv == files_view(files@),
            streams_view(uniq@) == first_seen(all_streams(fv.take(i as int))),
        decreases nfiles - i,
    {
        let f = &files[i];
        proof {
            assert(fv[i as int] == f@);
        }
        let nstreams = f.sources.len();
        let mut j: usize = 0;
        while j < nstreams
            invariant
                j <= nstreams,
                nstreams == f.sources.len(),
                i < nfiles,
                nfiles == files.len(),
                fv == files_view(files@),
                f == &files@[i as int],
                fv[i as int] == f@,
                streams_view(uniq@) == first_seen(
                    all_streams(fv.take(i as int)) + f@.sources.take(j as int),
                ),
            decreases nstreams - j,
        {
            let s = &f.sources[j];
            proof {
                assert(f@.sources[j as int] == s@);
            }
            let ghost before = all_streams(fv.take(i as int)) + f@.sources.take(j as int);
            let ghost after = all_streams(fv.take(i as int)) + f@.sources.take(j as int + 1);
            proof {
                assert(after =~= before.push(s@));
                assert(after.drop_last() =~= before);
                assert(after.last() == s@);
            }
            if !vec_contains_stream(&uniq, s) {
                uniq.push(s.duplicate());
                proof {
                    assert(streams_view(uniq@) =~= first_seen(after));
                }
            } else {
                proof {
                    assert(streams_view(uniq@) =~= first_seen(after));
                }
            }
            j = j + 1;
        }
        proof {
            assert(fv.take(i as int + 1).drop_last() =~= fv.take(i as int));
            assert(fv.take(i as int + 1).last() == fv[i as int]);
            assert(f@.sources.take(nstreams as int) =~= f@.sources);
            assert(all_streams(fv.take(i as int + 1)) =~= all_streams(fv.take(i as int))
                + f@.sources);
        }
        i = i + 1;
    }
    proof {
        assert(fv.take(nfiles as int) =~= fv);
    }

    let ghost base = first_seen(all_streams(fv));
    let nuniq = uniq.len();
    let mut result: Vec<StreamSetting> = Vec::new();
    let mut k: usize = 0;
    while k < nuniq
        invariant
            k <= nuniq,
            nuniq == uniq.len(),
            nfiles == files.len(),
            fv == files_view(files@),
            streams_view(uniq@) == base,
            base == first_seen(all_streams(fv)),
            result@.len() == k,
            catalog_view(result@) == spec_recompute(fv).take(k as int),
        decreases nuniq - k,
    {
        let s = &uniq[k];
        let ghost sv = s@;
        proof {
            assert(base[k as int] == sv);
        }
        let mut idxs: Vec<usize> = Vec::new();
        let mut all = true;
        let mut i2: usize = 0;
        while i2 < nfiles
            invariant
                i2 <= nfiles,
                nfiles == files.len(),
                fv == files_view(files@),
                sv == s@,
                s == &uniq@[k as int],
                indices_view(idxs@) == member_indices(fv.take(i2 as int), sv),
                all == in_all_files(fv.take(i2 as int), sv),
            decreases nfiles - i2,
        {
            proof {
                assert(fv[i2 as int] == files@[i2 as int]@);
                assert(fv.take(i2 as int + 1).drop_last() =~= fv.take(i2 as int));
                assert(fv.take(i2 as int + 1).last() == fv[i2 as int]);
            }
            if files[i2].contains_stream(s) {
                idxs.push(i2 + 1);
                proof {
                    assert(indices_view(idxs@) =~= member_indices(
                        fv.take(i2 as int + 1),
                        sv,
                    ));
                    assert(forall|l: int|
                        0 <= l < i2 as int + 1 ==> fv.take(i2 as int + 1)[l] == fv.take(
                            i2 as int,
                        ).push(fv[i2 as int])[l]);
                    assert(in_all_files(fv.take(i2 as int + 1), sv) == (in_all_files(
                        fv.take(i2 as int),
                        sv,
                    ) && stream_in_file(fv[i2 as int], sv)));
                }
            } else {
                all = false;
                proof {
                    assert(indices_view(idxs@) =~= member_indices(
                        fv.take(i2 as int + 1),
                        sv,
                    ));
                    assert(!in_all_files(fv.take(i2 as int + 1), sv));
                }
            }
            i2 = i2 + 1;
        }
        proof {
            assert(fv.take(nfiles as int) =~= fv);
        }
        let file_membership = if all {
            FileMembership::AllFiles
        } else {
            FileMembership::SubsetOf(idxs)
        };
        proof {
            assert(file_membership@ =~= spec_membership(fv, sv));
        }
        let entry = StreamSetting {
            stream: s.duplicate(),
            file_membership,
            enabled: true,
            default: s.default,
        };
        proof {
            assert(entry@ =~= catalog_entry(fv, sv));
            assert(spec_recompute(fv)[k as int] == catalog_entry(fv, sv));
        }
        result.push(entry);
        proof {
            assert(catalog_view(result@) =~= spec_recompute(fv).take(k as int + 1));
        }
        k = k + 1;
    }
    proof {
        assert(spec_recompute(fv).take(nuniq as int) =~= spec_recompute(fv));
    }
    result
}


/// The catalog after `toggle_default(index)`: the indexed entry's default
/// flag is flipped, and every other entry of the same stream type has its
/// default cleared first.
pub open spec fn spec_toggle_default(c: Seq<StreamSettingV>, index: int) -> Seq<StreamSettingV> {
    Seq::new(
        c.len(),
        |j: int|
            if j == index {
                StreamSettingV { default: !c[index].default, ..c[index] }
            } else if same_kind(c[j].stream.stream_type, c[index].stream.stream_type) {
                StreamSettingV { default: false, ..c[j] }
            } else {
                c[j]
            },
    )
}

/// The catalog after `toggle_enabled(index)`: only the indexed entry's
/// enabled flag is flipped.
pub open spec fn spec_toggle_enabled(c: Seq<StreamSettingV>, index: int) -> Seq<StreamSettingV> {
    c.update(index, StreamSettingV { enabled: !c[index].enabled, ..c[index] })
}

/// Flips the default flag of the entry at `index`, clearing the default on
/// every other entry of the same stream type first, so that at most one
/// entry per type is default afterwards.
pub fn toggle_default(catalog: &mut Vec<StreamSetting>, index: usize)
    requires
        index < old(catalog).len(),
    ensures
        catalog_view(final(catalog)@) == spec_toggle_default(
            catalog_view(old(catalog)@),
            index as int,
        ),
{
    let ghost c0 = catalog_view(old(catalog)@);
    let n = catalog.len();
    let kind0 = catalog[index].stream.stream_type.kind();
    let mut j: usize = 0;
    while j < n
        invariant
            j <= n,
            n == catalog@.len(),
            index < n,
            c0 == catalog_view(old(catalog)@),
            c0.len() == n,
            old(catalog)@.len() == n,
            kind0 == spec_kind(c0[index as int].stream.stream_type),
            catalog@[index as int] == old(catalog)@[index as int],
            forall|l: int| j <= l < n ==> catalog@[l] == old(catalog)@[l],
            forall|l: int|
                0 <= l < j ==> #[trigger] catalog_view(catalog@)[l] == (if l != index as int
                    && same_kind(c0[l].stream.stream_type, c0[index as int].stream.stream_type) {
                    StreamSettingV { default: false, ..c0[l] }
                } else {
                    c0[l]
                }),
        decreases n - j,
    {
        if j != index {
            let same = catalog[j].stream.stream_type.kind() == kind0;
            if same {
                let ghost cpre = catalog@;
                catalog[j].default = false;
                proof {
                    assert(catalog@ =~= cpre.update(j as int, catalog@[j as int]));
                    assert(catalog@[j as int]@ =~= StreamSettingV {
                        default: false,
                        ..c0[j as int]
                    });
                    assert(forall|l: int| 0 <= l < n && l != j ==> catalog@[l] == cpre[l]);
                    assert(forall|l: int|
                        0 <= l < j ==> #[trigger] catalog_view(catalog@)[l] == catalog_view(
                            cpre,
                        )[l]);
                }
            }
        }
        proof {
            assert(catalog_view(catalog@)[j as int] == catalog@[j as int]@);
        }
        j = j + 1;
    }
    let ghost cfin = catalog@;
    let flipped = !catalog[index].default;
    catalog[index].default = flipped;
    proof {
        assert(catalog@ =~= cfin.update(index as int, catalog@[index as int]));
        assert(catalog@[index as int]@ =~= StreamSettingV {
            default: !c0[index as int].default,
            ..c0[index as int]
        });
        assert(forall|l: int| 0 <= l < n && l != index as int ==> catalog@[l] == cfin[l]);
        assert(forall|l: int|
            0 <= l < n && l != index as int ==> #[trigger] catalog_view(catalog@)[l]
                == catalog_view(cfin)[l]);
        assert(forall|l: int|
            0 <= l < n ==> #[trigger] catalog_view(catalog@)[l] == spec_toggle_default(
                c0,
                index as int,
            )[l]);
        assert(catalog_view(catalog@) =~= spec_toggle_default(c0, index as int));
    }
}

/// Flips the enabled flag of the entry at `index`, with no effect on any
/// other entry.
pub fn toggle_enabled(catalog: &mut Vec<StreamSetting>, index: usize)
    requires
        index < old(catalog).len(),
    ensures
        catalog_view(final(catalog)@) == spec_toggle_enabled(
            catalog_view(old(catalog)@),
            index as int,
        ),
{
    let flipped = !catalog[index].enabled;
    catalog[index].enabled = flipped;
    proof {
        assert(catalog_view(catalog@) =~= spec_toggle_enabled(
            catalog_view(old(catalog)@),
            index as int,
        ));
    }
}


/// No two catalog entries hold the same stream.
pub open spec fn distinct_streams(c: Seq<StreamSettingV>) -> bool {
    forall|i: int, j: int| 0 <= i < j < c.len() ==> c[i].stream != c[j].stream
}

proof fn lemma_first_seen_distinct(s: Seq<StreamV>)
    ensures
        forall|i: int, j: int|
            0 <= i < j < first_seen(s).len() ==> first_seen(s)[i] != first_seen(s)[j],
    decreases s.len(),
{
    if s.len() > 0 {
        lemma_first_seen_distinct(s.drop_last());
        let p = first_seen(s.drop_last());
        if !p.contains(s.last()) {
            assert(forall|i: int| 0 <= i < p.len() ==> p[i] != s.last());
            assert(forall|i: int| 0 <= i < p.len() ==> first_seen(s)[i] == p[i]);
        }
    }
}

/// Law: the catalog never lists the same stream twice — consolidation
/// deduplicates by stream equality.
pub proof fn lemma_recompute_distinct(files: Seq<InputFileV>)
    ensures
        distinct_streams(spec_recompute(files)),
{
    lemma_first_seen_distinct(all_streams(files));
    assert(forall|i: int|
        0 <= i < spec_recompute(files).len() ==> #[trigger] spec_recompute(files)[i].stream
            == first_seen(all_streams(files))[i]);
}

/// Law: recomputing the catalog twice in a row from the same input files
/// yields an identical catalog — same entries, same order, same membership.
pub proof fn lemma_recompute_repeatable(
    files: Seq<InputFileV>,
    c1: Seq<StreamSettingV>,
    c2: Seq<StreamSettingV>,
)
    requires
        c1 == spec_recompute(files),
        c2 == spec_recompute(files),
    ensures
        c1 == c2,
{
}

/// At most one entry of each stream type carries the default flag.
pub open spec fn default_exclusive(c: Seq<StreamSettingV>) -> bool {
    forall|i: int, j: int|
        0 <= i < c.len() && 0 <= j < c.len() && i != j && same_kind(
            c[i].stream.stream_type,
            c[j].stream.stream_type,
        ) ==> !(c[i].default && c[j].default)
}

/// Law: one `toggle_default` keeps the per-type default exclusive — it
/// clears every other entry of the toggled type before flipping.
pub proof fn lemma_toggle_default_exclusive(c: Seq<StreamSettingV>, index: int)
    requires
        0 <= index < c.len(),
        default_exclusive(c),
    ensures
        default_exclusive(spec_toggle_default(c, index)),
{
    let c2 = spec_toggle_default(c, index);
    assert forall|i: int, j: int|
        0 <= i < c2.len() && 0 <= j < c2.len() && i != j && same_kind(
            c2[i].stream.stream_type,
            c2[j].stream.stream_type,
        ) implies !(c2[i].default && c2[j].default) by {
        assert(c2[i].stream == c[i].stream);
        assert(c2[j].stream == c[j].stream);
    }
}


/// Law: one `toggle_default` establishes exclusivity for the toggled
/// entry's stream type outright, whatever the flags were before: afterwards
/// only the toggled entry can be the default of that type.
pub proof fn lemma_toggle_default_establishes_kind(c: Seq<StreamSettingV>, index: int)
    requires
        0 <= index < c.len(),
    ensures
        forall|a: int|
            0 <= a < c.len() && a != index && same_kind(
                #[trigger] spec_toggle_default(c, index)[a].stream.stream_type,
                c[index].stream.stream_type,
            ) ==> !spec_toggle_default(c, index)[a].default,
{
    assert forall|a: int|
        0 <= a < c.len() && a != index && same_kind(
            #[trigger] spec_toggle_default(c, index)[a].stream.stream_type,
            c[index].stream.stream_type,
        ) implies !spec_toggle_default(c, index)[a].default by {
        assert(spec_toggle_default(c, index)[a].stream == c[a].stream);
    }
}

/// The catalog after a whole sequence of `toggle_default` calls, applied
/// left to right.
pub open spec fn apply_toggles(c: Seq<StreamSettingV>, ops: Seq<int>) -> Seq<StreamSettingV>
    decreases ops.len(),
{
    if ops.len() == 0 {
        c
    } else {
        spec_toggle_default(apply_toggles(c, ops.drop_last()), ops.last())
    }
}

proof fn lemma_apply_toggles_len(c: Seq<StreamSettingV>, ops: Seq<int>)
    ensures
        apply_toggles(c, ops).len() == c.len(),
    decreases ops.len(),
{
    if ops.len() > 0 {
        lemma_apply_toggles_len(c, ops.drop_last());
    }
}

/// Law: after any sequence of in-range `toggle_default` calls on a catalog
/// whose defaults were exclusive per type, at most one entry per stream
/// type has `default == true`.
pub proof fn lemma_toggle_sequence_exclusive(c: Seq<StreamSettingV>, ops: Seq<int>)
    requires
        default_exclusive(c),
        forall|t: int| 0 <= t < ops.len() ==> 0 <= #[trigger] ops[t] < c.len(),
    ensures
        default_exclusive(apply_toggles(c, ops)),
    decreases ops.len(),
{
    if ops.len() > 0 {
        lemma_toggle_sequence_exclusive(c, ops.drop_last());
        lemma_apply_toggles_len(c, ops.drop_last());
        lemma_toggle_default_exclusive(apply_toggles(c, ops.drop_last()), ops.last());
    }
}

proof fn lemma_member_indices_bounds(files: Seq<InputFileV>, s: StreamV)
    ensures
        forall|t: int|
            0 <= t < member_indices(files, s).len() ==> 1 <= #[trigger] member_indices(files, s)[t]
                <= files.len(),
    decreases files.len(),
{
    if files.len() > 0 {
        lemma_member_indices_bounds(files.drop_last(), s);
        assert(forall|t: int|
            0 <= t < member_indices(files.drop_last(), s).len() ==> member_indices(files, s)[t]
                == #[trigger] member_indices(files.drop_last(), s)[t]);
    }
}

/// Law (membership correctness): the membership record is `AllFiles`
/// exactly when every current input file contains the entry's stream by
/// equality; otherwise it lists exactly the 1-based indices of the
/// containing files, in strictly ascending order.
pub proof fn lemma_member_indices_exact(files: Seq<InputFileV>, s: StreamV)
    ensures
        forall|k: int|
            #[trigger] member_indices(files, s).contains(k) <==> (1 <= k <= files.len()
                && stream_in_file(files[k - 1], s)),
        forall|a: int, b: int|
            0 <= a < b < member_indices(files, s).len() ==> member_indices(files, s)[a]
                < member_indices(files, s)[b],
    decreases files.len(),
{
    let mi = member_indices(files, s);
    if files.len() == 0 {
        assert(forall|k: int| !mi.contains(k));
    } else {
        let dl = files.drop_last();
        let mp = member_indices(dl, s);
        lemma_member_indices_exact(dl, s);
        lemma_member_indices_bounds(dl, s);
        assert(forall|t: int| 0 <= t < mp.len() ==> mi[t] == #[trigger] mp[t]);
        assert(forall|l: int| 0 <= l < dl.len() ==> #[trigger] dl[l] == files[l]);
        assert forall|k: int| #[trigger] mi.contains(k) implies (1 <= k <= files.len()
            && stream_in_file(files[k - 1], s)) by {
            let t = choose|t: int| 0 <= t < mi.len() && mi[t] == k;
            if t < mp.len() {
                assert(mp.contains(k));
            } else {
                assert(stream_in_file(files.last(), s));
                assert(k == files.len() as int);
            }
        }
        assert forall|k: int| (1 <= k <= files.len() && stream_in_file(files[k - 1], s)) implies
            #[trigger] mi.contains(k) by {
            if k <= dl.len() {
                assert(stream_in_file(dl[k - 1], s));
                assert(mp.contains(k));
                let t = choose|t: int| 0 <= t < mp.len() && mp[t] == k;
                assert(mi[t] == k);
            } else {
                assert(k == files.len() as int);
                assert(stream_in_file(files.last(), s));
                assert(mi[mi.len() - 1] == k);
            }
        }
    }
}

/// Law: the number of containing files equals the file count exactly when
/// every file contains the stream, so `AllFiles` and the full index list
/// describe the same situation.
pub proof fn lemma_member_indices_all(files: Seq<InputFileV>, s: StreamV)
    ensures
        member_indices(files, s).len() == files.len() <==> in_all_files(files, s),
        member_indices(files, s).len() <= files.len(),
    decreases files.len(),
{
    if files.len() > 0 {
        let dl = files.drop_last();
        lemma_member_indices_all(dl, s);
        assert(forall|l: int| 0 <= l < dl.len() ==> #[trigger] dl[l] == files[l]);
        if member_indices(files, s).len() == files.len() {
            assert(stream_in_file(files.last(), s));
            assert(in_all_files(dl, s));
            assert forall|l: int| 0 <= l < files.len() implies stream_in_file(
                #[trigger] files[l],
                s,
            ) by {
                if l < dl.len() {
                    assert(stream_in_file(dl[l], s));
                    assert(dl[l] == files[l]);
                } else {
                    assert(files[l] == files.last());
                }
            }
        }
        if in_all_files(files, s) {
            assert(in_all_files(dl, s));
        }
    }
}


/// Deduplication keeps exactly the streams that were there: the first-seen
/// list contains a stream exactly when the flattened input did.
pub proof fn lemma_first_seen_contains(s: Seq<StreamV>, x: StreamV)
    ensures
        first_seen(s).contains(x) <==> s.contains(x),
    decreases s.len(),
{
    if s.len() > 0 {
        lemma_first_seen_contains(s.drop_last(), x);
        let dl = s.drop_last();
        let p = first_seen(dl);
        let fs = first_seen(s);
        assert(forall|i: int| 0 <= i < dl.len() ==> #[trigger] dl[i] == s[i]);
        if s.contains(x) {
            let i = choose|i: int| 0 <= i < s.len() && s[i] == x;
            if i < s.len() - 1 {
                assert(dl[i] == x);
                assert(dl.contains(x));
                let t = choose|t: int| 0 <= t < p.len() && p[t] == x;
                assert(fs[t] == x);
            } else {
                assert(s.last() == x);
                if p.contains(x) {
                    let t = choose|t: int| 0 <= t < p.len() && p[t] == x;
                    assert(fs[t] == x);
                } else {
                    assert(fs[p.len() as int] == x);
                }
            }
            assert(fs.contains(x));
        }
        if fs.contains(x) {
            let t = choose|t: int| 0 <= t < fs.len() && fs[t] == x;
            if t < p.len() {
                assert(p[t] == x);
                assert(p.contains(x));
                let i = choose|i: int| 0 <= i < dl.len() && dl[i] == x;
                assert(s[i] == x);
            } else {
                assert(s[s.len() - 1] == x);
            }
            assert(s.contains(x));
        }
    }
}

/// Every stream of every file occurs in the flattened stream list.
pub proof fn lemma_all_streams_elem(files: Seq<InputFileV>, i: int, j: int)
    requires
        0 <= i < files.len(),
        0 <= j < files[i].sources.len(),
    ensures
        all_streams(files).contains(files[i].sources[j]),
    decreases files.len(),
{
    let x = files[i].sources[j];
    if i == files.len() - 1 {
        assert(all_streams(files)[all_streams(files.drop_last()).len() + j] == x);
    } else {
        assert(files.drop_last()[i] == files[i]);
        lemma_all_streams_elem(files.drop_last(), i, j);
        let t = choose|t: int|
            0 <= t < all_streams(files.drop_last()).len() && all_streams(files.drop_last())[t]
                == x;
        assert(all_streams(files)[t] == x);
    }
    assert(all_streams(files).contains(x));
}

} // verus!
