//! Index naming: the deterministic mapping from a requested place type,
//! dataset and all-data flag to the list of physical index names to search.
//!
//! The assembled candidates are then filtered through an existence
//! predicate supplied by the caller (in production, a probe against the
//! backend), except for the all-data alias which is returned unchecked.

use vstd::prelude::*;
use vstd::string::StringExecFns;

use crate::strutil::str_eq;

verus! {

/// The type token that selects dataset-scoped stop indices.
pub open spec fn stop_token() -> Seq<char> {
    "public_transport:stop_area"@
}

/// The document kind that one requested type token selects. Unknown
/// tokens pass through unchanged.
pub open spec fn spec_kind_for(t: Seq<char>) -> Seq<char> {
    if t == stop_token() {
        "stop"@
    } else if t == "city"@ {
        "admin"@
    } else if t == "house"@ {
        "addr"@
    } else {
        t
    }
}

/// The physical index name for one requested type token.
pub open spec fn spec_index_for(t: Seq<char>) -> Seq<char> {
    "munin_"@ + spec_kind_for(t)
}

/// The index names that a list of type tokens contributes: every token
/// other than the stop-area token is mapped to its physical index, in
/// order.
pub open spec fn mapped_types(ts: Seq<Seq<char>>) -> Seq<Seq<char>>
    decreases ts.len(),
{
    if ts.len() == 0 {
        Seq::empty()
    } else {
        let rest = mapped_types(ts.drop_last());
        if ts.last() == stop_token() {
            rest
        } else {
            rest.push(spec_index_for(ts.last()))
        }
    }
}

/// The full ordered candidate list, before the existence filter.
pub open spec fn spec_candidates(
    all_data: bool,
    pt_dataset_index: Option<Seq<char>>,
    types: Option<Seq<Seq<char>>>,
) -> Seq<Seq<char>> {
    if all_data {
        seq!["munin"@]
    } else {
        match types {
            Some(ts) => {
                let mapped = mapped_types(ts);
                if pt_dataset_index is Some && ts.contains(stop_token()) {
                    mapped.push(pt_dataset_index->0)
                } else {
                    mapped
                }
            },
            None => {
                if pt_dataset_index is Some {
                    seq!["munin_geo_data"@, pt_dataset_index->0]
                } else {
                    seq!["munin_geo_data"@]
                }
            },
        }
    }
}

/// Maps one requested type token to the physical index that holds it.
pub fn get_indexes_by_type(a_type: &str) -> (r: String)
    ensures
        r@ == spec_index_for(a_type@),
{
    let doc_type: &str = if str_eq(a_type, "public_transport:stop_area") {
        "stop"
    } else if str_eq(a_type, "city") {
        "admin"
    } else if str_eq(a_type, "house") {
        "addr"
    } else {
        a_type
    };

    String::from_str("munin_").concat(doc_type)
}

/// Whether the stop-area token occurs in the requested types.
fn contains_stop_token(types: &Vec<&str>) -> (r: bool)
    ensures
        r == types.deep_view().contains(stop_token()),
{
    let mut i: usize = 0;
    while i < types.len()
        invariant
            i <= types.len(),
            forall|j: int| 0 <= j < i ==> types.deep_view()[j] != stop_token(),
        decreases types.len() - i,
    {
        if str_eq(types[i], "public_transport:stop_area") {
            assert(types.deep_view()[i as int] == stop_token());
            return true;
        }
        i += 1;
    }
    assert forall|j: int| 0 <= j < types.deep_view().len() implies types.deep_view()[j]
        != stop_token() by {}
    false
}

/// Assembles the ordered candidate index list for a request, before the
/// existence filter is applied.
pub fn candidate_indexes(
    all_data: bool,
    pt_dataset_index: &Option<String>,
    types: &Option<Vec<&str>>,
) -> (r: Vec<String>)
    ensures
        r.deep_view() =~= spec_candidates(all_data, pt_dataset_index.deep_view(), types.deep_view()),
{
    if all_data {
        let mut r: Vec<String> = Vec::new();
        r.push(String::from_str("munin"));
        return r;
    }

    let mut r: Vec<String> = Vec::new();
    match types {
        Some(ts) => {
            let ghost tsv = ts.deep_view();
            let mut i: usize = 0;
            while i < ts.len()
                invariant
                    i <= ts.len(),
                    tsv == ts.deep_view(),
                    tsv.len() == ts.len(),
                    r.deep_view() =~= mapped_types(tsv.subrange(0, i as int)),
                decreases ts.len() - i,
            {
                let ghost prev = tsv.subrange(0, i as int);
                if !str_eq(ts[i], "public_transport:stop_area") {
                    r.push(get_indexes_by_type(ts[i]));
                }
                proof {
                    let cur = tsv.subrange(0, i + 1 as int);
                    assert(cur.drop_last() =~= prev);
                    assert(cur.last() == tsv[i as int]);
                }
                i += 1;
            }
            proof {
                assert(tsv.subrange(0, tsv.len() as int) =~= tsv);
            }
            if contains_stop_token(ts) {
                match pt_dataset_index {
                    Some(index) => {
                        r.push(index.clone());
                    },
                    None => {},
                }
            }
        },
        None => {
            r.push(String::from_str("munin_geo_data"));
            match pt_dataset_index {
                Some(dataset) => {
                    r.push(dataset.clone());
                },
                None => {},
            }
        },
    }
    r
}

/// The subsequence of `s` whose positions are marked in `keep`.
pub open spec fn mask_filter(s: Seq<Seq<char>>, keep: Seq<bool>) -> Seq<Seq<char>>
    recommends
        s.len() == keep.len(),
    decreases s.len(),
{
    if s.len() == 0 {
        Seq::empty()
    } else {
        let rest = mask_filter(s.drop_last(), keep.drop_last());
        if keep.last() {
            rest.push(s.last())
        } else {
            rest
        }
    }
}

/// That the existence predicate `f`, called on a string named `name`, can
/// return `b`: one call of `f` during the filter pass returned exactly this.
pub open spec fn decided<F: Fn(&str) -> bool>(f: F, name: Seq<char>, b: bool) -> bool {
    exists|s: &str| #![trigger s@] s@ == name && call_ensures(f, (s,), b)
}

/// That `result` is the subsequence of `cands` selected by one pass of the
/// existence predicate `f`: some mask of answers, each one a value that `f`
/// could return for that candidate, keeps exactly the elements of `result`.
pub open spec fn existence_filtered<F: Fn(&str) -> bool>(
    f: F,
    cands: Seq<Seq<char>>,
    result: Seq<Seq<char>>,
) -> bool {
    exists|keep: Seq<bool>|
        #![trigger mask_filter(cands, keep)]
        {
            &&& keep.len() == cands.len()
            &&& result == mask_filter(cands, keep)
            &&& forall|j: int| 0 <= j < keep.len() ==> decided(f, cands[j], #[trigger] keep[j])
        }
}

/// Introduction lemma for `existence_filtered`, from an explicit mask and
/// one call witness per candidate.
proof fn lemma_existence_filtered_intro<F: Fn(&str) -> bool>(
    f: F,
    cands: Seq<Seq<char>>,
    result: Seq<Seq<char>>,
    keep: Seq<bool>,
    witnesses: Seq<&str>,
)
    requires
        keep.len() == cands.len(),
        witnesses.len() == keep.len(),
        result =~= mask_filter(cands, keep),
        forall|j: int|
            0 <= j < keep.len() ==> (#[trigger] witnesses[j])@ == cands[j] && call_ensures(
                f,
                (witnesses[j],),
                keep[j],
            ),
    ensures
        existence_filtered(f, cands, result),
{
    assert forall|j: int| 0 <= j < keep.len() implies decided(f, cands[j], #[trigger] keep[j]) by {
        let w = witnesses[j];
        assert(w@ == cands[j] && call_ensures(f, (w,), keep[j]));
    }
    assert(result == mask_filter(cands, keep));
}

/// Resolves the physical indices for a request: the candidate list of
/// `spec_candidates`, filtered through the `is_existing_index` predicate.
/// When `all_data` is set, the global alias is returned with no existence
/// check.
pub fn make_indexes_impl<F: Fn(&str) -> bool>(
    all_data: bool,
    pt_dataset_index: &Option<String>,
    types: &Option<Vec<&str>>,
    is_existing_index: F,
) -> (r: Vec<String>)
    requires
        forall|s: &str| call_requires(is_existing_index, (s,)),
    ensures
        all_data ==> r.deep_view() =~= seq!["munin"@],
        forall|i: int|
            0 <= i < r.deep_view().len() ==> spec_candidates(
                all_data,
                pt_dataset_index.deep_view(),
                types.deep_view(),
            ).contains(#[trigger] r.deep_view()[i]),
        r.deep_view().len() <= spec_candidates(
            all_data,
            pt_dataset_index.deep_view(),
            types.deep_view(),
        ).len(),
        !all_data ==> existence_filtered(
            is_existing_index,
            spec_candidates(all_data, pt_dataset_index.deep_view(), types.deep_view()),
            r.deep_view(),
        ),
{
    if all_data {
        let mut r: Vec<String> = Vec::new();
        r.push(String::from_str("munin"));
        return r;
    }

    let candidates = candidate_indexes(all_data, pt_dataset_index, types);
    let ghost cands = spec_candidates(all_data, pt_dataset_index.deep_view(), types.deep_view());

    let mut r: Vec<String> = Vec::new();
    let ghost mut keep: Seq<bool> = Seq::empty();
    let ghost mut witnesses: Seq<&str> = Seq::empty();
    let mut i: usize = 0;
    while i < candidates.len()
        invariant
            i <= candidates.len(),
            candidates.deep_view() =~= cands,
            candidates.deep_view().len() == candidates.len(),
            keep.len() == i,
            witnesses.len() == i,
            forall|s: &str| call_requires(is_existing_index, (s,)),
            r.deep_view() =~= mask_filter(cands.subrange(0, i as int), keep),
            forall|j: int|
                0 <= j < i ==> (#[trigger] witnesses[j])@ == cands[j] && call_ensures(
                    is_existing_index,
                    (witnesses[j],),
                    keep[j],
                ),
        decreases candidates.len() - i,
    {
        let ghost prev_cands = cands.subrange(0, i as int);
        let ghost prev_keep = keep;
        let c: &str = candidates[i].as_str();
        let keep_it = is_existing_index(c);
        if keep_it {
            r.push(candidates[i].clone());
        }
        proof {
            keep = keep.push(keep_it);
            witnesses = witnesses.push(c);
            let cur = cands.subrange(0, i + 1 as int);
            assert(cur.drop_last() =~= prev_cands);
            assert(keep.drop_last() =~= prev_keep);
            assert(cur.last() == cands[i as int]);
            assert(c@ == cands[i as int]);
        }
        i += 1;
    }
    proof {
        assert(cands.subrange(0, cands.len() as int) =~= cands);
        lemma_mask_filter_shape(cands, keep);
        lemma_existence_filtered_intro(is_existing_index, cands, r.deep_view(), keep, witnesses);
    }
    r
}


/// With an existence predicate that can only answer `true`, the filter
/// keeps every candidate: the resolved list is exactly the candidate list.
pub proof fn lemma_existence_filtered_total<F: Fn(&str) -> bool>(
    f: F,
    cands: Seq<Seq<char>>,
    result: Seq<Seq<char>>,
)
    requires
        existence_filtered(f, cands, result),
        forall|s: &str, b: bool| call_ensures(f, (s,), b) ==> b,
    ensures
        result =~= cands,
{
    let keep = choose|keep: Seq<bool>|
        #![trigger mask_filter(cands, keep)]
        {
            &&& keep.len() == cands.len()
            &&& result == mask_filter(cands, keep)
            &&& forall|j: int| 0 <= j < keep.len() ==> decided(f, cands[j], #[trigger] keep[j])
        };
    assert forall|j: int| 0 <= j < keep.len() implies #[trigger] keep[j] == true by {
        assert(decided(f, cands[j], keep[j]));
        let s = choose|s: &str| #![trigger s@] s@ == cands[j] && call_ensures(f, (s,), keep[j]);
        assert(call_ensures(f, (s,), keep[j]));
    }
    lemma_mask_filter_all_true(cands, keep);
}

/// A mask of all-true answers keeps the whole sequence.
proof fn lemma_mask_filter_all_true(s: Seq<Seq<char>>, keep: Seq<bool>)
    requires
        keep.len() == s.len(),
        forall|j: int| 0 <= j < keep.len() ==> #[trigger] keep[j] == true,
    ensures
        mask_filter(s, keep) =~= s,
    decreases s.len(),
{
    if s.len() == 0 {
    } else {
        lemma_mask_filter_all_true(s.drop_last(), keep.drop_last());
        assert(keep.last());
    }
}

/// Every element that the mask filter keeps is an element of the source
/// sequence, and the filtered sequence is never longer than the source.
pub proof fn lemma_mask_filter_shape(s: Seq<Seq<char>>, keep: Seq<bool>)
    requires
        s.len() == keep.len(),
    ensures
        mask_filter(s, keep).len() <= s.len(),
        forall|i: int|
            0 <= i < mask_filter(s, keep).len() ==> s.contains(#[trigger] mask_filter(s, keep)[i]),
    decreases s.len(),
{
    if s.len() == 0 {
    } else {
        lemma_mask_filter_shape(s.drop_last(), keep.drop_last());
        let rest = mask_filter(s.drop_last(), keep.drop_last());
        assert forall|i: int| 0 <= i < mask_filter(s, keep).len() implies s.contains(
            #[trigger] mask_filter(s, keep)[i],
        ) by {
            if i < rest.len() {
                assert(rest[i] == mask_filter(s, keep)[i]);
                assert(s.drop_last().contains(rest[i]));
                let w = choose|w: int| 0 <= w < s.drop_last().len() && s.drop_last()[w] == rest[i];
                assert(s[w] == rest[i]);
            } else {
                assert(mask_filter(s, keep)[i] == s.last());
            }
        }
    }
}

/// Every index that a type list contributes is the mapped name of one of
/// its non-stop tokens.
pub proof fn lemma_mapped_types_elems(ts: Seq<Seq<char>>)
    ensures
        forall|x: Seq<char>|
            mapped_types(ts).contains(x) ==> exists|i: int|
                0 <= i < ts.len() && ts[i] != stop_token() && x == spec_index_for(#[trigger] ts[i]),
    decreases ts.len(),
{
    if ts.len() == 0 {
    } else {
        lemma_mapped_types_elems(ts.drop_last());
        assert forall|x: Seq<char>| mapped_types(ts).contains(x) implies exists|i: int|
            0 <= i < ts.len() && ts[i] != stop_token() && x == spec_index_for(#[trigger] ts[i]) by {
            let m = mapped_types(ts);
            let rest = mapped_types(ts.drop_last());
            let k = choose|k: int| 0 <= k < m.len() && m[k] == x;
            if k < rest.len() {
                assert(rest.contains(x));
                let i = choose|i: int|
                    0 <= i < ts.drop_last().len() && ts.drop_last()[i] != stop_token() && x
                        == spec_index_for(#[trigger] ts.drop_last()[i]);
                assert(ts[i] == ts.drop_last()[i]);
            } else {
                assert(ts.last() != stop_token() && x == spec_index_for(ts.last()));
                assert(ts[ts.len() - 1] != stop_token() && x == spec_index_for(
                    ts[ts.len() - 1],
                ));
            }
        }
    }
}

/// When the requested types omit the stop-area token and none of them maps
/// to the dataset's own stop index name, that stop index never appears
/// among the candidates, whatever the dataset setting.
pub proof fn lemma_no_stop_index_without_token(
    pt_index: Seq<char>,
    ts: Seq<Seq<char>>,
)
    requires
        !ts.contains(stop_token()),
        forall|i: int| 0 <= i < ts.len() ==> spec_index_for(#[trigger] ts[i]) != pt_index,
    ensures
        !spec_candidates(false, Some(pt_index), Some(ts)).contains(pt_index),
        !spec_candidates(false, None, Some(ts)).contains(pt_index),
{
    lemma_mapped_types_elems(ts);
    assert(spec_candidates(false, Some(pt_index), Some(ts)) == mapped_types(ts));
    assert(spec_candidates(false, None, Some(ts)) == mapped_types(ts));
}

/// When the only requested type is the stop-area token and no dataset is
/// given, the candidate list is empty, so the resolved index list is empty
/// too.
pub proof fn lemma_stop_only_without_dataset_is_empty(ts: Seq<Seq<char>>)
    requires
        forall|i: int| 0 <= i < ts.len() ==> #[trigger] ts[i] == stop_token(),
    ensures
        spec_candidates(false, None, Some(ts)).len() == 0,
    decreases ts.len(),
{
    if ts.len() == 0 {
    } else {
        lemma_stop_only_without_dataset_is_empty(ts.drop_last());
        assert(ts.last() == ts[ts.len() - 1]);
        assert(forall|i: int|
            0 <= i < ts.drop_last().len() ==> #[trigger] ts.drop_last()[i] == stop_token());
        assert(spec_candidates(false, None, Some(ts.drop_last())) == mapped_types(ts.drop_last()));
    }
}


/// The resolved index list never contains the dataset's stop index when the
/// requested types omit the stop-area token and no requested token maps to
/// that very name.
pub proof fn lemma_no_stop_index_in_output(
    pt_index: Seq<char>,
    ts: Seq<Seq<char>>,
    out: Seq<Seq<char>>,
)
    requires
        !ts.contains(stop_token()),
        forall|i: int| 0 <= i < ts.len() ==> spec_index_for(#[trigger] ts[i]) != pt_index,
        forall|i: int|
            0 <= i < out.len() ==> spec_candidates(false, Some(pt_index), Some(ts)).contains(
                #[trigger] out[i],
            ),
    ensures
        !out.contains(pt_index),
{
    lemma_no_stop_index_without_token(pt_index, ts);
    if out.contains(pt_index) {
        let i = choose|i: int| 0 <= i < out.len() && out[i] == pt_index;
        assert(spec_candidates(false, Some(pt_index), Some(ts)).contains(pt_index));
    }
}

/// When the only requested type is the stop-area token and no dataset is
/// given, the resolved index list is empty.
pub proof fn lemma_stop_only_without_dataset_output_empty(
    ts: Seq<Seq<char>>,
    out: Seq<Seq<char>>,
)
    requires
        forall|i: int| 0 <= i < ts.len() ==> #[trigger] ts[i] == stop_token(),
        out.len() <= spec_candidates(false, None, Some(ts)).len(),
    ensures
        out.len() == 0,
{
    lemma_stop_only_without_dataset_is_empty(ts);
}

} // verus!
