//! The autocomplete orchestration: decoding ranked hits into places, and
//! the two-stage prefix-then-fuzzy policy.
//!
//! The backend transport is not here: the surrounding application
//! resolves the index list, runs each search that the flow asks for, and
//! hands the decoded hits back to the flow. The flow decides; it never
//! performs I/O.

use vstd::prelude::*;

use crate::places::spec_place_doc_type;
use crate::places::Place;
use crate::query_dsl::MatchType;
use crate::strutil::str_eq;

verus! {

/// The five document type tags that hits may carry.
pub open spec fn spec_known_doc_type(t: Seq<char>) -> bool {
    ||| t == "admin"@
    ||| t == "street"@
    ||| t == "addr"@
    ||| t == "poi"@
    ||| t == "stop"@
}

/// What one hit decodes to: the body, when there is one and its variant
/// agrees with the hit's type tag; nothing otherwise.
pub open spec fn spec_decode_hit(doc_type: String, value: Option<Box<Place>>) -> Option<Place> {
    match value {
        Some(v) => if spec_place_doc_type(*v) == doc_type@ {
            Some(*v)
        } else {
            None
        },
        None => None,
    }
}

/// Turns one hit into a place. The raw JSON body has already been parsed
/// into the variant that the hit's `_type` tag selects (the application
/// does that at the codec edge); here the tag is checked against the
/// variant, and hits with no body, an unknown tag or a mismatched
/// variant are dropped.
///
/// For every hit with a known tag and an agreeing body, the returned
/// place's document type equals the hit's tag.
pub fn make_place(doc_type: String, value: Option<Box<Place>>) -> (r: Option<Place>)
    ensures
        r == spec_decode_hit(doc_type, value),
        r matches Some(p) ==> spec_place_doc_type(p) == doc_type@ && spec_known_doc_type(
            doc_type@,
        ),
{
    match value {
        Some(v) => {
            let tag: &str = v.doc_type();
            if str_eq(doc_type.as_str(), tag) {
                Some(*v)
            } else {
                None
            }
        },
        None => None,
    }
}

/// The places that a ranked hit list decodes to, in backend order, with
/// the hits that do not decode dropped.
pub open spec fn spec_decoded_hits(hits: Seq<(String, Option<Box<Place>>)>) -> Seq<Place>
    decreases hits.len(),
{
    if hits.len() == 0 {
        Seq::empty()
    } else {
        let rest = spec_decoded_hits(hits.drop_last());
        match spec_decode_hit(hits.last().0, hits.last().1) {
            Some(p) => rest.push(p),
            None => rest,
        }
    }
}

/// Decodes a ranked hit list into places, preserving the backend's
/// order and dropping each hit that does not decode.
pub fn decode_hits(hits: Vec<(String, Option<Box<Place>>)>) -> (r: Vec<Place>)
    ensures
        r@ =~= spec_decoded_hits(hits@),
{
    let ghost all = hits@;
    let n = hits.len();
    assert(all.len() == n);
    let mut hits = hits;
    let mut r: Vec<Place> = Vec::new();
    let mut i: usize = 0;
    while hits.len() > 0
        invariant
            all.len() <= usize::MAX,
            i + hits@.len() == all.len(),
            hits@ =~= all.skip(i as int),
            r@ =~= spec_decoded_hits(all.take(i as int)),
        decreases hits@.len(),
    {
        let ghost prev = all.take(i as int);
        let hit = hits.remove(0);
        assert(hit == all[i as int]);
        match make_place(hit.0, hit.1) {
            Some(p) => {
                r.push(p);
            },
            None => {},
        }
        proof {
            let cur = all.take(i + 1 as int);
            assert(cur.drop_last() =~= prev);
            assert(cur.last() == all[i as int]);
            assert(hits@ =~= all.skip(i + 1 as int));
        }
        i += 1;
    }
    proof {
        assert(all.take(all.len() as int) =~= all);
    }
    r
}

/// Where one autocomplete request stands: the prefix attempt
/// outstanding, the fuzzy fallback outstanding, or answered.
pub enum AutocompleteStage {
    /// The strict prefix attempt has been issued and not yet answered.
    AwaitingPrefix,
    /// The prefix attempt returned nothing; the fuzzy fallback has been
    /// issued and not yet answered.
    AwaitingFuzzy,
    /// The request is answered with these places, in backend order.
    Done(Vec<Place>),
}

/// The match type of the search that the stage is waiting for, if any.
pub open spec fn spec_pending_search(s: AutocompleteStage) -> Option<MatchType> {
    match s {
        AutocompleteStage::AwaitingPrefix => Some(MatchType::Prefix),
        AutocompleteStage::AwaitingFuzzy => Some(MatchType::Fuzzy),
        AutocompleteStage::Done(_) => None,
    }
}

impl AutocompleteStage {
    /// The match type of the search to run next, or nothing when the
    /// request is answered.
    pub fn pending_search(&self) -> (r: Option<MatchType>)
        ensures
            r == spec_pending_search(*self),
    {
        match self {
            AutocompleteStage::AwaitingPrefix => Some(MatchType::Prefix),
            AutocompleteStage::AwaitingFuzzy => Some(MatchType::Fuzzy),
            AutocompleteStage::Done(_) => None,
        }
    }
}

/// Opens one autocomplete request. An empty query text, like an empty
/// index list, answers the request empty at once — never falling
/// through to a wildcard index; otherwise the strict prefix attempt is
/// issued first.
pub fn start_autocomplete(query_empty: bool, indices_empty: bool) -> (s: AutocompleteStage)
    ensures
        query_empty || indices_empty ==> (s matches AutocompleteStage::Done(r) && r@.len() == 0),
        !query_empty && !indices_empty ==> s is AwaitingPrefix,
{
    if query_empty || indices_empty {
        AutocompleteStage::Done(Vec::new())
    } else {
        AutocompleteStage::AwaitingPrefix
    }
}

/// Advances the request with the decoded places of the search it was
/// waiting for.
///
/// When the prefix attempt yields one hit or more, the request is
/// answered with exactly those hits and the fuzzy stage is never
/// reached; only an empty prefix answer issues the fuzzy fallback,
/// whose result answers the request whatever it holds.
pub fn on_search_results(stage: AutocompleteStage, results: Vec<Place>) -> (next: AutocompleteStage)
    requires
        spec_pending_search(stage) is Some,
    ensures
        stage is AwaitingPrefix && results@.len() > 0 ==> (next
            matches AutocompleteStage::Done(r) && r@ == results@),
        stage is AwaitingPrefix && results@.len() == 0 ==> next is AwaitingFuzzy,
        stage is AwaitingFuzzy ==> (next matches AutocompleteStage::Done(r) && r@ == results@),
{
    match stage {
        AutocompleteStage::AwaitingPrefix => {
            if results.len() == 0 {
                AutocompleteStage::AwaitingFuzzy
            } else {
                AutocompleteStage::Done(results)
            }
        },
        _ => AutocompleteStage::Done(results),
    }
}

} // verus!
