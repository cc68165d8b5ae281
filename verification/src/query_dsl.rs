//! The search expression built for one autocomplete request: a boolean
//! composition of a scoring group (type boosts, lexical matches, a
//! geographic prior) and a non-scoring filter group (house-number
//! condition, cross-field condition, optional geo-polygon filter).
//!
//! The expression is held as a tree of this crate's own clause type; the
//! surrounding application serialises it into the backend's JSON dialect.

use vstd::prelude::*;
use vstd::string::StringExecFns;

use crate::coord::Coord;

verus! {

/// The two query strategies: `Prefix` is stricter and tried first,
/// `Fuzzy` widens recall over character n-grams.
#[derive(Clone, Copy, PartialEq, Eq, Structural, Debug)]
pub enum MatchType {
    Prefix,
    Fuzzy,
}

/// A score-shaping function inside a function-score clause.
#[derive(Debug)]
pub enum ScoreFunction {
    /// Exponential decay over a geo field, centred at `origin`, with the
    /// given characteristic distance in kilometres.
    ExpDecay { field: String, origin: Coord, scale_km: u64 },
    /// Multiplies the score by `log(1 + factor * field value)`.
    FieldValueFactorLog1p { field: String, factor: u64 },
}

/// One clause of the search expression tree.
#[derive(Debug)]
pub enum QueryExpr {
    /// Exact term match with a boost.
    Term { field: String, value: String, boost: u64 },
    /// Analysed text match with a boost (1 is the backend's neutral boost).
    MatchText { field: String, text: String, boost: u64 },
    /// Text match over several fields collectively. With
    /// `cross_fields_and` every token must occur in at least one field;
    /// otherwise `min_should_match_pct` gives the required token share.
    MultiMatch {
        fields: Vec<String>,
        text: String,
        cross_fields_and: bool,
        min_should_match_pct: Option<u8>,
    },
    /// The document has a value for the field.
    FieldExists { field: String },
    /// A function-score clause. `multiply` selects multiplicative boost
    /// mode; the inner query is always a match-all.
    FunctionScore { boost: u64, multiply: bool, function: ScoreFunction },
    /// Documents whose field lies inside the closed polygon.
    GeoPolygon { field: String, points: Vec<Coord> },
    /// Boolean composition of sub-clauses.
    BoolQuery {
        must: Vec<QueryExpr>,
        should: Vec<QueryExpr>,
        must_not: Vec<QueryExpr>,
        filter: Vec<QueryExpr>,
    },
}

/// `e` is a term clause on `field` with `value` and boost `boost`.
pub open spec fn is_term(e: QueryExpr, field: Seq<char>, value: Seq<char>, boost: int) -> bool {
    &&& e matches QueryExpr::Term { field: f, value: v, boost: b }
    &&& f@ == field
    &&& v@ == value
    &&& b == boost
}

/// `e` is a text match clause on `field` with text `text` and boost `boost`.
pub open spec fn is_match_text(e: QueryExpr, field: Seq<char>, text: Seq<char>, boost: int) -> bool {
    &&& e matches QueryExpr::MatchText { field: f, text: t, boost: b }
    &&& f@ == field
    &&& t@ == text
    &&& b == boost
}

/// `e` is the geographic prior used when a focus coordinate is given: an
/// exponential decay over `coord` centred at the focus, 50 km
/// characteristic distance, multiplicative, boost 1500.
pub open spec fn is_proximity_prior(e: QueryExpr, focus: Coord) -> bool {
    &&& e matches QueryExpr::FunctionScore { boost, multiply, function }
    &&& boost == 1500
    &&& multiply
    &&& function matches ScoreFunction::ExpDecay { field, origin, scale_km }
    &&& field@ == "coord"@
    &&& origin == focus
    &&& scale_km == 50
}

/// `e` is the importance prior used without a focus: a match-all
/// function-score whose factor is `log1p(weight)`, multiplicative,
/// boost 500.
pub open spec fn is_weight_prior(e: QueryExpr) -> bool {
    &&& e matches QueryExpr::FunctionScore { boost, multiply, function }
    &&& boost == 500
    &&& multiply
    &&& function matches ScoreFunction::FieldValueFactorLog1p { field, factor }
    &&& field@ == "weight"@
    &&& factor == 1
}

/// The main lexical field for each match type.
pub open spec fn spec_main_match_field(match_type: MatchType) -> Seq<char> {
    match match_type {
        MatchType::Prefix => "label.prefix"@,
        MatchType::Fuzzy => "label.ngram"@,
    }
}

/// `e` is the scoring group: a boolean SHOULD over the type boosts, the
/// lexical matches, and the geographic or importance prior, in this order.
pub open spec fn is_scoring_clause(
    e: QueryExpr,
    q: Seq<char>,
    match_type: MatchType,
    focus: Option<Coord>,
) -> bool {
    &&& e matches QueryExpr::BoolQuery { must, should, must_not, filter }
    &&& must@.len() == 0
    &&& must_not@.len() == 0
    &&& filter@.len() == 0
    &&& should@.len() == (if match_type is Fuzzy {
        7int
    } else {
        6int
    })
    &&& is_term(should@[0], "_type"@, "addr"@, 5000)
    &&& is_term(should@[1], "_type"@, "admin"@, 3000)
    &&& is_term(should@[2], "_type"@, "stop"@, 2000)
    &&& is_match_text(should@[3], spec_main_match_field(match_type), q, 500)
    &&& is_match_text(should@[4], "zip_codes.prefix"@, q, 100)
    &&& (match_type is Fuzzy ==> is_match_text(should@[5], "label.prefix"@, q, 1000))
    &&& {
        let prior = should@[should@.len() - 1];
        match focus {
            Some(c) => is_proximity_prior(prior, c),
            None => is_weight_prior(prior),
        }
    }
}

/// `e` is the house-number condition: either the document has no
/// `house_number` field, or that field matches the query text.
pub open spec fn is_house_number_condition(e: QueryExpr, q: Seq<char>) -> bool {
    &&& e matches QueryExpr::BoolQuery { must, should, must_not, filter }
    &&& must@.len() == 0
    &&& must_not@.len() == 0
    &&& filter@.len() == 0
    &&& should@.len() == 2
    &&& {
        let no_field = should@[0];
        &&& no_field matches QueryExpr::BoolQuery {
            must: m2,
            should: s2,
            must_not: n2,
            filter: f2,
        }
        &&& m2@.len() == 0
        &&& s2@.len() == 0
        &&& f2@.len() == 0
        &&& n2@.len() == 1
        &&& (n2@[0] matches QueryExpr::FieldExists { field } && field@ == "house_number"@)
    }
    &&& is_match_text(should@[1], "house_number"@, q, 1)
}

/// `e` is the cross-field condition over `label.prefix` and
/// `zip_codes.prefix`: in prefix mode every query token must occur in one
/// of the two fields collectively; in fuzzy mode only 45% of the tokens
/// must match.
pub open spec fn is_cross_fields_condition(
    e: QueryExpr,
    q: Seq<char>,
    match_type: MatchType,
) -> bool {
    &&& e matches QueryExpr::MultiMatch { fields, text, cross_fields_and, min_should_match_pct }
    &&& fields@.len() == 2
    &&& fields@[0]@ == "label.prefix"@
    &&& fields@[1]@ == "zip_codes.prefix"@
    &&& text@ == q
    &&& cross_fields_and == (match_type is Prefix)
    &&& min_should_match_pct == (if match_type is Fuzzy {
        Some(45u8)
    } else {
        None::<u8>
    })
}

/// `e` is the non-scoring filter group: the house-number condition, the
/// cross-field condition, and, exactly when a shape is supplied, one
/// geo-polygon clause over `coord`.
pub open spec fn is_filter_clause(
    e: QueryExpr,
    q: Seq<char>,
    match_type: MatchType,
    shape: Option<Seq<Coord>>,
) -> bool {
    &&& e matches QueryExpr::BoolQuery { must, should, must_not, filter }
    &&& should@.len() == 0
    &&& must_not@.len() == 0
    &&& filter@.len() == 0
    &&& must@.len() == (if shape is Some {
        3int
    } else {
        2int
    })
    &&& is_house_number_condition(must@[0], q)
    &&& is_cross_fields_condition(must@[1], q, match_type)
    &&& (match shape {
        Some(points) => {
            &&& must@[2] matches QueryExpr::GeoPolygon { field, points: ps }
            &&& field@ == "coord"@
            &&& ps@ == points
        },
        None => true,
    })
}

/// `e` is the full expression for one request: `MUST [scoring group]`
/// with `FILTER [filter group]`.
pub open spec fn is_built_query(
    e: QueryExpr,
    q: Seq<char>,
    match_type: MatchType,
    focus: Option<Coord>,
    shape: Option<Seq<Coord>>,
) -> bool {
    &&& e matches QueryExpr::BoolQuery { must, should, must_not, filter }
    &&& should@.len() == 0
    &&& must_not@.len() == 0
    &&& must@.len() == 1
    &&& filter@.len() == 1
    &&& is_scoring_clause(must@[0], q, match_type, focus)
    &&& is_filter_clause(filter@[0], q, match_type, shape)
}

/// Builds the ranking expression for one request.
///
/// Both geographic priors wrap a match-all inner query; the source this
/// mirrors only wrapped the weight branch, and the asymmetry carried no
/// meaning.
pub fn build_query(
    q: &str,
    match_type: MatchType,
    coord: &Option<Coord>,
    shape: Option<Vec<Coord>>,
) -> (r: QueryExpr)
    ensures
        is_built_query(
            r,
            q@,
            match_type,
            *coord,
            match shape {
                Some(v) => Some(v@),
                None => None,
            },
        ),
{
    let ghost shape_view: Option<Seq<Coord>> = match shape {
        Some(ref v) => Some(v@),
        None => None,
    };

    // Scoring group: type boosts first, so that the heavily filtered
    // addresses can still surface.
    let mut should: Vec<QueryExpr> = Vec::new();
    should.push(QueryExpr::Term {
        field: String::from_str("_type"),
        value: String::from_str("addr"),
        boost: 5000,
    });
    should.push(QueryExpr::Term {
        field: String::from_str("_type"),
        value: String::from_str("admin"),
        boost: 3000,
    });
    should.push(QueryExpr::Term {
        field: String::from_str("_type"),
        value: String::from_str("stop"),
        boost: 2000,
    });
    let main_match_field: &str = match match_type {
        MatchType::Prefix => "label.prefix",
        MatchType::Fuzzy => "label.ngram",
    };
    should.push(QueryExpr::MatchText {
        field: String::from_str(main_match_field),
        text: String::from_str(q),
        boost: 500,
    });
    should.push(QueryExpr::MatchText {
        field: String::from_str("zip_codes.prefix"),
        text: String::from_str(q),
        boost: 100,
    });
    // During a fuzzy fallback, correctly spelt tokens still rank highest
    // through an extra prefix match with a greater boost than the n-grams.
    if match_type == MatchType::Fuzzy {
        should.push(QueryExpr::MatchText {
            field: String::from_str("label.prefix"),
            text: String::from_str(q),
            boost: 1000,
        });
    }
    match coord {
        Some(c) => {
            should.push(QueryExpr::FunctionScore {
                boost: 1500,
                multiply: true,
                function: ScoreFunction::ExpDecay {
                    field: String::from_str("coord"),
                    origin: *c,
                    scale_km: 50,
                },
            });
        },
        None => {
            should.push(QueryExpr::FunctionScore {
                boost: 500,
                multiply: true,
                function: ScoreFunction::FieldValueFactorLog1p {
                    field: String::from_str("weight"),
                    factor: 1,
                },
            });
        },
    }
    let scoring = QueryExpr::BoolQuery {
        must: Vec::new(),
        should,
        must_not: Vec::new(),
        filter: Vec::new(),
    };

    // Filter group: house-number condition, then the cross-field
    // condition, then the optional polygon restriction.
    let mut no_house_number: Vec<QueryExpr> = Vec::new();
    no_house_number.push(QueryExpr::FieldExists { field: String::from_str("house_number") });
    let mut house_should: Vec<QueryExpr> = Vec::new();
    house_should.push(QueryExpr::BoolQuery {
        must: Vec::new(),
        should: Vec::new(),
        must_not: no_house_number,
        filter: Vec::new(),
    });
    house_should.push(QueryExpr::MatchText {
        field: String::from_str("house_number"),
        text: String::from_str(q),
        boost: 1,
    });
    let house_condition = QueryExpr::BoolQuery {
        must: Vec::new(),
        should: house_should,
        must_not: Vec::new(),
        filter: Vec::new(),
    };

    let mut cross_fields: Vec<String> = Vec::new();
    cross_fields.push(String::from_str("label.prefix"));
    cross_fields.push(String::from_str("zip_codes.prefix"));
    let cross_condition = QueryExpr::MultiMatch {
        fields: cross_fields,
        text: String::from_str(q),
        cross_fields_and: match match_type {
            MatchType::Prefix => true,
            MatchType::Fuzzy => false,
        },
        min_should_match_pct: match match_type {
            MatchType::Prefix => None,
            MatchType::Fuzzy => Some(45),
        },
    };

    let mut filter_must: Vec<QueryExpr> = Vec::new();
    filter_must.push(house_condition);
    filter_must.push(cross_condition);
    match shape {
        Some(points) => {
            filter_must.push(QueryExpr::GeoPolygon {
                field: String::from_str("coord"),
                points,
            });
        },
        None => {},
    }
    let filter_clause = QueryExpr::BoolQuery {
        must: filter_must,
        should: Vec::new(),
        must_not: Vec::new(),
        filter: Vec::new(),
    };

    let mut outer_must: Vec<QueryExpr> = Vec::new();
    outer_must.push(scoring);
    let mut outer_filter: Vec<QueryExpr> = Vec::new();
    outer_filter.push(filter_clause);
    QueryExpr::BoolQuery {
        must: outer_must,
        should: Vec::new(),
        must_not: Vec::new(),
        filter: outer_filter,
    }
}


/// The number of geo-polygon clauses in the expression tree.
pub open spec fn geo_polygon_count(e: QueryExpr) -> nat
    decreases e, 1nat,
{
    match e {
        QueryExpr::GeoPolygon { .. } => 1,
        QueryExpr::BoolQuery { must, should, must_not, filter } => geo_polygon_count_seq(must@)
            + geo_polygon_count_seq(should@) + geo_polygon_count_seq(must_not@)
            + geo_polygon_count_seq(filter@),
        _ => 0,
    }
}

/// The number of geo-polygon clauses across a list of clauses.
pub open spec fn geo_polygon_count_seq(s: Seq<QueryExpr>) -> nat
    decreases s, 0nat,
{
    if s.len() == 0 {
        0
    } else {
        geo_polygon_count(s.first()) + geo_polygon_count_seq(s.drop_first())
    }
}

/// Whether a match clause on `field` occurs anywhere in the tree, either
/// as a single-field text match or among the fields of a multi-field
/// match.
pub open spec fn mentions_match_on(e: QueryExpr, field: Seq<char>) -> bool
    decreases e, 1nat,
{
    match e {
        QueryExpr::MatchText { field: f, .. } => f@ == field,
        QueryExpr::MultiMatch { fields, .. } => exists|i: int|
            0 <= i < fields@.len() && (#[trigger] fields@[i])@ == field,
        QueryExpr::BoolQuery { must, should, must_not, filter } => mentions_match_on_seq(
            must@,
            field,
        ) || mentions_match_on_seq(should@, field) || mentions_match_on_seq(must_not@, field)
            || mentions_match_on_seq(filter@, field),
        _ => false,
    }
}

/// Whether a match clause on `field` occurs in any clause of the list.
pub open spec fn mentions_match_on_seq(s: Seq<QueryExpr>, field: Seq<char>) -> bool
    decreases s, 0nat,
{
    if s.len() == 0 {
        false
    } else {
        mentions_match_on(s.first(), field) || mentions_match_on_seq(s.drop_first(), field)
    }
}


/// A clause list mentions a match on `field` exactly when one of its
/// elements does.
pub proof fn lemma_mentions_seq(s: Seq<QueryExpr>, field: Seq<char>)
    ensures
        mentions_match_on_seq(s, field) <==> exists|i: int|
            0 <= i < s.len() && mentions_match_on(#[trigger] s[i], field),
    decreases s.len(),
{
    if s.len() == 0 {
    } else {
        lemma_mentions_seq(s.drop_first(), field);
        if mentions_match_on_seq(s, field) {
            if mentions_match_on(s.first(), field) {
                assert(mentions_match_on(s[0], field));
            } else {
                let i = choose|i: int|
                    0 <= i < s.drop_first().len() && mentions_match_on(
                        #[trigger] s.drop_first()[i],
                        field,
                    );
                assert(mentions_match_on(s[i + 1], field));
            }
        }
        if exists|i: int| 0 <= i < s.len() && mentions_match_on(#[trigger] s[i], field) {
            let i = choose|i: int| 0 <= i < s.len() && mentions_match_on(#[trigger] s[i], field);
            if i == 0 {
                assert(mentions_match_on(s.first(), field));
            } else {
                assert(s.drop_first()[i - 1] == s[i]);
            }
        }
    }
}

/// A clause list with no geo-polygon clause in any element counts zero.
pub proof fn lemma_geo_count_seq_zero(s: Seq<QueryExpr>)
    requires
        forall|i: int| 0 <= i < s.len() ==> geo_polygon_count(#[trigger] s[i]) == 0,
    ensures
        geo_polygon_count_seq(s) == 0,
    decreases s.len(),
{
    if s.len() == 0 {
    } else {
        assert(geo_polygon_count(s.first()) == geo_polygon_count(s[0]));
        assert(forall|i: int|
            0 <= i < s.drop_first().len() ==> #[trigger] s.drop_first()[i] == s[i + 1]);
        lemma_geo_count_seq_zero(s.drop_first());
    }
}

/// The filter group of a built query holds exactly one geo-polygon clause
/// when a bounding shape was supplied, and none otherwise; the scoring
/// group holds none. So the whole expression holds exactly one iff a
/// shape was supplied.
pub proof fn lemma_geo_polygon_count(
    e: QueryExpr,
    q: Seq<char>,
    match_type: MatchType,
    focus: Option<Coord>,
    shape: Option<Seq<Coord>>,
)
    requires
        is_built_query(e, q, match_type, focus, shape),
    ensures
        geo_polygon_count(e) == (if shape is Some {
            1nat
        } else {
            0nat
        }),
{
    let must = bool_must(e);
    let should = bool_should(e);
    let must_not = bool_must_not(e);
    let filter = bool_filter(e);
    let scoring = must[0];
    let flt = filter[0];
    let s_must = bool_must(scoring);
    let s_should = bool_should(scoring);
    let s_must_not = bool_must_not(scoring);
    let s_filter = bool_filter(scoring);
    assert forall|i: int| 0 <= i < s_should.len() implies geo_polygon_count(
        #[trigger] s_should[i],
    ) == 0 by {
        if i == s_should.len() - 1 {
        } else if match_type is Fuzzy && i == 5 {
        } else {
        }
    }
    lemma_geo_count_seq_zero(s_should);
    lemma_geo_count_seq_zero(s_must);
    lemma_geo_count_seq_zero(s_must_not);
    lemma_geo_count_seq_zero(s_filter);
    assert(geo_polygon_count(scoring) == 0);

    let f_must = bool_must(flt);
    let f_should = bool_should(flt);
    let f_must_not = bool_must_not(flt);
    let f_filter = bool_filter(flt);
    let house = f_must[0];
    let h_must = bool_must(house);
    let h_should = bool_should(house);
    let h_must_not = bool_must_not(house);
    let h_filter = bool_filter(house);
    let no_field = h_should[0];
    let n_must = bool_must(no_field);
    let n_should = bool_should(no_field);
    let n_must_not = bool_must_not(no_field);
    let n_filter = bool_filter(no_field);
    lemma_geo_count_seq_zero(n_must);
    lemma_geo_count_seq_zero(n_should);
    lemma_geo_count_seq_zero(n_must_not);
    lemma_geo_count_seq_zero(n_filter);
    assert(geo_polygon_count(no_field) == 0);
    assert forall|i: int| 0 <= i < h_should.len() implies geo_polygon_count(
        #[trigger] h_should[i],
    ) == 0 by {}
    lemma_geo_count_seq_zero(h_should);
    lemma_geo_count_seq_zero(h_must);
    lemma_geo_count_seq_zero(h_must_not);
    lemma_geo_count_seq_zero(h_filter);
    assert(geo_polygon_count(house) == 0);

    lemma_geo_count_seq_zero(f_should);
    lemma_geo_count_seq_zero(f_must_not);
    lemma_geo_count_seq_zero(f_filter);
    let cross = f_must[1];
    assert(geo_polygon_count(cross) == 0);
    if shape is Some {
        let r1 = f_must.drop_first();
        let r2 = r1.drop_first();
        let r3 = r2.drop_first();
        assert(r3.len() == 0);
        assert(geo_polygon_count_seq(r3) == 0);
        assert(r2.first() == f_must[2] && r2.drop_first() == r3);
        assert(geo_polygon_count(f_must[2]) == 1);
        assert(geo_polygon_count_seq(r2) == 1);
        assert(r1.first() == cross && r1.drop_first() == r2);
        assert(geo_polygon_count_seq(r1) == 1);
        assert(f_must.first() == house && f_must.drop_first() == r1);
        assert(geo_polygon_count_seq(f_must) == 1);
    } else {
        let r1 = f_must.drop_first();
        let r2 = r1.drop_first();
        assert(r2.len() == 0);
        assert(geo_polygon_count_seq(r2) == 0);
        assert(r1.first() == cross && r1.drop_first() == r2);
        assert(geo_polygon_count_seq(r1) == 0);
        assert(f_must.first() == house && f_must.drop_first() == r1);
        assert(geo_polygon_count_seq(f_must) == 0);
    }

    lemma_geo_count_seq_zero(should);
    lemma_geo_count_seq_zero(must_not);
    let m1 = must.drop_first();
    assert(m1.len() == 0);
    assert(geo_polygon_count_seq(m1) == 0);
    assert(must.first() == scoring && must.drop_first() == m1);
    assert(geo_polygon_count_seq(must) == 0);
    let fl1 = filter.drop_first();
    assert(fl1.len() == 0);
    assert(geo_polygon_count_seq(fl1) == 0);
    assert(filter.first() == flt && filter.drop_first() == fl1);
    assert(geo_polygon_count_seq(filter) == geo_polygon_count(flt));
}

/// The MUST sub-clauses of a boolean clause (empty for any other clause).
pub open spec fn bool_must(e: QueryExpr) -> Seq<QueryExpr> {
    match e {
        QueryExpr::BoolQuery { must, .. } => must@,
        _ => Seq::empty(),
    }
}

/// The SHOULD sub-clauses of a boolean clause (empty for any other clause).
pub open spec fn bool_should(e: QueryExpr) -> Seq<QueryExpr> {
    match e {
        QueryExpr::BoolQuery { should, .. } => should@,
        _ => Seq::empty(),
    }
}

/// The MUST NOT sub-clauses of a boolean clause (empty for any other clause).
pub open spec fn bool_must_not(e: QueryExpr) -> Seq<QueryExpr> {
    match e {
        QueryExpr::BoolQuery { must_not, .. } => must_not@,
        _ => Seq::empty(),
    }
}

/// The FILTER sub-clauses of a boolean clause (empty for any other clause).
pub open spec fn bool_filter(e: QueryExpr) -> Seq<QueryExpr> {
    match e {
        QueryExpr::BoolQuery { filter, .. } => filter@,
        _ => Seq::empty(),
    }
}


/// No clause of the expression built in prefix mode matches on
/// `label.ngram`: the n-gram field is reserved for the fuzzy fallback.
pub proof fn lemma_prefix_no_ngram(
    e: QueryExpr,
    q: Seq<char>,
    focus: Option<Coord>,
    shape: Option<Seq<Coord>>,
)
    requires
        is_built_query(e, q, MatchType::Prefix, focus, shape),
    ensures
        !mentions_match_on(e, "label.ngram"@),
{
    reveal_strlit("label.ngram");
    reveal_strlit("label.prefix");
    reveal_strlit("zip_codes.prefix");
    reveal_strlit("house_number");
    let ng = "label.ngram"@;
    assert(ng.len() == 11);
    assert("label.prefix"@.len() == 12);
    assert("zip_codes.prefix"@.len() == 16);
    assert("house_number"@.len() == 12);

    let must = bool_must(e);
    let should = bool_should(e);
    let must_not = bool_must_not(e);
    let filter = bool_filter(e);
    let scoring = must[0];
    let flt = filter[0];

    let s_should = bool_should(scoring);
    assert forall|i: int| 0 <= i < s_should.len() implies !mentions_match_on(
        #[trigger] s_should[i],
        ng,
    ) by {
        if i == 3 {
            assert(is_match_text(s_should[3], "label.prefix"@, q, 500));
        } else if i == 4 {
            assert(is_match_text(s_should[4], "zip_codes.prefix"@, q, 100));
        } else if i == 5 {
        } else {
        }
    }
    lemma_mentions_seq(s_should, ng);
    lemma_mentions_seq(bool_must(scoring), ng);
    lemma_mentions_seq(bool_must_not(scoring), ng);
    lemma_mentions_seq(bool_filter(scoring), ng);
    assert(!mentions_match_on(scoring, ng));

    let f_must = bool_must(flt);
    let house = f_must[0];
    let cross = f_must[1];
    let h_should = bool_should(house);
    let no_field = h_should[0];
    lemma_mentions_seq(bool_must(no_field), ng);
    lemma_mentions_seq(bool_should(no_field), ng);
    lemma_mentions_seq(bool_must_not(no_field), ng);
    lemma_mentions_seq(bool_filter(no_field), ng);
    assert(!mentions_match_on(no_field, ng));
    assert forall|i: int| 0 <= i < h_should.len() implies !mentions_match_on(
        #[trigger] h_should[i],
        ng,
    ) by {
        if i == 1 {
            assert(is_match_text(h_should[1], "house_number"@, q, 1));
        } else {
        }
    }
    lemma_mentions_seq(h_should, ng);
    lemma_mentions_seq(bool_must(house), ng);
    lemma_mentions_seq(bool_must_not(house), ng);
    lemma_mentions_seq(bool_filter(house), ng);
    assert(!mentions_match_on(house, ng));
    assert(!mentions_match_on(cross, ng)) by {
        assert(is_cross_fields_condition(cross, q, MatchType::Prefix));
    }
    assert forall|i: int| 0 <= i < f_must.len() implies !mentions_match_on(
        #[trigger] f_must[i],
        ng,
    ) by {
        if i == 2 {
            assert(f_must[2] is GeoPolygon);
        } else {
        }
    }
    lemma_mentions_seq(f_must, ng);
    lemma_mentions_seq(bool_should(flt), ng);
    lemma_mentions_seq(bool_must_not(flt), ng);
    lemma_mentions_seq(bool_filter(flt), ng);
    assert(!mentions_match_on(flt, ng));

    assert forall|i: int| 0 <= i < must.len() implies !mentions_match_on(
        #[trigger] must[i],
        ng,
    ) by {}
    assert forall|i: int| 0 <= i < filter.len() implies !mentions_match_on(
        #[trigger] filter[i],
        ng,
    ) by {}
    lemma_mentions_seq(must, ng);
    lemma_mentions_seq(should, ng);
    lemma_mentions_seq(must_not, ng);
    lemma_mentions_seq(filter, ng);
}

/// The expression built in fuzzy mode scores both on the n-gram field and,
/// with a greater boost, on the prefix field.
pub proof fn lemma_fuzzy_has_both_lexical_fields(
    e: QueryExpr,
    q: Seq<char>,
    focus: Option<Coord>,
    shape: Option<Seq<Coord>>,
)
    requires
        is_built_query(e, q, MatchType::Fuzzy, focus, shape),
    ensures
        mentions_match_on(e, "label.ngram"@),
        mentions_match_on(e, "label.prefix"@),
{
    let must = bool_must(e);
    let scoring = must[0];
    let s_should = bool_should(scoring);
    assert(is_match_text(s_should[3], "label.ngram"@, q, 500));
    assert(is_match_text(s_should[5], "label.prefix"@, q, 1000));
    assert(mentions_match_on(s_should[3], "label.ngram"@));
    assert(mentions_match_on(s_should[5], "label.prefix"@));
    lemma_mentions_seq(s_should, "label.ngram"@);
    lemma_mentions_seq(s_should, "label.prefix"@);
    assert(mentions_match_on(scoring, "label.ngram"@));
    assert(mentions_match_on(scoring, "label.prefix"@));
    lemma_mentions_seq(must, "label.ngram"@);
    lemma_mentions_seq(must, "label.prefix"@);
    assert(mentions_match_on(must[0], "label.ngram"@));
    assert(mentions_match_on(must[0], "label.prefix"@));
}

} // verus!
