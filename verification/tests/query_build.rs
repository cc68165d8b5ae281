use mimirsbrunn::coord::Coord;
use mimirsbrunn::query_dsl::{build_query, MatchType, QueryExpr, ScoreFunction};

fn outer_parts(q: QueryExpr) -> (Vec<QueryExpr>, Vec<QueryExpr>) {
    match q {
        QueryExpr::BoolQuery {
            must,
            should,
            must_not,
            filter,
        } => {
            assert_eq!(should.len(), 0);
            assert_eq!(must_not.len(), 0);
            assert_eq!(must.len(), 1);
            assert_eq!(filter.len(), 1);
            (must, filter)
        }
        _ => panic!("expected a boolean clause at the top"),
    }
}

fn should_of(e: QueryExpr) -> Vec<QueryExpr> {
    match e {
        QueryExpr::BoolQuery { should, .. } => should,
        _ => panic!("expected a boolean clause"),
    }
}

fn must_of(e: QueryExpr) -> Vec<QueryExpr> {
    match e {
        QueryExpr::BoolQuery { must, .. } => must,
        _ => panic!("expected a boolean clause"),
    }
}

#[test]
fn prefix_scoring_clauses() {
    let q = build_query("rue hector", MatchType::Prefix, &None, None);
    let (must, _) = outer_parts(q);
    let should = should_of(must.into_iter().next().unwrap());
    assert_eq!(should.len(), 6);
    match &should[0] {
        QueryExpr::Term {
            field,
            value,
            boost,
        } => {
            assert_eq!(field, "_type");
            assert_eq!(value, "addr");
            assert_eq!(*boost, 5000);
        }
        _ => panic!("expected the address type boost first"),
    }
    match &should[3] {
        QueryExpr::MatchText { field, text, boost } => {
            assert_eq!(field, "label.prefix");
            assert_eq!(text, "rue hector");
            assert_eq!(*boost, 500);
        }
        _ => panic!("expected the main lexical match"),
    }
    // Without a focus, the last clause is the weight prior.
    match &should[5] {
        QueryExpr::FunctionScore {
            boost,
            multiply,
            function,
        } => {
            assert_eq!(*boost, 500);
            assert!(*multiply);
            match function {
                ScoreFunction::FieldValueFactorLog1p { field, factor } => {
                    assert_eq!(field, "weight");
                    assert_eq!(*factor, 1);
                }
                _ => panic!("expected the log1p weight factor"),
            }
        }
        _ => panic!("expected a function score last"),
    }
    // No n-gram clause appears anywhere in prefix mode.
    for clause in &should {
        if let QueryExpr::MatchText { field, .. } = clause {
            assert_ne!(field, "label.ngram");
        }
    }
}

#[test]
fn fuzzy_scoring_has_both_lexical_fields() {
    let q = build_query("bretagne", MatchType::Fuzzy, &None, None);
    let (must, _) = outer_parts(q);
    let should = should_of(must.into_iter().next().unwrap());
    assert_eq!(should.len(), 7);
    match &should[3] {
        QueryExpr::MatchText { field, boost, .. } => {
            assert_eq!(field, "label.ngram");
            assert_eq!(*boost, 500);
        }
        _ => panic!("expected the n-gram match"),
    }
    match &should[5] {
        QueryExpr::MatchText { field, boost, .. } => {
            assert_eq!(field, "label.prefix");
            assert_eq!(*boost, 1000);
        }
        _ => panic!("expected the boosted prefix match"),
    }
}

#[test]
fn proximity_prior_with_focus() {
    let focus = Coord::new(2_352_200, 48_856_600);
    let q = build_query("louvre", MatchType::Prefix, &Some(focus), None);
    let (must, _) = outer_parts(q);
    let should = should_of(must.into_iter().next().unwrap());
    match &should[5] {
        QueryExpr::FunctionScore {
            boost,
            multiply,
            function,
        } => {
            assert_eq!(*boost, 1500);
            assert!(*multiply);
            match function {
                ScoreFunction::ExpDecay {
                    field,
                    origin,
                    scale_km,
                } => {
                    assert_eq!(field, "coord");
                    assert_eq!(*origin, focus);
                    assert_eq!(*scale_km, 50);
                }
                _ => panic!("expected exponential decay over the focus"),
            }
        }
        _ => panic!("expected a function score last"),
    }
}

#[test]
fn geo_polygon_appears_exactly_with_shape() {
    // Without a shape: the filter group holds the two conditions only.
    let q = build_query("x", MatchType::Prefix, &None, None);
    let (_, filter) = outer_parts(q);
    let conds = must_of(filter.into_iter().next().unwrap());
    assert_eq!(conds.len(), 2);
    for c in &conds {
        assert!(!matches!(c, QueryExpr::GeoPolygon { .. }));
    }

    // With a shape: exactly one geo-polygon clause, holding the ring.
    let ring = vec![
        Coord::new(0, 0),
        Coord::new(1_000_000, 0),
        Coord::new(1_000_000, 1_000_000),
        Coord::new(0, 1_000_000),
    ];
    let q = build_query("x", MatchType::Prefix, &None, Some(ring.clone()));
    let (_, filter) = outer_parts(q);
    let conds = must_of(filter.into_iter().next().unwrap());
    assert_eq!(conds.len(), 3);
    match &conds[2] {
        QueryExpr::GeoPolygon { field, points } => {
            assert_eq!(field, "coord");
            assert_eq!(points.len(), ring.len());
        }
        _ => panic!("expected the geo-polygon clause last"),
    }
}

#[test]
fn cross_fields_condition_by_mode() {
    // Prefix: cross-fields with the `and` operator, as for a query such
    // as "20 rue hector malot 75012" whose zip code lives outside the
    // label.
    let q = build_query("20 rue hector malot 75012", MatchType::Prefix, &None, None);
    let (_, filter) = outer_parts(q);
    let conds = must_of(filter.into_iter().next().unwrap());
    match &conds[1] {
        QueryExpr::MultiMatch {
            fields,
            text,
            cross_fields_and,
            min_should_match_pct,
        } => {
            assert_eq!(fields, &vec!["label.prefix", "zip_codes.prefix"]);
            assert_eq!(text, "20 rue hector malot 75012");
            assert!(*cross_fields_and);
            assert_eq!(*min_should_match_pct, None);
        }
        _ => panic!("expected the cross-field condition"),
    }

    // Fuzzy: 45% of the tokens suffice.
    let q = build_query("20 rue hector malot 75012", MatchType::Fuzzy, &None, None);
    let (_, filter) = outer_parts(q);
    let conds = must_of(filter.into_iter().next().unwrap());
    match &conds[1] {
        QueryExpr::MultiMatch {
            cross_fields_and,
            min_should_match_pct,
            ..
        } => {
            assert!(!*cross_fields_and);
            assert_eq!(*min_should_match_pct, Some(45));
        }
        _ => panic!("expected the cross-field condition"),
    }
}

#[test]
fn house_number_condition_shape() {
    let q = build_query("3 rue de la paix", MatchType::Prefix, &None, None);
    let (_, filter) = outer_parts(q);
    let conds = must_of(filter.into_iter().next().unwrap());
    match &conds[0] {
        QueryExpr::BoolQuery {
            should, must_not, ..
        } => {
            assert_eq!(must_not.len(), 0);
            assert_eq!(should.len(), 2);
            match &should[0] {
                QueryExpr::BoolQuery { must_not, .. } => {
                    assert_eq!(must_not.len(), 1);
                    match &must_not[0] {
                        QueryExpr::FieldExists { field } => assert_eq!(field, "house_number"),
                        _ => panic!("expected a field-exists clause"),
                    }
                }
                _ => panic!("expected the no-house-number alternative"),
            }
            match &should[1] {
                QueryExpr::MatchText { field, text, .. } => {
                    assert_eq!(field, "house_number");
                    assert_eq!(text, "3 rue de la paix");
                }
                _ => panic!("expected the house-number match"),
            }
        }
        _ => panic!("expected the house-number condition first"),
    }
}
