use mimirsbrunn::autocomplete::{
    decode_hits, make_place, on_search_results, start_autocomplete, AutocompleteStage,
};
use mimirsbrunn::coord::Coord;
use mimirsbrunn::places::{Place, Stop};
use mimirsbrunn::query_dsl::MatchType;

fn stop(id: &str) -> Stop {
    Stop {
        id: id.to_string(),
        label: id.to_string(),
        name: id.to_string(),
        coord: Coord::new(0, 0),
        approx_coord: None,
        administrative_regions: vec![],
        weight_micro: 0,
        zip_codes: vec![],
        country_codes: vec![],
        commercial_modes: vec![],
        physical_modes: vec![],
        dataset: "fr".to_string(),
        distance: None,
    }
}

/// A stub backend that records how many searches were asked of it.
struct CountingBackend {
    prefix_hits: Vec<&'static str>,
    fuzzy_hits: Vec<&'static str>,
    searches: usize,
}

impl CountingBackend {
    fn search(&mut self, match_type: MatchType) -> Vec<Place> {
        self.searches += 1;
        let ids = match match_type {
            MatchType::Prefix => &self.prefix_hits,
            MatchType::Fuzzy => &self.fuzzy_hits,
        };
        ids.iter().map(|id| Place::Stop(stop(id))).collect()
    }
}

fn run_flow(backend: &mut CountingBackend, query_empty: bool, indices_empty: bool) -> Vec<Place> {
    let mut stage = start_autocomplete(query_empty, indices_empty);
    loop {
        match stage.pending_search() {
            Some(mt) => {
                let hits = backend.search(mt);
                stage = on_search_results(stage, hits);
            }
            None => match stage {
                AutocompleteStage::Done(results) => return results,
                _ => unreachable!(),
            },
        }
    }
}

#[test]
fn prefix_hit_skips_fuzzy() {
    let mut backend = CountingBackend {
        prefix_hits: vec!["stop:a", "stop:b"],
        fuzzy_hits: vec!["stop:z"],
        searches: 0,
    };
    let results = run_flow(&mut backend, false, false);
    // The prefix stage answered; the fuzzy stage was never executed.
    assert_eq!(backend.searches, 1);
    assert_eq!(results.len(), 2);
    match &results[0] {
        Place::Stop(s) => assert_eq!(s.id, "stop:a"),
        _ => panic!("expected a stop"),
    }
}

#[test]
fn empty_prefix_falls_back_to_fuzzy() {
    let mut backend = CountingBackend {
        prefix_hits: vec![],
        fuzzy_hits: vec!["stop:z"],
        searches: 0,
    };
    let results = run_flow(&mut backend, false, false);
    assert_eq!(backend.searches, 2);
    assert_eq!(results.len(), 1);
    match &results[0] {
        Place::Stop(s) => assert_eq!(s.id, "stop:z"),
        _ => panic!("expected a stop"),
    }
}

#[test]
fn both_stages_empty_yield_empty() {
    let mut backend = CountingBackend {
        prefix_hits: vec![],
        fuzzy_hits: vec![],
        searches: 0,
    };
    let results = run_flow(&mut backend, false, false);
    assert_eq!(backend.searches, 2);
    assert!(results.is_empty());
}

#[test]
fn empty_query_short_circuits() {
    let mut backend = CountingBackend {
        prefix_hits: vec!["stop:a"],
        fuzzy_hits: vec!["stop:z"],
        searches: 0,
    };
    // An empty query text yields an empty result without any search.
    let results = run_flow(&mut backend, true, false);
    assert_eq!(backend.searches, 0);
    assert!(results.is_empty());
}

#[test]
fn no_index_short_circuits() {
    let mut backend = CountingBackend {
        prefix_hits: vec!["stop:a"],
        fuzzy_hits: vec!["stop:z"],
        searches: 0,
    };
    // With no index to search, no search runs at all.
    let results = run_flow(&mut backend, false, true);
    assert_eq!(backend.searches, 0);
    assert!(results.is_empty());
}

#[test]
fn make_place_checks_the_tag() {
    // A known tag with the agreeing variant decodes to that variant.
    let p = make_place("stop".to_string(), Some(Box::new(Place::Stop(stop("stop:1")))));
    match p {
        Some(Place::Stop(s)) => assert_eq!(s.id, "stop:1"),
        _ => panic!("expected the stop to decode"),
    }
    // An unknown tag is dropped.
    assert!(make_place("blob".to_string(), Some(Box::new(Place::Stop(stop("stop:1"))))).is_none());
    // A hit without a body is dropped.
    assert!(make_place("stop".to_string(), None).is_none());
    // A body under the wrong tag is dropped.
    assert!(make_place("addr".to_string(), Some(Box::new(Place::Stop(stop("stop:1"))))).is_none());
}

#[test]
fn decode_hits_keeps_backend_order() {
    let hits = vec![
        ("stop".to_string(), Some(Box::new(Place::Stop(stop("stop:1"))))),
        ("mystery".to_string(), Some(Box::new(Place::Stop(stop("stop:2"))))),
        ("stop".to_string(), None),
        ("stop".to_string(), Some(Box::new(Place::Stop(stop("stop:3"))))),
    ];
    let places = decode_hits(hits);
    assert_eq!(places.len(), 2);
    match (&places[0], &places[1]) {
        (Place::Stop(a), Place::Stop(b)) => {
            assert_eq!(a.id, "stop:1");
            assert_eq!(b.id, "stop:3");
        }
        _ => panic!("expected two stops in backend order"),
    }
}
