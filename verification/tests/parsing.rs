use mimirsbrunn::connection::parse_connection_string;
use mimirsbrunn::coord::Coord;
use mimirsbrunn::places::{AliasOperation, AliasOperations, AliasParameter};
use mimirsbrunn::poi_enrich::{build_reverse_query, reverse_geocode_radius};
use mimirsbrunn::strutil::u64_to_dec_string;
use mimirsbrunn::templates::Template;

#[test]
fn connection_strings_with_and_without_scheme() {
    assert_eq!(
        parse_connection_string("http://localhost:9200"),
        Some(("localhost".to_string(), 9200))
    );
    assert_eq!(
        parse_connection_string("https://search.example.com:443"),
        Some(("search.example.com".to_string(), 443))
    );
    assert_eq!(
        parse_connection_string("localhost:9200"),
        Some(("localhost".to_string(), 9200))
    );
    // The host runs to the first colon followed by a digit.
    assert_eq!(
        parse_connection_string("a:b:123"),
        Some(("a:b".to_string(), 123))
    );
    // The port is the digit run; what follows it is ignored.
    assert_eq!(
        parse_connection_string("host:9200/path"),
        Some(("host".to_string(), 9200))
    );
}

#[test]
fn connection_strings_rejected() {
    assert_eq!(parse_connection_string("no-port-here"), None);
    assert_eq!(parse_connection_string(""), None);
    assert_eq!(parse_connection_string("http://x"), None);
    // A port that does not fit a u32 is rejected, from the first value
    // past the largest one that fits.
    assert_eq!(
        parse_connection_string("host:4294967295"),
        Some(("host".to_string(), 4294967295))
    );
    assert_eq!(parse_connection_string("host:4294967296"), None);
    assert_eq!(parse_connection_string("host:99999999999"), None);
}

#[test]
fn decimal_rendering() {
    assert_eq!(u64_to_dec_string(0), "0");
    assert_eq!(u64_to_dec_string(7), "7");
    assert_eq!(u64_to_dec_string(50), "50");
    assert_eq!(u64_to_dec_string(120450), "120450");
}

#[test]
fn reverse_radius_dialect() {
    // The reverse-geocode radius: the number of metres followed by `m`.
    assert_eq!(reverse_geocode_radius(50), "50m");
    assert_eq!(reverse_geocode_radius(1000), "1000m");
}

#[test]
fn reverse_query_shape() {
    let q = build_reverse_query(50, Coord::new(2_352_200, 48_856_600));
    assert_eq!(q.radius, "50m");
    assert_eq!(q.coord, Coord::new(2_352_200, 48_856_600));
    assert_eq!(q.doc_types, vec!["street", "addr"]);
    assert_eq!(q.limit, 1);
}

#[test]
fn coord_validity_bounds() {
    assert!(Coord::new(180_000_000, 90_000_000).is_valid());
    assert!(Coord::new(-180_000_000, -90_000_000).is_valid());
    assert!(!Coord::new(180_000_001, 0).is_valid());
    assert!(!Coord::new(0, -90_000_001).is_valid());
}

#[test]
fn template_contexts() {
    assert_eq!(Template::Index.configure_context(), "create index template");
    assert_eq!(
        Template::Component.configure_context(),
        "create component template"
    );
}

#[test]
fn alias_operations_hold_their_moves() {
    let ops = AliasOperations {
        actions: vec![AliasOperation {
            add: Some(AliasParameter {
                index: "munin_admin_fr_20210101".to_string(),
                alias: "munin_admin".to_string(),
            }),
            remove: None,
        }],
    };
    assert_eq!(ops.actions.len(), 1);
    let add = ops.actions[0].add.as_ref().unwrap();
    assert_eq!(add.index, "munin_admin_fr_20210101");
    assert_eq!(add.alias, "munin_admin");
    assert!(ops.actions[0].remove.is_none());
}
