use std::sync::Arc;

use mimirsbrunn::coord::Coord;
use mimirsbrunn::geofinder::{point_in_polygon, AdminGeoFinder};
use mimirsbrunn::places::{normalize_id, Addr, Admin, Place, Street, ZoneType};
use mimirsbrunn::poi_enrich::{into_poi, Error, PoiTypeDict, RawPoi};

fn admin(id: &str, name: &str, zone: Option<ZoneType>, weight: u64, ring: Option<Vec<Coord>>) -> Admin {
    Admin {
        id: id.to_string(),
        name: name.to_string(),
        label: name.to_string(),
        zone_type: zone,
        coord: Coord::new(0, 0),
        boundary: ring,
        weight_micro: weight,
        zip_codes: vec![],
        country_codes: vec![],
        codes: vec![],
        names: vec![],
        labels: vec![],
    }
}

fn square(half: i64) -> Vec<Coord> {
    vec![
        Coord::new(-half, -half),
        Coord::new(half, -half),
        Coord::new(half, half),
        Coord::new(-half, half),
    ]
}

fn raw_poi(id: &str, type_id: &str) -> RawPoi {
    RawPoi {
        id: id.to_string(),
        name: "Fontaine".to_string(),
        coord: Coord::new(0, 0),
        poi_type_id: type_id.to_string(),
        properties: vec![("amenity".to_string(), "fountain".to_string())],
    }
}

fn dict() -> PoiTypeDict {
    PoiTypeDict {
        entries: vec![("poi_type:amenity:fountain".to_string(), "Fountain".to_string())],
    }
}

#[test]
fn point_in_polygon_basics() {
    let ring = square(1_000_000);
    assert!(point_in_polygon(Coord::new(0, 0), &ring));
    assert!(point_in_polygon(Coord::new(900_000, 900_000), &ring));
    assert!(!point_in_polygon(Coord::new(2_000_000, 0), &ring));
    assert!(!point_in_polygon(Coord::new(0, -3_000_000), &ring));
    // An empty ring contains nothing.
    assert!(!point_in_polygon(Coord::new(0, 0), &vec![]));
}

#[test]
fn geofinder_orders_finest_first() {
    // The state is pushed before the city; the finder returns the city
    // first. The admin without a boundary is excluded.
    let finder = AdminGeoFinder::new(vec![
        admin("admin:1", "Bretagne", Some(ZoneType::State), 2_298, Some(square(4_000_000))),
        admin("admin:3", "Nulle Part", Some(ZoneType::City), 1, None),
        admin("admin:2", "Rennes", Some(ZoneType::City), 500_000, Some(square(1_000_000))),
    ]);
    let found = finder.get(Coord::new(0, 0));
    assert_eq!(found.len(), 2);
    assert_eq!(found[0].id, "admin:2");
    assert_eq!(found[1].id, "admin:1");

    // A point inside the state but outside the city yields only the state.
    let found = finder.get(Coord::new(2_000_000, 2_000_000));
    assert_eq!(found.len(), 1);
    assert_eq!(found[0].id, "admin:1");

    // A point outside every admin yields nothing.
    let found = finder.get(Coord::new(90_000_000, 45_000_000));
    assert_eq!(found.len(), 0);
}

#[test]
fn into_poi_enriches_from_geofinder() {
    let mut city = admin("admin:2", "Rennes", Some(ZoneType::City), 500_000, Some(square(1_000_000)));
    city.country_codes = vec!["FR".to_string()];
    let state = admin("admin:1", "Bretagne", Some(ZoneType::State), 2_298, Some(square(4_000_000)));
    let finder = AdminGeoFinder::new(vec![state, city]);

    let poi = into_poi(raw_poi("osm:node:42", "poi_type:amenity:fountain"), &dict(), None, &finder)
        .unwrap();
    assert_eq!(poi.id, "poi:osm:node:42");
    assert_eq!(poi.label, "Fontaine (Rennes)");
    assert_eq!(poi.name, "Fontaine");
    // Every emitted POI carries a non-empty hierarchy, finest first.
    assert_eq!(poi.administrative_regions.len(), 2);
    assert_eq!(poi.administrative_regions[0].id, "admin:2");
    // The weight is the city's.
    assert_eq!(poi.weight_micro, 500_000);
    // The finest non-empty country-code list wins.
    assert_eq!(poi.country_codes, vec!["FR"]);
    assert_eq!(poi.poi_type.id, "poi_type:amenity:fountain");
    assert_eq!(poi.poi_type.name, "Fountain");
    assert!(poi.address.is_none());
    assert!(poi.zip_codes.is_empty());
}

#[test]
fn into_poi_prefers_reverse_geocoded_address() {
    let city = admin("admin:2", "Rennes", Some(ZoneType::City), 500_000, Some(square(1_000_000)));
    let finder = AdminGeoFinder::new(vec![]);
    let street = Street {
        id: "street:1".to_string(),
        name: "Rue de la Soif".to_string(),
        label: "Rue de la Soif (Rennes)".to_string(),
        coord: Coord::new(0, 0),
        approx_coord: None,
        weight_micro: 10,
        zip_codes: vec!["35000".to_string()],
        country_codes: vec![],
        administrative_regions: vec![Arc::new(city)],
        distance: None,
    };
    let addr = Addr {
        id: "addr:1".to_string(),
        name: "3 Rue de la Soif".to_string(),
        house_number: "3".to_string(),
        street,
        label: "3 Rue de la Soif (Rennes)".to_string(),
        coord: Coord::new(0, 0),
        approx_coord: None,
        weight_micro: 10,
        zip_codes: vec!["35000".to_string()],
        country_codes: vec![],
        distance: None,
    };

    let poi = into_poi(
        raw_poi("osm:node:7", "poi_type:amenity:fountain"),
        &dict(),
        Some(Place::Addr(addr)),
        &finder,
    )
    .unwrap();
    // The hierarchy comes from the reverse-geocoded address, and the
    // address itself is attached.
    assert_eq!(poi.administrative_regions.len(), 1);
    assert_eq!(poi.administrative_regions[0].id, "admin:2");
    assert_eq!(poi.address.as_ref().unwrap().id, "addr:1");
    assert_eq!(poi.weight_micro, 500_000);
}

#[test]
fn into_poi_unknown_type_is_dropped() {
    let finder = AdminGeoFinder::new(vec![admin(
        "admin:2",
        "Rennes",
        Some(ZoneType::City),
        500_000,
        Some(square(1_000_000)),
    )]);
    let err = into_poi(raw_poi("osm:node:42", "poi_type:unknown"), &dict(), None, &finder)
        .unwrap_err();
    match err {
        Error::UnrecognizedPoiType { details } => assert_eq!(details, "poi_type:unknown"),
        _ => panic!("expected an unrecognized type error"),
    }
}

#[test]
fn into_poi_without_admins_is_dropped() {
    let finder = AdminGeoFinder::new(vec![]);
    let err = into_poi(raw_poi("osm:node:42", "poi_type:amenity:fountain"), &dict(), None, &finder)
        .unwrap_err();
    match err {
        Error::NoAdminFound { details } => {
            assert_eq!(details, "Could not find admins for POI osm:node:42")
        }
        _ => panic!("expected a no-admin error"),
    }
}

#[test]
fn into_poi_no_city_weight_is_zero() {
    let finder = AdminGeoFinder::new(vec![admin(
        "admin:1",
        "Bretagne",
        Some(ZoneType::State),
        2_298,
        Some(square(4_000_000)),
    )]);
    let poi = into_poi(raw_poi("osm:node:42", "poi_type:amenity:fountain"), &dict(), None, &finder)
        .unwrap();
    assert_eq!(poi.weight_micro, 0);
    assert_eq!(poi.label, "Fontaine (Bretagne)");
}

#[test]
fn normalize_id_adds_namespace_once() {
    assert_eq!(normalize_id("poi", "osm:node:42"), "poi:osm:node:42");
    assert_eq!(normalize_id("poi", "poi:osm:node:42"), "poi:osm:node:42");
    assert_eq!(normalize_id("admin", ""), "admin:");
}
