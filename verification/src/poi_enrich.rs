//! POI enrichment: turning a raw point of interest into a canonical POI
//! record with its resolved type, admin hierarchy, country codes, label
//! and city weight.
//!
//! The backend work around it — streaming admins into the geofinder,
//! the 50 m reverse-geocode search, the bulk write — is the surrounding
//! application's; this module takes the reverse-geocode outcome as an
//! argument and decides everything else.

use std::sync::Arc;
use vstd::prelude::*;
use vstd::string::StringExecFns;

use crate::coord::Coord;
use crate::geofinder::spec_geo_matches;
use crate::geofinder::AdminGeoFinder;
use crate::places::normalize_id;
use crate::places::spec_place_address;
use crate::places::spec_place_admins;
use crate::places::Addr;
use crate::places::admins_finest_first;
use crate::places::Admin;
use crate::places::Place;
use crate::places::Poi;
use crate::places::PoiType;
use crate::strutil::clone_string_vec;
use crate::strutil::dec_rep;
use crate::strutil::str_eq;
use crate::strutil::u64_to_dec_string;

verus! {

/// A raw point of interest, as the file readers hand it over: plain
/// values, not yet enriched.
pub struct RawPoi {
    pub id: String,
    pub name: String,
    pub coord: Coord,
    pub poi_type_id: String,
    /// Free-form key/value properties.
    pub properties: Vec<(String, String)>,
}

/// The POI-type dictionary: identifier to display name, first entry
/// wins.
pub struct PoiTypeDict {
    pub entries: Vec<(String, String)>,
}

/// The name that the dictionary gives to a type identifier: that of the
/// first entry carrying it.
pub open spec fn spec_dict_lookup(entries: Seq<(String, String)>, id: Seq<char>) -> Option<String>
    decreases entries.len(),
{
    if entries.len() == 0 {
        None
    } else if entries.first().0@ == id {
        Some(entries.first().1)
    } else {
        spec_dict_lookup(entries.drop_first(), id)
    }
}

impl PoiTypeDict {
    /// Resolves a POI type identifier to the type record, or nothing
    /// when the dictionary does not know the identifier.
    pub fn lookup(&self, id: &str) -> (r: Option<PoiType>)
        ensures
            r matches Some(pt) ==> pt.id@ == id@ && spec_dict_lookup(self.entries@, id@) == Some(
                pt.name,
            ),
            (r is Some) == (spec_dict_lookup(self.entries@, id@) is Some),
    {
        let ghost all = self.entries@;
        proof {
            assert(all.skip(0) =~= all);
        }
        let mut i: usize = 0;
        while i < self.entries.len()
            invariant
                i <= all.len(),
                all == self.entries@,
                spec_dict_lookup(all, id@) == spec_dict_lookup(all.skip(i as int), id@),
            decreases all.len() - i,
        {
            let ghost at = all.skip(i as int);
            proof {
                assert(at.first() == all[i as int]);
                assert(at.drop_first() =~= all.skip(i + 1 as int));
            }
            if str_eq(self.entries[i].0.as_str(), id) {
                return Some(
                    PoiType { id: self.entries[i].0.clone(), name: self.entries[i].1.clone() },
                );
            }
            i += 1;
        }
        proof {
            assert(all.skip(all.len() as int) =~= Seq::<(String, String)>::empty());
        }
        None
    }
}

/// The errors under which one record is dropped while the pipeline
/// continues.
#[derive(Debug)]
pub enum Error {
    /// The POI names a type the dictionary does not know.
    UnrecognizedPoiType { details: String },
    /// Neither the reverse-geocoded place nor the geofinder yielded any
    /// admin for the POI's coordinate.
    NoAdminFound { details: String },
}

/// The country codes derived from an admin hierarchy: the finest
/// admin's non-empty list wins.
pub open spec fn spec_find_country_codes(admins: Seq<Arc<Admin>>) -> Seq<String>
    decreases admins.len(),
{
    if admins.len() == 0 {
        Seq::empty()
    } else if admins.first().country_codes@.len() > 0 {
        admins.first().country_codes@
    } else {
        spec_find_country_codes(admins.drop_first())
    }
}

/// Derives the country codes of a hierarchy: the finest non-empty
/// `country_codes` list wins; empty when none has one.
pub fn find_country_codes(admins: &Vec<Arc<Admin>>) -> (r: Vec<String>)
    ensures
        r@ =~= spec_find_country_codes(admins@),
{
    let ghost all = admins@;
    proof {
        assert(all.skip(0) =~= all);
    }
    let mut i: usize = 0;
    while i < admins.len()
        invariant
            i <= all.len(),
            all == admins@,
            spec_find_country_codes(all) == spec_find_country_codes(all.skip(i as int)),
        decreases all.len() - i,
    {
        let ghost at = all.skip(i as int);
        proof {
            assert(at.first() == all[i as int]);
            assert(at.drop_first() =~= all.skip(i + 1 as int));
        }
        if admins[i].country_codes.len() > 0 {
            return clone_string_vec(&admins[i].country_codes);
        }
        i += 1;
    }
    proof {
        assert(all.skip(all.len() as int) =~= Seq::<Arc<Admin>>::empty());
    }
    Vec::new()
}

/// The weight of a POI: that of the first admin flagged as a city, or
/// zero when the hierarchy has none.
pub open spec fn spec_city_weight(admins: Seq<Arc<Admin>>) -> u64
    decreases admins.len(),
{
    if admins.len() == 0 {
        0
    } else if admins.first().zone_type matches Some(crate::places::ZoneType::City) {
        admins.first().weight_micro
    } else {
        spec_city_weight(admins.drop_first())
    }
}

/// Selects the weight of the first city admin, or zero without one.
pub fn city_weight(admins: &Vec<Arc<Admin>>) -> (r: u64)
    ensures
        r == spec_city_weight(admins@),
{
    let ghost all = admins@;
    proof {
        assert(all.skip(0) =~= all);
    }
    let mut i: usize = 0;
    while i < admins.len()
        invariant
            i <= all.len(),
            all == admins@,
            spec_city_weight(all) == spec_city_weight(all.skip(i as int)),
        decreases all.len() - i,
    {
        let ghost at = all.skip(i as int);
        proof {
            assert(at.first() == all[i as int]);
            assert(at.drop_first() =~= all.skip(i + 1 as int));
        }
        if admins[i].is_city() {
            return admins[i].weight_micro;
        }
        i += 1;
    }
    proof {
        assert(all.skip(all.len() as int) =~= Seq::<Arc<Admin>>::empty());
    }
    0
}

/// The display label of a POI: its name, followed by the name of the
/// finest containing admin in parentheses; the bare name when no admin
/// is known.
pub open spec fn spec_poi_label(name: Seq<char>, admins: Seq<Arc<Admin>>) -> Seq<char> {
    if admins.len() == 0 {
        name
    } else {
        name + " ("@ + admins.first().name@ + ")"@
    }
}

/// Composes the label of a POI from its name and its admin hierarchy.
pub fn format_poi_label(name: &str, admins: &Vec<Arc<Admin>>) -> (r: String)
    ensures
        r@ == spec_poi_label(name@, admins@),
{
    if admins.len() == 0 {
        String::from_str(name)
    } else {
        String::from_str(name).concat(" (").concat(admins[0].name.as_str()).concat(")")
    }
}

/// The admin hierarchy that enrichment resolves for a POI: that of the
/// reverse-geocoded place when one came back, otherwise what the
/// geofinder holds at the POI's coordinate.
pub open spec fn spec_resolved_admins(
    reverse_place: Option<Place>,
    store: Seq<Arc<Admin>>,
    c: Coord,
) -> Seq<Arc<Admin>> {
    match reverse_place {
        Some(p) => spec_place_admins(p),
        None => spec_geo_matches(store, c),
    }
}

/// The radius of the reverse-geocode search around a POI, rendered for
/// the backend's distance dialect: the number of metres followed by
/// `m`.
pub fn reverse_geocode_radius(metres: u64) -> (r: String)
    ensures
        r@ == dec_rep(metres as nat) + "m"@,
{
    u64_to_dec_string(metres).concat("m")
}

/// The reverse-geocode request: the nearest document of the named kinds
/// within the radius of the coordinate, at most one hit.
#[derive(Debug)]
pub struct ReverseQuery {
    /// The radius in the backend's distance dialect, metres followed by
    /// `m`.
    pub radius: String,
    /// The centre of the search.
    pub coord: Coord,
    /// The document kinds consulted.
    pub doc_types: Vec<String>,
    /// The number of hits asked for.
    pub limit: u64,
}

/// Builds the reverse-geocode request around a POI coordinate: the
/// given radius in metres, restricted to streets and addresses, one hit.
pub fn build_reverse_query(radius_metres: u64, coord: Coord) -> (r: ReverseQuery)
    ensures
        r.radius@ == dec_rep(radius_metres as nat) + "m"@,
        r.coord == coord,
        r.doc_types.deep_view() =~= seq!["street"@, "addr"@],
        r.limit == 1,
{
    let mut doc_types: Vec<String> = Vec::new();
    doc_types.push(String::from_str(crate::places::Street::doc_type()));
    doc_types.push(String::from_str(crate::places::Addr::doc_type()));
    ReverseQuery { radius: reverse_geocode_radius(radius_metres), coord, doc_types, limit: 1 }
}

/// Enriches one raw POI: resolves its type against the dictionary,
/// takes the admin hierarchy from the reverse-geocoded place or, when
/// no place came back, from the geofinder, and composes the canonical
/// record with label, country codes and city weight.
///
/// A POI whose type the dictionary does not know is dropped with
/// `UnrecognizedPoiType`; one for which no admin can be resolved is
/// dropped with `NoAdminFound`. Every emitted POI carries a non-empty
/// admin hierarchy.
pub fn into_poi(
    poi: RawPoi,
    poi_types: &PoiTypeDict,
    reverse_place: Option<Place>,
    geofinder: &AdminGeoFinder,
) -> (r: Result<Poi, Error>)
    requires
        geofinder.wf(),
        poi.coord.valid(),
        reverse_place matches Some(p) ==> admins_finest_first(spec_place_admins(p)),
    ensures
        ({
            let resolved = spec_resolved_admins(reverse_place, geofinder.admins@, poi.coord);
            let looked_up = spec_dict_lookup(poi_types.entries@, poi.poi_type_id@);
            &&& (r is Ok) == (looked_up is Some && resolved.len() > 0)
            &&& (r matches Err(Error::UnrecognizedPoiType { details }) ==> looked_up is None
                && details == poi.poi_type_id)
            &&& (looked_up is None ==> r matches Err(Error::UnrecognizedPoiType { details }))
            &&& (r matches Err(Error::NoAdminFound { details }) ==> looked_up is Some
                && resolved.len() == 0 && details@ == "Could not find admins for POI "@
                + poi.id@)
            &&& (r matches Ok(p) ==> {
                &&& p.wf()
                &&& p.administrative_regions@ =~= resolved
                &&& p.administrative_regions@.len() > 0
                &&& p.id@ == crate::places::spec_normalized_id("poi"@, poi.id@)
                &&& p.name == poi.name
                &&& p.coord == poi.coord
                &&& p.approx_coord == Some(poi.coord)
                &&& p.weight_micro == spec_city_weight(resolved)
                &&& p.country_codes@ =~= spec_find_country_codes(resolved)
                &&& p.label@ == spec_poi_label(poi.name@, resolved)
                &&& p.poi_type.id@ == poi.poi_type_id@
                &&& Some(p.poi_type.name) == looked_up
                &&& p.properties == poi.properties
                &&& p.address == (match reverse_place {
                    Some(q) => spec_place_address(q),
                    None => None::<Addr>,
                })
                &&& p.zip_codes@.len() == 0
                &&& p.names@.len() == 0
                &&& p.labels@.len() == 0
                &&& p.distance is None
            })
        }),
{
    let poi_type = match poi_types.lookup(poi.poi_type_id.as_str()) {
        Some(pt) => pt,
        None => {
            return Err(Error::UnrecognizedPoiType { details: poi.poi_type_id });
        },
    };

    let admins = match &reverse_place {
        Some(p) => p.admins(),
        None => geofinder.get(poi.coord),
    };

    if admins.len() == 0 {
        return Err(
            Error::NoAdminFound {
                details: String::from_str("Could not find admins for POI ").concat(
                    poi.id.as_str(),
                ),
            },
        );
    }

    let weight_micro = city_weight(&admins);
    let country_codes = find_country_codes(&admins);
    let label = format_poi_label(poi.name.as_str(), &admins);
    let address = match reverse_place {
        Some(p) => p.address(),
        None => None,
    };

    Ok(
        Poi {
            id: normalize_id("poi", poi.id.as_str()),
            label,
            name: poi.name,
            coord: poi.coord,
            approx_coord: Some(poi.coord),
            administrative_regions: admins,
            weight_micro,
            zip_codes: Vec::new(),
            poi_type,
            properties: poi.properties,
            address,
            country_codes,
            names: Vec::new(),
            labels: Vec::new(),
            distance: None,
        },
    )
}

} // verus!
