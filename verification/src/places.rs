//! The common place model: administrative zones, streets, postal
//! addresses, points of interest and public-transport stops, each a
//! variant of [`Place`] with a stable namespaced identifier, a display
//! label, a WGS84 coordinate and an importance prior.
//!
//! Admin hierarchies are held as shared-ownership handles, ordered from
//! the finest containing zone to the coarsest.

use std::sync::Arc;
use vstd::prelude::*;
use vstd::string::StrSliceExecFns;
use vstd::string::StringExecFns;

use crate::coord::Coord;
use crate::strutil::str_starts_with;

verus! {

/// Relies on std::sync::Arc::clone: the returned handle refers to the
/// same value as the argument.
#[verifier::external_body]
pub fn arc_clone<T>(v: &Arc<T>) -> (res: Arc<T>)
    ensures
        res == *v,
{
    Arc::clone(v)
}

/// The kind of an administrative zone, finest first.
#[derive(Clone, Copy, PartialEq, Eq, Structural, Debug)]
pub enum ZoneType {
    Suburb,
    CityDistrict,
    City,
    StateDistrict,
    State,
    CountryRegion,
    Country,
    NonAdministrative,
}

/// The nesting rank of a zone type: smaller is finer.
pub open spec fn spec_zone_rank(z: ZoneType) -> int {
    match z {
        ZoneType::Suburb => 0,
        ZoneType::CityDistrict => 1,
        ZoneType::City => 2,
        ZoneType::StateDistrict => 3,
        ZoneType::State => 4,
        ZoneType::CountryRegion => 5,
        ZoneType::Country => 6,
        ZoneType::NonAdministrative => 7,
    }
}

/// The rank used for ordering admins finest-first; an absent zone type
/// sorts last.
pub open spec fn spec_admin_rank(z: Option<ZoneType>) -> int {
    match z {
        Some(t) => spec_zone_rank(t),
        None => 8,
    }
}

/// An administrative zone: a polygonal boundary with localised names and
/// external codes.
#[derive(Debug)]
pub struct Admin {
    /// Stable identifier, namespaced by kind.
    pub id: String,
    pub name: String,
    pub label: String,
    pub zone_type: Option<ZoneType>,
    pub coord: Coord,
    /// The boundary as a closed polygon ring; admins without a boundary
    /// are excluded from the geofinder.
    pub boundary: Option<Vec<Coord>>,
    /// Importance prior, in millionths.
    pub weight_micro: u64,
    pub zip_codes: Vec<String>,
    /// ISO 3166-1 alpha-2 codes, possibly empty.
    pub country_codes: Vec<String>,
    /// External (scheme, value) code pairs, in order.
    pub codes: Vec<(String, String)>,
    /// Localised names by language code; keys unique.
    pub names: Vec<(String, String)>,
    /// Localised labels by language code; keys unique.
    pub labels: Vec<(String, String)>,
}

impl Admin {
    /// The document type tag under which admins are indexed.
    pub fn doc_type() -> (r: &'static str)
        ensures
            r@ == "admin"@,
    {
        "admin"
    }

    /// The ordering rank of this admin, finest first.
    pub fn rank(&self) -> (r: i32)
        ensures
            r == spec_admin_rank(self.zone_type),
    {
        match self.zone_type {
            Some(ZoneType::Suburb) => 0,
            Some(ZoneType::CityDistrict) => 1,
            Some(ZoneType::City) => 2,
            Some(ZoneType::StateDistrict) => 3,
            Some(ZoneType::State) => 4,
            Some(ZoneType::CountryRegion) => 5,
            Some(ZoneType::Country) => 6,
            Some(ZoneType::NonAdministrative) => 7,
            None => 8,
        }
    }

    /// Whether this admin is flagged as a city.
    pub fn is_city(&self) -> (r: bool)
        ensures
            r == (self.zone_type matches Some(ZoneType::City)),
    {
        match self.zone_type {
            Some(ZoneType::City) => true,
            _ => false,
        }
    }
}

/// A hierarchy of admin handles ordered from the finest containing zone
/// to the coarsest.
pub open spec fn admins_finest_first(s: Seq<Arc<Admin>>) -> bool {
    forall|i: int, j: int|
        0 <= i <= j < s.len() ==> spec_admin_rank(#[trigger] s[i].zone_type) <= spec_admin_rank(
            #[trigger] s[j].zone_type,
        )
}

/// Clones a list of admin handles; every handle in the copy refers to
/// the same admin as its original.
pub fn clone_admin_handles(v: &Vec<Arc<Admin>>) -> (r: Vec<Arc<Admin>>)
    ensures
        r@ =~= v@,
{
    let mut r: Vec<Arc<Admin>> = Vec::new();
    let mut i: usize = 0;
    while i < v.len()
        invariant
            i <= v.len(),
            r@.len() == i,
            forall|j: int| 0 <= j < i ==> r@[j] == v@[j],
        decreases v.len() - i,
    {
        r.push(arc_clone(&v[i]));
        i += 1;
    }
    r
}

/// A street, with the admin hierarchy it belongs to.
#[derive(Debug)]
pub struct Street {
    pub id: String,
    pub name: String,
    pub label: String,
    pub coord: Coord,
    pub approx_coord: Option<Coord>,
    /// Importance prior, in millionths.
    pub weight_micro: u64,
    pub zip_codes: Vec<String>,
    pub country_codes: Vec<String>,
    /// The admin hierarchy, finest to coarsest.
    pub administrative_regions: Vec<Arc<Admin>>,
    /// Metres from the query focus; set on read-back only.
    pub distance: Option<u32>,
}

impl Street {
    /// The document type tag under which streets are indexed.
    pub fn doc_type() -> (r: &'static str)
        ensures
            r@ == "street"@,
    {
        "street"
    }

    /// The admin hierarchy of the street, finest first.
    pub fn admins(&self) -> (r: Vec<Arc<Admin>>)
        ensures
            r@ =~= self.administrative_regions@,
    {
        clone_admin_handles(&self.administrative_regions)
    }
}

/// A postal address: a house number on a street.
#[derive(Debug)]
pub struct Addr {
    pub id: String,
    pub name: String,
    pub house_number: String,
    pub street: Street,
    pub label: String,
    pub coord: Coord,
    /// Coarse point geometry used by geo-shape queries; less precise but
    /// faster than `coord`.
    pub approx_coord: Option<Coord>,
    /// Importance prior, in millionths.
    pub weight_micro: u64,
    pub zip_codes: Vec<String>,
    pub country_codes: Vec<String>,
    /// Metres from the query focus; set on read-back only.
    pub distance: Option<u32>,
}

impl Addr {
    /// Addresses belong to the generic geographic data alias.
    pub fn is_geo_data() -> (r: bool)
        ensures
            r,
    {
        true
    }

    /// The document type tag under which addresses are indexed.
    pub fn doc_type() -> (r: &'static str)
        ensures
            r@ == "addr"@,
    {
        "addr"
    }

    /// The identifier under which this address is stored.
    pub fn es_id(&self) -> (r: Option<String>)
        ensures
            r matches Some(s) && s@ == self.id@,
    {
        Some(self.id.clone())
    }

    /// The display label.
    pub fn label(&self) -> (r: &str)
        ensures
            r@ == self.label@,
    {
        self.label.as_str()
    }

    /// The admin hierarchy, inherited from the street, finest first.
    pub fn admins(&self) -> (r: Vec<Arc<Admin>>)
        ensures
            r@ =~= self.street.administrative_regions@,
    {
        self.street.admins()
    }
}

/// The kind of a point of interest.
#[derive(Debug)]
pub struct PoiType {
    pub id: String,
    pub name: String,
}

/// A point of interest, enriched with its admin hierarchy and an
/// optional nearby address.
#[derive(Debug)]
pub struct Poi {
    pub id: String,
    pub label: String,
    pub name: String,
    pub coord: Coord,
    pub approx_coord: Option<Coord>,
    /// The resolved admin hierarchy, finest to coarsest; never empty for
    /// an emitted POI.
    pub administrative_regions: Vec<Arc<Admin>>,
    /// Importance prior, in millionths.
    pub weight_micro: u64,
    pub zip_codes: Vec<String>,
    pub poi_type: PoiType,
    /// Free-form key/value properties; keys unique, order irrelevant.
    pub properties: Vec<(String, String)>,
    /// The nearby address, when reverse geocoding found one.
    pub address: Option<Addr>,
    pub country_codes: Vec<String>,
    /// Localised names by language code; keys unique.
    pub names: Vec<(String, String)>,
    /// Localised labels by language code; keys unique.
    pub labels: Vec<(String, String)>,
    /// Metres from the query focus; set on read-back only.
    pub distance: Option<u32>,
}

impl Poi {
    /// The document type tag under which POIs are indexed.
    pub fn doc_type() -> (r: &'static str)
        ensures
            r@ == "poi"@,
    {
        "poi"
    }

    /// An indexable POI: the coordinate is in bounds and the admin
    /// hierarchy is non-empty and ordered finest-first.
    pub open spec fn wf(&self) -> bool {
        &&& self.coord.valid()
        &&& self.administrative_regions@.len() > 0
        &&& admins_finest_first(self.administrative_regions@)
    }
}

/// A public-transport stop.
#[derive(Debug)]
pub struct Stop {
    pub id: String,
    pub label: String,
    pub name: String,
    pub coord: Coord,
    pub approx_coord: Option<Coord>,
    /// The admin hierarchy, finest to coarsest.
    pub administrative_regions: Vec<Arc<Admin>>,
    /// Importance prior, in millionths.
    pub weight_micro: u64,
    pub zip_codes: Vec<String>,
    pub country_codes: Vec<String>,
    /// Commercial transport modes serving the stop.
    pub commercial_modes: Vec<String>,
    /// Physical transport modes serving the stop.
    pub physical_modes: Vec<String>,
    /// The dataset this stop is scoped to.
    pub dataset: String,
    /// Metres from the query focus; set on read-back only.
    pub distance: Option<u32>,
}

impl Stop {
    /// The document type tag under which stops are indexed.
    pub fn doc_type() -> (r: &'static str)
        ensures
            r@ == "stop"@,
    {
        "stop"
    }
}

/// A place: the tagged union over every indexed document kind.
#[derive(Debug)]
pub enum Place {
    Admin(Admin),
    Street(Street),
    Addr(Addr),
    Poi(Poi),
    Stop(Stop),
}

/// The document type tag of each place variant.
pub open spec fn spec_place_doc_type(p: Place) -> Seq<char> {
    match p {
        Place::Admin(_) => "admin"@,
        Place::Street(_) => "street"@,
        Place::Addr(_) => "addr"@,
        Place::Poi(_) => "poi"@,
        Place::Stop(_) => "stop"@,
    }
}

/// The admin hierarchy attached to each place variant. An admin carries
/// no hierarchy of its own here: the reverse-geocoding and enrichment
/// paths only consult streets, addresses, POIs and stops.
pub open spec fn spec_place_admins(p: Place) -> Seq<Arc<Admin>> {
    match p {
        Place::Admin(_) => Seq::<Arc<Admin>>::empty(),
        Place::Street(s) => s.administrative_regions@,
        Place::Addr(a) => a.street.administrative_regions@,
        Place::Poi(q) => q.administrative_regions@,
        Place::Stop(s) => s.administrative_regions@,
    }
}

/// The address carried by each place variant, if it is one.
pub open spec fn spec_place_address(p: Place) -> Option<Addr> {
    match p {
        Place::Addr(a) => Some(a),
        _ => None,
    }
}

impl Place {
    /// The document type tag of this place.
    pub fn doc_type(&self) -> (r: &'static str)
        ensures
            r@ == spec_place_doc_type(*self),
    {
        match self {
            Place::Admin(_) => "admin",
            Place::Street(_) => "street",
            Place::Addr(_) => "addr",
            Place::Poi(_) => "poi",
            Place::Stop(_) => "stop",
        }
    }

    /// The display label of this place.
    pub fn label(&self) -> (r: &str)
        ensures
            r@ == (match *self {
                Place::Admin(ref a) => a.label@,
                Place::Street(ref s) => s.label@,
                Place::Addr(ref a) => a.label@,
                Place::Poi(ref p) => p.label@,
                Place::Stop(ref s) => s.label@,
            }),
    {
        match self {
            Place::Admin(a) => a.label.as_str(),
            Place::Street(s) => s.label.as_str(),
            Place::Addr(a) => a.label.as_str(),
            Place::Poi(p) => p.label.as_str(),
            Place::Stop(s) => s.label.as_str(),
        }
    }

    /// The admin hierarchy attached to this place, finest first.
    pub fn admins(&self) -> (r: Vec<Arc<Admin>>)
        ensures
            r@ =~= spec_place_admins(*self),
    {
        match self {
            Place::Admin(_) => Vec::new(),
            Place::Street(s) => s.admins(),
            Place::Addr(a) => a.admins(),
            Place::Poi(p) => clone_admin_handles(&p.administrative_regions),
            Place::Stop(s) => clone_admin_handles(&s.administrative_regions),
        }
    }

    /// The address carried by this place, if it is one.
    pub fn address(self) -> (r: Option<Addr>)
        ensures
            r == spec_place_address(self),
    {
        match self {
            Place::Addr(a) => Some(a),
            _ => None,
        }
    }
}

/// The identifier `id`, namespaced by `prefix`: `prefix:id`, where one
/// already-present `prefix:` namespace is not doubled.
pub open spec fn spec_normalized_id(prefix: Seq<char>, id: Seq<char>) -> Seq<char> {
    let tag = prefix + ":"@;
    if tag.len() <= id.len() && id.subrange(0, tag.len() as int) == tag {
        tag + id.skip(tag.len() as int)
    } else {
        tag + id
    }
}

/// Namespaces an identifier by its document kind, without doubling an
/// existing namespace.
pub fn normalize_id(prefix: &str, id: &str) -> (r: String)
    ensures
        r@ == spec_normalized_id(prefix@, id@),
{
    let tag = String::from_str(prefix).concat(":");
    proof {
        reveal_strlit(":");
    }
    if str_starts_with(id, tag.as_str()) {
        let rest = id.substring_char(tag.as_str().unicode_len(), id.unicode_len());
        assert(rest@ =~= id@.skip(tag@.len() as int));
        tag.concat(rest)
    } else {
        tag.concat(id)
    }
}

/// A batch of alias moves applied atomically by the backend.
#[derive(Debug)]
pub struct AliasOperations {
    pub actions: Vec<AliasOperation>,
}

/// One alias move: an addition, a removal, or both.
#[derive(Debug)]
pub struct AliasOperation {
    pub add: Option<AliasParameter>,
    pub remove: Option<AliasParameter>,
}

/// The index and alias named by one alias move.
#[derive(Debug)]
pub struct AliasParameter {
    pub index: String,
    pub alias: String,
}

} // verus!
