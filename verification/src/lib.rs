//! Geographic autocomplete and place-indexing core.
//!
//! Heterogeneous geospatial records (administrative zones, streets, postal
//! addresses, points of interest, public-transport stops) are normalised into
//! a common place model, and a ranked prefix/fuzzy autocompletion request is
//! translated into a structured multi-clause search expression.
//!
//! The crate holds only the decision and construction logic; the network
//! transport to the search backend, file ingestion and JSON codecs live in
//! the surrounding application.

pub mod autocomplete;
pub mod connection;
pub mod coord;
pub mod geofinder;
pub mod indexes;
pub mod places;
pub mod poi_enrich;
pub mod query_dsl;
pub mod strutil;
pub mod templates;
