//! Storage service library: search filters, resource records and their
//! sample data, and the in-memory tables and search that stand in for the
//! database when the service runs without one.

pub mod memsearch;
pub mod memstore;
pub mod platform;
pub mod resources;
pub mod search;
pub mod service;
pub mod text;

use vstd::prelude::*;

verus! {

/// The default SRID for the PostGIS types, WGS-84
pub const DEFAULT_SRID: i32 = 4326;

/// Command line options of the service.
#[derive(Debug, Clone, Copy, PartialEq, Eq, Structural, Default)]
pub struct Cli {
    /// Indicates if we should initialize the database. If not found, defaults to false
    pub init_psql: Option<bool>,
    /// Indicates if we should rebuild the database. If not found, defaults to false
    pub rebuild_psql: Option<bool>,
}

/// Error returned when an integer is not the wire value of any variant of
/// an enumeration; it holds the offending value.
#[derive(Clone, Copy, Debug, PartialEq, Eq, Structural)]
pub struct UnknownEnumValue(pub i32);

} // verus!
