//! The typed document model that a conformant roster file decodes into.
//!
//! Every entity is an immutable value; a decoded document lives only for
//! the duration of one file's validation. Optional fields distinguish
//! "absent from the document" (`None`) from "present with an empty value".

use vstd::prelude::*;

verus! {

/// One make/model grouping of a fleet.
#[derive(Debug, Clone, PartialEq, Eq)]
pub struct VehicleType {
    pub manufacturer: String,
    pub model: String,
    pub roster: Vec<Roster>,
}

/// One fleet entry or sub-group within a vehicle type.
#[derive(Debug, Clone, PartialEq, Eq)]
pub struct Roster {
    pub fleet_selection: FleetSelector,
    pub engine: Option<String>,
    pub transmission: Option<String>,
    pub notes: Option<String>,
    pub years: Option<Vec<u16>>,
    pub division: Option<String>,
}

/// Identifies which fleet numbers or codes a roster entry covers.
/// A numeric range `start_number..end_number` is inclusive on both ends;
/// nothing here enforces that the bounds are ordered or that numeric and
/// text selectors are mutually exclusive.
#[derive(Debug, Clone, PartialEq, Eq)]
pub struct FleetSelector {
    pub start_number: Option<u32>,
    pub end_number: Option<u32>,
    pub start_text: Option<String>,
    pub end_text: Option<String>,
    pub use_numeric_sorting: bool,
}

/// The top-level parsed unit of one roster file.
#[derive(Debug, Clone, PartialEq, Eq)]
pub struct RootOfVehicleFile {
    pub vehicles: Vec<VehicleType>,
}

} // verus!
