//! The legacy flat-snapshot format: a single document holding clients,
//! projects and time entries with the field shapes of the prior version.
//! The migration consumes it once.
//!
//! Legacy durations are carried as integer thousandths of an hour, and
//! legacy rates as thousandths of a currency unit; the layer around the
//! library converts the document's fractional numbers when it parses the
//! snapshot file.

use vstd::prelude::*;

verus! {

pub struct OldData {
    pub clients: Vec<OldClient>,
    pub projects: Vec<OldProject>,
    pub time_entries: Vec<OldTimeEntry>,
}

pub struct OldClient {
    pub id: i32,
    pub name: String,
    pub email: String,
}

pub struct OldProject {
    pub id: i32,
    pub name: String,
    /// The referenced client's name (the legacy format keyed by name).
    pub client: String,
    /// Hourly rate in thousandths of a currency unit.
    pub rate: Option<i64>,
}

pub struct OldTimeEntry {
    pub id: i32,
    pub project_id: i32,
    /// Worked time in thousandths of an hour.
    pub hours_milli: u64,
    /// The day worked, as a calendar-date string.
    pub date: String,
}

} // verus!
