//! The fault taxonomy shared by every component of the library.

use vstd::prelude::*;

verus! {

/// Faults surfaced to the calling layer.
///
/// `Storage` and `Migration` arise at the I/O boundary around the library
/// (opening, reading or writing the persisted file; parsing the legacy
/// snapshot); the verified operations themselves produce `Conflict`,
/// `DateParse`, `InvalidLicense` and `Transport`.
#[derive(Debug)]
pub enum Error {
    /// The persisted store could not be opened, read or written.
    Storage(String),
    /// An insert hit an identity that already exists.
    Conflict,
    /// The legacy snapshot document is structurally invalid.
    Migration(String),
    /// A stored date string could not be parsed as a calendar date.
    DateParse(String),
    /// The remote licensing service rejected the key.
    InvalidLicense,
    /// The remote licensing service was unreachable or reported failure;
    /// carries the remote's error text when available.
    Transport(String),
}

} // verus!
