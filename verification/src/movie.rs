//! The domain record as it arrives from the ingestion source, and the
//! identifier assigned to it at write time.

use vstd::prelude::*;

verus! {

/// A movie record as parsed from the external source. It carries no identity:
/// an identifier is assigned when the record is written.
///
/// `trailer` is parsed from the source but not written by any projection.
pub struct Movie {
    pub genre: String,
    pub title: String,
    pub trailer: String,
    pub release_year: u16,
    pub synopsis: String,
    pub duration: u16,
}

/// A 128-bit identifier, generated outside the library once per ingested
/// record and shared by both projections of that record.
#[derive(Clone, Copy, PartialEq, Eq, Structural, Debug)]
pub struct MovieId {
    pub high: u64,
    pub low: u64,
}

} // verus!
