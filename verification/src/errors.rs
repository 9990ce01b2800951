//! Why a record's ingestion is aborted.
//!
//! Every error is fatal to the one record it concerns; the library never
//! retries and never submits a partial write. Retry policy belongs to the
//! caller.

use vstd::prelude::*;

verus! {

/// The field of the nested metadata type that a schema lookup concerned.
#[derive(Clone, Copy, PartialEq, Eq, Structural, Debug)]
pub enum MetadataField {
    ReleaseYear,
    Duration,
    Genres,
}

/// What was missing when the nested metadata type was resolved against the
/// schema snapshot. Not retryable without a schema fix.
#[derive(Clone, Copy, PartialEq, Eq, Structural, Debug)]
pub enum SchemaFault {
    /// The keyspace is not in the snapshot.
    KeyspaceNotFound,
    /// The keyspace exists but declares no nested type of the given name.
    TypeNotFound,
    /// The nested type exists but lacks a required field.
    FieldNotFound(MetadataField),
}

/// Why a record's dual write was aborted.
#[derive(Clone, Copy, PartialEq, Eq, Structural, Debug)]
pub enum WriteError {
    /// The nested metadata type could not be resolved from the schema
    /// snapshot; nothing was built for the record.
    SchemaResolution(SchemaFault),
    /// `release_year` does not fit the signed 16-bit metadata field: a
    /// data-quality fault of the record itself.
    Range,
    /// The store's driver refused to bind a value into a statement. Raised by
    /// the unverified boundary, never by the library's own builders.
    Bind,
    /// Submission of the atomic batch failed; possibly transient, retryable at
    /// the caller's discretion. Raised by the unverified boundary.
    Submission,
}

impl WriteError {
    /// A short stable label for logs.
    pub fn label(&self) -> (r: &'static str)
        ensures
            r@ == match *self {
                WriteError::SchemaResolution(_) => "schema resolution error"@,
                WriteError::Range => "range error"@,
                WriteError::Bind => "bind error"@,
                WriteError::Submission => "write error"@,
            },
    {
        match *self {
            WriteError::SchemaResolution(_) => "schema resolution error",
            WriteError::Range => "range error",
            WriteError::Bind => "bind error",
            WriteError::Submission => "write error",
        }
    }
}

} // verus!
