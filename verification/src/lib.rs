//! A verified core for a denormalized movie catalog loader.
//!
//! The library plans the dual write of one movie record into two table
//! projections of a wide-column store: one keyed by a generated identifier,
//! one keyed by genre. The plan is built from plain values — the record, the
//! identifier, and a snapshot of the store's schema — and handed back as an
//! atomic batch of two fully-bound insert rows. Connection handling, identifier
//! generation and batch submission live outside the library.

pub mod errors;
pub mod metadata;
pub mod movie;
pub mod schema;
pub mod statement;
pub mod writer;
