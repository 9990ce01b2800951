//! The dual-write coordinator: one atomic batch per ingested record.
//!
//! For each record the coordinator assembles the nested metadata value once,
//! binds the two projection inserts around the one shared identifier, and
//! groups them into a single batch. Atomicity is the batch primitive's
//! contract: the backing store applies both statements or neither, so the
//! coordinator never compensates for partial failure. Submission — and any
//! retry policy — belongs to the caller.

use vstd::prelude::*;

use crate::errors::WriteError;
use crate::metadata::build_metadata;
use crate::metadata::genre_set;
use crate::metadata::lemma_codec_deterministic;
use crate::metadata::metadata_sem_eq;
use crate::metadata::release_year_in_range;
use crate::movie::Movie;
use crate::movie::MovieId;
use crate::schema::Schema;
use crate::schema::schema_fault_of;
use crate::statement::MovieByGenreRow;
use crate::statement::MovieByPrimaryKeyRow;
use crate::statement::Statement;
use crate::statement::bind_genre_insert;
use crate::statement::bind_primary_key_insert;
use crate::statement::genre_row_for;
use crate::statement::primary_row_for;

verus! {

/// The atomic unit of one record's ingestion: exactly the two projection
/// inserts, applied together or not at all by the backing store's batch
/// primitive.
pub struct MovieBatch {
    pub statements: Vec<Statement>,
}

/// What one record's dual write owes: exactly two statements, one insert per
/// projection, both bound around the same identifier and the record's data.
pub open spec fn dual_write_for(b: MovieBatch, id: MovieId, m: Movie) -> bool {
    &&& b.statements@.len() == 2
    &&& b.statements@[0] matches Statement::InsertMovie(row) && primary_row_for(row, id, m)
    &&& b.statements@[1] matches Statement::InsertMovieByGenre(row) && genre_row_for(row, id, m)
}

/// Plans one record's dual write: builds the metadata value once, binds both
/// projection inserts with the shared identifier, and groups them into one
/// atomic batch, ready for submission.
///
/// Succeeds exactly when the nested metadata type resolves from the snapshot
/// and `release_year` fits its field; on any error no statement leaves the
/// coordinator, so neither row can be written. The identifier is assigned by
/// the caller, one fresh value per record; nothing here deduplicates records.
pub fn write_movie(schema: &Schema, id: MovieId, movie: &Movie) -> (r: Result<
    MovieBatch,
    WriteError,
>)
    ensures
        match schema_fault_of(*schema, "movie"@, "metadata"@) {
            Some(f) => r == Err::<MovieBatch, WriteError>(WriteError::SchemaResolution(f)),
            None => if release_year_in_range(*movie) {
                r matches Ok(b) && dual_write_for(b, id, *movie)
            } else {
                r == Err::<MovieBatch, WriteError>(WriteError::Range)
            },
        },
{
    let metadata = match build_metadata(schema, "movie", "metadata", movie) {
        Err(e) => {
            return Err(e);
        },
        Ok(metadata) => metadata,
    };
    let primary = bind_primary_key_insert(id, movie, &metadata);
    let by_genre = bind_genre_insert(id, movie, &metadata);
    let mut statements: Vec<Statement> = Vec::new();
    statements.push(primary);
    statements.push(by_genre);
    Ok(MovieBatch { statements })
}

/// The two rows of one dual write share the record's identity: the same
/// identifier, the same title, and semantically equal metadata — equal
/// release year, duration and genre set.
pub proof fn lemma_dual_write_shares_identity(
    b: MovieBatch,
    id: MovieId,
    m: Movie,
    primary: MovieByPrimaryKeyRow,
    by_genre: MovieByGenreRow,
)
    requires
        dual_write_for(b, id, m),
        b.statements@[0] == Statement::InsertMovie(primary),
        b.statements@[1] == Statement::InsertMovieByGenre(by_genre),
    ensures
        primary.id == by_genre.movie_id,
        primary.title@ == by_genre.title@,
        metadata_sem_eq(primary.metadata, by_genre.metadata),
{
    lemma_codec_deterministic(primary.metadata, by_genre.metadata, m);
}

/// Dual writes with distinct identifiers never interfere: each projection
/// insert targets its own row key, so two records ingested concurrently — or
/// one record ingested twice — produce four distinct rows. In particular,
/// ingestion is not idempotent: re-ingesting an equal record under a fresh
/// identifier adds a second pair of rows rather than overwriting the first.
pub proof fn lemma_distinct_ids_distinct_rows(
    b1: MovieBatch,
    b2: MovieBatch,
    id1: MovieId,
    id2: MovieId,
    m1: Movie,
    m2: Movie,
    primary1: MovieByPrimaryKeyRow,
    primary2: MovieByPrimaryKeyRow,
    by_genre1: MovieByGenreRow,
    by_genre2: MovieByGenreRow,
)
    requires
        dual_write_for(b1, id1, m1),
        dual_write_for(b2, id2, m2),
        b1.statements@[0] == Statement::InsertMovie(primary1),
        b2.statements@[0] == Statement::InsertMovie(primary2),
        b1.statements@[1] == Statement::InsertMovieByGenre(by_genre1),
        b2.statements@[1] == Statement::InsertMovieByGenre(by_genre2),
        id1 != id2,
    ensures
        primary1.id != primary2.id,
        by_genre1.movie_id != by_genre2.movie_id,
        primary1 != primary2,
        by_genre1 != by_genre2,
{
}

} // verus!
