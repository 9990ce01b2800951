//! Fully-bound write statements for the two table projections.
//!
//! A statement is modelled as the row it inserts: every column value is bound
//! before the statement leaves the builder, so no partially-bound statement
//! can reach the coordinator. The unverified boundary turns each row into the
//! backing store's parameterized insert.

use vstd::prelude::*;

use crate::errors::WriteError;
use crate::metadata::MovieMetadata;
use crate::metadata::build_metadata;
use crate::metadata::metadata_matches;
use crate::metadata::metadata_view_eq;
use crate::metadata::release_year_in_range;
use crate::movie::Movie;
use crate::movie::MovieId;
use crate::schema::Schema;
use crate::schema::schema_fault_of;

verus! {

/// One row of the projection keyed by the generated identifier.
pub struct MovieByPrimaryKeyRow {
    pub id: MovieId,
    pub title: String,
    pub is_original: bool,
    pub synopsis: String,
    pub metadata: MovieMetadata,
}

/// One row of the projection keyed by genre, clustered by the identifier.
pub struct MovieByGenreRow {
    pub movie_id: MovieId,
    pub genre: String,
    pub is_original: bool,
    pub title: String,
    pub metadata: MovieMetadata,
}

/// A fully-bound write statement: the insert of one row into one of the two
/// projections.
pub enum Statement {
    InsertMovie(MovieByPrimaryKeyRow),
    InsertMovieByGenre(MovieByGenreRow),
}

impl Statement {
    /// The parameterized insert text a statement stands for. The positional
    /// parameters bind, in order, the fields of the statement's row; the
    /// column names and their order are fixed by the target table's write
    /// statement.
    pub fn cql_text(&self) -> (r: &'static str)
        ensures
            r@ == match *self {
                Statement::InsertMovie(_) => "INSERT INTO movie.movies (id, title, is_original, synopsis, metadata) VALUES(?, ?, ?, ?, ?);"@,
                Statement::InsertMovieByGenre(_) => "INSERT INTO movie.movies_by_genre (movie_id, genre, is_original, title, metadata) VALUES(?, ?, ?, ?, ?);"@,
            },
    {
        match *self {
            Statement::InsertMovie(_) => "INSERT INTO movie.movies (id, title, is_original, synopsis, metadata) VALUES(?, ?, ?, ?, ?);",
            Statement::InsertMovieByGenre(_) => "INSERT INTO movie.movies_by_genre (movie_id, genre, is_original, title, metadata) VALUES(?, ?, ?, ?, ?);",
        }
    }
}

/// What the primary-key projection owes for an ingested record: the shared
/// identifier, the record's title and synopsis, `is_original` bound to
/// `false`, and the record's metadata.
pub open spec fn primary_row_for(row: MovieByPrimaryKeyRow, id: MovieId, m: Movie) -> bool {
    &&& row.id == id
    &&& row.title@ == m.title@
    &&& row.is_original == false
    &&& row.synopsis@ == m.synopsis@
    &&& metadata_matches(row.metadata, m)
}

/// What the genre projection owes for an ingested record: the same
/// identifier, the record's genre as partition key, `is_original` bound to
/// `false`, the record's title, and the record's metadata.
pub open spec fn genre_row_for(row: MovieByGenreRow, id: MovieId, m: Movie) -> bool {
    &&& row.movie_id == id
    &&& row.genre@ == m.genre@
    &&& row.is_original == false
    &&& row.title@ == m.title@
    &&& metadata_matches(row.metadata, m)
}

/// Binds every column of the primary-key insert from the shared identifier,
/// the record, and the metadata value assembled upstream. Total: with every
/// value already typed, no binding can fail.
pub fn bind_primary_key_insert(id: MovieId, movie: &Movie, metadata: &MovieMetadata) -> (s:
    Statement)
    ensures
        s matches Statement::InsertMovie(row) && {
            &&& row.id == id
            &&& row.title@ == movie.title@
            &&& row.is_original == false
            &&& row.synopsis@ == movie.synopsis@
            &&& metadata_view_eq(row.metadata, *metadata)
        },
{
    Statement::InsertMovie(
        MovieByPrimaryKeyRow {
            id,
            title: movie.title.clone(),
            is_original: false,
            synopsis: movie.synopsis.clone(),
            metadata: metadata.clone(),
        },
    )
}

/// Binds every column of the genre insert from the shared identifier, the
/// record, and the metadata value assembled upstream. Total, as above.
pub fn bind_genre_insert(id: MovieId, movie: &Movie, metadata: &MovieMetadata) -> (s: Statement)
    ensures
        s matches Statement::InsertMovieByGenre(row) && {
            &&& row.movie_id == id
            &&& row.genre@ == movie.genre@
            &&& row.is_original == false
            &&& row.title@ == movie.title@
            &&& metadata_view_eq(row.metadata, *metadata)
        },
{
    Statement::InsertMovieByGenre(
        MovieByGenreRow {
            movie_id: id,
            genre: movie.genre.clone(),
            is_original: false,
            title: movie.title.clone(),
            metadata: metadata.clone(),
        },
    )
}

/// Builds the fully-bound insert into the primary-key projection, resolving
/// the nested metadata type from the snapshot and assembling the metadata
/// value as it goes.
pub fn insert_into_movies(schema: &Schema, uuid: MovieId, movie: &Movie) -> (r: Result<
    Statement,
    WriteError,
>)
    ensures
        match schema_fault_of(*schema, "movie"@, "metadata"@) {
            Some(f) => r == Err::<Statement, WriteError>(WriteError::SchemaResolution(f)),
            None => if release_year_in_range(*movie) {
                r matches Ok(s) && s matches Statement::InsertMovie(row) && primary_row_for(
                    row,
                    uuid,
                    *movie,
                )
            } else {
                r == Err::<Statement, WriteError>(WriteError::Range)
            },
        },
{
    match build_metadata(schema, "movie", "metadata", movie) {
        Err(e) => Err(e),
        Ok(metadata) => Ok(bind_primary_key_insert(uuid, movie, &metadata)),
    }
}

/// Builds the fully-bound insert into the genre projection, resolving the
/// nested metadata type from the snapshot and assembling the metadata value
/// as it goes.
pub fn insert_into_movies_by_genre(schema: &Schema, uuid: MovieId, movie: &Movie) -> (r: Result<
    Statement,
    WriteError,
>)
    ensures
        match schema_fault_of(*schema, "movie"@, "metadata"@) {
            Some(f) => r == Err::<Statement, WriteError>(WriteError::SchemaResolution(f)),
            None => if release_year_in_range(*movie) {
                r matches Ok(s) && s matches Statement::InsertMovieByGenre(row) && genre_row_for(
                    row,
                    uuid,
                    *movie,
                )
            } else {
                r == Err::<Statement, WriteError>(WriteError::Range)
            },
        },
{
    match build_metadata(schema, "movie", "metadata", movie) {
        Err(e) => Err(e),
        Ok(metadata) => Ok(bind_genre_insert(uuid, movie, &metadata)),
    }
}

} // verus!
