//! The nested metadata value embedded in each row, and the codec that builds
//! it from a domain record against the schema snapshot.

use vstd::prelude::*;

use crate::errors::WriteError;
use crate::movie::Movie;
use crate::schema::Schema;
use crate::schema::resolve_metadata_type;
use crate::schema::schema_fault_of;

verus! {

/// The largest `release_year` the signed 16-bit metadata field can hold.
pub const MAX_RELEASE_YEAR: u16 = 32767;

/// The nested metadata value: one instance is embedded in each of the two
/// rows written for a record.
pub struct MovieMetadata {
    pub release_year: i16,
    pub duration: i64,
    /// A set of genre names; at creation it holds exactly the record's genre.
    pub genres: Vec<String>,
}

/// Field-for-field agreement of two metadata values, the genre list compared
/// element by element. Stronger than `metadata_sem_eq`: order and multiplicity
/// of the genre list are kept.
pub open spec fn metadata_view_eq(a: MovieMetadata, b: MovieMetadata) -> bool {
    &&& a.release_year == b.release_year
    &&& a.duration == b.duration
    &&& a.genres@ == b.genres@
}

impl Clone for MovieMetadata {
    /// An exact copy, so that both rows of a dual write can embed the one
    /// metadata value the codec assembled.
    fn clone(&self) -> (r: Self)
        ensures
            metadata_view_eq(r, *self),
    {
        let mut genres: Vec<String> = Vec::new();
        let mut i: usize = 0;
        while i < self.genres.len()
            invariant
                i <= self.genres@.len(),
                genres@.len() == i,
                forall|j: int| 0 <= j < i ==> genres@[j] == self.genres@[j],
            decreases self.genres@.len() - i,
        {
            genres.push(self.genres[i].clone());
            i = i + 1;
        }
        proof {
            assert(genres@ =~= self.genres@);
        }
        MovieMetadata { release_year: self.release_year, duration: self.duration, genres }
    }
}

/// Whether `release_year` fits the signed 16-bit metadata field.
pub open spec fn release_year_in_range(m: Movie) -> bool {
    m.release_year <= MAX_RELEASE_YEAR
}

/// What the codec owes: the narrowed year, the widened duration, and a
/// genre set holding exactly the record's genre.
pub open spec fn metadata_matches(md: MovieMetadata, m: Movie) -> bool {
    &&& md.release_year == m.release_year as i16
    &&& md.duration == m.duration as i64
    &&& md.genres@.len() == 1
    &&& md.genres@[0]@ == m.genre@
}

/// The genres a metadata value holds, as a set of character sequences.
pub open spec fn genre_set(md: MovieMetadata) -> Set<Seq<char>> {
    Set::new(
        |g: Seq<char>|
            exists|i: int| 0 <= i < md.genres@.len() && (#[trigger] md.genres@[i])@ == g,
    )
}

/// Semantic equality of two metadata values: same year, same duration, same
/// genre set. Two semantically equal values need not be byte-identical.
pub open spec fn metadata_sem_eq(a: MovieMetadata, b: MovieMetadata) -> bool {
    &&& a.release_year == b.release_year
    &&& a.duration == b.duration
    &&& genre_set(a) == genre_set(b)
}

/// Builds the nested metadata value for `movie` against the nested type named
/// `nested_name` in `keyspace` of the snapshot.
///
/// Fails with `SchemaResolution` if the keyspace, the type, or a required
/// field is missing, and with `Range` if `release_year` exceeds the signed
/// 16-bit range; schema faults are reported first. On success the value is a
/// function of the record alone: same record, semantically identical output,
/// on every call.
pub fn build_metadata(schema: &Schema, keyspace: &str, nested_name: &str, movie: &Movie) -> (r:
    Result<MovieMetadata, WriteError>)
    ensures
        match schema_fault_of(*schema, keyspace@, nested_name@) {
            Some(f) => r == Err::<MovieMetadata, WriteError>(WriteError::SchemaResolution(f)),
            None => if release_year_in_range(*movie) {
                r matches Ok(md) && metadata_matches(md, *movie)
            } else {
                r == Err::<MovieMetadata, WriteError>(WriteError::Range)
            },
        },
{
    match resolve_metadata_type(schema, keyspace, nested_name) {
        Err(f) => Err(WriteError::SchemaResolution(f)),
        Ok(_descriptor) => {
            if movie.release_year > MAX_RELEASE_YEAR {
                Err(WriteError::Range)
            } else {
                let release_year: i16 = movie.release_year as i16;
                let duration: i64 = movie.duration as i64;
                let mut genres: Vec<String> = Vec::new();
                genres.push(movie.genre.clone());
                Ok(MovieMetadata { release_year, duration, genres })
            }
        },
    }
}

/// The genre set of a freshly built metadata value is the singleton of the
/// record's genre.
pub proof fn lemma_built_genre_set(md: MovieMetadata, m: Movie)
    requires
        metadata_matches(md, m),
    ensures
        genre_set(md) == Set::<Seq<char>>::empty().insert(m.genre@),
{
    assert forall|g: Seq<char>| genre_set(md).contains(g) implies g == m.genre@ by {
        let i = choose|i: int| 0 <= i < md.genres@.len() && (#[trigger] md.genres@[i])@ == g;
        assert(i == 0);
    }
    assert(genre_set(md).contains(m.genre@));
    assert(genre_set(md) =~= Set::<Seq<char>>::empty().insert(m.genre@));
}

/// The codec is deterministic up to semantic equality: any two metadata
/// values built from the same record agree on year, duration and genre set.
pub proof fn lemma_codec_deterministic(a: MovieMetadata, b: MovieMetadata, m: Movie)
    requires
        metadata_matches(a, m),
        metadata_matches(b, m),
    ensures
        metadata_sem_eq(a, b),
{
    lemma_built_genre_set(a, m);
    lemma_built_genre_set(b, m);
}

} // verus!
