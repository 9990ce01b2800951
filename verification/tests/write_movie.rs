use movie_catalog::errors::MetadataField;
use movie_catalog::errors::SchemaFault;
use movie_catalog::errors::WriteError;
use movie_catalog::metadata::build_metadata;
use movie_catalog::movie::Movie;
use movie_catalog::movie::MovieId;
use movie_catalog::schema::KeyspaceDef;
use movie_catalog::schema::Schema;
use movie_catalog::schema::UserTypeDef;
use movie_catalog::statement::Statement;
use movie_catalog::writer::write_movie;

fn movie_schema() -> Schema {
    Schema {
        keyspaces: vec![KeyspaceDef {
            name: "movie".to_string(),
            user_types: vec![UserTypeDef {
                name: "metadata".to_string(),
                fields: vec![
                    "release_year".to_string(),
                    "duration".to_string(),
                    "genres".to_string(),
                ],
            }],
        }],
    }
}

fn drama_movie() -> Movie {
    Movie {
        genre: "drama".to_string(),
        title: "X".to_string(),
        trailer: "u".to_string(),
        release_year: 2001,
        synopsis: "s".to_string(),
        duration: 120,
    }
}

fn some_id() -> MovieId {
    MovieId { high: 7, low: 42 }
}

#[test]
fn writes_both_rows_for_the_example_record() {
    let batch = write_movie(&movie_schema(), some_id(), &drama_movie()).unwrap();
    assert_eq!(batch.statements.len(), 2);
    match &batch.statements[0] {
        Statement::InsertMovie(row) => {
            assert_eq!(row.id, some_id());
            assert_eq!(row.title, "X");
            assert!(!row.is_original);
            assert_eq!(row.synopsis, "s");
            assert_eq!(row.metadata.release_year, 2001);
            assert_eq!(row.metadata.duration, 120);
            assert_eq!(row.metadata.genres, vec!["drama".to_string()]);
        }
        Statement::InsertMovieByGenre(_) => panic!("first statement must target the primary-key projection"),
    }
    match &batch.statements[1] {
        Statement::InsertMovieByGenre(row) => {
            assert_eq!(row.movie_id, some_id());
            assert_eq!(row.genre, "drama");
            assert!(!row.is_original);
            assert_eq!(row.title, "X");
            assert_eq!(row.metadata.release_year, 2001);
            assert_eq!(row.metadata.duration, 120);
            assert_eq!(row.metadata.genres, vec!["drama".to_string()]);
        }
        Statement::InsertMovie(_) => panic!("second statement must target the genre projection"),
    }
}

#[test]
fn year_above_signed_16_bit_range_is_a_range_error() {
    let mut movie = drama_movie();
    movie.release_year = 32768;
    let r = write_movie(&movie_schema(), some_id(), &movie);
    assert_eq!(r.err().unwrap(), WriteError::Range);
}

#[test]
fn largest_representable_year_is_accepted() {
    let mut movie = drama_movie();
    movie.release_year = 32767;
    let batch = write_movie(&movie_schema(), some_id(), &movie).unwrap();
    match &batch.statements[0] {
        Statement::InsertMovie(row) => assert_eq!(row.metadata.release_year, 32767),
        Statement::InsertMovieByGenre(_) => panic!("first statement must target the primary-key projection"),
    }
}

#[test]
fn largest_duration_widens_without_loss() {
    let mut movie = drama_movie();
    movie.duration = 65535;
    let batch = write_movie(&movie_schema(), some_id(), &movie).unwrap();
    match &batch.statements[1] {
        Statement::InsertMovieByGenre(row) => assert_eq!(row.metadata.duration, 65535i64),
        Statement::InsertMovie(_) => panic!("second statement must target the genre projection"),
    }
}

#[test]
fn missing_keyspace_is_a_schema_resolution_error() {
    let schema = Schema { keyspaces: vec![] };
    let r = write_movie(&schema, some_id(), &drama_movie());
    assert_eq!(
        r.err().unwrap(),
        WriteError::SchemaResolution(SchemaFault::KeyspaceNotFound)
    );
}

#[test]
fn missing_nested_type_is_a_schema_resolution_error() {
    let schema = Schema {
        keyspaces: vec![KeyspaceDef {
            name: "movie".to_string(),
            user_types: vec![],
        }],
    };
    let r = write_movie(&schema, some_id(), &drama_movie());
    assert_eq!(
        r.err().unwrap(),
        WriteError::SchemaResolution(SchemaFault::TypeNotFound)
    );
}

#[test]
fn missing_genres_field_is_a_schema_resolution_error() {
    let schema = Schema {
        keyspaces: vec![KeyspaceDef {
            name: "movie".to_string(),
            user_types: vec![UserTypeDef {
                name: "metadata".to_string(),
                fields: vec!["release_year".to_string(), "duration".to_string()],
            }],
        }],
    };
    let r = write_movie(&schema, some_id(), &drama_movie());
    assert_eq!(
        r.err().unwrap(),
        WriteError::SchemaResolution(SchemaFault::FieldNotFound(MetadataField::Genres))
    );
}

#[test]
fn schema_fault_reported_before_range_fault() {
    let mut movie = drama_movie();
    movie.release_year = 60000;
    let schema = Schema { keyspaces: vec![] };
    let r = write_movie(&schema, some_id(), &movie);
    assert_eq!(
        r.err().unwrap(),
        WriteError::SchemaResolution(SchemaFault::KeyspaceNotFound)
    );
}

#[test]
fn first_keyspace_of_a_name_wins() {
    let schema = Schema {
        keyspaces: vec![
            KeyspaceDef {
                name: "movie".to_string(),
                user_types: vec![],
            },
            KeyspaceDef {
                name: "movie".to_string(),
                user_types: vec![UserTypeDef {
                    name: "metadata".to_string(),
                    fields: vec![
                        "release_year".to_string(),
                        "duration".to_string(),
                        "genres".to_string(),
                    ],
                }],
            },
        ],
    };
    let r = write_movie(&schema, some_id(), &drama_movie());
    assert_eq!(
        r.err().unwrap(),
        WriteError::SchemaResolution(SchemaFault::TypeNotFound)
    );
}

#[test]
fn distinct_identifiers_give_distinct_row_pairs_for_equal_records() {
    let id1 = MovieId { high: 1, low: 1 };
    let id2 = MovieId { high: 1, low: 2 };
    let b1 = write_movie(&movie_schema(), id1, &drama_movie()).unwrap();
    let b2 = write_movie(&movie_schema(), id2, &drama_movie()).unwrap();
    match (&b1.statements[0], &b2.statements[0]) {
        (Statement::InsertMovie(r1), Statement::InsertMovie(r2)) => {
            assert_ne!(r1.id, r2.id);
        }
        _ => panic!("first statement must target the primary-key projection"),
    }
    match (&b1.statements[1], &b2.statements[1]) {
        (Statement::InsertMovieByGenre(r1), Statement::InsertMovieByGenre(r2)) => {
            assert_ne!(r1.movie_id, r2.movie_id);
        }
        _ => panic!("second statement must target the genre projection"),
    }
}

#[test]
fn metadata_codec_is_deterministic() {
    let movie = drama_movie();
    let a = build_metadata(&movie_schema(), "movie", "metadata", &movie).unwrap();
    let b = build_metadata(&movie_schema(), "movie", "metadata", &movie).unwrap();
    assert_eq!(a.release_year, b.release_year);
    assert_eq!(a.duration, b.duration);
    assert_eq!(a.genres, b.genres);
}
