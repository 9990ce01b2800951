//! A plain-value snapshot of the store's declared schema, and resolution of
//! the nested metadata type against it.
//!
//! The backing store owns the live schema; the caller extracts from it the
//! little the library reads — keyspace names, the nested types each keyspace
//! declares, and those types' field names — into this snapshot once, before
//! any record is written.

use vstd::prelude::*;

use crate::errors::MetadataField;
use crate::errors::SchemaFault;

verus! {

/// A nested (user-defined) type declaration: its name and its field names.
pub struct UserTypeDef {
    pub name: String,
    pub fields: Vec<String>,
}

/// A keyspace declaration: its name and the nested types it declares.
pub struct KeyspaceDef {
    pub name: String,
    pub user_types: Vec<UserTypeDef>,
}

/// A read-only snapshot of the store's declared schema.
pub struct Schema {
    pub keyspaces: Vec<KeyspaceDef>,
}

/// The first keyspace of the given name, if any.
pub open spec fn find_keyspace(keyspaces: Seq<KeyspaceDef>, name: Seq<char>) -> Option<KeyspaceDef>
    decreases keyspaces.len(),
{
    if keyspaces.len() == 0 {
        None
    } else if keyspaces[0].name@ == name {
        Some(keyspaces[0])
    } else {
        find_keyspace(keyspaces.drop_first(), name)
    }
}

/// The first nested type of the given name, if any.
pub open spec fn find_user_type(types: Seq<UserTypeDef>, name: Seq<char>) -> Option<UserTypeDef>
    decreases types.len(),
{
    if types.len() == 0 {
        None
    } else if types[0].name@ == name {
        Some(types[0])
    } else {
        find_user_type(types.drop_first(), name)
    }
}

/// Whether the nested type declares a field of the given name.
pub open spec fn type_has_field(t: UserTypeDef, field: Seq<char>) -> bool {
    exists|i: int| 0 <= i < t.fields@.len() && (#[trigger] t.fields@[i])@ == field
}

/// The nested type that `nested_name` resolves to inside `keyspace`, if any.
pub open spec fn resolved_type(s: Schema, keyspace: Seq<char>, nested_name: Seq<char>) -> Option<
    UserTypeDef,
> {
    match find_keyspace(s.keyspaces@, keyspace) {
        None => None,
        Some(k) => find_user_type(k.user_types@, nested_name),
    }
}

/// The first schema fault met when resolving the nested metadata type, in
/// lookup order: keyspace, then type, then each required field.
pub open spec fn schema_fault_of(s: Schema, keyspace: Seq<char>, nested_name: Seq<char>) -> Option<
    SchemaFault,
> {
    match find_keyspace(s.keyspaces@, keyspace) {
        None => Some(SchemaFault::KeyspaceNotFound),
        Some(k) => match find_user_type(k.user_types@, nested_name) {
            None => Some(SchemaFault::TypeNotFound),
            Some(t) => if !type_has_field(t, "release_year"@) {
                Some(SchemaFault::FieldNotFound(MetadataField::ReleaseYear))
            } else if !type_has_field(t, "duration"@) {
                Some(SchemaFault::FieldNotFound(MetadataField::Duration))
            } else if !type_has_field(t, "genres"@) {
                Some(SchemaFault::FieldNotFound(MetadataField::Genres))
            } else {
                None
            },
        },
    }
}

/// Whether the nested metadata type resolves with every required field.
pub open spec fn metadata_type_resolved(s: Schema, keyspace: Seq<char>, nested_name: Seq<char>) -> bool {
    schema_fault_of(s, keyspace, nested_name) is None
}

fn lookup_keyspace<'a>(keyspaces: &'a Vec<KeyspaceDef>, name: &String) -> (r: Option<
    &'a KeyspaceDef,
>)
    ensures
        match r {
            Some(k) => find_keyspace(keyspaces@, name@) == Some(*k),
            None => find_keyspace(keyspaces@, name@) is None,
        },
{
    let mut i: usize = 0;
    proof {
        assert(keyspaces@.skip(0) =~= keyspaces@);
    }
    while i < keyspaces.len()
        invariant
            i <= keyspaces@.len(),
            find_keyspace(keyspaces@, name@) == find_keyspace(keyspaces@.skip(i as int), name@),
        decreases keyspaces@.len() - i,
    {
        proof {
            assert(keyspaces@.skip(i as int)[0] == keyspaces@[i as int]);
            assert(keyspaces@.skip(i as int).drop_first() =~= keyspaces@.skip(i as int + 1));
        }
        if keyspaces[i].name.eq(name) {
            return Some(&keyspaces[i]);
        }
        i = i + 1;
    }
    proof {
        assert(keyspaces@.skip(i as int) =~= Seq::<KeyspaceDef>::empty());
    }
    None
}

fn lookup_user_type<'a>(types: &'a Vec<UserTypeDef>, name: &String) -> (r: Option<&'a UserTypeDef>)
    ensures
        match r {
            Some(t) => find_user_type(types@, name@) == Some(*t),
            None => find_user_type(types@, name@) is None,
        },
{
    let mut i: usize = 0;
    proof {
        assert(types@.skip(0) =~= types@);
    }
    while i < types.len()
        invariant
            i <= types@.len(),
            find_user_type(types@, name@) == find_user_type(types@.skip(i as int), name@),
        decreases types@.len() - i,
    {
        proof {
            assert(types@.skip(i as int)[0] == types@[i as int]);
            assert(types@.skip(i as int).drop_first() =~= types@.skip(i as int + 1));
        }
        if types[i].name.eq(name) {
            return Some(&types[i]);
        }
        i = i + 1;
    }
    proof {
        assert(types@.skip(i as int) =~= Seq::<UserTypeDef>::empty());
    }
    None
}

fn field_present(fields: &Vec<String>, name: &String) -> (r: bool)
    ensures
        r == exists|i: int| 0 <= i < fields@.len() && (#[trigger] fields@[i])@ == name@,
{
    let mut i: usize = 0;
    while i < fields.len()
        invariant
            i <= fields@.len(),
            forall|j: int| 0 <= j < i ==> (#[trigger] fields@[j])@ != name@,
        decreases fields@.len() - i,
    {
        if fields[i].eq(name) {
            return true;
        }
        i = i + 1;
    }
    false
}

/// Resolves the nested metadata type named `nested_name` inside `keyspace` from
/// the snapshot, and checks that it declares every field the codec sets. On
/// failure, reports the first fault in lookup order.
pub fn resolve_metadata_type<'a>(schema: &'a Schema, keyspace: &str, nested_name: &str) -> (r: Result<
    &'a UserTypeDef,
    SchemaFault,
>)
    ensures
        match r {
            Ok(t) => {
                &&& metadata_type_resolved(*schema, keyspace@, nested_name@)
                &&& resolved_type(*schema, keyspace@, nested_name@) == Some(*t)
            },
            Err(f) => schema_fault_of(*schema, keyspace@, nested_name@) == Some(f),
        },
{
    let keyspace_name: String = keyspace.to_owned();
    let nested_owned: String = nested_name.to_owned();
    let ks = match lookup_keyspace(&schema.keyspaces, &keyspace_name) {
        None => {
            return Err(SchemaFault::KeyspaceNotFound);
        },
        Some(ks) => ks,
    };
    let t = match lookup_user_type(&ks.user_types, &nested_owned) {
        None => {
            return Err(SchemaFault::TypeNotFound);
        },
        Some(t) => t,
    };
    let release_year_field: String = "release_year".to_owned();
    let duration_field: String = "duration".to_owned();
    let genres_field: String = "genres".to_owned();
    if !field_present(&t.fields, &release_year_field) {
        return Err(SchemaFault::FieldNotFound(MetadataField::ReleaseYear));
    }
    if !field_present(&t.fields, &duration_field) {
        return Err(SchemaFault::FieldNotFound(MetadataField::Duration));
    }
    if !field_present(&t.fields, &genres_field) {
        return Err(SchemaFault::FieldNotFound(MetadataField::Genres));
    }
    Ok(t)
}

} // verus!
