//! Lookups of a record's id in the database by a text key.

use vstd::prelude::*;

verus! {

/// A statement that selects an id, and the key bound to its `?1`.
pub struct IdLookup {
    pub sql: String,
    pub key: String,
}

/// The lookup of `key` with `sql`.
pub fn id_lookup(sql: &str, key: &str) -> (res: IdLookup)
    ensures
        res.sql@ == sql@,
        res.key@ == key@,
{
    IdLookup { sql: sql.to_owned(), key: key.to_owned() }
}

} // verus!
