//! A named collection that groups requests.

use vstd::prelude::*;

verus! {

/// A collection of requests, referenced by the requests' `collection_id`.
#[derive(Clone, Debug)]
pub struct Collection {
    pub id: u128,
    pub name: String,
    pub description: Option<String>,
    pub created_at: i64,
    pub updated_at: i64,
}

impl Collection {
    /// A fresh collection with no description.
    pub fn new(name: String) -> (r: Self)
        ensures
            r.name@ == name@,
            r.description is None,
            r.created_at == r.updated_at,
    {
        let now = crate::ids::now_unix_millis();
        Collection {
            id: crate::ids::fresh_id(),
            name,
            description: None,
            created_at: now,
            updated_at: now,
        }
    }
}

} // verus!
