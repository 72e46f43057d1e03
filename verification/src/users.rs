//! Users: their records, and the routes that show and change them.
pub mod db;
pub mod routes;

use vstd::prelude::*;
use crate::store::{compares_as_text, select_by, selection_view, Selection};

verus! {

/// A user document in the `users` collection of the document database.
pub struct User {
    pub id: String,
    pub avatar_url: String,
}

/// The collection's name.
pub open spec fn users_collection() -> Seq<char> {
    seq!['u', 's', 'e', 'r', 's']
}

/// The document database interactions on users (in the database `store::studio_database`).
pub struct UserManager {}

impl UserManager {
    /// The user document whose id is `id`.
    pub fn get_user(&self, id: &str) -> (s: Selection)
        ensures
            selection_view(s) == (users_collection(), seq![(seq!['i', 'd'], id@)]),
            compares_as_text(s),
    {
        proof {
            reveal_strlit("users");
            reveal_strlit("id");
            assert("users"@ =~= users_collection());
            assert("id"@ =~= seq!['i', 'd']);
        }
        select_by("users", "id", id)
    }
}

} // verus!
