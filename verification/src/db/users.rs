//! Users in the SQL `user` table.
use vstd::prelude::*;
use crate::store::{compares_as_text, select_by, selection_view, Selection};

verus! {

/// A user record.
pub struct User {
    pub id: String,
    pub avatar_url: String,
}

/// The database interactions on users.
pub struct UserManager {}

impl UserManager {
    /// The user whose id is `id`.
    pub fn get_user(&self, id: &str) -> (s: Selection)
        ensures
            selection_view(s) == (seq!['u', 's', 'e', 'r'], seq![(seq!['i', 'd'], id@)]),
            compares_as_text(s),
    {
        proof {
            reveal_strlit("user");
            reveal_strlit("id");
            assert("user"@ =~= seq!['u', 's', 'e', 'r']);
            assert("id"@ =~= seq!['i', 'd']);
        }
        select_by("user", "id", id)
    }
}

} // verus!
