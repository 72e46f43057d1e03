//! The `user` table: a user's record and what of it is public.
use vstd::prelude::*;
use crate::store::{compares_as_text, select_by, selection_view, Selection, Update};

verus! {

/// A user as stored in the `user` table.
pub struct User {
    pub id: String,
    pub avatar_url: String,
}

/// The information about a user that anyone may see.
pub struct PublicUser {
    pub id: String,
    pub avatar_url: String,
}

impl User {
    /// The public part of a user: the id and the avatar's URL.
    pub fn to_public_user(&self) -> (public: PublicUser)
        ensures
            public.id@ == self.id@,
            public.avatar_url@ == self.avatar_url@,
    {
        PublicUser { id: self.id.clone(), avatar_url: self.avatar_url.clone() }
    }
}

/// The table's name.
pub open spec fn user_table() -> Seq<char> {
    seq!['u', 's', 'e', 'r']
}

/// The database interactions that read and change users.
pub struct UserData {}

impl UserData {
    /// The user whose id is `id`.
    pub fn get_user(&self, id: &str) -> (s: Selection)
        ensures
            selection_view(s) == (user_table(), seq![(seq!['i', 'd'], id@)]),
            compares_as_text(s),
    {
        proof {
            reveal_strlit("user");
            reveal_strlit("id");
            assert("user"@ =~= user_table());
            assert("id"@ =~= seq!['i', 'd']);
        }
        select_by("user", "id", id)
    }

    /// Writes a user's record over the user whose id is `id` (the id from a checked token),
    /// leaving the id column alone.
    pub fn update_user(&self, id: &str) -> (u: Update)
        ensures
            selection_view(u.selection) == (user_table(), seq![(seq!['i', 'd'], id@)]),
            compares_as_text(u.selection),
            u.skipped@.map_values(|c: String| c@) == seq![seq!['i', 'd']],
    {
        proof {
            reveal_strlit("id");
            assert("id"@ =~= seq!['i', 'd']);
        }
        let selection = self.get_user(id);
        let mut skipped: Vec<String> = Vec::new();
        skipped.push(String::from_str("id"));
        let u = Update { selection, skipped };
        assert(u.skipped@.map_values(|c: String| c@) =~= seq![seq!['i', 'd']]);
        u
    }
}

} // verus!
