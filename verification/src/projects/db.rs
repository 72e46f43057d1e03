//! The `project` table.
use vstd::prelude::*;
use crate::store::{compares_as_text, apply_update, select_by, select_by_both, selection_view, Record, Selection, Update};

verus! {

/// A project's record.
pub struct Project {
    pub id: String,
    /// The project's name.
    pub name: String,
    /// The owner; unless the project is public, only the owner has access.
    pub owner_id: String,
    /// Whether the project is publicly available and forkable.
    pub is_public: bool,
    /// The HTML entry point after the build.
    pub entry_point: String,
    /// The folder uploaded as the release.
    pub release_folder: String,
    /// Whether the release is routable.
    pub is_released: bool,
    pub release_id: String,
}

/// The table's name.
pub open spec fn project_table() -> Seq<char> {
    seq!['p', 'r', 'o', 'j', 'e', 'c', 't']
}

pub open spec fn id_col() -> Seq<char> { seq!['i', 'd'] }
pub open spec fn name_col() -> Seq<char> { seq!['n', 'a', 'm', 'e'] }
pub open spec fn owner_id_col() -> Seq<char> { seq!['o', 'w', 'n', 'e', 'r', '_', 'i', 'd'] }
pub open spec fn is_public_col() -> Seq<char> { seq!['i', 's', '_', 'p', 'u', 'b', 'l', 'i', 'c'] }
pub open spec fn entry_point_col() -> Seq<char> { seq!['e', 'n', 't', 'r', 'y', '_', 'p', 'o', 'i', 'n', 't'] }
pub open spec fn release_folder_col() -> Seq<char> {
    seq!['r', 'e', 'l', 'e', 'a', 's', 'e', '_', 'f', 'o', 'l', 'd', 'e', 'r']
}
pub open spec fn is_released_col() -> Seq<char> { seq!['i', 's', '_', 'r', 'e', 'l', 'e', 'a', 's', 'e', 'd'] }
pub open spec fn release_id_col() -> Seq<char> { seq!['r', 'e', 'l', 'e', 'a', 's', 'e', '_', 'i', 'd'] }

/// A flag as the record holds it.
pub open spec fn flag_text(b: bool) -> Seq<char> {
    if b { seq!['t', 'r', 'u', 'e'] } else { seq!['f', 'a', 'l', 's', 'e'] }
}

impl Project {
    /// The project as a database record.
    pub open spec fn record(self) -> Record {
        map![
            id_col() => self.id@,
            name_col() => self.name@,
            owner_id_col() => self.owner_id@,
            is_public_col() => flag_text(self.is_public),
            entry_point_col() => self.entry_point@,
            release_folder_col() => self.release_folder@,
            is_released_col() => flag_text(self.is_released),
            release_id_col() => self.release_id@,
        ]
    }
}

/// The database interactions on projects.
pub struct ProjectData {}

impl ProjectData {
    /// The project whose id is `id`.
    pub fn get(id: &str) -> (s: Selection)
        ensures
            selection_view(s) == (project_table(), seq![(id_col(), id@)]),
            compares_as_text(s),
    {
        proof {
            reveal_strlit("project");
            reveal_strlit("id");
            assert("project"@ =~= project_table());
            assert("id"@ =~= id_col());
        }
        select_by("project", "id", id)
    }

    /// The project whose id is `id`, if `owner_id` owns it.
    pub fn get_owned(id: &str, owner_id: &str) -> (s: Selection)
        ensures
            selection_view(s) == (project_table(), seq![(id_col(), id@), (owner_id_col(), owner_id@)]),
            compares_as_text(s),
    {
        proof {
            reveal_strlit("project");
            reveal_strlit("id");
            reveal_strlit("owner_id");
            assert("project"@ =~= project_table());
            assert("id"@ =~= id_col());
            assert("owner_id"@ =~= owner_id_col());
        }
        select_by_both("project", "id", id, "owner_id", owner_id)
    }

    /// Every project that `owner_id` owns.
    pub fn get_many(owner_id: &str) -> (s: Selection)
        ensures
            selection_view(s) == (project_table(), seq![(owner_id_col(), owner_id@)]),
            compares_as_text(s),
    {
        proof {
            reveal_strlit("project");
            reveal_strlit("owner_id");
            assert("project"@ =~= project_table());
            assert("owner_id"@ =~= owner_id_col());
        }
        select_by("project", "owner_id", owner_id)
    }

    /// Writes `project` over the stored project with the same id, if `owner_id` owns it;
    /// the id and owner columns are left alone.
    pub fn update(owner_id: &str, project: &Project) -> (u: Update)
        ensures
            selection_view(u.selection) == (project_table(), seq![(id_col(), project.id@), (owner_id_col(), owner_id@)]),
            compares_as_text(u.selection),
            u.skipped@.map_values(|c: String| c@) == seq![id_col(), owner_id_col()],
    {
        proof {
            reveal_strlit("id");
            reveal_strlit("owner_id");
            assert("id"@ =~= id_col());
            assert("owner_id"@ =~= owner_id_col());
        }
        let selection = Self::get_owned(project.id.as_str(), owner_id);
        let mut skipped: Vec<String> = Vec::new();
        skipped.push(String::from_str("id"));
        skipped.push(String::from_str("owner_id"));
        let u = Update { selection, skipped };
        assert(u.skipped@.map_values(|c: String| c@) =~= seq![id_col(), owner_id_col()]);
        u
    }
}

/// Updating a project through `ProjectData::update` never gives a project another owner or
/// another id, and never touches a project that the caller does not own.
pub proof fn lemma_update_keeps_ownership(record: Record, owner_id: Seq<char>, project: Project)
    requires
        record.contains_key(owner_id_col()),
        record.contains_key(id_col()),
    ensures
        ({
            let conditions = seq![(id_col(), project.id@), (owner_id_col(), owner_id)];
            let after = apply_update(record, conditions, seq![id_col(), owner_id_col()], project.record());
            &&& after[owner_id_col()] == record[owner_id_col()]
            &&& after[id_col()] == record[id_col()]
            &&& record[owner_id_col()] != owner_id ==> after == record
        }),
{
    let conditions = seq![(id_col(), project.id@), (owner_id_col(), owner_id)];
    let skipped = seq![id_col(), owner_id_col()];
    assert(skipped.contains(id_col())) by {
        assert(skipped[0] == id_col());
    }
    assert(skipped.contains(owner_id_col())) by {
        assert(skipped[1] == owner_id_col());
    }
    if record[owner_id_col()] != owner_id {
        assert(!crate::store::selects(conditions, record)) by {
            assert(conditions[1].0 == owner_id_col());
        }
    }
}

impl Project {
    /// A new project of `owner_id` named `name` with the given id: private, not released,
    /// built from `index.html`, released from `dist`, with no release id yet.
    pub fn with_id(id: String, name: String, owner_id: String) -> (project: Project)
        ensures
            project.id@ == id@,
            project.name@ == name@,
            project.owner_id@ == owner_id@,
            !project.is_public,
            project.entry_point@ == seq!['i', 'n', 'd', 'e', 'x', '.', 'h', 't', 'm', 'l'],
            project.release_folder@ == seq!['d', 'i', 's', 't'],
            !project.is_released,
            project.release_id@ == Seq::<char>::empty(),
    {
        proof {
            reveal_strlit("index.html");
            reveal_strlit("dist");
        }
        Project {
            id,
            name,
            owner_id,
            is_public: false,
            entry_point: String::from_str("index.html"),
            release_folder: String::from_str("dist"),
            is_released: false,
            release_id: String::new(),
        }
    }
}

} // verus!
