//! The `file` table: which files a project has.
use vstd::prelude::*;
use crate::store::{compares_as_text, select_by, select_by_both, selection_view, Selection};

verus! {

/// A project file's record.
pub struct File {
    pub id: String,
    /// The id of the project the file belongs to.
    pub project_id: String,
    /// The file's name with its directories, such as `Cargo.toml` or `src/main.rs`.
    pub name: String,
}

/// The table's name.
pub open spec fn file_table() -> Seq<char> {
    seq!['f', 'i', 'l', 'e']
}

pub open spec fn project_id_col() -> Seq<char> {
    seq!['p', 'r', 'o', 'j', 'e', 'c', 't', '_', 'i', 'd']
}

pub open spec fn name_col() -> Seq<char> {
    seq!['n', 'a', 'm', 'e']
}

/// The database interactions on files.
pub struct FileData {}

impl FileData {
    /// The file named `file_name` of the project `project_id`.
    pub fn get(project_id: &str, file_name: &str) -> (s: Selection)
        ensures
            selection_view(s) == (file_table(), seq![(project_id_col(), project_id@), (name_col(), file_name@)]),
            compares_as_text(s),
    {
        proof {
            reveal_strlit("file");
            reveal_strlit("project_id");
            reveal_strlit("name");
            assert("file"@ =~= file_table());
            assert("project_id"@ =~= project_id_col());
            assert("name"@ =~= name_col());
        }
        select_by_both("file", "project_id", project_id, "name", file_name)
    }

    /// Every file of the project `project_id`.
    pub fn get_many(project_id: &str) -> (s: Selection)
        ensures
            selection_view(s) == (file_table(), seq![(project_id_col(), project_id@)]),
            compares_as_text(s),
    {
        proof {
            reveal_strlit("file");
            reveal_strlit("project_id");
            assert("file"@ =~= file_table());
            assert("project_id"@ =~= project_id_col());
        }
        select_by("file", "project_id", project_id)
    }
}

} // verus!
