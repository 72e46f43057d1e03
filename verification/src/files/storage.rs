//! Where a project's files live in object storage.
use vstd::prelude::*;

verus! {

/// The object key of a project file: the project id, a `/`, and the file's name
/// with its directories (`src/main.rs`).
pub open spec fn object_key(project_id: Seq<char>, file_name: Seq<char>) -> Seq<char> {
    project_id.push('/') + file_name
}

/// The name of the bucket that holds every project's files.
pub fn projects_bucket() -> (bucket: String)
    ensures
        bucket@ == seq!['b', 'e', 'v', 'y', '-', 's', 't', 'u', 'd', 'i', 'o', '-', 'p', 'r', 'o', 'j', 'e', 'c', 't', 's'],
{
    proof {
        reveal_strlit("bevy-studio-projects");
    }
    String::from_str("bevy-studio-projects")
}

/// The key under which a file of a project is stored (`{project_id}/{file_name}`).
pub fn storage_key(project_id: &str, file_name: &str) -> (key: String)
    ensures
        key@ == object_key(project_id@, file_name@),
{
    proof {
        reveal_strlit("/");
    }
    let mut key = String::from_str(project_id);
    key.append("/");
    key.append(file_name);
    key
}

} // verus!
