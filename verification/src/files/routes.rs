//! The file routes: uploading a file to a project the caller owns, fetching one, and
//! listing a project's files.
use vstd::prelude::*;
use crate::files::db::{file_table, project_id_col, File, FileData};
use crate::files::storage::{object_key, storage_key};
use crate::ids::{is_uuid_text, new_id};
use crate::projects::db::Project;
use crate::routing::{project_not_found, project_not_found_text, route, route_view, route_with_data, Method, RouteSpec};
use crate::store::{compares_as_text, selection_view, Lookup, Selection};

verus! {

/// The routes mounted under `/api/file`: `add`, `get` and `get_many`.
pub fn routes() -> (table: Vec<RouteSpec>)
    ensures
        table@.len() == 3,
        route_view(table@[0]) == (Method::Post, seq!['/', 'a', 'd', 'd', '?', '<', 'f', 'i', 'l', 'e', '_', 'n', 'a', 'm', 'e', '>', '&',
            '<', 'p', 'r', 'o', 'j', 'e', 'c', 't', '_', 'i', 'd', '>'], seq!['a', 'd', 'd'], Some(seq!['<', 'd', 'a', 't', 'a', '>'])),
        route_view(table@[1]) == (Method::Get, seq!['/', '?', '<', 'f', 'i', 'l', 'e', '_', 'n', 'a', 'm', 'e', '>', '&',
            '<', 'p', 'r', 'o', 'j', 'e', 'c', 't', '_', 'i', 'd', '>'], seq!['g', 'e', 't'], None::<Seq<char>>),
        route_view(table@[2]) == (Method::Get, seq!['/', 'm', 'a', 'n', 'y', '?', '<', 'p', 'r', 'o', 'j', 'e', 'c', 't', '_', 'i', 'd', '>'],
            seq!['g', 'e', 't', '_', 'm', 'a', 'n', 'y'], None::<Seq<char>>),
{
    proof {
        reveal_strlit("/add?<file_name>&<project_id>");
        reveal_strlit("add");
        reveal_strlit("<data>");
        reveal_strlit("/?<file_name>&<project_id>");
        reveal_strlit("get");
        reveal_strlit("/many?<project_id>");
        reveal_strlit("get_many");
    }
    let mut table: Vec<RouteSpec> = Vec::new();
    table.push(route_with_data(Method::Post, "/add?<file_name>&<project_id>", "add", "<data>"));
    table.push(route(Method::Get, "/?<file_name>&<project_id>", "get"));
    table.push(route(Method::Get, "/many?<project_id>", "get_many"));
    table
}

/// What an upload does: the record to add for a file the project does not have yet (none
/// for a file it has), and the storage key the bytes are written under.
pub struct UploadPlan {
    pub new_record: Option<File>,
    pub key: String,
}

/// The upload of `file_name` to `project_id`, where a new record gets the id `id`.
pub fn add_with_id(already_stored: bool, project_id: &str, file_name: &str, id: String) -> (plan: UploadPlan)
    ensures
        plan.key@ == object_key(project_id@, file_name@),
        already_stored ==> plan.new_record is None,
        !already_stored ==> (plan.new_record matches Some(f) && f.id@ == id@ && f.project_id@ == project_id@
            && f.name@ == file_name@),
{
    let key = storage_key(project_id, file_name);
    if already_stored {
        UploadPlan { new_record: None, key }
    } else {
        let record = File { id, project_id: String::from_str(project_id), name: String::from_str(file_name) };
        UploadPlan { new_record: Some(record), key }
    }
}

/// The upload of `file_name` to `project_id` into `owned_project`, the caller's own project
/// with that id as the lookup found it (an upload without it is refused before this
/// plan): a file the project does not have yet gets a record with a fresh random id, and
/// the bytes go under `{project_id}/{file_name}`.
pub fn add(owned_project: &Project, existing: &Option<File>, project_id: &str, file_name: &str) -> (plan: UploadPlan)
    ensures
        plan.key@ == object_key(project_id@, file_name@),
        existing is Some ==> upload_record(plan) is None,
        existing is None ==> (upload_record(plan) matches Some(r) && is_uuid_text(r.0) && r.1 == project_id@
            && r.2 == file_name@),
{
    match existing {
        Some(_) => add_with_id(true, project_id, file_name, String::new()),
        None => {
            let id = new_id();
            add_with_id(false, project_id, file_name, id)
        },
    }
}

/// The record an upload adds, as (id, project id, name).
pub open spec fn upload_record(plan: UploadPlan) -> Option<(Seq<char>, Seq<char>, Seq<char>)> {
    match plan.new_record {
        Some(f) => Some((f.id@, f.project_id@, f.name@)),
        None => None,
    }
}

/// The `file` table as a map from (project id, file name) to the record's id: one record
/// per name and project.
pub type FileIndex = Map<(Seq<char>, Seq<char>), Seq<char>>;

/// The table after an upload adds `record` (if any).
pub open spec fn files_after_upload(index: FileIndex, record: Option<(Seq<char>, Seq<char>, Seq<char>)>) -> FileIndex {
    match record {
        Some(r) => index.insert((r.1, r.2), r.0),
        None => index,
    }
}

/// An upload keeps one record per name. The table is `index`; the lookup of the file by
/// project and name answers what the table holds (`existing`, as (id, project id, name));
/// the upload adds the record that `add` plans from that answer. Afterwards the file has a
/// record, and if it had one before the table is unchanged.
pub proof fn lemma_upload_keeps_one_record_per_name(
    index: FileIndex,
    project_id: Seq<char>,
    file_name: Seq<char>,
    existing: Option<(Seq<char>, Seq<char>, Seq<char>)>,
    record: Option<(Seq<char>, Seq<char>, Seq<char>)>,
)
    requires
        index.contains_key((project_id, file_name)) ==> existing == Some(
            (index[(project_id, file_name)], project_id, file_name),
        ),
        !index.contains_key((project_id, file_name)) ==> existing is None,
        existing is Some ==> record is None,
        existing is None ==> (record matches Some(r) && r.1 == project_id && r.2 == file_name),
    ensures
        files_after_upload(index, record).contains_key((project_id, file_name)),
        files_after_upload(index, record).dom() == index.dom().insert((project_id, file_name)),
        index.contains_key((project_id, file_name)) ==> files_after_upload(index, record) == index,
{
    assert(files_after_upload(index, record).dom() =~= index.dom().insert((project_id, file_name)));
}

/// The object store as a map from key to bytes.
pub type ObjectStore = Map<Seq<char>, Seq<u8>>;

/// What a download gives back of an upload: the upload writes its bytes under the key of
/// its plan, the download reads the key that `get` answers, and both are
/// `{project_id}/{file_name}`; so with no later write to that key the bytes come back.
pub proof fn lemma_download_reads_upload(
    store: ObjectStore,
    project_id: Seq<char>,
    file_name: Seq<char>,
    bytes: Seq<u8>,
)
    ensures
        store.insert(object_key(project_id, file_name), bytes)[object_key(project_id, file_name)] == bytes,
{
}

/// What `get` reads: the object `{project_id}/{file_name}` when the caller owns the
/// project, or `project not found`.
pub fn get(owned_project: &Option<Project>, project_id: &str, file_name: &str) -> (answer: Result<String, String>)
    ensures
        owned_project is Some ==> (answer matches Ok(key) && key@ == object_key(project_id@, file_name@)),
        owned_project is None ==> (answer matches Err(m) && m@ == project_not_found()),
{
    match owned_project {
        Some(_) => Ok(storage_key(project_id, file_name)),
        None => Err(project_not_found_text()),
    }
}

/// What `get_many` lists: every file of the project when the caller owns it; otherwise,
/// also when the lookup failed, `project not found`.
pub fn get_many(owned_project: &Lookup<Project>, project_id: &str) -> (answer: Result<Selection, String>)
    ensures
        owned_project is Found ==> (answer matches Ok(s) && selection_view(s) == (file_table(), seq![
            (project_id_col(), project_id@),
        ]) && compares_as_text(s)),
        !(owned_project is Found) ==> (answer matches Err(m) && m@ == project_not_found()),
{
    match owned_project {
        Lookup::Found(_) => Ok(FileData::get_many(project_id)),
        _ => Err(project_not_found_text()),
    }
}

} // verus!
