//! The project routes: who may see a project, and how projects are made and changed.
use vstd::prelude::*;
use crate::ids::{is_uuid_text, new_id};
use crate::projects::db::Project;
use crate::routing::{project_not_found, project_not_found_text, route, route_view, Method, RouteSpec};
use crate::store::Lookup;

verus! {

/// The routes mounted under `/api/project`: `get`, `get_public`, `create` and `get_many`.
pub fn routes() -> (table: Vec<RouteSpec>)
    ensures
        table@.len() == 4,
        route_view(table@[0]) == (Method::Get, seq!['/', '<', 'p', 'r', 'o', 'j', 'e', 'c', 't', '_', 'i', 'd', '>'], seq!['g', 'e', 't'], None::<Seq<char>>),
        route_view(table@[1]) == (Method::Get, seq!['/', 'p', 'u', 'b', 'l', 'i', 'c', '/', '<', 'p', 'r', 'o', 'j', 'e', 'c', 't', '_', 'i', 'd', '>'],
            seq!['g', 'e', 't', '_', 'p', 'u', 'b', 'l', 'i', 'c'], None::<Seq<char>>),
        route_view(table@[2]) == (Method::Post, seq!['/', 'c', 'r', 'e', 'a', 't', 'e', '?', '<', 'n', 'a', 'm', 'e', '>'],
            seq!['c', 'r', 'e', 'a', 't', 'e'], None::<Seq<char>>),
        route_view(table@[3]) == (Method::Get, seq!['/'], seq!['g', 'e', 't', '_', 'm', 'a', 'n', 'y'], None::<Seq<char>>),
{
    proof {
        reveal_strlit("/<project_id>");
        reveal_strlit("get");
        reveal_strlit("/public/<project_id>");
        reveal_strlit("get_public");
        reveal_strlit("/create?<name>");
        reveal_strlit("create");
        reveal_strlit("/");
        reveal_strlit("get_many");
    }
    let mut table: Vec<RouteSpec> = Vec::new();
    table.push(route(Method::Get, "/<project_id>", "get"));
    table.push(route(Method::Get, "/public/<project_id>", "get_public"));
    table.push(route(Method::Post, "/create?<name>", "create"));
    table.push(route(Method::Get, "/", "get_many"));
    table
}

/// What `get` answers: the project, when it exists and the caller owns it; otherwise
/// `project not found`, also when the lookup failed.
pub fn get(user_id: &String, lookup: Lookup<Project>) -> (answer: Result<Project, String>)
    ensures
        match lookup {
            Lookup::Found(p) if p.owner_id@ == user_id@ => answer == Ok::<Project, String>(p),
            _ => answer matches Err(m) && m@ == project_not_found(),
        },
{
    match lookup {
        Lookup::Found(project) => {
            if project.owner_id == *user_id {
                Ok(project)
            } else {
                Err(project_not_found_text())
            }
        },
        _ => Err(project_not_found_text()),
    }
}

/// What `get_public` answers: the project, when it exists and is public; otherwise
/// `project not found`, also when the lookup failed.
pub fn get_public(lookup: Lookup<Project>) -> (answer: Result<Project, String>)
    ensures
        match lookup {
            Lookup::Found(p) if p.is_public => answer == Ok::<Project, String>(p),
            _ => answer matches Err(m) && m@ == project_not_found(),
        },
{
    match lookup {
        Lookup::Found(project) => {
            if project.is_public {
                Ok(project)
            } else {
                Err(project_not_found_text())
            }
        },
        _ => Err(project_not_found_text()),
    }
}

/// The project that `create` stores: a fresh random id, the given name and owner, and
/// the defaults of `Project::with_id`.
pub fn create(name: String, owner_id: String) -> (project: Project)
    ensures
        is_uuid_text(project.id@),
        project.name@ == name@,
        project.owner_id@ == owner_id@,
        !project.is_public,
        project.entry_point@ == seq!['i', 'n', 'd', 'e', 'x', '.', 'h', 't', 'm', 'l'],
        project.release_folder@ == seq!['d', 'i', 's', 't'],
        !project.is_released,
        project.release_id@ == Seq::<char>::empty(),
{
    let id = new_id();
    Project::with_id(id, name, owner_id)
}

/// The message given when a project could not be stored or read back.
pub open spec fn failed_to_create() -> Seq<char> {
    seq!['f', 'a', 'i', 'l', 'e', 'd', ' ', 't', 'o', ' ', 'c', 'r', 'e', 'a', 't', 'e']
}

/// The message given when a project could not be updated.
pub open spec fn failed_to_update() -> Seq<char> {
    seq!['f', 'a', 'i', 'l', 'e', 'd', ' ', 't', 'o', ' ', 'u', 'p', 'd', 'a', 't', 'e']
}

/// What `create` answers once the store was tried: the project, or `failed to create`.
pub fn create_answer(project: Project, stored: bool) -> (answer: Result<Project, String>)
    ensures
        stored ==> answer == Ok::<Project, String>(project),
        !stored ==> (answer matches Err(m) && m@ == failed_to_create()),
{
    proof {
        reveal_strlit("failed to create");
    }
    if stored {
        Ok(project)
    } else {
        Err(String::from_str("failed to create"))
    }
}

/// What `update` answers to `user_id`: `failed to update` when the update failed; the
/// project as read back after it when it is the caller's or public; `failed to update`
/// when it is another user's private project (the update, which only writes the caller's
/// own project, changed nothing, and the project is not shown); and `failed to create`
/// when nothing can be read back.
pub fn update_answer(user_id: &String, updated: bool, read_back: Lookup<Project>) -> (answer: Result<Project, String>)
    ensures
        !updated ==> (answer matches Err(m) && m@ == failed_to_update()),
        updated ==> match read_back {
            Lookup::Found(p) => if p.owner_id@ == user_id@ || p.is_public {
                answer == Ok::<Project, String>(p)
            } else {
                answer matches Err(m) && m@ == failed_to_update()
            },
            _ => answer matches Err(m) && m@ == failed_to_create(),
        },
{
    proof {
        reveal_strlit("failed to create");
        reveal_strlit("failed to update");
    }
    if !updated {
        return Err(String::from_str("failed to update"));
    }
    match read_back {
        Lookup::Found(project) => {
            if project.owner_id == *user_id || project.is_public {
                Ok(project)
            } else {
                Err(String::from_str("failed to update"))
            }
        },
        _ => Err(String::from_str("failed to create")),
    }
}

/// What `get_many` answers: the caller's projects as listed (the listing selects the
/// projects whose owner is the caller, `ProjectData::get_many`), or `project not found`
/// when the listing failed.
pub fn get_many_answer(listing: Option<Vec<Project>>) -> (answer: Result<Vec<Project>, String>)
    ensures
        match listing {
            Some(projects) => answer == Ok::<Vec<Project>, String>(projects),
            None => answer matches Err(m) && m@ == project_not_found(),
        },
{
    match listing {
        Some(projects) => Ok(projects),
        None => Err(project_not_found_text()),
    }
}

} // verus!
