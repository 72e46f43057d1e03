use bevy_studio::files::db::{File, FileData};
use bevy_studio::files::routes as files;
use bevy_studio::projects::db::{Project, ProjectData};
use bevy_studio::projects::routes as projects;
use bevy_studio::routing::Method;
use bevy_studio::store::{Lookup, Selection};
use bevy_studio::users::db::{User, UserData};

fn conditions(s: &Selection) -> Vec<(String, String)> {
    s.conditions.iter().map(|c| (c.field.clone(), c.value.clone())).collect()
}

fn pair(a: &str, b: &str) -> (String, String) {
    (a.to_string(), b.to_string())
}

fn project(owner: &str, public: bool) -> Project {
    let mut p = Project::with_id("p1".to_string(), "game".to_string(), owner.to_string());
    p.is_public = public;
    p
}

#[test]
fn new_project_defaults() {
    let p = projects::create("my game".to_string(), "42".to_string());
    assert_eq!(p.id.len(), 36);
    assert_eq!(p.name, "my game");
    assert_eq!(p.owner_id, "42");
    assert!(!p.is_public && !p.is_released);
    assert_eq!(p.entry_point, "index.html");
    assert_eq!(p.release_folder, "dist");
    assert_eq!(p.release_id, "");
}

#[test]
fn only_owner_gets_project() {
    let owner = "42".to_string();
    assert!(projects::get(&owner, Lookup::Found(project("42", false))).is_ok());
    assert_eq!(projects::get(&"7".to_string(), Lookup::Found(project("42", true))).err(), Some("project not found".to_string()));
    assert_eq!(projects::get(&owner, Lookup::Missing).err(), Some("project not found".to_string()));
    assert_eq!(projects::get(&owner, Lookup::Failed).err(), Some("project not found".to_string()));
}

#[test]
fn only_public_projects_are_public() {
    assert!(projects::get_public(Lookup::Found(project("42", true))).is_ok());
    assert_eq!(projects::get_public(Lookup::Found(project("42", false))).err(), Some("project not found".to_string()));
    assert!(projects::get_public(Lookup::Missing).is_err());
}

#[test]
fn create_and_update_answers() {
    assert!(projects::create_answer(project("1", false), true).is_ok());
    assert_eq!(projects::create_answer(project("1", false), false).err(), Some("failed to create".to_string()));
    let me = "1".to_string();
    assert_eq!(projects::update_answer(&me, false, Lookup::Found(project("1", false))).err(), Some("failed to update".to_string()));
    assert_eq!(projects::update_answer(&me, true, Lookup::Missing).err(), Some("failed to create".to_string()));
    assert_eq!(projects::update_answer(&me, true, Lookup::Found(project("1", false))).unwrap().id, "p1");
}

#[test]
fn update_shows_only_own_or_public_project() {
    let me = "1".to_string();
    assert_eq!(projects::update_answer(&me, true, Lookup::Found(project("2", false))).err(), Some("failed to update".to_string()));
    assert_eq!(projects::update_answer(&me, true, Lookup::Found(project("2", true))).unwrap().owner_id, "2");
}

#[test]
fn listing_answers() {
    let listed = projects::get_many_answer(Some(vec![project("1", false)])).unwrap();
    assert_eq!(listed.len(), 1);
    assert_eq!(projects::get_many_answer(None).err(), Some("project not found".to_string()));
}

#[test]
fn project_queries() {
    let s = ProjectData::get("p1");
    assert!(s.conditions.iter().all(|c| !c.numeric));
    assert_eq!((s.table.as_str(), conditions(&s)), ("project", vec![pair("id", "p1")]));
    let s = ProjectData::get_owned("p1", "42");
    assert_eq!(conditions(&s), vec![pair("id", "p1"), pair("owner_id", "42")]);
    let s = ProjectData::get_many("42");
    assert_eq!(conditions(&s), vec![pair("owner_id", "42")]);
    let u = ProjectData::update("42", &project("9", true));
    assert_eq!(conditions(&u.selection), vec![pair("id", "p1"), pair("owner_id", "42")]);
    assert_eq!(u.skipped, vec!["id".to_string(), "owner_id".to_string()]);
}

#[test]
fn project_routes() {
    let table = projects::routes();
    let got: Vec<(bool, &str, &str)> =
        table.iter().map(|r| (r.method == Method::Get, r.uri.as_str(), r.handler.as_str())).collect();
    assert_eq!(
        got,
        vec![(true, "/<project_id>", "get"), (true, "/public/<project_id>", "get_public"), (false, "/create?<name>", "create"), (true, "/", "get_many")]
    );
}

#[test]
fn file_routes_and_queries() {
    let table = files::routes();
    let got: Vec<(&str, &str)> = table.iter().map(|r| (r.uri.as_str(), r.handler.as_str())).collect();
    assert_eq!(got, vec![("/add?<file_name>&<project_id>", "add"), ("/?<file_name>&<project_id>", "get"), ("/many?<project_id>", "get_many")]);
    assert_eq!(table[0].method, Method::Post);
    assert_eq!(table[0].data.as_deref(), Some("<data>"));
    assert!(table[1].data.is_none() && table[2].data.is_none());
    let s = FileData::get("p1", "src/main.rs");
    assert_eq!((s.table.as_str(), conditions(&s)), ("file", vec![pair("project_id", "p1"), pair("name", "src/main.rs")]));
}

#[test]
fn upload_of_new_file_adds_record() {
    let plan = files::add(&project("1", false), &None, "p1", "src/main.rs");
    assert_eq!(plan.key, "p1/src/main.rs");
    let record = plan.new_record.expect("a record");
    assert_eq!(record.id.len(), 36);
    assert_eq!((record.project_id.as_str(), record.name.as_str()), ("p1", "src/main.rs"));
}

#[test]
fn upload_of_known_file_only_stores() {
    let existing = Some(File { id: "f".to_string(), project_id: "p1".to_string(), name: "a".to_string() });
    let plan = files::add(&project("1", false), &existing, "p1", "a");
    assert!(plan.new_record.is_none());
    assert_eq!(plan.key, "p1/a");
    let plan = files::add_with_id(false, "p", "b", "id9".to_string());
    assert_eq!(plan.new_record.unwrap().id, "id9");
}

#[test]
fn files_only_for_owned_projects() {
    assert_eq!(files::get(&Some(project("1", false)), "p1", "x.rs"), Ok("p1/x.rs".to_string()));
    assert_eq!(files::get(&None, "p1", "x.rs"), Err("project not found".to_string()));
    let listing = files::get_many(&Lookup::Found(project("1", false)), "p1").ok().unwrap();
    assert_eq!(conditions(&listing), vec![pair("project_id", "p1")]);
    assert_eq!(files::get_many(&Lookup::Missing, "p1").err(), Some("project not found".to_string()));
    assert_eq!(files::get_many(&Lookup::Failed, "p1").err(), Some("project not found".to_string()));
}

#[test]
fn users() {
    let u = User { id: "1".to_string(), avatar_url: "a".to_string() };
    let p = u.to_public_user();
    assert_eq!((p.id.as_str(), p.avatar_url.as_str()), ("1", "a"));
    let data = UserData {};
    assert_eq!(conditions(&data.get_user("1")), vec![pair("id", "1")]);
    let up = data.update_user("1");
    assert_eq!(up.selection.table, "user");
    assert_eq!(up.skipped, vec!["id".to_string()]);
    let table = bevy_studio::users::routes::routes();
    let got: Vec<(&str, &str)> = table.iter().map(|r| (r.uri.as_str(), r.handler.as_str())).collect();
    assert_eq!(got, vec![("/me", "get_me"), ("/me", "update_me"), ("/<id>", "get")]);
    assert_eq!(table[1].data.as_deref(), Some("<user>"));
    assert!(table[0].data.is_none() && table[2].data.is_none());
}
