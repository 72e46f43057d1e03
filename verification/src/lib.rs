//! Verified core of the Bevy Studio backend and project builder.
use vstd::prelude::*;

pub mod auth;
pub mod build;
pub mod builder;
pub mod db;
pub mod files;
pub mod github;
pub mod ids;
pub mod jobs;
pub mod projects;
pub mod routing;
pub mod store;
pub mod text;
pub mod users;

verus! {

/// The OAuth client secret of the studio's GitHub application.
pub struct GithubSecret(pub String);

/// The connection string of the SQL database.
pub struct SQLSecret(pub String);

/// The secret key for object storage.
pub struct StorageSecret(pub String);

} // verus!
