//! Projects: their records and the routes that show, create and change them.
pub mod db;
pub mod routes;
