//! Project files: their records, their routes and their place in storage.
pub mod db;
pub mod routes;
pub mod storage;
