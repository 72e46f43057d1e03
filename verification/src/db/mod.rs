//! Lookups in the SQL database's `user` table by the user manager.
pub mod users;
