//! Build jobs: the queue of projects waiting to be built.
pub mod db;
