//! The databases: what they are and how their schemas move forward.

use std::path::PathBuf;

use vstd::prelude::*;

pub mod rust_migrations;
pub mod shared_db;

verus! {

/// `std::path::PathBuf`, carried as it is.
#[verifier::external_type_specification]
#[verifier::external_body]
pub struct ExPathBuf(PathBuf);

/// `std::path::PathBuf::clone`: a duplicate of the path.
pub assume_specification[ <PathBuf as Clone>::clone ](path: &PathBuf) -> (copy: PathBuf)
    ensures
        copy == *path,
;

/// An opened SQLite database: the file it lives in.
#[derive(Debug)]
pub struct Database {
    pub path: PathBuf,
}

impl Clone for Database {
    fn clone(&self) -> (copy: Database)
        ensures
            copy == *self,
    {
        Database { path: self.path.clone() }
    }
}

/// Why a database operation failed.
#[derive(Debug)]
pub enum DatabaseError {
    /// The database is not in a state that the operation can deal with.
    Protocol(String),
}

} // verus!
