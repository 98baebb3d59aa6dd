//! The shared database: data that is not tied to any single account.

use std::path::PathBuf;

use vstd::prelude::*;

use super::Database;

verus! {

/// A connection to the shared SQLite database.
///
/// It holds the application settings, the account registry, users, relays,
/// group information, globally processed events, media blobs and relay
/// status. What belongs to one account lives in that account's database.
#[derive(Debug)]
pub struct SharedDatabase {
    pub inner: Database,
}

impl Clone for SharedDatabase {
    fn clone(&self) -> (copy: SharedDatabase)
        ensures
            copy == *self,
    {
        SharedDatabase { inner: self.inner.clone() }
    }
}

impl SharedDatabase {
    /// The shared database over an opened database file.
    pub fn new(inner: Database) -> (db: SharedDatabase)
        ensures
            db.inner == inner,
    {
        SharedDatabase { inner }
    }

    /// Path to the underlying SQLite file.
    pub fn path(&self) -> (path: &PathBuf)
        ensures
            *path == self.inner.path,
    {
        &self.inner.path
    }
}

} // verus!
