//! Plain error types shared with the command-line front end.

use vstd::prelude::*;

verus! {

/// The working tree has uncommitted changes, so a merge may not start.
#[derive(PartialEq, Eq, Structural, Clone, Copy, Debug)]
pub struct RepositoryNotCleanError {}

impl RepositoryNotCleanError {
    pub fn new() -> (r: Self)
        ensures
            r == (RepositoryNotCleanError {}),
    {
        RepositoryNotCleanError {}
    }
}

/// A remote repository with this owner and name already exists.
#[derive(PartialEq, Eq, Clone, Debug)]
pub struct RepositoryAlreadyExists {
    pub owner: String,
    pub name: String,
}

impl RepositoryAlreadyExists {
    pub fn new(owner: String, name: String) -> (r: Self)
        ensures
            r.owner@ == owner@,
            r.name@ == name@,
    {
        RepositoryAlreadyExists { owner, name }
    }
}

/// A directory that was to be created already exists.
#[derive(PartialEq, Eq, Clone, Debug)]
pub struct DirectoryAlreadyExists {
    pub dir: String,
}

impl DirectoryAlreadyExists {
    pub fn new(dir: String) -> (r: Self)
        ensures
            r.dir@ == dir@,
    {
        DirectoryAlreadyExists { dir }
    }
}

/// Resolving the target directory failed: no directory was given and the
/// current directory could not be read.
#[derive(PartialEq, Eq, Structural, Clone, Copy, Debug)]
pub enum UnwrapOrCurrentDirError {
    CurrentDirFailed,
}

} // verus!
