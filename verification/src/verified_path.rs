//! Paths that were seen to exist when they were checked.
//!
//! The filesystem itself is outside the library: the caller looks and
//! passes in what it saw, and the constructors here turn that answer
//! into a value or into the matching error.

use vstd::prelude::*;
use crate::error::Error;

verus! {

#[derive(Debug, Clone)]
pub struct VerifiedPath {
    pub path: String,
}

impl VerifiedPath {
    /// Accept a path the caller found to exist as a file.
    pub fn file(path: String, exists_as_file: bool) -> (r: Result<VerifiedPath, Error>)
        ensures
            match r {
                Ok(v) => exists_as_file && v.path@ == path@,
                Err(e) => !exists_as_file && e.desc@ == "file doesn't exist"@ && (e.subject matches
                    Some(s) && s@ == path@),
            },
    {
        if exists_as_file {
            Ok(VerifiedPath { path })
        } else {
            Err(Error { desc: "file doesn't exist", subject: Some(path) })
        }
    }

    /// Accept a path the caller found to exist as a directory.
    pub fn directory(path: String, exists_as_directory: bool) -> (r: Result<VerifiedPath, Error>)
        ensures
            match r {
                Ok(v) => exists_as_directory && v.path@ == path@,
                Err(e) => !exists_as_directory && e.desc@ == "file doesn't exist"@ && (e.subject
                    matches Some(s) && s@ == path@),
            },
    {
        if exists_as_directory {
            Ok(VerifiedPath { path })
        } else {
            Err(Error { desc: "file doesn't exist", subject: Some(path) })
        }
    }

    pub fn path(&self) -> (r: &str)
        ensures
            r@ == self.path@,
    {
        self.path.as_str()
    }
}

} // verus!
