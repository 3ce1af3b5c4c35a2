//! Error values shared across the library.

use vstd::prelude::*;

verus! {

/// A plain error: what went wrong, and what it concerns.
#[derive(Debug)]
pub struct Error {
    pub desc: &'static str,
    pub subject: Option<String>,
}

/// What a finished subprocess left behind.
#[derive(Debug, Clone)]
pub struct CmdOutput {
    pub success: bool,
    pub code: Option<i32>,
    pub stdout: Vec<u8>,
    pub stderr: Vec<u8>,
}

/// A subprocess that failed to spawn or exited unsuccessfully.
#[derive(Debug)]
pub struct CommandError {
    pub desc: &'static str,
    pub output: Option<CmdOutput>,
    pub detail: Option<String>,
}

} // verus!
