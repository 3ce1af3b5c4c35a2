//! Make targets, validated against the Makefile's text.

use vstd::prelude::*;
use vstd::string::*;
use crate::error::Error;
use crate::strutil::{is_prefix_at, prefix_at_exec, views_of};

verus! {

/// The header that declares a target: the target name then a colon.
pub open spec fn target_header(task: Seq<char>) -> Seq<char> {
    task + seq![':']
}

/// A position where a line begins.
pub open spec fn is_line_start(s: Seq<char>, i: int) -> bool {
    i == 0 || s[i - 1] == '\n'
}

/// Some line of the Makefile starts with `task:`.
pub open spec fn has_target(makefile: Seq<char>, task: Seq<char>) -> bool {
    exists|i: int|
        0 <= i <= makefile.len() && is_line_start(makefile, i) && is_prefix_at(
            makefile,
            i,
            target_header(task),
        )
}

pub fn makefile_has_target(makefile: &str, task: &str) -> (r: bool)
    ensures
        r == has_target(makefile@, task@),
{
    let mut header = task.to_owned();
    header.append(":");
    proof {
        reveal_strlit(":");
        assert(":"@ =~= seq![':']);
        assert(header@ =~= target_header(task@));
    }
    let n = makefile.unicode_len();
    let mut i: usize = 0;
    let mut line_start = true;
    while i < n
        invariant
            0 <= i <= n,
            n == makefile@.len(),
            header@ == target_header(task@),
            line_start == is_line_start(makefile@, i as int),
            forall|t: int|
                0 <= t < i && is_line_start(makefile@, t) ==> !is_prefix_at(
                    makefile@,
                    t,
                    target_header(task@),
                ),
        decreases n - i,
    {
        if line_start {
            if prefix_at_exec(makefile, i, header.as_str(), n) {
                return true;
            }
        }
        let c = makefile.get_char(i);
        line_start = c == '\n';
        i += 1;
    }
    proof {
        assert forall|t: int|
            !(0 <= t <= makefile@.len() && is_line_start(makefile@, t) && is_prefix_at(
                makefile@,
                t,
                target_header(task@),
            )) by {
            if t == makefile@.len() {
                assert(target_header(task@).len() > 0);
            }
        }
    }
    false
}

/// A validated make target in a project directory.
#[derive(Debug, Clone)]
pub struct MakeTask {
    pub task: String,
    pub path: String,
}

impl MakeTask {
    /// Accept a target only when the Makefile's text declares it.
    pub fn new(directory: &str, task: &str, makefile: &str) -> (r: Result<MakeTask, Error>)
        ensures
            match r {
                Ok(t) => has_target(makefile@, task@) && t.task@ == task@ && t.path@ == directory@,
                Err(e) => !has_target(makefile@, task@) && e.desc@
                    == "Makefile does not have specified task"@ && (e.subject matches Some(s) && s@
                    == task@),
            },
    {
        if makefile_has_target(makefile, task) {
            Ok(MakeTask { task: task.to_owned(), path: directory.to_owned() })
        } else {
            Err(
                Error {
                    desc: "Makefile does not have specified task",
                    subject: Some(task.to_owned()),
                },
            )
        }
    }

    pub fn to_string(&self) -> (r: String)
        ensures
            r@ == self.task@,
    {
        self.task.clone()
    }

    /// The arguments handed to `make`, run in the project directory.
    pub fn command_args(&self) -> (r: Vec<String>)
        ensures
            views_of(r@) =~= seq![self.task@],
    {
        let mut v: Vec<String> = Vec::new();
        v.push(self.task.clone());
        v
    }
}

} // verus!
