//! One deploy: its identity, its environment, and the pure parts of
//! its lifecycle. The worker around it does the filesystem, the git
//! subprocesses and the log writing, and asks here what to say and
//! what to do next.

use vstd::prelude::*;
use vstd::string::*;
use crate::error::{CmdOutput, CommandError};
use crate::git::{GitRepo, RepoModel};
use crate::message::reftype_token;
use crate::notifier::TaskState;
use crate::server_config::Environment;
use crate::strutil::{dec_str, pair_views, u64_to_string};

verus! {

/// A deploy accepted by the ingress, waiting in or running on a queue.
pub struct DeployTask {
    pub repo: GitRepo,
    pub id: String,
    pub env: Environment,
    pub logdir: String,
    pub host: String,
    pub secret: String,
}

/// The provenance pairs a deploy injects into its environment, in the
/// order they are injected.
pub open spec fn provenance_pairs(r: RepoModel) -> Seq<(Seq<char>, Seq<char>)> {
    seq![
        ("hookshot_checkout_path"@, r.local_path),
        ("git_ref"@, r.refstring),
        ("git_ref_type"@, reftype_token(r.reftype)),
        ("git_commit_sha"@, r.sha),
        ("git_repo_name"@, r.name),
        ("git_repo_owner"@, r.owner),
    ]
}

/// Where a task's log lives: `<logdir>/<id>.log`.
pub open spec fn spec_logfile_path(logdir: Seq<char>, id: Seq<char>) -> Seq<char> {
    logdir + seq!['/'] + id + ".log"@
}

pub fn logfile_path(logdir: &str, id: &str) -> (r: String)
    ensures
        r@ == spec_logfile_path(logdir@, id@),
{
    let mut out = logdir.to_owned();
    out.append("/");
    out.append(id);
    out.append(".log");
    proof {
        reveal_strlit("/");
        assert("/"@ =~= seq!['/']);
        assert(out@ =~= spec_logfile_path(logdir@, id@));
    }
    out
}

/// What the cancel hook writes for a task evicted before it ran.
pub fn cancel_message() -> (r: &'static str)
    ensures
        r@ == "task cancelled"@,
{
    "task cancelled"
}

impl DeployTask {
    /// Put the checkout path and the git identity into the task's
    /// environment. The injected pairs come last, so when a process
    /// environment is applied in order they override configured keys,
    /// as an overwriting insert would.
    pub fn augment_env(&mut self)
        ensures
            final(self).repo == old(self).repo,
            final(self).id == old(self).id,
            final(self).logdir == old(self).logdir,
            final(self).host == old(self).host,
            final(self).secret == old(self).secret,
            pair_views(final(self).env@) == pair_views(old(self).env@) + provenance_pairs(
                old(self).repo.model(),
            ),
    {
        let checkout = self.repo.local_path.clone();
        self.env.push(("hookshot_checkout_path".to_owned(), checkout));
        let refstring = self.repo.refstring.clone();
        self.env.push(("git_ref".to_owned(), refstring));
        let reftype = self.repo.reftype.to_string();
        self.env.push(("git_ref_type".to_owned(), reftype));
        let sha = self.repo.sha.clone();
        self.env.push(("git_commit_sha".to_owned(), sha));
        let name = self.repo.name.clone();
        self.env.push(("git_repo_name".to_owned(), name));
        let owner = self.repo.owner.clone();
        self.env.push(("git_repo_owner".to_owned(), owner));
        proof {
            assert(pair_views(self.env@) =~= pair_views(old(self).env@) + provenance_pairs(
                old(self).repo.model(),
            ));
        }
    }
}

/// How a task's run reads once the command finished: a clean exit is a
/// success, anything else — a non-zero exit or a spawn failure — has
/// failed.
pub fn run_outcome(result: &Result<CmdOutput, CommandError>) -> (r: TaskState)
    ensures
        r == (match result {
            Ok(o) => if o.success {
                TaskState::Success
            } else {
                TaskState::Failed
            },
            Err(_) => TaskState::Failed,
        }),
{
    match result {
        Ok(o) => {
            if o.success {
                TaskState::Success
            } else {
                TaskState::Failed
            }
        },
        Err(_) => TaskState::Failed,
    }
}

/// A duration in words: minutes split off past sixty seconds, with
/// singular and plural forms.
pub open spec fn spec_format_duration(secs: int) -> Seq<char>
    recommends
        secs >= 0,
{
    let minutes = if secs >= 60 {
        secs / 60
    } else {
        0
    };
    let seconds = if secs >= 60 {
        secs % 60
    } else {
        secs
    };
    if minutes == 0 && seconds == 1 {
        dec_str(seconds) + " second"@
    } else if minutes == 0 {
        dec_str(seconds) + " seconds"@
    } else if minutes == 1 && seconds == 0 {
        dec_str(minutes) + " minute"@
    } else if minutes == 1 && seconds == 1 {
        dec_str(minutes) + " minute, "@ + dec_str(seconds) + " second"@
    } else if minutes == 1 {
        dec_str(minutes) + " minute, "@ + dec_str(seconds) + " seconds"@
    } else {
        dec_str(minutes) + " minutes, "@ + dec_str(seconds) + " seconds"@
    }
}

pub fn format_duration(secs: u64) -> (r: String)
    ensures
        r@ == spec_format_duration(secs as int),
{
    let minutes: u64 = if secs >= 60 {
        secs / 60
    } else {
        0
    };
    let seconds: u64 = if secs >= 60 {
        secs % 60
    } else {
        secs
    };
    if minutes == 0 && seconds == 1 {
        let mut out = u64_to_string(seconds);
        out.append(" second");
        out
    } else if minutes == 0 {
        let mut out = u64_to_string(seconds);
        out.append(" seconds");
        out
    } else if minutes == 1 && seconds == 0 {
        let mut out = u64_to_string(minutes);
        out.append(" minute");
        out
    } else if minutes == 1 && seconds == 1 {
        let mut out = u64_to_string(minutes);
        out.append(" minute, ");
        let s = u64_to_string(seconds);
        out.append(s.as_str());
        out.append(" second");
        out
    } else if minutes == 1 {
        let mut out = u64_to_string(minutes);
        out.append(" minute, ");
        let s = u64_to_string(seconds);
        out.append(s.as_str());
        out.append(" seconds");
        out
    } else {
        let mut out = u64_to_string(minutes);
        out.append(" minutes, ");
        let s = u64_to_string(seconds);
        out.append(s.as_str());
        out.append(" seconds");
        out
    }
}

/// An environment as log text: one `key: value` line per pair.
pub open spec fn spec_format_environment(env: Seq<(Seq<char>, Seq<char>)>) -> Seq<char>
    decreases env.len(),
{
    if env.len() == 0 {
        Seq::empty()
    } else {
        spec_format_environment(env.drop_last()) + env.last().0 + ": "@ + env.last().1 + "\n"@
    }
}

pub fn format_environment(env: &Environment) -> (r: String)
    ensures
        r@ == spec_format_environment(pair_views(env@)),
{
    let mut out = String::new();
    let mut i: usize = 0;
    while i < env.len()
        invariant
            0 <= i <= env@.len(),
            out@ =~= spec_format_environment(pair_views(env@).take(i as int)),
        decreases env@.len() - i,
    {
        let kv = &env[i];
        out.append(kv.0.as_str());
        out.append(": ");
        out.append(kv.1.as_str());
        out.append("\n");
        i += 1;
        proof {
            assert(pair_views(env@).take(i as int).drop_last() =~= pair_views(env@).take(
                i as int - 1,
            ));
            assert(out@ =~= spec_format_environment(pair_views(env@).take(i as int)));
        }
    }
    proof {
        assert(pair_views(env@).take(env@.len() as int) =~= pair_views(env@));
    }
    out
}

/// The log line for a git step that failed.
pub fn git_failure_message(desc: &str, stderr: &str) -> (r: String)
    ensures
        r@ == desc@ + ": "@ + stderr@,
{
    let mut out = desc.to_owned();
    out.append(": ");
    out.append(stderr);
    out
}

/// The log line for a configuration that would not load.
pub fn config_failure_message(remote: &str, desc: &str, related: Option<&str>) -> (r: String)
    ensures
        r@ == "could not load config for repo "@ + remote@ + ": "@ + desc@ + " (branch: "@ + (
        match related {
            Some(s) => s@,
            None => "None"@,
        }) + ")"@,
{
    let mut out = "could not load config for repo ".to_owned();
    out.append(remote);
    out.append(": ");
    out.append(desc);
    out.append(" (branch: ");
    match related {
        Some(s) => out.append(s),
        None => out.append("None"),
    }
    out.append(")");
    out
}

/// The log line for a ref that resolves to no configuration.
pub fn no_config_message(refstring: &str) -> (r: String)
    ensures
        r@ == "No config for ref '"@ + refstring@ + "'"@,
{
    let mut out = "No config for ref '".to_owned();
    out.append(refstring);
    out.append("'");
    out
}

/// The log line for a resolved entry that carries no runnable task.
pub fn no_task_message(refstring: &str) -> (r: String)
    ensures
        r@ == "No task for ref '"@ + refstring@ + "'"@,
{
    let mut out = "No task for ref '".to_owned();
    out.append(refstring);
    out.append("'");
    out
}

/// The log line for a command that could not run.
pub fn command_failure_message(desc: &str, detail: &Option<String>) -> (r: String)
    ensures
        r@ == "task failed: "@ + desc@ + " ("@ + (match detail {
            Some(d) => d@,
            None => Seq::empty(),
        }) + ")"@,
{
    let mut out = "task failed: ".to_owned();
    out.append(desc);
    out.append(" (");
    match detail {
        Some(d) => out.append(d.as_str()),
        None => {
            proof {
                assert(out@ + Seq::<char>::empty() =~= out@);
            }
        },
    }
    out.append(")");
    out
}

} // verus!
