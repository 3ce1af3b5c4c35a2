//! Outgoing status notifications: the exact JSON body and the signed
//! header. Posting them is the caller's detached work; nothing here
//! blocks a deploy.

use vstd::prelude::*;
use vstd::string::*;
use crate::deploy_task::DeployTask;
use crate::jsondoc::{json_encode_str, json_quoted};
use crate::message::{RefType, reftype_token};
use crate::repo_config::{EntryModel, RepoConfig, lookup_post};
use crate::signature::{
    HashType, Signature, alg_token, digest_len, hex_of, hmac_of, lemma_signature_round_trip,
    spec_sig_parse,
};
use crate::strutil::views_of;

verus! {

#[derive(Clone, Copy, Debug, PartialEq, Eq, Structural)]
pub enum TaskState {
    Started,
    Success,
    Failed,
}

/// The token a state carries on the wire.
pub open spec fn state_token(s: TaskState) -> Seq<char> {
    match s {
        TaskState::Started => "started"@,
        TaskState::Success => "success"@,
        TaskState::Failed => "failed"@,
    }
}

impl TaskState {
    pub fn to_string(&self) -> (r: String)
        ensures
            r@ == state_token(*self),
    {
        match *self {
            TaskState::Started => "started".to_owned(),
            TaskState::Success => "success".to_owned(),
            TaskState::Failed => "failed".to_owned(),
        }
    }
}

/// Where a task's log can be read: `http://<host>/tasks/<id>`.
pub open spec fn spec_task_url(host: Seq<char>, id: Seq<char>) -> Seq<char> {
    "http://"@ + host + "/tasks/"@ + id
}

/// The notification body, key by key in wire order; free-form strings
/// go through JSON quoting, fixed tokens stand bare.
pub open spec fn spec_notification_body(
    status: TaskState,
    task_id: Seq<char>,
    task_url: Seq<char>,
    owner: Seq<char>,
    repo: Seq<char>,
    reftype: RefType,
    refstring: Seq<char>,
    sha: Seq<char>,
) -> Seq<char> {
    "{\"status\":\""@ + state_token(status) + "\",\"failed\":"@ + (if status is Failed {
        "true"@
    } else {
        "false"@
    }) + ",\"task_id\":"@ + json_quoted(task_id) + ",\"task_url\":"@ + json_quoted(task_url)
        + ",\"owner\":"@ + json_quoted(owner) + ",\"repo\":"@ + json_quoted(repo)
        + ",\"reftype\":\""@ + reftype_token(reftype) + "\",\"refstring\":"@ + json_quoted(
        refstring,
    ) + ",\"sha\":"@ + json_quoted(sha) + "}"@
}

/// The body of a status notification for one deploy.
pub fn build_notification_body(task: &DeployTask, status: TaskState) -> (r: String)
    ensures
        r@ == spec_notification_body(
            status,
            task.id@,
            spec_task_url(task.host@, task.id@),
            task.repo.owner@,
            task.repo.name@,
            task.repo.reftype,
            task.repo.refstring@,
            task.repo.sha@,
        ),
{
    let mut url = "http://".to_owned();
    url.append(task.host.as_str());
    url.append("/tasks/");
    url.append(task.id.as_str());
    proof {
        assert(url@ =~= spec_task_url(task.host@, task.id@));
    }
    let mut b = "{\"status\":\"".to_owned();
    let st = status.to_string();
    b.append(st.as_str());
    b.append("\",\"failed\":");
    match status {
        TaskState::Failed => b.append("true"),
        _ => b.append("false"),
    }
    b.append(",\"task_id\":");
    let q_id = json_encode_str(&task.id);
    b.append(q_id.as_str());
    b.append(",\"task_url\":");
    let q_url = json_encode_str(&url);
    b.append(q_url.as_str());
    b.append(",\"owner\":");
    let q_owner = json_encode_str(&task.repo.owner);
    b.append(q_owner.as_str());
    b.append(",\"repo\":");
    let q_repo = json_encode_str(&task.repo.name);
    b.append(q_repo.as_str());
    b.append(",\"reftype\":\"");
    let rt = task.repo.reftype.to_string();
    b.append(rt.as_str());
    b.append("\",\"refstring\":");
    let q_ref = json_encode_str(&task.repo.refstring);
    b.append(q_ref.as_str());
    b.append(",\"sha\":");
    let q_sha = json_encode_str(&task.repo.sha);
    b.append(q_sha.as_str());
    b.append("}");
    proof {
        assert(b@ =~= spec_notification_body(
            status,
            task.id@,
            spec_task_url(task.host@, task.id@),
            task.repo.owner@,
            task.repo.name@,
            task.repo.reftype,
            task.repo.refstring@,
            task.repo.sha@,
        ));
    }
    b
}

/// Law: the signature header on an outgoing notification is the
/// sha256 form of the exact body under the server secret, and parses
/// back to a signature whose digest is that very HMAC — so verifying
/// it against the body and the secret succeeds.
pub fn sign_notification(body: &str, secret: &str) -> (r: String)
    ensures
        r@ == alg_token(HashType::SHA256) + seq!['='] + hex_of(
            hmac_of(alg_token(HashType::SHA256), secret@, body@),
        ),
        spec_sig_parse(r@) == Some(
            (HashType::SHA256, hex_of(hmac_of(alg_token(HashType::SHA256), secret@, body@))),
        ),
{
    let sig = Signature::create(HashType::SHA256, body, secret);
    let out = sig.to_string();
    proof {
        let digest = hmac_of(alg_token(HashType::SHA256), secret@, body@);
        assert(hex_of(digest).len() == 2 * digest.len());
        assert(digest.len() == digest_len(HashType::SHA256));
        lemma_signature_round_trip(HashType::SHA256, digest);
    }
    out
}

/// The notify targets configured under the deploy's ref, if the ref
/// resolves to an entry that names any.
pub fn get_notifiers<'a>(task: &DeployTask, config: &'a RepoConfig) -> (r: Option<&'a Vec<String>>)
    ensures
        match r {
            Some(urls) => (match config.group_entries(task.repo.reftype) {
                Some(es) => exists|e: EntryModel|
                    lookup_post(es, task.repo.refstring@, Some(e)) && e.notifiers == Some(
                        views_of(urls@),
                    ),
                None => false,
            }),
            None => (match config.group_entries(task.repo.reftype) {
                None => true,
                Some(es) => lookup_post(es, task.repo.refstring@, None) || (exists|e: EntryModel|
                    lookup_post(es, task.repo.refstring@, Some(e)) && e.notifiers is None),
            }),
        },
{
    match config.lookup(task.repo.reftype, task.repo.refstring.as_str()) {
        Some(refconfig) => {
            match &refconfig.notifiers {
                Some(urls) => Some(urls),
                None => None,
            }
        },
        None => None,
    }
}

} // verus!
