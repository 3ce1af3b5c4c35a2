//! The webhook ingress decision: authenticate a request, decode its
//! payload, and say what the server answers. The sockets and headers
//! themselves stay with the caller, which hands in plain values.

use vstd::prelude::*;
use vstd::string::*;
use crate::git::{GitRepo, RepoModel, ToGitRepo};
use crate::message::{
    GitHubMessage, SimpleMessage, repo_of_github, repo_of_simple, spec_github_parse,
    spec_simple_parse,
};
use crate::signature::{Signature, alg_token, hex_of, hmac_of, spec_sig_parse};
use crate::strutil::str_eq;

verus! {

/// Whether the insecure-mode switch is on: the variable's value reads
/// "true", "t" or "1".
pub open spec fn spec_skip_signature_check(value: Option<Seq<char>>) -> bool {
    match value {
        Some(v) => v == "true"@ || v == "t"@ || v == "1"@,
        None => false,
    }
}

pub fn skip_signature_check(value: Option<&String>) -> (r: bool)
    ensures
        r == spec_skip_signature_check(
            match value {
                Some(v) => Some(v@),
                None => None,
            },
        ),
{
    match value {
        Some(v) => {
            str_eq(v.as_str(), "true") || str_eq(v.as_str(), "t") || str_eq(v.as_str(), "1")
        },
        None => false,
    }
}

/// What the ingress answers a webhook request.
pub enum IngressDecision {
    /// Refuse with 401 and this body.
    Unauthorized(&'static str),
    /// Refuse with 400 and this body.
    BadRequest(&'static str),
    /// Accept with 202: enqueue a task for this checkout.
    Accept(GitRepo),
}

/// The mathematical image of an ingress decision.
#[verifier::ext_equal]
pub enum IngressModel {
    Unauthorized(Seq<char>),
    BadRequest(Seq<char>),
    Accept(RepoModel),
}

impl IngressDecision {
    pub open spec fn model(&self) -> IngressModel {
        match self {
            IngressDecision::Unauthorized(m) => IngressModel::Unauthorized(m@),
            IngressDecision::BadRequest(m) => IngressModel::BadRequest(m@),
            IngressDecision::Accept(repo) => IngressModel::Accept(repo.model()),
        }
    }
}

/// How an authenticated payload decodes: the native dialect first, the
/// GitHub dialect second, a 400 when both refuse.
pub open spec fn spec_payload_decision(payload: Seq<char>, root: Seq<char>) -> IngressModel {
    match spec_simple_parse(payload) {
        Some(m) => IngressModel::Accept(repo_of_simple(m, root)),
        None => match spec_github_parse(payload) {
            Ok(g) => IngressModel::Accept(repo_of_github(g, root)),
            Err(_) => IngressModel::BadRequest("could not parse message"@),
        },
    }
}

/// What the ingress answers: unless insecure mode is on, exactly one
/// signature header must be present, parse, and match the payload
/// under the secret; then the payload must decode in one dialect.
pub open spec fn spec_ingress_decide(
    x_signature: Option<Seq<char>>,
    x_hub_signature: Option<Seq<char>>,
    payload: Seq<char>,
    secret: Seq<char>,
    insecure: bool,
    root: Seq<char>,
) -> IngressModel {
    if insecure {
        spec_payload_decision(payload, root)
    } else {
        match (x_signature, x_hub_signature) {
            (None, None) => IngressModel::Unauthorized("missing signature"@),
            (Some(_), Some(_)) => IngressModel::Unauthorized("too many signatures"@),
            (Some(s), None) => spec_signed_decision(s, payload, secret, root),
            (None, Some(s)) => spec_signed_decision(s, payload, secret, root),
        }
    }
}

/// One signature header: it must parse, and its digest must equal the
/// payload's HMAC under the secret and its own algorithm.
pub open spec fn spec_signed_decision(
    header: Seq<char>,
    payload: Seq<char>,
    secret: Seq<char>,
    root: Seq<char>,
) -> IngressModel {
    match spec_sig_parse(header) {
        None => IngressModel::Unauthorized("could not parse signature"@),
        Some((alg, hex)) => if hex != hex_of(hmac_of(alg_token(alg), secret, payload)) {
            IngressModel::Unauthorized("signature doesn't match"@)
        } else {
            spec_payload_decision(payload, root)
        },
    }
}

fn payload_decision(payload: &str, checkout_root: &str) -> (r: IngressDecision)
    ensures
        r.model() == spec_payload_decision(payload@, checkout_root@),
{
    match SimpleMessage::from_str(payload) {
        Ok(message) => IngressDecision::Accept(GitRepo::from(message, checkout_root)),
        Err(_) => {
            match GitHubMessage::from_str(payload) {
                Ok(message) => IngressDecision::Accept(GitRepo::from(message, checkout_root)),
                Err(_) => IngressDecision::BadRequest("could not parse message"),
            }
        },
    }
}

pub fn ingress_decide(
    x_signature: Option<&String>,
    x_hub_signature: Option<&String>,
    payload: &str,
    secret: &str,
    insecure: bool,
    checkout_root: &str,
) -> (r: IngressDecision)
    ensures
        r.model() == spec_ingress_decide(
            match x_signature {
                Some(s) => Some(s@),
                None => None,
            },
            match x_hub_signature {
                Some(s) => Some(s@),
                None => None,
            },
            payload@,
            secret@,
            insecure,
            checkout_root@,
        ),
{
    if !insecure {
        let header: &String = match (x_signature, x_hub_signature) {
            (None, None) => {
                return IngressDecision::Unauthorized("missing signature");
            },
            (Some(_), Some(_)) => {
                return IngressDecision::Unauthorized("too many signatures");
            },
            (Some(h), None) => h,
            (None, Some(h)) => h,
        };
        let signature = match Signature::from(header.clone()) {
            Some(s) => s,
            None => {
                return IngressDecision::Unauthorized("could not parse signature");
            },
        };
        if !signature.verify(payload, secret) {
            return IngressDecision::Unauthorized("signature doesn't match");
        }
    }
    payload_decision(payload, checkout_root)
}

} // verus!
