//! Webhook payloads: the native and the GitHub dialect, each decoded
//! into a `GitRepo` descriptor.

use vstd::prelude::*;
use vstd::string::*;
use crate::git::{GitRepo, RepoModel, ToGitRepo, build_local_path, local_path_of};
use crate::jsondoc::{
    JsonLookup, field_nonempty, field_present, field_str, json_lookup_str, json_ok, json_str_at,
    path1, path2, path3,
};
use crate::strutil::{replace_char, replace_char_exec, str_eq};

verus! {

/// Whether a ref names a branch or a tag.
#[allow(non_camel_case_types)]
#[derive(Clone, Copy, Debug, PartialEq, Eq, Structural)]
pub enum RefType {
    tag,
    branch,
}

/// The token a ref type uses in payloads and environments.
pub open spec fn reftype_token(t: RefType) -> Seq<char> {
    match t {
        RefType::tag => "tag"@,
        RefType::branch => "branch"@,
    }
}

impl RefType {
    pub fn to_string(&self) -> (r: String)
        ensures
            r@ == reftype_token(*self),
    {
        match *self {
            RefType::tag => "tag".to_owned(),
            RefType::branch => "branch".to_owned(),
        }
    }
}

/// One-key string lookup in a payload.
pub open spec fn at1(doc: Seq<char>, k: Seq<char>) -> Option<Option<Seq<char>>> {
    json_str_at(doc, seq![k])
}

/// Two-key string lookup in a payload.
pub open spec fn at2(doc: Seq<char>, k1: Seq<char>, k2: Seq<char>) -> Option<Option<Seq<char>>> {
    json_str_at(doc, seq![k1, k2])
}

/// Three-key string lookup in a payload.
pub open spec fn at3(
    doc: Seq<char>,
    k1: Seq<char>,
    k2: Seq<char>,
    k3: Seq<char>,
) -> Option<Option<Seq<char>>> {
    json_str_at(doc, seq![k1, k2, k3])
}

/// The mathematical image of a native-dialect message.
#[verifier::ext_equal]
pub struct SimpleModel {
    pub prefix: Option<Seq<char>>,
    pub reftype: RefType,
    pub refstring: Seq<char>,
    pub remote: Seq<char>,
    pub sha: Seq<char>,
    pub repo_name: Seq<char>,
}

/// What decoding a native-dialect payload yields: all required fields
/// present as non-empty strings (the sha may be empty), a known ref
/// type, and a prefix that is absent or a non-empty string.
pub open spec fn spec_simple_parse(doc: Seq<char>) -> Option<SimpleModel> {
    let rn = at1(doc, "repo_name"@);
    let rs = at1(doc, "refstring"@);
    let rt = at1(doc, "reftype"@);
    let rm = at1(doc, "remote"@);
    let sh = at1(doc, "sha"@);
    let pf = at1(doc, "prefix"@);
    if !json_ok(doc) {
        None
    } else if !(field_nonempty(rn) && field_nonempty(rs) && field_nonempty(rm) && field_present(
        sh,
    )) {
        None
    } else if !(field_present(rt) && (field_str(rt) == "branch"@ || field_str(rt) == "tag"@)) {
        None
    } else if pf matches Some(inner) && !(inner matches Some(p) && p.len() > 0) {
        None
    } else {
        Some(
            SimpleModel {
                prefix: match pf {
                    Some(Some(p)) => Some(p),
                    _ => None,
                },
                reftype: if field_str(rt) == "branch"@ {
                    RefType::branch
                } else {
                    RefType::tag
                },
                refstring: field_str(rs),
                remote: field_str(rm),
                sha: field_str(sh),
                repo_name: field_str(rn),
            },
        )
    }
}

/// A push event in the receiver's own payload shape.
#[derive(Clone, Debug)]
pub struct SimpleMessage {
    /// The prefix that tells this deployment apart from another with
    /// possibly the same repository name.
    pub prefix: Option<String>,
    /// Type of reference (branch or tag).
    pub reftype: RefType,
    /// Reference to check out.
    pub refstring: String,
    /// Remote path to the repository.
    pub remote: String,
    /// SHA to use; "HEAD" means whatever the ref points at.
    pub sha: String,
    /// Name of the repository.
    pub repo_name: String,
}

impl SimpleMessage {
    pub open spec fn model(&self) -> SimpleModel {
        SimpleModel {
            prefix: match self.prefix {
                Some(p) => Some(p@),
                None => None,
            },
            reftype: self.reftype,
            refstring: self.refstring@,
            remote: self.remote@,
            sha: self.sha@,
            repo_name: self.repo_name@,
        }
    }

    pub fn from_str(json: &str) -> (r: Result<SimpleMessage, &'static str>)
        ensures
            match r {
                Ok(m) => spec_simple_parse(json@) == Some(m.model()),
                Err(e) => spec_simple_parse(json@) is None && e@
                    == "could not decode json to message"@,
            },
    {
        let repo_name = match json_lookup_str(json, &path1("repo_name")) {
            JsonLookup::Found(s) => {
                if s.as_str().is_empty() {
                    return Err("could not decode json to message");
                }
                s
            },
            _ => {
                return Err("could not decode json to message");
            },
        };
        let refstring = match json_lookup_str(json, &path1("refstring")) {
            JsonLookup::Found(s) => {
                if s.as_str().is_empty() {
                    return Err("could not decode json to message");
                }
                s
            },
            _ => {
                return Err("could not decode json to message");
            },
        };
        let remote = match json_lookup_str(json, &path1("remote")) {
            JsonLookup::Found(s) => {
                if s.as_str().is_empty() {
                    return Err("could not decode json to message");
                }
                s
            },
            _ => {
                return Err("could not decode json to message");
            },
        };
        let sha = match json_lookup_str(json, &path1("sha")) {
            JsonLookup::Found(s) => s,
            _ => {
                return Err("could not decode json to message");
            },
        };
        let rt = match json_lookup_str(json, &path1("reftype")) {
            JsonLookup::Found(s) => s,
            _ => {
                return Err("could not decode json to message");
            },
        };
        let reftype = if str_eq(rt.as_str(), "branch") {
            RefType::branch
        } else if str_eq(rt.as_str(), "tag") {
            RefType::tag
        } else {
            return Err("could not decode json to message");
        };
        let prefix = match json_lookup_str(json, &path1("prefix")) {
            JsonLookup::Missing => None,
            JsonLookup::Found(s) => {
                if s.as_str().is_empty() {
                    return Err("could not decode json to message");
                }
                Some(s)
            },
            _ => {
                return Err("could not decode json to message");
            },
        };
        Ok(SimpleMessage { prefix, reftype, refstring, remote, sha, repo_name })
    }
}

/// The descriptor a native-dialect message maps to: the owner is the
/// prefix with dots folded away, or `$` when absent.
pub open spec fn repo_of_simple(m: SimpleModel, root: Seq<char>) -> RepoModel {
    let owner = match m.prefix {
        Some(p) => replace_char(p, '.', '!'),
        None => "$"@,
    };
    RepoModel {
        owner,
        name: m.repo_name,
        refstring: m.refstring,
        reftype: m.reftype,
        sha: m.sha,
        remote_path: m.remote,
        local_path: local_path_of(root, owner, m.repo_name, m.refstring),
    }
}

impl ToGitRepo for SimpleMessage {
    open spec fn spec_repo(self, root: Seq<char>) -> RepoModel {
        repo_of_simple(self.model(), root)
    }

    fn to_git_repo(self, root: &str) -> (r: GitRepo) {
        let owner: String = match &self.prefix {
            Some(p) => replace_char_exec(p.as_str(), '.', '!'),
            None => "$".to_owned(),
        };
        let local_path = build_local_path(
            root,
            owner.as_str(),
            self.repo_name.as_str(),
            self.refstring.as_str(),
        );
        let r = GitRepo {
            owner,
            name: self.repo_name,
            refstring: self.refstring,
            reftype: self.reftype,
            sha: self.sha,
            remote_path: self.remote,
            local_path,
        };
        proof {
            assert(r.model() =~= self.spec_repo(root@));
        }
        r
    }
}

/// The mathematical image of a GitHub-dialect message.
#[verifier::ext_equal]
pub struct GitHubModel {
    pub reftype: RefType,
    pub refstring: Seq<char>,
    pub repo_name: Seq<char>,
    pub owner: Seq<char>,
    pub git_url: Seq<char>,
    pub sha: Seq<char>,
}

/// Split a full ref like `refs/heads/<name>` or `refs/tags/<name>`
/// into its type and its non-empty name.
pub open spec fn ref_parts(r: Seq<char>) -> Option<(RefType, Seq<char>)> {
    if r.len() > 11 && r.take(11) == "refs/heads/"@ {
        Some((RefType::branch, r.skip(11)))
    } else if r.len() > 10 && r.take(10) == "refs/tags/"@ {
        Some((RefType::tag, r.skip(10)))
    } else {
        None
    }
}

/// What decoding a GitHub-dialect payload yields, error by error in
/// the order the fields are read.
pub open spec fn spec_github_parse(doc: Seq<char>) -> Result<GitHubModel, Seq<char>> {
    if !json_ok(doc) {
        Err("could not parse json"@)
    } else {
        let rf = at1(doc, "ref"@);
        if rf is None {
            Err("missing required field `ref`"@)
        } else if !field_present(rf) {
            Err("could not read `ref` as string"@)
        } else {
            match ref_parts(field_str(rf)) {
                None => Err("could not unpack `ref`"@),
                Some((reftype, refstring)) => {
                    let rn = at2(doc, "repository"@, "name"@);
                    let sh = at1(doc, "after"@);
                    let ow = at3(doc, "repository"@, "owner"@, "name"@);
                    let gu = at2(doc, "repository"@, "ssh_url"@);
                    if rn is None {
                        Err("missing `repository.name`"@)
                    } else if !field_nonempty(rn) {
                        Err("couldn't read `repository.name` as a string"@)
                    } else if sh is None {
                        Err("missing `after`"@)
                    } else if !field_present(sh) {
                        Err("couldn't read `after` as a string"@)
                    } else if ow is None {
                        Err("missing `repository.owner.name`"@)
                    } else if !field_nonempty(ow) {
                        Err("couldn't read `repository.owner.name` as a string"@)
                    } else if gu is None {
                        Err("missing `repository.ssh_url`"@)
                    } else if !field_nonempty(gu) {
                        Err("couldn't read `repository.ssh_url` as a string"@)
                    } else {
                        Ok(
                            GitHubModel {
                                reftype,
                                refstring,
                                repo_name: field_str(rn),
                                owner: field_str(ow),
                                git_url: field_str(gu),
                                sha: field_str(sh),
                            },
                        )
                    }
                },
            }
        }
    }
}

/// A push event in GitHub's payload shape.
#[derive(Clone, Debug)]
pub struct GitHubMessage {
    pub reftype: RefType,
    pub refstring: String,
    pub repo_name: String,
    pub owner: String,
    pub git_url: String,
    pub sha: String,
}

impl GitHubMessage {
    pub open spec fn model(&self) -> GitHubModel {
        GitHubModel {
            reftype: self.reftype,
            refstring: self.refstring@,
            repo_name: self.repo_name@,
            owner: self.owner@,
            git_url: self.git_url@,
            sha: self.sha@,
        }
    }

    pub fn from_str(json: &str) -> (r: Result<GitHubMessage, &'static str>)
        ensures
            match r {
                Ok(m) => spec_github_parse(json@) == Ok::<GitHubModel, Seq<char>>(m.model()),
                Err(e) => spec_github_parse(json@) matches Err(msg) && msg == e@,
            },
    {
        let rf = match json_lookup_str(json, &path1("ref")) {
            JsonLookup::BadJson => {
                return Err("could not parse json");
            },
            JsonLookup::Missing => {
                return Err("missing required field `ref`");
            },
            JsonLookup::WrongType => {
                return Err("could not read `ref` as string");
            },
            JsonLookup::Found(s) => s,
        };
        let n = rf.as_str().unicode_len();
        let (reftype, refstring): (RefType, String) = if n > 11 && str_eq(
            rf.as_str().substring_char(0, 11),
            "refs/heads/",
        ) {
            let name = rf.as_str().substring_char(11, n).to_owned();
            proof {
                assert(rf@.skip(11) =~= rf@.subrange(11, n as int));
            }
            (RefType::branch, name)
        } else if n > 10 && str_eq(rf.as_str().substring_char(0, 10), "refs/tags/") {
            let name = rf.as_str().substring_char(10, n).to_owned();
            proof {
                assert(rf@.skip(10) =~= rf@.subrange(10, n as int));
            }
            (RefType::tag, name)
        } else {
            return Err("could not unpack `ref`");
        };
        let repo_name = match json_lookup_str(json, &path2("repository", "name")) {
            JsonLookup::Missing => {
                return Err("missing `repository.name`");
            },
            JsonLookup::Found(s) => {
                if s.as_str().is_empty() {
                    return Err("couldn't read `repository.name` as a string");
                }
                s
            },
            _ => {
                return Err("couldn't read `repository.name` as a string");
            },
        };
        let sha = match json_lookup_str(json, &path1("after")) {
            JsonLookup::Missing => {
                return Err("missing `after`");
            },
            JsonLookup::Found(s) => s,
            _ => {
                return Err("couldn't read `after` as a string");
            },
        };
        let owner = match json_lookup_str(json, &path3("repository", "owner", "name")) {
            JsonLookup::Missing => {
                return Err("missing `repository.owner.name`");
            },
            JsonLookup::Found(s) => {
                if s.as_str().is_empty() {
                    return Err("couldn't read `repository.owner.name` as a string");
                }
                s
            },
            _ => {
                return Err("couldn't read `repository.owner.name` as a string");
            },
        };
        let git_url = match json_lookup_str(json, &path2("repository", "ssh_url")) {
            JsonLookup::Missing => {
                return Err("missing `repository.ssh_url`");
            },
            JsonLookup::Found(s) => {
                if s.as_str().is_empty() {
                    return Err("couldn't read `repository.ssh_url` as a string");
                }
                s
            },
            _ => {
                return Err("couldn't read `repository.ssh_url` as a string");
            },
        };
        Ok(GitHubMessage { reftype, refstring, repo_name, owner, git_url, sha })
    }
}

/// The descriptor a GitHub-dialect message maps to.
pub open spec fn repo_of_github(m: GitHubModel, root: Seq<char>) -> RepoModel {
    RepoModel {
        owner: m.owner,
        name: m.repo_name,
        refstring: m.refstring,
        reftype: m.reftype,
        sha: m.sha,
        remote_path: m.git_url,
        local_path: local_path_of(root, m.owner, m.repo_name, m.refstring),
    }
}

impl ToGitRepo for GitHubMessage {
    open spec fn spec_repo(self, root: Seq<char>) -> RepoModel {
        repo_of_github(self.model(), root)
    }

    fn to_git_repo(self, root: &str) -> (r: GitRepo) {
        let local_path = build_local_path(
            root,
            self.owner.as_str(),
            self.repo_name.as_str(),
            self.refstring.as_str(),
        );
        let r = GitRepo {
            owner: self.owner,
            name: self.repo_name,
            refstring: self.refstring,
            reftype: self.reftype,
            sha: self.sha,
            remote_path: self.git_url,
            local_path,
        };
        proof {
            assert(r.model() =~= self.spec_repo(root@));
        }
        r
    }
}

/// Law: the dialects only differ in where the fields come from. Two
/// messages whose derived fields agree map to the very same descriptor,
/// whichever dialect carried them.
pub proof fn lemma_dialect_independence(s: SimpleMessage, g: GitHubMessage, root: Seq<char>)
    requires
        (match s.prefix {
            Some(p) => replace_char(p@, '.', '!'),
            None => "$"@,
        }) == g.owner@,
        s.repo_name@ == g.repo_name@,
        s.refstring@ == g.refstring@,
        s.reftype == g.reftype,
        s.sha@ == g.sha@,
        s.remote@ == g.git_url@,
    ensures
        s.spec_repo(root) == g.spec_repo(root),
{
    assert(s.spec_repo(root) =~= g.spec_repo(root));
}

} // verus!
