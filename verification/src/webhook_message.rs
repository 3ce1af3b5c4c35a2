//! The earlier GitHub-payload decoder, with coded errors.

use vstd::prelude::*;
use vstd::string::*;
use crate::jsondoc::{
    JsonLookup, field_present, field_str, json_lookup_str, json_ok, path1, path2, path3,
};
use crate::message::{at1, at2, at3};
use crate::strutil::str_eq;

verus! {

#[derive(Debug, Clone, Copy, PartialEq, Eq, Structural)]
pub enum ErrorCode {
    InvalidRef,
    InvalidSha,
    InvalidRepoName,
    InvalidRepoOwner,
    InvalidGitUrl,
    MissingRef,
    MissingSha,
    MissingRepoName,
    MissingRepoOwner,
    MissingGitUrl,
    InvalidJson,
    Unknown,
}

#[derive(Debug)]
pub struct Error {
    pub code: ErrorCode,
    pub detail: &'static str,
}

/// The mathematical image of a decoded message.
#[verifier::ext_equal]
pub struct MsgModel {
    pub branch: Option<Seq<char>>,
    pub tag: Option<Seq<char>>,
    pub head_sha: Seq<char>,
    pub repo_name: Seq<char>,
    pub owner: Seq<char>,
    pub git_url: Seq<char>,
}

/// What anchoring `<prefix>(.*)` captures: the rest of the ref, which
/// may be empty.
pub open spec fn ref_capture(r: Seq<char>, prefix: Seq<char>) -> Option<Seq<char>> {
    if r.len() >= prefix.len() && r.take(prefix.len() as int) == prefix {
        Some(r.skip(prefix.len() as int))
    } else {
        None
    }
}

/// What decoding yields, error by error in the order the fields are
/// read.
pub open spec fn spec_message_parse(doc: Seq<char>) -> Result<MsgModel, (ErrorCode, Seq<char>)> {
    if !json_ok(doc) {
        Err((ErrorCode::InvalidJson, "could not parse json"@))
    } else {
        let rf = at1(doc, "ref"@);
        if rf is None {
            Err((ErrorCode::MissingRef, "ref must exist"@))
        } else if !field_present(rf) {
            Err((ErrorCode::InvalidRef, "ref must be a string"@))
        } else {
            let branch = ref_capture(field_str(rf), "refs/heads/"@);
            let tag = ref_capture(field_str(rf), "refs/tags/"@);
            if branch is None && tag is None {
                Err((ErrorCode::InvalidRef, "missing both branch & tag (bad ref?)"@))
            } else {
                let sh = at1(doc, "after"@);
                let rn = at2(doc, "repository"@, "name"@);
                let ow = at3(doc, "repository"@, "owner"@, "name"@);
                let gu = at2(doc, "repository"@, "git_url"@);
                if sh is None {
                    Err((ErrorCode::MissingSha, "'after' must be present"@))
                } else if !field_present(sh) {
                    Err((ErrorCode::InvalidSha, "'after' must be a string"@))
                } else if rn is None {
                    Err((ErrorCode::MissingRepoName, "'repository.name' must be present"@))
                } else if !field_present(rn) {
                    Err((ErrorCode::InvalidRepoName, "'repository.name' must be a string"@))
                } else if ow is None {
                    Err((ErrorCode::MissingRepoOwner, "'repository.owner.name' must be present"@))
                } else if !field_present(ow) {
                    Err((ErrorCode::InvalidRepoOwner, "'repository.owner.name' must be a string"@))
                } else if gu is None {
                    Err((ErrorCode::MissingGitUrl, "'repository.git_url' must be present"@))
                } else if !field_present(gu) {
                    Err((ErrorCode::InvalidGitUrl, "'repository.git_url' must be a string"@))
                } else {
                    Ok(
                        MsgModel {
                            branch,
                            tag,
                            head_sha: field_str(sh),
                            repo_name: field_str(rn),
                            owner: field_str(ow),
                            git_url: field_str(gu),
                        },
                    )
                }
            }
        }
    }
}

#[derive(Clone, Debug)]
pub struct Message {
    pub branch: Option<String>,
    pub tag: Option<String>,
    pub head_sha: String,
    pub repo_name: String,
    pub owner: String,
    pub git_url: String,
}

impl Message {
    pub open spec fn model(&self) -> MsgModel {
        MsgModel {
            branch: match self.branch {
                Some(b) => Some(b@),
                None => None,
            },
            tag: match self.tag {
                Some(t) => Some(t@),
                None => None,
            },
            head_sha: self.head_sha@,
            repo_name: self.repo_name@,
            owner: self.owner@,
            git_url: self.git_url@,
        }
    }

    pub fn from_string(json_string: String) -> (r: Result<Message, Error>)
        ensures
            match r {
                Ok(m) => spec_message_parse(json_string@) == Ok::<MsgModel, (ErrorCode, Seq<char>)>(
                    m.model(),
                ),
                Err(e) => spec_message_parse(json_string@) == Err::<
                    MsgModel,
                    (ErrorCode, Seq<char>),
                >((e.code, e.detail@)),
            },
    {
        let json = json_string.as_str();
        let rf = match json_lookup_str(json, &path1("ref")) {
            JsonLookup::BadJson => {
                return Err(Error { code: ErrorCode::InvalidJson, detail: "could not parse json" });
            },
            JsonLookup::Missing => {
                return Err(Error { code: ErrorCode::MissingRef, detail: "ref must exist" });
            },
            JsonLookup::WrongType => {
                return Err(Error { code: ErrorCode::InvalidRef, detail: "ref must be a string" });
            },
            JsonLookup::Found(s) => s,
        };
        let n = rf.as_str().unicode_len();
        let branch: Option<String> = if n >= 11 && str_eq(
            rf.as_str().substring_char(0, 11),
            "refs/heads/",
        ) {
            proof {
                assert(rf@.skip(11) =~= rf@.subrange(11, n as int));
                assert("refs/heads/"@.len() == 11) by {
                    reveal_strlit("refs/heads/");
                }
            }
            Some(rf.as_str().substring_char(11, n).to_owned())
        } else {
            proof {
                assert("refs/heads/"@.len() == 11) by {
                    reveal_strlit("refs/heads/");
                }
            }
            None
        };
        let tag: Option<String> = if n >= 10 && str_eq(
            rf.as_str().substring_char(0, 10),
            "refs/tags/",
        ) {
            proof {
                assert(rf@.skip(10) =~= rf@.subrange(10, n as int));
                assert("refs/tags/"@.len() == 10) by {
                    reveal_strlit("refs/tags/");
                }
            }
            Some(rf.as_str().substring_char(10, n).to_owned())
        } else {
            proof {
                assert("refs/tags/"@.len() == 10) by {
                    reveal_strlit("refs/tags/");
                }
            }
            None
        };
        if branch.is_none() && tag.is_none() {
            return Err(
                Error { code: ErrorCode::InvalidRef, detail: "missing both branch & tag (bad ref?)" },
            );
        }
        let head_sha = match json_lookup_str(json, &path1("after")) {
            JsonLookup::Missing => {
                return Err(Error { code: ErrorCode::MissingSha, detail: "'after' must be present" });
            },
            JsonLookup::Found(s) => s,
            _ => {
                return Err(
                    Error { code: ErrorCode::InvalidSha, detail: "'after' must be a string" },
                );
            },
        };
        let repo_name = match json_lookup_str(json, &path2("repository", "name")) {
            JsonLookup::Missing => {
                return Err(
                    Error {
                        code: ErrorCode::MissingRepoName,
                        detail: "'repository.name' must be present",
                    },
                );
            },
            JsonLookup::Found(s) => s,
            _ => {
                return Err(
                    Error {
                        code: ErrorCode::InvalidRepoName,
                        detail: "'repository.name' must be a string",
                    },
                );
            },
        };
        let owner = match json_lookup_str(json, &path3("repository", "owner", "name")) {
            JsonLookup::Missing => {
                return Err(
                    Error {
                        code: ErrorCode::MissingRepoOwner,
                        detail: "'repository.owner.name' must be present",
                    },
                );
            },
            JsonLookup::Found(s) => s,
            _ => {
                return Err(
                    Error {
                        code: ErrorCode::InvalidRepoOwner,
                        detail: "'repository.owner.name' must be a string",
                    },
                );
            },
        };
        let git_url = match json_lookup_str(json, &path2("repository", "git_url")) {
            JsonLookup::Missing => {
                return Err(
                    Error {
                        code: ErrorCode::MissingGitUrl,
                        detail: "'repository.git_url' must be present",
                    },
                );
            },
            JsonLookup::Found(s) => s,
            _ => {
                return Err(
                    Error {
                        code: ErrorCode::InvalidGitUrl,
                        detail: "'repository.git_url' must be a string",
                    },
                );
            },
        };
        Ok(Message { branch, tag, head_sha, repo_name, owner, git_url })
    }
}

} // verus!
