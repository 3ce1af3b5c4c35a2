//! Git checkout descriptors.
//!
//! A `GitRepo` names a remote, a ref and the pinned sha, and derives
//! the local directory the checkout lives in. The git subprocesses
//! themselves run outside the library; this module builds and proves
//! the exact argument lists they are given.

use vstd::prelude::*;
use vstd::string::*;
use crate::message::RefType;
use crate::strutil::{replace_char, replace_char_exec, views_of};

verus! {

/// The mathematical image of a `GitRepo`.
pub struct RepoModel {
    pub owner: Seq<char>,
    pub name: Seq<char>,
    pub refstring: Seq<char>,
    pub reftype: RefType,
    pub sha: Seq<char>,
    pub remote_path: Seq<char>,
    pub local_path: Seq<char>,
}

/// Path separators are replaced so a derived directory name cannot
/// leave the checkout root: first `/`, then `\`, each becomes `!`.
pub open spec fn sanitize(s: Seq<char>) -> Seq<char> {
    replace_char(replace_char(s, '/', '!'), '\\', '!')
}

/// The single directory-name component derived from a repo identity.
pub open spec fn local_component(owner: Seq<char>, name: Seq<char>, refstring: Seq<char>) -> Seq<
    char,
> {
    sanitize(owner + seq!['.'] + name + seq!['.'] + refstring)
}

/// Where the checkout lives: one component under the checkout root.
pub open spec fn local_path_of(
    root: Seq<char>,
    owner: Seq<char>,
    name: Seq<char>,
    refstring: Seq<char>,
) -> Seq<char> {
    root + seq!['/'] + local_component(owner, name, refstring)
}

/// Law: however `/` and `\` occur in the owner, the repository name or
/// the ref name, the derived component contains neither, so the local
/// path stays a single directory under the checkout root.
pub proof fn lemma_local_path_sanitized(owner: Seq<char>, name: Seq<char>, refstring: Seq<char>)
    ensures
        forall|i: int|
            0 <= i < local_component(owner, name, refstring).len() ==> #[trigger] local_component(
                owner,
                name,
                refstring,
            )[i] != '/' && local_component(owner, name, refstring)[i] != '\\',
{
}

pub struct GitRepo {
    /// Owner of the repository.
    pub owner: String,
    /// Name of the repository.
    pub name: String,
    /// Ref to check out.
    pub refstring: String,
    /// Whether the ref is a branch or a tag.
    pub reftype: RefType,
    /// The sha this event pinned.
    pub sha: String,
    /// Remote path to the repository.
    pub remote_path: String,
    /// Local path of the checkout.
    pub local_path: String,
}

impl GitRepo {
    pub open spec fn model(&self) -> RepoModel {
        RepoModel {
            owner: self.owner@,
            name: self.name@,
            refstring: self.refstring@,
            reftype: self.reftype,
            sha: self.sha@,
            remote_path: self.remote_path@,
            local_path: self.local_path@,
        }
    }

    /// The queue key `owner.name.refstring`.
    pub fn fully_qualified_branch(&self) -> (r: String)
        ensures
            r@ == self.owner@ + seq!['.'] + self.name@ + seq!['.'] + self.refstring@,
    {
        let mut out = self.owner.clone();
        out.append(".");
        out.append(self.name.as_str());
        out.append(".");
        out.append(self.refstring.as_str());
        proof {
            reveal_strlit(".");
            assert("."@ =~= seq!['.']);
            assert(out@ =~= self.owner@ + seq!['.'] + self.name@ + seq!['.'] + self.refstring@);
        }
        out
    }

    pub fn from<T: ToGitRepo>(other: T, root: &str) -> (r: GitRepo)
        ensures
            r.model() == other.spec_repo(root@),
    {
        other.to_git_repo(root)
    }

    /// Arguments of the clone that creates the checkout.
    pub fn clone_args(&self) -> (r: Vec<String>)
        ensures
            views_of(r@) =~= seq![
                "clone"@,
                "--depth=1"@,
                "--single-branch"@,
                "-b"@,
                self.refstring@,
                self.remote_path@,
                self.local_path@,
            ],
    {
        let mut v: Vec<String> = Vec::new();
        v.push("clone".to_owned());
        v.push("--depth=1".to_owned());
        v.push("--single-branch".to_owned());
        v.push("-b".to_owned());
        v.push(self.refstring.clone());
        v.push(self.remote_path.clone());
        v.push(self.local_path.clone());
        v
    }

    /// Arguments of the fetch that refreshes an existing checkout.
    pub fn fetch_args(&self) -> (r: Vec<String>)
        ensures
            views_of(r@) =~= seq!["fetch"@, "--tags"@],
    {
        let mut v: Vec<String> = Vec::new();
        v.push("fetch".to_owned());
        v.push("--tags".to_owned());
        v
    }

    /// Arguments of the reset that pins the working tree to the sha.
    pub fn reset_args(&self) -> (r: Vec<String>)
        ensures
            views_of(r@) =~= seq!["reset"@, "--hard"@, self.sha@],
    {
        let mut v: Vec<String> = Vec::new();
        v.push("reset".to_owned());
        v.push("--hard".to_owned());
        v.push(self.sha.clone());
        v
    }
}

/// Things a `GitRepo` can be made from.
pub trait ToGitRepo: Sized {
    /// The descriptor this value maps to under a checkout root.
    spec fn spec_repo(self, root: Seq<char>) -> RepoModel;

    fn to_git_repo(self, root: &str) -> (r: GitRepo)
        ensures
            r.model() == self.spec_repo(root@),
    ;
}

/// Build the local path `root/component` with separators sanitized out
/// of the component.
pub fn build_local_path(root: &str, owner: &str, name: &str, refstring: &str) -> (r: String)
    ensures
        r@ == local_path_of(root@, owner@, name@, refstring@),
{
    let mut component = owner.to_owned();
    component.append(".");
    component.append(name);
    component.append(".");
    component.append(refstring);
    let pass1 = replace_char_exec(component.as_str(), '/', '!');
    let pass2 = replace_char_exec(pass1.as_str(), '\\', '!');
    let mut out = root.to_owned();
    out.append("/");
    out.append(pass2.as_str());
    proof {
        reveal_strlit(".");
        reveal_strlit("/");
        assert("."@ =~= seq!['.']);
        assert("/"@ =~= seq!['/']);
        assert(component@ =~= owner@ + seq!['.'] + name@ + seq!['.'] + refstring@);
        assert(out@ =~= local_path_of(root@, owner@, name@, refstring@));
    }
    out
}

} // verus!
