//! Repository configuration: the user identity, the remote identity (URL and
//! tracked branch), the on-disk location, and what is derived from them — the
//! repository name, the full working-copy path, reference names and refspecs.

use vstd::prelude::*;
use vstd::string::StrSliceExecFns;
use vstd::string::StringExecFns;

use crate::errors::CodexGitError;
use crate::strutil::suffix_after_last_slash;

verus! {

/// An SSH key pair for the remote transport.  Both strings empty means no
/// key material is configured, and authentication falls through to the
/// helper chain.
#[derive(Debug, Clone)]
pub struct SshKeys {
    /// public key material
    pub public: String,
    /// private key material
    pub private: String,
}

/// Whether in-memory key material is present: both halves are non-empty.
pub open spec fn keys_configured(k: SshKeys) -> bool {
    k.public@.len() > 0 && k.private@.len() > 0
}

impl SshKeys {
    pub fn new(public: String, private: String) -> (k: SshKeys)
        ensures
            k.public@ == public@,
            k.private@ == private@,
    {
        SshKeys { public, private }
    }

    /// Whether key material is actually present.
    pub fn is_configured(&self) -> (r: bool)
        ensures
            r == keys_configured(*self),
    {
        !self.public.as_str().is_empty() && !self.private.as_str().is_empty()
    }
}

/// The author identity used for every commit this library writes.
#[derive(Debug, Clone)]
pub struct User {
    /// the user's name
    pub name: String,
    /// the user's email address
    pub email: String,
}

impl User {
    pub fn new(name: &str, email: &str) -> (u: User)
        ensures
            u.name@ == name@,
            u.email@ == email@,
    {
        User { name: name.to_owned(), email: email.to_owned() }
    }
}

/// The repository name derived from a remote URL: its last `'/'`-separated
/// segment.  An empty segment means the URL is unusable.
pub open spec fn repo_name_of(url: Seq<char>) -> Seq<char> {
    suffix_after_last_slash(url)
}

/// The full on-disk path of the working copy: the configured directory, a
/// separator, and the repository name.
pub open spec fn full_path_of(path: Seq<char>, url: Seq<char>) -> Seq<char> {
    path + seq!['/'] + repo_name_of(url)
}

/// The fully qualified reference name of a branch.
pub open spec fn refname_of(branch: Seq<char>) -> Seq<char> {
    seq!['r', 'e', 'f', 's', '/', 'h', 'e', 'a', 'd', 's', '/'] + branch
}

/// The refspec transmitted on push: the branch on both sides, with a leading
/// `'+'` force marker when history rewriting was requested.
pub open spec fn refspec_of(branch: Seq<char>, force: bool) -> Seq<char> {
    (if force {
        seq!['+']
    } else {
        Seq::<char>::empty()
    }) + refname_of(branch) + seq![':'] + refname_of(branch)
}

/// The parameters for making a repository session: who commits, where the
/// remote is, which branch is tracked, and where the working copy lives.
///
/// The tracked branch is a single configuration value, used consistently by
/// fetch, merge and push.
#[derive(Debug, Clone)]
pub struct CodexRepoConfig {
    /// user name and email for commits
    pub user: User,
    /// URL of the remote repository
    pub remote_url: String,
    /// where the working copy lives on disk, excluding the repository name
    pub path: String,
    /// the single tracked branch
    pub branch: String,
    /// path patterns staged automatically before every commit
    pub auto_add: Vec<String>,
    /// SSH keys for the remote
    pub ssh_keys: SshKeys,
    /// print more messages
    pub verbose: bool,
}

impl CodexRepoConfig {
    /// The name of the repository, from the last path segment of the remote
    /// URL; unusable (empty) segments are rejected.
    pub fn repo_name(&self) -> (r: Result<String, CodexGitError>)
        ensures
            r is Ok <==> repo_name_of(self.remote_url@).len() > 0,
            r is Ok ==> r->Ok_0@ == repo_name_of(self.remote_url@),
            r is Err ==> r->Err_0 == CodexGitError::Config,
    {
        let name = crate::strutil::last_segment(self.remote_url.as_str());
        if name.as_str().is_empty() {
            Err(CodexGitError::Config)
        } else {
            Ok(name)
        }
    }

    /// The full path of the head of the working copy on disk, including the
    /// repository name.
    pub fn full_path(&self) -> (r: Result<String, CodexGitError>)
        ensures
            r is Ok <==> repo_name_of(self.remote_url@).len() > 0,
            r is Ok ==> r->Ok_0@ == full_path_of(self.path@, self.remote_url@),
            r is Err ==> r->Err_0 == CodexGitError::Config,
    {
        match self.repo_name() {
            Ok(name) => {
                let mut p = self.path.clone();
                p.append("/");
                p.append(name.as_str());
                proof {
                    reveal_strlit("/");
                    assert("/"@ =~= seq!['/']);
                    assert(p@ =~= full_path_of(self.path@, self.remote_url@));
                }
                Ok(p)
            },
            Err(e) => Err(e),
        }
    }

    /// The fully qualified reference name of the tracked branch.
    pub fn branch_refname(&self) -> (r: String)
        ensures
            r@ == refname_of(self.branch@),
    {
        let mut p = String::from_str("refs/heads/");
        p.append(self.branch.as_str());
        proof {
            reveal_strlit("refs/heads/");
            assert("refs/heads/"@ =~= seq!['r', 'e', 'f', 's', '/', 'h', 'e', 'a', 'd', 's', '/']);
            assert(p@ =~= refname_of(self.branch@));
        }
        p
    }

    /// The refspec for pushing the tracked branch.
    pub fn push_refspec(&self, force: bool) -> (r: String)
        ensures
            r@ == refspec_of(self.branch@, force),
    {
        let refname = self.branch_refname();
        let mut p = if force {
            String::from_str("+")
        } else {
            String::new()
        };
        p.append(refname.as_str());
        p.append(":");
        p.append(refname.as_str());
        proof {
            reveal_strlit("+");
            reveal_strlit(":");
            assert("+"@ =~= seq!['+']);
            assert(":"@ =~= seq![':']);
            assert(p@ =~= refspec_of(self.branch@, force));
        }
        p
    }

    /// The branch names requested from the remote on fetch: the one tracked
    /// branch.
    pub fn fetch_refs(&self) -> (r: Vec<String>)
        ensures
            r.deep_view() =~= seq![self.branch@],
    {
        let mut v: Vec<String> = Vec::new();
        v.push(self.branch.clone());
        v
    }
}

} // verus!
