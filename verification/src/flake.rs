//! Flake references: where a source's files come from.
use vstd::prelude::*;

verus! {

/// A reference into a code forge (GitHub, GitLab, SourceHut).
#[derive(Debug, Clone)]
pub struct ForgeRef {
    pub owner: String,
    pub repo: String,
    pub host: Option<String>,
    pub keytype: Option<String>,
    pub public_key: Option<String>,
    pub public_keys: Option<Vec<String>>,
    pub git_ref: Option<String>,
    pub rev: Option<String>,
}

/// A flake reference, with the fields of each kind.
#[derive(Debug, Clone)]
pub enum FlakeRef {
    File {
        last_modified: Option<u64>,
        nar_hash: Option<String>,
        rev: Option<String>,
        rev_count: Option<u64>,
        url: String,
    },
    Git {
        all_refs: bool,
        export_ignore: bool,
        keytype: Option<String>,
        public_key: Option<String>,
        public_keys: Option<Vec<String>>,
        git_ref: Option<String>,
        rev: Option<String>,
        shallow: bool,
        submodules: bool,
        url: String,
        verify_commit: bool,
    },
    GitHub(ForgeRef),
    GitLab(ForgeRef),
    Indirect { id: String, git_ref: Option<String>, rev: Option<String> },
    Mercurial { git_ref: Option<String>, rev: Option<String> },
    Path {
        last_modified: Option<u64>,
        nar_hash: Option<String>,
        path: String,
        rev: Option<String>,
        rev_count: Option<u64>,
    },
    SourceHut(ForgeRef),
    Tarball {
        last_modified: Option<u64>,
        nar_hash: Option<String>,
        rev: Option<String>,
        rev_count: Option<u64>,
        url: String,
    },
}

/// The plain value of an optional string.
pub open spec fn opt_text(o: Option<String>) -> Option<Seq<char>> {
    match o {
        Some(s) => Some(s@),
        None => None,
    }
}

/// The flake reference of the default branch of GitHub repository
/// `owner/repo`.
pub fn get_github_flake_ref(owner: &str, repo: &str) -> (r: FlakeRef)
    ensures
        r matches FlakeRef::GitHub(f) && f.owner@ == owner@ && f.repo@ == repo@ && f.host is None
            && f.keytype is None && f.public_key is None && f.public_keys is None && f.git_ref is None
            && f.rev is None,
{
    FlakeRef::GitHub(
        ForgeRef {
            owner: String::from_str(owner),
            repo: String::from_str(repo),
            host: None,
            keytype: None,
            public_key: None,
            public_keys: None,
            git_ref: None,
            rev: None,
        },
    )
}

/// The flake reference of commit `sha` (or the default branch) of the git
/// repository at `url`, with its submodules.
pub fn get_repo_flake_ref(sha: Option<String>, url: &str) -> (r: FlakeRef)
    ensures
        r matches FlakeRef::Git {
            all_refs,
            export_ignore,
            keytype,
            public_key,
            public_keys,
            git_ref,
            rev,
            shallow,
            submodules,
            url: u,
            verify_commit,
        } && !all_refs && !export_ignore && keytype is None && public_key is None && public_keys is None
            && git_ref is None && opt_text(rev) == opt_text(sha) && !shallow && submodules && u@ == url@
            && !verify_commit,
{
    FlakeRef::Git {
        all_refs: false,
        export_ignore: false,
        keytype: None,
        public_key: None,
        public_keys: None,
        git_ref: None,
        rev: sha,
        shallow: false,
        submodules: true,
        url: String::from_str(url),
        verify_commit: false,
    }
}

} // verus!
