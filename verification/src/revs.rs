//! Northstar built from commits: which commits to build, where they come
//! from, and the arguments handed to `nix` and `git` to build them.
use vstd::prelude::*;
use crate::decimal::{decimal, lemma_parse_decimal, parse_u64, parse_unsigned};
use crate::text::{eq, lemma_split_concat, lemma_split_whole, split, split_on, string_views};
use crate::releases::first_index;

verus! {

/// The commits a Northstar build is made from.
pub struct NorthstarInstallInfo {
    pub mods_sha: String,
    pub launcher_sha: String,
    pub rpc_sha: Option<String>,
}

/// The plain values of an `Option<String>`.
pub open spec fn opt_view(o: Option<String>) -> Option<Seq<char>> {
    match o {
        Some(s) => Some(s@),
        None => None,
    }
}

impl NorthstarInstallInfo {
    /// A build from the given core-mods and launcher commits, with the
    /// default Discord RPC plugin.
    pub fn new(mods: String, launcher: String) -> (r: Self)
        ensures
            r.mods_sha@ == mods@,
            r.launcher_sha@ == launcher@,
            r.rpc_sha is None,
    {
        NorthstarInstallInfo { mods_sha: mods, launcher_sha: launcher, rpc_sha: None }
    }

    /// The same build with the Discord RPC plugin taken from commit `rpc`.
    pub fn with_discord_rpc(self, rpc: String) -> (r: Self)
        ensures
            r.mods_sha@ == self.mods_sha@,
            r.launcher_sha@ == self.launcher_sha@,
            opt_view(r.rpc_sha) == Some(rpc@),
    {
        NorthstarInstallInfo { rpc_sha: Some(rpc), ..self }
    }
}

/// The flake reference `github:owner/repo/sha`.
pub open spec fn github_uri(sha: Seq<char>, owner: Seq<char>, repo: Seq<char>) -> Seq<char> {
    "github:"@ + owner + seq!['/'] + repo + seq!['/'] + sha
}

/// The flake reference of commit `sha` of the GitHub repository
/// `owner/repo`.
pub fn get_github_uri(sha: &str, owner: &str, repo: &str) -> (r: String)
    ensures
        r@ == github_uri(sha@, owner@, repo@),
{
    proof {
        reveal_strlit("github:");
        reveal_strlit("/");
    }
    let mut r = String::from_str("github:");
    r.append(owner);
    r.append("/");
    r.append(repo);
    r.append("/");
    r.append(sha);
    r
}

/// The first `n` items of `s` (all of them when there are fewer).
pub open spec fn first_n<A>(s: Seq<A>, n: nat) -> Seq<A> {
    if s.len() <= n {
        s
    } else {
        s.take(n as int)
    }
}

/// The non-empty items of `s`, in order.
pub open spec fn nonempty_only(s: Seq<Seq<char>>) -> Seq<Seq<char>>
    decreases s.len(),
{
    if s.len() == 0 {
        s
    } else {
        let p = nonempty_only(s.drop_last());
        if s.last().len() > 0 {
            p.push(s.last())
        } else {
            p
        }
    }
}

/// The path segments the URL checks look at: the non-empty ones among the
/// first `n` pieces of the path split at `/`.
pub open spec fn path_segments(path: Seq<char>, n: nat) -> Seq<Seq<char>> {
    nonempty_only(first_n(split_on(path, '/'), n))
}

fn segments(path: &str, n: usize) -> (r: Vec<String>)
    ensures
        string_views(r@) == path_segments(path@, n as nat),
{
    let pieces = split(path, '/');
    let mut r: Vec<String> = Vec::new();
    let mut i: usize = 0;
    let ghost all = split_on(path@, '/');
    let count = if pieces.len() < n {
        pieces.len()
    } else {
        n
    };
    assert(first_n(all, n as nat) =~= all.take(count as int));
    while i < count
        invariant
            i <= count <= pieces.len(),
            string_views(pieces@) == all,
            string_views(r@) == nonempty_only(all.take(i as int)),
        decreases count - i,
    {
        proof {
            assert(all.take(i + 1).drop_last() =~= all.take(i as int));
            assert(all.take(i + 1).last() == pieces@[i as int]@);
        }
        let piece = &pieces[i];
        if piece.as_str().unicode_len() > 0 {
            let ghost before = r@;
            r.push(piece.clone());
            assert(string_views(r@) =~= string_views(before).push(piece@));
        }
        i = i + 1;
    }
    r
}

/// Why a URL path names no pull request or repository.
#[derive(Debug, Clone, Copy, PartialEq, Eq, Structural)]
pub enum RevPathError {
    /// The path does not have the expected number of segments.
    Invalid,
    /// The path is not that of a pull request of a repository owned by
    /// R2Northstar.
    NotPullRequest,
    /// The repository is not owned by R2Northstar.
    NotR2Northstar,
    /// The pull-request number is not a number.
    BadNumber,
}

/// A pull-request path: exactly the segments `R2Northstar`, the repository,
/// `pull` and the number, among the first five pieces of the path.
pub open spec fn pull_request_of(path: Seq<char>) -> Result<(Seq<char>, nat), RevPathError> {
    let segs = path_segments(path, 5);
    if segs.len() != 4 {
        Err(RevPathError::Invalid)
    } else if segs[0] != "R2Northstar"@ || segs[2] != "pull"@ {
        Err(RevPathError::NotPullRequest)
    } else {
        match parse_unsigned(segs[3], u64::MAX as nat) {
            Some(n) => Ok((segs[1], n)),
            None => Err(RevPathError::BadNumber),
        }
    }
}

/// Reads the repository and number of a pull request of R2Northstar from
/// a URL path (see `pull_request_of`).
pub fn parse_pull_request_path(path: &str) -> (r: Result<(String, u64), RevPathError>)
    ensures
        r matches Ok((repo, n)) ==> pull_request_of(path@) == Ok::<(Seq<char>, nat), RevPathError>(
            (repo@, n as nat),
        ),
        r matches Err(e) ==> pull_request_of(path@) == Err::<(Seq<char>, nat), RevPathError>(e),
{
    let segs = segments(path, 5);
    if segs.len() != 4 {
        return Err(RevPathError::Invalid);
    }
    proof {
        reveal_strlit("R2Northstar");
        reveal_strlit("pull");
        assert(string_views(segs@)[0] == segs@[0]@);
        assert(string_views(segs@)[1] == segs@[1]@);
        assert(string_views(segs@)[2] == segs@[2]@);
        assert(string_views(segs@)[3] == segs@[3]@);
    }
    if !eq(segs[0].as_str(), "R2Northstar") || !eq(segs[2].as_str(), "pull") {
        return Err(RevPathError::NotPullRequest);
    }
    match parse_u64(segs[3].as_str()) {
        Some(n) => Ok((segs[1].clone(), n)),
        None => Err(RevPathError::BadNumber),
    }
}

/// The path of pull request `n` of R2Northstar's repository `repo`:
/// `/R2Northstar/REPO/pull/N`.
pub open spec fn pull_request_path(repo: Seq<char>, n: nat) -> Seq<char> {
    seq!['/'] + "R2Northstar"@ + seq!['/'] + repo + seq!['/'] + "pull"@ + seq!['/'] + decimal(n)
}

proof fn lemma_decimal_has_no_slash(n: nat)
    ensures
        !decimal(n).contains('/'),
    decreases n,
{
    if n >= 10 {
        lemma_decimal_has_no_slash(n / 10);
        assert forall|k: int| 0 <= k < decimal(n).len() implies decimal(n)[k] != '/' by {
            if k < decimal(n).len() - 1 {
                assert(decimal(n)[k] == decimal(n / 10)[k]);
            }
        }
    }
}

/// Reading the path of a pull request gives back its repository and
/// number, for any repository name that is not empty and has no `/`.
pub proof fn lemma_pull_request_path_roundtrip(repo: Seq<char>, n: nat)
    requires
        repo.len() > 0,
        !repo.contains('/'),
        n <= u64::MAX,
    ensures
        pull_request_of(pull_request_path(repo, n)) == Ok::<(Seq<char>, nat), RevPathError>((repo, n)),
{
    reveal_strlit("R2Northstar");
    reveal_strlit("pull");
    let owner = "R2Northstar"@;
    let pull = "pull"@;
    let d = decimal(n);
    assert(!owner.contains('/')) by {
        if owner.contains('/') {
            let k = choose|k: int| 0 <= k < owner.len() && owner[k] == '/';
        }
    }
    assert(!pull.contains('/')) by {
        if pull.contains('/') {
            let k = choose|k: int| 0 <= k < pull.len() && pull[k] == '/';
        }
    }
    lemma_decimal_has_no_slash(n);
    let e = Seq::<char>::empty();
    assert(!e.contains('/'));
    let t3 = pull + seq!['/'] + d;
    let t2 = repo + seq!['/'] + t3;
    let t1 = owner + seq!['/'] + t2;
    let t0 = e + seq!['/'] + t1;
    assert(t0 =~= pull_request_path(repo, n));
    lemma_split_concat(pull, '/', d);
    lemma_split_concat(repo, '/', t3);
    lemma_split_concat(owner, '/', t2);
    lemma_split_concat(e, '/', t1);
    lemma_split_whole(e, '/');
    lemma_split_whole(owner, '/');
    lemma_split_whole(repo, '/');
    lemma_split_whole(pull, '/');
    lemma_split_whole(d, '/');
    let pieces = split_on(t0, '/');
    assert(pieces =~= seq![e, owner, repo, pull, d]);
    assert(first_n(pieces, 5) =~= pieces);
    crate::decimal::lemma_decimal_nonempty(n);
    let segs = nonempty_only(pieces);
    let p4 = seq![e, owner, repo, pull];
    let p3 = seq![e, owner, repo];
    let p2 = seq![e, owner];
    let p1 = seq![e];
    assert(pieces.drop_last() =~= p4);
    assert(p4.drop_last() =~= p3);
    assert(p3.drop_last() =~= p2);
    assert(p2.drop_last() =~= p1);
    assert(p1.drop_last() =~= Seq::<Seq<char>>::empty());
    assert(p1.last() == e);
    assert(e.len() == 0);
    assert(nonempty_only(Seq::<Seq<char>>::empty()) == Seq::<Seq<char>>::empty());
    assert(nonempty_only(p1) =~= Seq::<Seq<char>>::empty());
    assert(owner.len() > 0 && pull.len() > 0);
    assert(nonempty_only(p2) =~= seq![owner]);
    assert(nonempty_only(p3) =~= seq![owner, repo]);
    assert(nonempty_only(p4) =~= seq![owner, repo, pull]);
    assert(segs =~= seq![owner, repo, pull, d]);
    lemma_parse_decimal(n, u64::MAX as nat);
}

/// A repository path: exactly the segments `R2Northstar` and the
/// repository, among the first four pieces of the path.
pub open spec fn repository_of(path: Seq<char>) -> Result<Seq<char>, RevPathError> {
    let segs = path_segments(path, 4);
    if segs.len() != 2 {
        Err(RevPathError::Invalid)
    } else if segs[0] != "R2Northstar"@ {
        Err(RevPathError::NotR2Northstar)
    } else {
        Ok(segs[1])
    }
}

/// Reads the repository of R2Northstar that a URL path names (see
/// `repository_of`).
pub fn parse_repository_path(path: &str) -> (r: Result<String, RevPathError>)
    ensures
        r matches Ok(repo) ==> repository_of(path@) == Ok::<Seq<char>, RevPathError>(repo@),
        r matches Err(e) ==> repository_of(path@) == Err::<Seq<char>, RevPathError>(e),
{
    let segs = segments(path, 4);
    if segs.len() != 2 {
        return Err(RevPathError::Invalid);
    }
    proof {
        reveal_strlit("R2Northstar");
        assert(string_views(segs@)[0] == segs@[0]@);
        assert(string_views(segs@)[1] == segs@[1]@);
    }
    if !eq(segs[0].as_str(), "R2Northstar") {
        return Err(RevPathError::NotR2Northstar);
    }
    Ok(segs[1].clone())
}


/// The third piece of each path split at `/`, for the paths that have one.
pub open spec fn third_pieces(paths: Seq<Seq<char>>) -> Seq<Seq<char>>
    decreases paths.len(),
{
    if paths.len() == 0 {
        Seq::empty()
    } else {
        let p = third_pieces(paths.drop_last());
        let pieces = split_on(paths.last(), '/');
        if pieces.len() >= 3 {
            p.push(pieces[2])
        } else {
            p
        }
    }
}

/// Which of the given pull-request URLs (by their paths) is taken for the
/// repository `repo`: the paths with fewer than three pieces are passed
/// over, and the position of the first remaining one whose third piece is
/// `repo`, counted among the remaining ones, picks the URL at that position
/// in the full list.
pub fn pick_pr_url(paths: &Vec<String>, repo: &str) -> (r: Option<usize>)
    ensures
        r matches Some(i) ==> first_index(third_pieces(string_views(paths@)), |n: Seq<char>| n == repo@)
            == Some(i as int) && i < paths@.len(),
        r is None ==> first_index(third_pieces(string_views(paths@)), |n: Seq<char>| n == repo@) is None,
{
    let mut thirds: Vec<String> = Vec::new();
    let mut i: usize = 0;
    while i < paths.len()
        invariant
            i <= paths.len(),
            thirds@.len() <= i,
            string_views(thirds@) == third_pieces(string_views(paths@).take(i as int)),
        decreases paths.len() - i,
    {
        let pieces = split(paths[i].as_str(), '/');
        proof {
            let t = string_views(paths@).take(i + 1);
            assert(t.drop_last() =~= string_views(paths@).take(i as int));
            assert(t.last() == paths@[i as int]@);
        }
        if pieces.len() >= 3 {
            let ghost before = thirds@;
            thirds.push(pieces[2].clone());
            assert(string_views(pieces@)[2] == pieces@[2]@);
            assert(string_views(thirds@) =~= string_views(before).push(pieces@[2]@));
        }
        i = i + 1;
    }
    assert(string_views(paths@).take(i as int) =~= string_views(paths@));
    let ghost p = |n: Seq<char>| n == repo@;
    let mut k: usize = 0;
    while k < thirds.len()
        invariant
            k <= thirds.len(),
            thirds@.len() <= paths@.len(),
            p == (|n: Seq<char>| n == repo@),
            string_views(thirds@) == third_pieces(string_views(paths@)),
            forall|j: int| 0 <= j < k ==> !p(#[trigger] string_views(thirds@)[j]),
        decreases thirds.len() - k,
    {
        assert(string_views(thirds@)[k as int] == thirds@[k as int]@);
        if eq(thirds[k].as_str(), repo) {
            proof {
                crate::releases::lemma_first_index(string_views(thirds@), p);
                lemma_first_index_at(string_views(thirds@), p, k as int);
            }
            return Some(k);
        }
        k = k + 1;
    }
    proof {
        crate::releases::lemma_first_index(string_views(thirds@), p);
        if first_index(string_views(thirds@), p) is Some {
            let j = first_index(string_views(thirds@), p)->0;
            assert(p(string_views(thirds@)[j]));
        }
    }
    None
}

proof fn lemma_first_index_at(names: Seq<Seq<char>>, p: spec_fn(Seq<char>) -> bool, k: int)
    requires
        0 <= k < names.len(),
        p(names[k]),
        forall|j: int| 0 <= j < k ==> !p(#[trigger] names[j]),
    ensures
        first_index(names, p) == Some(k),
{
    crate::releases::lemma_first_index(names, p);
    if first_index(names, p) is Some {
        let j = first_index(names, p)->0;
        if j < k {
            assert(!p(names[j]));
        } else if j > k {
            assert(!p(names[k]));
        }
    } else {
        assert(!p(names[k]));
    }
}

fn push_text(v: &mut Vec<String>, s: &str)
    ensures
        string_views(final(v)@) == string_views(old(v)@).push(s@),
{
    v.push(String::from_str(s));
    assert(string_views(v@) =~= string_views(old(v)@).push(s@));
}

/// The flags that switch on the `nix` features a flake build needs.
pub open spec fn experimental_flags() -> Seq<Seq<char>> {
    seq![
        "--extra-experimental-features"@,
        "nix-command"@,
        "--extra-experimental-features"@,
        "flakes"@,
    ]
}

fn push_experimental_flags(v: &mut Vec<String>)
    ensures
        string_views(final(v)@) == string_views(old(v)@) + experimental_flags(),
{
    push_text(v, "--extra-experimental-features");
    push_text(v, "nix-command");
    push_text(v, "--extra-experimental-features");
    push_text(v, "flakes");
    assert(string_views(v@) =~= string_views(old(v)@) + experimental_flags());
}

/// The `--override-input` arguments that pin the build's inputs: core mods,
/// then launcher, then the Discord RPC plugin when a commit is given for it.
pub open spec fn override_inputs(mods: Seq<char>, launcher: Seq<char>, rpc: Option<Seq<char>>) -> Seq<
    Seq<char>,
> {
    let base = seq![
        "--override-input"@,
        "mods"@,
        mods,
        "--override-input"@,
        "launcher"@,
        launcher,
    ];
    match rpc {
        Some(r) => base + seq!["--override-input"@, "discordrpc"@, r],
        None => base,
    }
}

/// The flake reference used for each of the commits of `install` other
/// than the launcher's: the core mods come from R2Northstar/NorthstarMods,
/// and so does the Discord RPC plugin.
pub open spec fn install_inputs(install: NorthstarInstallInfo, launcher_uri: Seq<char>) -> Seq<Seq<char>> {
    override_inputs(
        github_uri(install.mods_sha@, "R2Northstar"@, "NorthstarMods"@),
        launcher_uri,
        match install.rpc_sha {
            Some(s) => Some(github_uri(s@, "R2Northstar"@, "NorthstarMods"@)),
            None => None,
        },
    )
}

/// The `--override-input` arguments for a build of `install`, given the
/// flake reference of its launcher commit.
pub fn flake_inputs(install: &NorthstarInstallInfo, launcher_uri: &str) -> (r: Vec<String>)
    ensures
        string_views(r@) == install_inputs(*install, launcher_uri@),
{
    let mods = get_github_uri(install.mods_sha.as_str(), "R2Northstar", "NorthstarMods");
    let mut r: Vec<String> = Vec::new();
    push_text(&mut r, "--override-input");
    push_text(&mut r, "mods");
    push_text(&mut r, mods.as_str());
    push_text(&mut r, "--override-input");
    push_text(&mut r, "launcher");
    push_text(&mut r, launcher_uri);
    match &install.rpc_sha {
        Some(sha) => {
            let rpc = get_github_uri(sha.as_str(), "R2Northstar", "NorthstarMods");
            push_text(&mut r, "--override-input");
            push_text(&mut r, "discordrpc");
            push_text(&mut r, rpc.as_str());
        },
        None => {},
    }
    assert(string_views(r@) =~= install_inputs(*install, launcher_uri@));
    r
}

/// Arguments of `git` that reset the local flake checkout to its remote.
pub fn git_reset_args() -> (r: Vec<String>)
    ensures
        string_views(r@) == seq!["reset"@, "origin"@, "--hard"@],
{
    let mut r: Vec<String> = Vec::new();
    push_text(&mut r, "reset");
    push_text(&mut r, "origin");
    push_text(&mut r, "--hard");
    assert(string_views(r@) =~= seq!["reset"@, "origin"@, "--hard"@]);
    r
}

/// Arguments of `nix` that clone the Northstar build flake into `dest`.
pub fn nix_clone_args(dest: &str) -> (r: Vec<String>)
    ensures
        string_views(r@) == seq!["flake"@, "clone"@, "github:catornot/northstar-nightly"@]
            + experimental_flags() + seq!["--dest"@, dest@],
{
    let mut r: Vec<String> = Vec::new();
    push_text(&mut r, "flake");
    push_text(&mut r, "clone");
    push_text(&mut r, "github:catornot/northstar-nightly");
    push_experimental_flags(&mut r);
    push_text(&mut r, "--dest");
    push_text(&mut r, dest);
    assert(string_views(r@) =~= seq!["flake"@, "clone"@, "github:catornot/northstar-nightly"@]
        + experimental_flags() + seq!["--dest"@, dest@]);
    r
}

/// Arguments of `nix` that lock the flake with the given input overrides.
pub fn nix_lock_args(inputs: &Vec<String>) -> (r: Vec<String>)
    ensures
        string_views(r@) == seq!["flake"@, "lock"@, "."@] + experimental_flags() + string_views(
            inputs@,
        ),
{
    let mut r: Vec<String> = Vec::new();
    push_text(&mut r, "flake");
    push_text(&mut r, "lock");
    push_text(&mut r, ".");
    push_experimental_flags(&mut r);
    let ghost head = string_views(r@);
    let mut i: usize = 0;
    while i < inputs.len()
        invariant
            i <= inputs.len(),
            string_views(r@) == head + string_views(inputs@).take(i as int),
        decreases inputs.len() - i,
    {
        push_text(&mut r, inputs[i].as_str());
        assert(string_views(inputs@).take(i + 1) =~= string_views(inputs@).take(i as int).push(
            inputs@[i as int]@,
        ));
        assert(head + string_views(inputs@).take(i + 1) =~= (head + string_views(inputs@).take(
            i as int,
        )).push(inputs@[i as int]@));
        i = i + 1;
    }
    assert(string_views(inputs@).take(i as int) =~= string_views(inputs@));
    assert(string_views(r@) =~= seq!["flake"@, "lock"@, "."@] + experimental_flags()
        + string_views(inputs@));
    r
}

/// Arguments of `nix` that build the flake and link the result at
/// `out_link`.
pub fn nix_build_args(out_link: &str) -> (r: Vec<String>)
    ensures
        string_views(r@) == seq!["build"@] + experimental_flags() + seq!["--out-link"@, out_link@],
{
    let mut r: Vec<String> = Vec::new();
    push_text(&mut r, "build");
    push_experimental_flags(&mut r);
    push_text(&mut r, "--out-link");
    push_text(&mut r, out_link);
    assert(string_views(r@) =~= seq!["build"@] + experimental_flags() + seq![
        "--out-link"@,
        out_link@,
    ]);
    r
}

} // verus!
