//! Sources a profile can draw from (repositories of mods, Northstar
//! builds) and the store that keeps them.
use vstd::prelude::*;
use crate::flake::{get_github_flake_ref, opt_text, FlakeRef, ForgeRef};
use crate::nix::{select, select_spec, NixKind, NixValue};
use crate::bootstrap::Os;
use crate::paths::{join_on, join_path_on};
use crate::settings::{Config, ProfileConfig};
use crate::text::eq;
use crate::decimal::{decimal, u64_to_decimal};
use crate::flake_hash::{feed_flake_ref, flake_feed};
use std::hash::{DefaultHasher, Hasher};
use vstd::std_specs::hash::DefaultHasherAdditionalSpecFns;

verus! {

/// A repository of mods.
#[derive(Debug, Clone)]
pub struct Repo {
    pub url: FlakeRef,
    pub sub_mod: Option<String>,
    pub hash: Option<String>,
}

/// A flake reference that a repository can be named after: a forge
/// reference, a local path, or a Mercurial reference with both a ref and a
/// rev. (Naming any other kind is refused.)
pub open spec fn nameable(url: FlakeRef) -> bool {
    match url {
        FlakeRef::GitHub(_) | FlakeRef::GitLab(_) | FlakeRef::SourceHut(_) | FlakeRef::Path { .. } => true,
        FlakeRef::Mercurial { git_ref, rev } => git_ref is Some && rev is Some,
        _ => false,
    }
}

/// The text of an optional string, empty when absent.
pub open spec fn or_empty(o: Option<String>) -> Seq<char> {
    match o {
        Some(s) => s@,
        None => Seq::empty(),
    }
}

/// The sub-module part of a repository name: `-` and the sub-module, or
/// nothing.
pub open spec fn sub_mod_part(sub_mod: Option<String>) -> Seq<char> {
    match sub_mod {
        Some(s) => seq!['-'] + s@,
        None => Seq::empty(),
    }
}

/// A path with every `/` and `\` turned into `-`.
pub open spec fn dashed(path: Seq<char>) -> Seq<char> {
    path.map_values(|c: char| if c == '/' || c == '\\' { '-' } else { c })
}

/// The name of a forge repository: the prefix, owner, repository and
/// revision separated by `-`, then `-` and the sub-module part.
pub open spec fn forge_name(prefix: Seq<char>, f: ForgeRef, sub_mod: Option<String>) -> Seq<char> {
    prefix + f.owner@ + seq!['-'] + f.repo@ + seq!['-'] + or_empty(f.rev) + seq!['-']
        + sub_mod_part(sub_mod)
}

/// The name a repository is stored under. GitHub references are named
/// `github-…`; GitLab and SourceHut references `gitlab-…`; Mercurial ones
/// `repo-REF-REV` and the sub-module part; local paths by their path with
/// separators turned into `-`.
pub open spec fn repo_name(url: FlakeRef, sub_mod: Option<String>) -> Seq<char> {
    match url {
        FlakeRef::GitHub(f) => forge_name("github-"@, f, sub_mod),
        FlakeRef::GitLab(f) => forge_name("gitlab-"@, f, sub_mod),
        FlakeRef::SourceHut(f) => forge_name("gitlab-"@, f, sub_mod),
        FlakeRef::Mercurial { git_ref, rev } => "repo-"@ + or_empty(git_ref) + seq!['-'] + or_empty(
            rev,
        ) + sub_mod_part(sub_mod),
        FlakeRef::Path { path, .. } => dashed(path@),
        _ => Seq::empty(),
    }
}

/// A repository kept from a local path is stored under a single name: the
/// name holds no `/` and no `\`.
pub proof fn lemma_path_name_is_flat(url: FlakeRef, sub_mod: Option<String>)
    requires
        url is Path,
    ensures
        !repo_name(url, sub_mod).contains('/'),
        !repo_name(url, sub_mod).contains('\\'),
{
    let n = repo_name(url, sub_mod);
    assert forall|k: int| 0 <= k < n.len() implies n[k] != '/' && n[k] != '\\' by {}
}

fn append_opt(s: &mut String, o: &Option<String>)
    ensures
        final(s)@ == old(s)@ + or_empty(*o),
{
    match o {
        Some(t) => s.append(t.as_str()),
        None => {
            assert(old(s)@ + Seq::<char>::empty() =~= old(s)@);
        },
    }
}

fn append_sub_mod(s: &mut String, sub_mod: &Option<String>)
    ensures
        final(s)@ == old(s)@ + sub_mod_part(*sub_mod),
{
    match sub_mod {
        Some(t) => {
            proof { reveal_strlit("-"); }
            s.append("-");
            s.append(t.as_str());
            assert(old(s)@ + "-"@ + t@ =~= old(s)@ + sub_mod_part(*sub_mod));
        },
        None => {
            assert(old(s)@ + Seq::<char>::empty() =~= old(s)@);
        },
    }
}

fn forge_name_exec(prefix: &str, f: &ForgeRef, sub_mod: &Option<String>) -> (r: String)
    ensures
        r@ == forge_name(prefix@, *f, *sub_mod),
{
    proof { reveal_strlit("-"); }
    let mut s = String::from_str(prefix);
    s.append(f.owner.as_str());
    s.append("-");
    s.append(f.repo.as_str());
    s.append("-");
    append_opt(&mut s, &f.rev);
    s.append("-");
    append_sub_mod(&mut s, sub_mod);
    s
}

fn dashed_exec(path: &str) -> (r: String)
    ensures
        r@ == dashed(path@),
{
    let v = crate::text::chars_of(path);
    let mut r = String::new();
    let mut i: usize = 0;
    proof { reveal_strlit("-"); }
    while i < v.len()
        invariant
            i <= v.len(),
            v@ == path@,
            r@ == dashed(path@.take(i as int)),
        decreases v.len() - i,
    {
        if v[i] == '/' || v[i] == '\\' {
            proof { reveal_strlit("-"); }
            r.append("-");
            assert("-"@ =~= seq!['-']);
        } else {
            let one = path.substring_char(i, i + 1);
            assert(one@ =~= seq![v@[i as int]]);
            r.append(one);
        }
        assert(dashed(path@.take(i + 1)) =~= dashed(path@.take(i as int)).push(
            if v@[i as int] == '/' || v@[i as int] == '\\' { '-' } else { v@[i as int] },
        ));
        i = i + 1;
    }
    assert(path@.take(i as int) =~= path@);
    r
}

/// How a repository is put into the store.
pub enum InstantiatePlan {
    /// Clone the repository at `url` (recursing into submodules when asked)
    /// into `dest` and check out commit `rev`.
    Clone { url: String, recurse_submodules: bool, dest: String, rev: String },
    /// Link `dest` to the local directory `source`.
    Link { source: String, dest: String },
}

/// Why a repository cannot be put into the store.
#[derive(Debug, Clone, Copy, PartialEq, Eq, Structural)]
pub enum InstantiateError {
    /// A remote repository names no revision.
    MissingRev,
}

/// The plain value of a plan.
pub enum InstantiateView {
    Clone(Seq<char>, bool, Seq<char>, Seq<char>),
    Link(Seq<char>, Seq<char>),
}

impl View for InstantiatePlan {
    type V = InstantiateView;

    open spec fn view(&self) -> InstantiateView {
        match self {
            InstantiatePlan::Clone { url, recurse_submodules, dest, rev } => InstantiateView::Clone(
                url@,
                *recurse_submodules,
                dest@,
                rev@,
            ),
            InstantiatePlan::Link { source, dest } => InstantiateView::Link(source@, dest@),
        }
    }
}

/// The HTTPS clone URL of a forge repository, on its own host or on the
/// forge's default host.
pub open spec fn forge_clone_url(f: ForgeRef, default_host: Seq<char>) -> Seq<char> {
    "https://"@ + (match f.host {
        Some(h) => h@,
        None => default_host,
    }) + seq!['/'] + f.owner@ + seq!['/'] + f.repo@ + ".git"@
}

/// How a repository is put into the store under `store_path`: into the
/// directory named after it. Forge repositories are cloned from their HTTPS
/// URL (github.com, gitlab.com and sourcehut.org by default) at their
/// revision; a Mercurial reference is cloned from its ref at its revision; a
/// local path (joined with the sub-module, if any) is linked. Paths are
/// joined as `os` joins them.
pub open spec fn instantiate_spec(repo: Repo, os: Os, store_path: Seq<char>) -> Result<InstantiateView, InstantiateError> {
    let dest = join_path_on(os, store_path, repo_name(repo.url, repo.sub_mod));
    match repo.url {
        FlakeRef::GitHub(f) => match f.rev {
            Some(rev) => Ok(InstantiateView::Clone(forge_clone_url(f, "github.com"@), false, dest, rev@)),
            None => Err(InstantiateError::MissingRev),
        },
        FlakeRef::GitLab(f) => match f.rev {
            Some(rev) => Ok(InstantiateView::Clone(forge_clone_url(f, "gitlab.com"@), false, dest, rev@)),
            None => Err(InstantiateError::MissingRev),
        },
        FlakeRef::SourceHut(f) => match f.rev {
            Some(rev) => Ok(InstantiateView::Clone(forge_clone_url(f, "sourcehut.org"@), false, dest, rev@)),
            None => Err(InstantiateError::MissingRev),
        },
        FlakeRef::Mercurial { git_ref, rev } => Ok(
            InstantiateView::Clone(or_empty(git_ref), false, dest, or_empty(rev)),
        ),
        FlakeRef::Path { path, .. } => Ok(
            InstantiateView::Link(
                match repo.sub_mod {
                    Some(s) => join_path_on(os, path@, s@),
                    None => path@,
                },
                dest,
            ),
        ),
        _ => Err(InstantiateError::MissingRev),
    }
}

fn forge_clone_url_exec(f: &ForgeRef, default_host: &str) -> (r: String)
    ensures
        r@ == forge_clone_url(*f, default_host@),
{
    proof {
        reveal_strlit("https://");
        reveal_strlit("/");
        reveal_strlit(".git");
    }
    let mut s = String::from_str("https://");
    match &f.host {
        Some(h) => s.append(h.as_str()),
        None => s.append(default_host),
    }
    s.append("/");
    s.append(f.owner.as_str());
    s.append("/");
    s.append(f.repo.as_str());
    s.append(".git");
    s
}

fn clone_text(o: &Option<String>) -> (r: String)
    ensures
        r@ == or_empty(*o),
{
    match o {
        Some(s) => s.clone(),
        None => String::new(),
    }
}

impl Repo {
    /// The name this repository is stored under (see `repo_name`).
    pub fn get_name(&self) -> (r: String)
        requires
            nameable(self.url),
        ensures
            r@ == repo_name(self.url, self.sub_mod),
    {
        match &self.url {
            FlakeRef::GitHub(f) => forge_name_exec("github-", f, &self.sub_mod),
            FlakeRef::GitLab(f) => forge_name_exec("gitlab-", f, &self.sub_mod),
            FlakeRef::SourceHut(f) => forge_name_exec("gitlab-", f, &self.sub_mod),
            FlakeRef::Mercurial { git_ref, rev } => {
                proof {
                    reveal_strlit("repo-");
                    reveal_strlit("-");
                }
                let mut s = String::from_str("repo-");
                append_opt(&mut s, git_ref);
                s.append("-");
                append_opt(&mut s, rev);
                append_sub_mod(&mut s, &self.sub_mod);
                s
            },
            FlakeRef::Path { path, .. } => dashed_exec(path.as_str()),
            _ => String::new(),
        }
    }

    /// Where the repository's mods go in a profile: its `mods` directory.
    pub fn install_path(&self, os: Os, profile_path: &str) -> (r: Option<String>)
        ensures
            r matches Some(p) && p@ == join_path_on(os, profile_path@, "mods"@),
    {
        Some(join_on(os, profile_path, "mods"))
    }

    /// How the repository is put into the store (see `instantiate_spec`).
    pub fn instantiate_plan(&self, os: Os, store_path: &str) -> (r: Result<InstantiatePlan, InstantiateError>)
        requires
            nameable(self.url),
        ensures
            r matches Ok(p) ==> instantiate_spec(*self, os, store_path@) == Ok::<InstantiateView, InstantiateError>(p@),
            r matches Err(e) ==> instantiate_spec(*self, os, store_path@) == Err::<InstantiateView, InstantiateError>(e),
    {
        let name = self.get_name();
        let dest = join_on(os, store_path, name.as_str());
        match &self.url {
            FlakeRef::GitHub(f) => match &f.rev {
                Some(rev) => Ok(InstantiatePlan::Clone {
                    url: forge_clone_url_exec(f, "github.com"),
                    recurse_submodules: false,
                    dest,
                    rev: rev.clone(),
                }),
                None => Err(InstantiateError::MissingRev),
            },
            FlakeRef::GitLab(f) => match &f.rev {
                Some(rev) => Ok(InstantiatePlan::Clone {
                    url: forge_clone_url_exec(f, "gitlab.com"),
                    recurse_submodules: false,
                    dest,
                    rev: rev.clone(),
                }),
                None => Err(InstantiateError::MissingRev),
            },
            FlakeRef::SourceHut(f) => match &f.rev {
                Some(rev) => Ok(InstantiatePlan::Clone {
                    url: forge_clone_url_exec(f, "sourcehut.org"),
                    recurse_submodules: false,
                    dest,
                    rev: rev.clone(),
                }),
                None => Err(InstantiateError::MissingRev),
            },
            FlakeRef::Mercurial { git_ref, rev } => Ok(InstantiatePlan::Clone {
                url: clone_text(git_ref),
                recurse_submodules: false,
                dest,
                rev: clone_text(rev),
            }),
            FlakeRef::Path { path, .. } => {
                let source = match &self.sub_mod {
                    Some(s) => join_on(os, path.as_str(), s.as_str()),
                    None => path.clone(),
                };
                Ok(InstantiatePlan::Link { source, dest })
            },
            _ => Err(InstantiateError::MissingRev),
        }
    }

    /// The path whose existence tells that the repository is in the store:
    /// the store path joined with the sub-module, or the store path itself.
    pub fn instantiated_marker(&self, os: Os, store_path: &str) -> (r: String)
        ensures
            r@ == match self.sub_mod {
                Some(s) => join_path_on(os, store_path@, s@),
                None => store_path@,
            },
    {
        match &self.sub_mod {
            Some(s) => join_on(os, store_path, s.as_str()),
            None => String::from_str(store_path),
        }
    }
}


/// `Option<Result<R, E>>` turned inside out.
pub fn invert_result_option<R, E>(optional: Option<Result<R, E>>) -> (r: Result<Option<R>, E>)
    ensures
        match optional {
            Some(Ok(x)) => r == Ok::<Option<R>, E>(Some(x)),
            Some(Err(e)) => r == Err::<Option<R>, E>(e),
            None => r == Ok::<Option<R>, E>(None),
        },
{
    match optional {
        Some(Ok(x)) => Ok(Some(x)),
        Some(Err(e)) => Err(e),
        None => Ok(None),
    }
}

/// Why a source description could not be read.
#[derive(Debug, Clone, Copy, PartialEq, Eq, Structural)]
pub enum SourceError {
    /// The description is not an attribute set.
    NotAttrs,
    /// `hash` is not a string.
    HashNotString,
    /// There is no `url`.
    MissingUrl,
    /// `url` is not a flake reference.
    BadUrl,
    /// `sub-mod` is not a path.
    SubModNotPath,
    /// There is no `launcher`.
    MissingLauncher,
    /// `launcher` is not a flake reference.
    BadLauncher,
    /// There are no `mods`.
    MissingMods,
    /// `mods` is not a flake reference.
    BadMods,
    /// `discordrpc` is not a flake reference.
    BadDiscordRpc,
    /// `plugins` is not a flake reference.
    BadPlugins,
}

/// The description's `_type`, as displayed, is `ty`.
pub open spec fn typed_as(attrs: Seq<(String, NixValue)>, ty: Seq<char>) -> bool {
    match select_spec(attrs, "_type"@) {
        Some(t) => t.shown@ == ty,
        None => false,
    }
}

fn is_typed_as(attrs: &Vec<(String, NixValue)>, ty: &str) -> (r: bool)
    ensures
        r == typed_as(attrs@, ty@),
{
    match select(attrs, "_type") {
        Some(t) => eq(t.shown.as_str(), ty),
        None => false,
    }
}

/// The displayed text of attribute `name`, when there is one.
pub open spec fn shown_attr(attrs: Seq<(String, NixValue)>, name: Seq<char>) -> Option<Seq<char>> {
    match select_spec(attrs, name) {
        Some(v) => Some(v.shown@),
        None => None,
    }
}

/// `parse` may give `out` for the text `text`.
pub open spec fn parses_to<F: Fn(&str) -> Option<FlakeRef>>(parse: F, text: Seq<char>, out: Option<FlakeRef>) -> bool {
    exists|t: &str| t@ == text && #[trigger] parse.ensures((t,), out)
}

fn parse_attr<F: Fn(&str) -> Option<FlakeRef>>(
    attrs: &Vec<(String, NixValue)>,
    name: &str,
    parse: &F,
) -> (r: Option<Option<FlakeRef>>)
    requires
        forall|t: &str| parse.requires((t,)),
    ensures
        shown_attr(attrs@, name@) is None ==> r is None,
        shown_attr(attrs@, name@) matches Some(text) ==> (r matches Some(out) && parses_to(
            *parse,
            text,
            out,
        )),
{
    match select(attrs, name) {
        None => None,
        Some(v) => {
            let t = v.shown.as_str();
            let out = parse(t);
            assert(parse.ensures((t,), out));
            Some(out)
        },
    }
}

impl Repo {
    /// Reads a repository source from its description, with `parse` reading
    /// flake references. A description whose `_type` displays as `repo`
    /// gives no repository. Otherwise `hash` must be a string when present,
    /// `url` must be present and parse, and `sub-mod` must be a path when
    /// present; the first of these problems is the error.
    pub fn try_from_value<F: Fn(&str) -> Option<FlakeRef>>(source: &NixValue, parse: &F) -> (r: Result<
        Option<Repo>,
        SourceError,
    >)
        requires
            forall|t: &str| parse.requires((t,)),
        ensures
            !(source.kind is Attrs) ==> r == Err::<Option<Repo>, SourceError>(SourceError::NotAttrs),
            source.kind matches NixKind::Attrs(a) ==> ({
                let attrs = a@;
                if typed_as(attrs, "repo"@) {
                    r matches Ok(None)
                } else if select_spec(attrs, "hash"@) matches Some(h) && !(h.kind is Str) {
                    r == Err::<Option<Repo>, SourceError>(SourceError::HashNotString)
                } else if shown_attr(attrs, "url"@) is None {
                    r == Err::<Option<Repo>, SourceError>(SourceError::MissingUrl)
                } else {
                    &&& r == Err::<Option<Repo>, SourceError>(SourceError::BadUrl) ==> parses_to(
                        *parse,
                        shown_attr(attrs, "url"@)->0,
                        None,
                    )
                    &&& r matches Ok(Some(repo)) ==> {
                        &&& parses_to(*parse, shown_attr(attrs, "url"@)->0, Some(repo.url))
                        &&& opt_text(repo.hash) == match select_spec(attrs, "hash"@) {
                            Some(h) => match h.kind {
                                NixKind::Str(s) => Some(s@),
                                _ => None,
                            },
                            None => None,
                        }
                        &&& opt_text(repo.sub_mod) == match select_spec(attrs, "sub-mod"@) {
                            Some(m) => match m.kind {
                                NixKind::Path(p) => Some(p@),
                                _ => None,
                            },
                            None => None,
                        }
                        &&& (select_spec(attrs, "sub-mod"@) matches Some(m) ==> m.kind is Path)
                    }
                    &&& r matches Ok(o) ==> o is Some
                    &&& r matches Err(e) ==> (e == SourceError::BadUrl || e == SourceError::SubModNotPath)
                    &&& r == Err::<Option<Repo>, SourceError>(SourceError::SubModNotPath) ==> (select_spec(
                        attrs,
                        "sub-mod"@,
                    ) matches Some(m) && !(m.kind is Path))
                }
            }),
    {
        let attrs = match &source.kind {
            NixKind::Attrs(a) => a,
            _ => return Err(SourceError::NotAttrs),
        };
        proof { reveal_strlit("repo"); }
        if is_typed_as(attrs, "repo") {
            return Ok(None);
        }
        let hash = match select(attrs, "hash") {
            None => None,
            Some(h) => match &h.kind {
                NixKind::Str(s) => Some(s.clone()),
                _ => return Err(SourceError::HashNotString),
            },
        };
        let url = match parse_attr(attrs, "url", parse) {
            None => return Err(SourceError::MissingUrl),
            Some(None) => return Err(SourceError::BadUrl),
            Some(Some(u)) => u,
        };
        let sub_mod = match select(attrs, "sub-mod") {
            None => None,
            Some(m) => match &m.kind {
                NixKind::Path(p) => Some(p.clone()),
                _ => return Err(SourceError::SubModNotPath),
            },
        };
        Ok(Some(Repo { url, sub_mod, hash }))
    }
}


/// A Northstar build made of a launcher, core mods, the Discord RPC plugin
/// and other plugins.
#[derive(Debug, Clone)]
pub struct Northstar {
    pub launcher: FlakeRef,
    pub mods: FlakeRef,
    pub discordrpc: FlakeRef,
    pub plugins: FlakeRef,
}

/// What std's `Hash` feeds a hasher for a Northstar build's launcher,
/// core mods, Discord RPC plugin and plugins, one after the other (see
/// `flake_feed`).
pub open spec fn northstar_feed(n: Northstar) -> Seq<Seq<u8>> {
    flake_feed(n.launcher) + flake_feed(n.mods) + flake_feed(n.discordrpc) + flake_feed(n.plugins)
}

impl Northstar {
    /// The name this build is stored under: the decimal text of the
    /// `DefaultHasher` hash of its launcher, core mods, Discord RPC plugin
    /// and plugins, fed as std's `Hash` feeds them (see `northstar_feed`).
    pub fn get_name(&self) -> (r: String)
        ensures
            r@ == decimal(DefaultHasher::spec_finish(northstar_feed(*self)) as nat),
    {
        let mut h = DefaultHasher::new();
        feed_flake_ref(&mut h, &self.launcher);
        feed_flake_ref(&mut h, &self.mods);
        feed_flake_ref(&mut h, &self.discordrpc);
        feed_flake_ref(&mut h, &self.plugins);
        assert(h@ =~= northstar_feed(*self));
        let n = h.finish();
        u64_to_decimal(n)
    }

    /// A Northstar build is not installed into a profile directory of its
    /// own.
    pub fn install_path(&self, profile_path: &str) -> (r: Option<String>)
        ensures
            r is None,
    {
        None
    }

    /// A Northstar build needs nothing put into the store; it always counts
    /// as there.
    pub fn is_instantiated(&self, store_path: &str) -> (r: bool)
        ensures
            r,
    {
        true
    }

    /// Reads a Northstar source from its description, with `parse` reading
    /// flake references. A description whose `_type` displays as
    /// `northstar` gives no source. Otherwise `launcher` and `mods` must be
    /// present and parse; `discordrpc` and `plugins` must parse when
    /// present, and default to R2Northstar/DiscordRPC and
    /// R2Northstar/NorthstarPlugins on GitHub. The first problem, in that
    /// order, is the error.
    pub fn try_from_value<F: Fn(&str) -> Option<FlakeRef>>(source: &NixValue, parse: &F) -> (r: Result<
        Option<Northstar>,
        SourceError,
    >)
        requires
            forall|t: &str| parse.requires((t,)),
        ensures
            !(source.kind is Attrs) ==> r == Err::<Option<Northstar>, SourceError>(SourceError::NotAttrs),
            source.kind matches NixKind::Attrs(a) ==> ({
                let attrs = a@;
                if typed_as(attrs, "northstar"@) {
                    r matches Ok(None)
                } else if shown_attr(attrs, "launcher"@) is None {
                    r == Err::<Option<Northstar>, SourceError>(SourceError::MissingLauncher)
                } else {
                    &&& r matches Ok(o) ==> o is Some
                    &&& r == Err::<Option<Northstar>, SourceError>(SourceError::BadLauncher) ==> parses_to(
                        *parse,
                        shown_attr(attrs, "launcher"@)->0,
                        None,
                    )
                    &&& r == Err::<Option<Northstar>, SourceError>(SourceError::MissingMods) ==> shown_attr(
                        attrs,
                        "mods"@,
                    ) is None
                    &&& r == Err::<Option<Northstar>, SourceError>(SourceError::BadMods) ==> (shown_attr(
                        attrs,
                        "mods"@,
                    ) matches Some(t) && parses_to(*parse, t, None))
                    &&& r == Err::<Option<Northstar>, SourceError>(SourceError::BadDiscordRpc) ==> (
                    shown_attr(attrs, "discordrpc"@) matches Some(t) && parses_to(*parse, t, None))
                    &&& r == Err::<Option<Northstar>, SourceError>(SourceError::BadPlugins) ==> (
                    shown_attr(attrs, "plugins"@) matches Some(t) && parses_to(*parse, t, None))
                    &&& r matches Err(e) ==> (e == SourceError::BadLauncher || e
                        == SourceError::MissingMods || e == SourceError::BadMods || e
                        == SourceError::BadDiscordRpc || e == SourceError::BadPlugins)
                    &&& r matches Ok(Some(n)) ==> {
                        &&& parses_to(*parse, shown_attr(attrs, "launcher"@)->0, Some(n.launcher))
                        &&& shown_attr(attrs, "mods"@) matches Some(t) && parses_to(
                            *parse,
                            t,
                            Some(n.mods),
                        )
                        &&& default_or_parsed(*parse, shown_attr(attrs, "discordrpc"@), n.discordrpc, "DiscordRPC"@)
                        &&& default_or_parsed(*parse, shown_attr(attrs, "plugins"@), n.plugins, "NorthstarPlugins"@)
                    }
                }
            }),
    {
        let attrs = match &source.kind {
            NixKind::Attrs(a) => a,
            _ => return Err(SourceError::NotAttrs),
        };
        proof { reveal_strlit("northstar"); }
        if is_typed_as(attrs, "northstar") {
            return Ok(None);
        }
        let launcher = match parse_attr(attrs, "launcher", parse) {
            None => return Err(SourceError::MissingLauncher),
            Some(None) => return Err(SourceError::BadLauncher),
            Some(Some(f)) => f,
        };
        let mods = match parse_attr(attrs, "mods", parse) {
            None => return Err(SourceError::MissingMods),
            Some(None) => return Err(SourceError::BadMods),
            Some(Some(f)) => f,
        };
        let discordrpc = match parse_attr(attrs, "discordrpc", parse) {
            None => get_github_flake_ref("R2Northstar", "DiscordRPC"),
            Some(None) => return Err(SourceError::BadDiscordRpc),
            Some(Some(f)) => f,
        };
        let plugins = match parse_attr(attrs, "plugins", parse) {
            None => get_github_flake_ref("R2Northstar", "NorthstarPlugins"),
            Some(None) => return Err(SourceError::BadPlugins),
            Some(Some(f)) => f,
        };
        Ok(Some(Northstar { launcher, mods, discordrpc, plugins }))
    }
}

/// An optional flake reference is the parsed text when there is one, and
/// otherwise the default branch of R2Northstar's GitHub repository `repo`.
pub open spec fn default_or_parsed<F: Fn(&str) -> Option<FlakeRef>>(
    parse: F,
    text: Option<Seq<char>>,
    f: FlakeRef,
    repo: Seq<char>,
) -> bool {
    match text {
        Some(t) => parses_to(parse, t, Some(f)),
        None => f matches FlakeRef::GitHub(g) && g.owner@ == "R2Northstar"@ && g.repo@ == repo
            && g.host is None && g.keytype is None && g.public_key is None && g.public_keys is None
            && g.git_ref is None && g.rev is None,
    }
}

/// A source a profile can draw from.
#[derive(Debug)]
pub enum Source {
    Mod,
    Package,
    Repo(Repo),
    Northstar(Northstar),
    LockedSource(()),
}

/// The store: where sources are kept and the configuration is evaluated.
pub struct Store {
    pub store_path: String,
    pub eval_path: String,
    pub sources: Vec<(String, Source)>,
    pub config: Config,
}

/// The position of the first source called `name`.
pub open spec fn source_index(names: Seq<Seq<char>>, name: Seq<char>) -> Option<int> {
    crate::nix::attr_index(names, name)
}

/// The names of the store's sources.
pub open spec fn source_names(sources: Seq<(String, Source)>) -> Seq<Seq<char>> {
    sources.map_values(|p: (String, Source)| p.0@)
}

proof fn lemma_source_index_step(names: Seq<Seq<char>>, name: Seq<char>, i: int)
    requires
        0 <= i <= names.len(),
        forall|k: int| 0 <= k < i ==> names[k] != name,
    ensures
        i < names.len() && names[i] == name ==> source_index(names, name) == Some(i),
        i == names.len() ==> source_index(names, name) is None,
    decreases i,
{
    if i > 0 {
        assert forall|k: int| 0 <= k < i - 1 implies names.drop_first()[k] != name by {
            assert(names.drop_first()[k] == names[k + 1]);
        }
        lemma_source_index_step(names.drop_first(), name, i - 1);
    }
}

impl Store {
    /// A store in the local data directory `local_dir`: sources are kept in
    /// its `store` directory and the configuration is evaluated in the
    /// directory itself. It starts with no sources and the default
    /// configuration.
    pub fn new(os: Os, local_dir: &str) -> (r: Store)
        ensures
            r.store_path@ == join_path_on(os, local_dir@, "store"@),
            r.eval_path@ == local_dir@,
            r.sources@.len() == 0,
            r.config.profiles@.len() == 0,
            r.config.launch_args@.len() == 0,
            r.config.titanfall2@.len() == 0,
    {
        Store {
            store_path: join_on(os, local_dir, "store"),
            eval_path: String::from_str(local_dir),
            sources: Vec::new(),
            config: Config::default(),
        }
    }

    /// Where sources are kept.
    pub fn store_path(&self) -> (r: &str)
        ensures
            r@ == self.store_path@,
    {
        self.store_path.as_str()
    }

    /// The first profile called `name`.
    pub fn get_profile(&self, name: &str) -> (r: Option<&ProfileConfig>)
        ensures
            r matches Some(p) ==> (crate::settings::first_profile_named(self.config.profiles@, name@) matches Some(i)
                && 0 <= i < self.config.profiles@.len() && *p == self.config.profiles@[i]),
            r is None ==> crate::settings::first_profile_named(self.config.profiles@, name@) is None,
    {
        self.config.get_profile(name)
    }

    /// The first source called `name`.
    pub fn get_source(&self, name: &str) -> (r: Option<&Source>)
        ensures
            r matches Some(s) ==> (source_index(source_names(self.sources@), name@) matches Some(i)
                && 0 <= i < self.sources@.len() && *s == self.sources@[i].1),
            r is None ==> source_index(source_names(self.sources@), name@) is None,
    {
        let ghost names = source_names(self.sources@);
        let mut i: usize = 0;
        while i < self.sources.len()
            invariant
                i <= self.sources.len(),
                names == source_names(self.sources@),
                forall|k: int| 0 <= k < i ==> names[k] != name@,
            decreases self.sources.len() - i,
        {
            assert(names[i as int] == self.sources@[i as int].0@);
            if eq(self.sources[i].0.as_str(), name) {
                proof {
                    lemma_source_index_step(names, name@, i as int);
                }
                return Some(&self.sources[i].1);
            }
            i = i + 1;
        }
        proof {
            lemma_source_index_step(names, name@, i as int);
        }
        None
    }
}


/// A forge repository with a revision is cloned, without recursing into
/// submodules, from the HTTPS URL `https://HOST/OWNER/REPO.git` of its own
/// forge, at that revision: the reference's host when it names one, and
/// otherwise `github.com` for GitHub, `gitlab.com` for GitLab and
/// `sourcehut.org` for SourceHut.
pub proof fn lemma_forges_clone_from_their_own_host(repo: Repo, os: Os, store_path: Seq<char>)
    requires
        repo.url is GitHub || repo.url is GitLab || repo.url is SourceHut,
    ensures
        ({
            let f = match repo.url {
                FlakeRef::GitHub(f) => f,
                FlakeRef::GitLab(f) => f,
                FlakeRef::SourceHut(f) => f,
                _ => arbitrary(),
            };
            let host = match f.host {
                Some(h) => h@,
                None => if repo.url is GitHub {
                    "github.com"@
                } else if repo.url is GitLab {
                    "gitlab.com"@
                } else {
                    "sourcehut.org"@
                },
            };
            match f.rev {
                Some(rev) => instantiate_spec(repo, os, store_path) matches Ok(
                    InstantiateView::Clone(url, recurse, _, r),
                ) && url == "https://"@ + host + "/"@ + f.owner@ + "/"@ + f.repo@ + ".git"@ && !recurse
                    && r == rev@,
                None => instantiate_spec(repo, os, store_path) == Err::<
                    InstantiateView,
                    InstantiateError,
                >(InstantiateError::MissingRev),
            }
        }),
{
    reveal_strlit("/");
    assert(seq!['/'] =~= "/"@);
}

} // verus!
