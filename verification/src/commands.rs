//! Decisions of the command-line front end: which profile a command works
//! on, and how a profile is switched to a build from commits.
use vstd::prelude::*;
use crate::bootstrap::{
    bootstrap_next, first_core_mods, first_discord_rpc, first_launcher, first_piece,
    lemma_first_piece_step, overlay_supported, provides, ActionView, BootstrapProfile, Check, Origin,
    OriginView, Os, ProfileSource, StateView,
};
use crate::settings::NorthstarSource;
use crate::releases::first_index;
use crate::revs::{pick_pr_url, third_pieces};
use crate::text::string_views;

verus! {

/// The profile a command works on: the one it names, or `R2Northstar`.
pub fn command_profile(named: Option<&str>) -> (r: String)
    ensures
        r@ == match named {
            Some(p) => p@,
            None => "R2Northstar"@,
        },
{
    match named {
        Some(p) => String::from_str(p),
        None => String::from_str("R2Northstar"),
    }
}

/// The profile that pull requests are installed into: the one named, or
/// `R2NorthstarDev`.
pub fn pull_request_profile(named: Option<&str>) -> (r: String)
    ensures
        r@ == match named {
            Some(p) => p@,
            None => "R2NorthstarDev"@,
        },
{
    match named {
        Some(p) => String::from_str(p),
        None => String::from_str("R2NorthstarDev"),
    }
}

/// The profile the game is launched with: the one named, or
/// `R2NorthstarStable`; a named profile is also passed to the game as
/// `-profile=NAME` after the passed-through arguments.
pub fn launch_request(passthrough: Vec<String>, named: Option<&str>) -> (r: (Vec<String>, String))
    ensures
        string_views(r.0@) == match named {
            Some(p) => string_views(passthrough@).push("-profile="@ + p@),
            None => string_views(passthrough@),
        },
        r.1@ == match named {
            Some(p) => p@,
            None => "R2NorthstarStable"@,
        },
{
    let mut args = passthrough;
    match named {
        Some(p) => {
            let mut flag = String::from_str("-profile=");
            flag.append(p);
            let ghost before = args@;
            args.push(flag);
            assert(string_views(args@) =~= string_views(before).push("-profile="@ + p@));
            (args, String::from_str(p))
        },
        None => (args, String::from_str("R2NorthstarStable")),
    }
}

/// A source of the Northstar build itself (launcher, core mods or Discord
/// RPC plugin).
pub open spec fn is_build_source(s: ProfileSource) -> bool {
    s is Launcher || s is CoreMods || s is DiscordRPC
}

/// The sources other than those of the Northstar build, in order.
pub open spec fn other_sources(s: Seq<ProfileSource>) -> Seq<ProfileSource>
    decreases s.len(),
{
    if s.len() == 0 {
        s
    } else if is_build_source(s.last()) {
        other_sources(s.drop_last())
    } else {
        other_sources(s.drop_last()).push(s.last())
    }
}

fn clone_source(s: &ProfileSource) -> (r: ProfileSource)
    ensures
        match (*s, r) {
            (ProfileSource::Launcher(a), ProfileSource::Launcher(b)) => a@ == b@,
            (ProfileSource::CoreMods(a), ProfileSource::CoreMods(b)) => a@ == b@,
            (ProfileSource::DiscordRPC(a), ProfileSource::DiscordRPC(b)) => a@ == b@,
            (ProfileSource::Mod(a), ProfileSource::Mod(b)) => a@ == b@,
            (ProfileSource::ModRepo(a), ProfileSource::ModRepo(b)) => a@ == b@,
            (ProfileSource::Package(a), ProfileSource::Package(b)) => a@ == b@,
            _ => false,
        },
{
    match s {
        ProfileSource::Launcher(o) => ProfileSource::Launcher(clone_origin(o)),
        ProfileSource::CoreMods(o) => ProfileSource::CoreMods(clone_origin(o)),
        ProfileSource::DiscordRPC(o) => ProfileSource::DiscordRPC(clone_origin(o)),
        ProfileSource::Mod(n) => ProfileSource::Mod(n.clone()),
        ProfileSource::ModRepo(n) => ProfileSource::ModRepo(n.clone()),
        ProfileSource::Package(n) => ProfileSource::Package(n.clone()),
    }
}

fn clone_origin(o: &Origin) -> (r: Origin)
    ensures
        r@ == o@,
{
    match o {
        Origin::FromCommit(s) => Origin::FromCommit(s.clone()),
        Origin::Path(s) => Origin::Path(s.clone()),
    }
}

/// What a source is for.
pub enum SourceRole {
    Launcher,
    CoreMods,
    DiscordRPC,
    Mod,
    ModRepo,
    Package,
}

/// The plain value of a source: what it is for, and its origin (a mod,
/// mod repository or package is given by its name, held as a path).
pub open spec fn source_view(s: ProfileSource) -> (SourceRole, OriginView) {
    match s {
        ProfileSource::Launcher(o) => (SourceRole::Launcher, o@),
        ProfileSource::CoreMods(o) => (SourceRole::CoreMods, o@),
        ProfileSource::DiscordRPC(o) => (SourceRole::DiscordRPC, o@),
        ProfileSource::Mod(n) => (SourceRole::Mod, OriginView::Path(n@)),
        ProfileSource::ModRepo(n) => (SourceRole::ModRepo, OriginView::Path(n@)),
        ProfileSource::Package(n) => (SourceRole::Package, OriginView::Path(n@)),
    }
}

/// The plain values of a list of sources.
pub open spec fn source_views(s: Seq<ProfileSource>) -> Seq<(SourceRole, OriginView)> {
    s.map_values(|x: ProfileSource| source_view(x))
}

/// A profile switched to a build from commits: its other sources, in order,
/// then the launcher, core mods and Discord RPC plugin from the given
/// commits.
pub fn with_commit_sources(
    sources: &Vec<ProfileSource>,
    launcher: String,
    mods: String,
    rpc: String,
) -> (r: Vec<ProfileSource>)
    ensures
        source_views(r@) == source_views(other_sources(sources@)) + seq![
            (SourceRole::Launcher, OriginView::FromCommit(launcher@)),
            (SourceRole::CoreMods, OriginView::FromCommit(mods@)),
            (SourceRole::DiscordRPC, OriginView::FromCommit(rpc@)),
        ],
{
    let mut r: Vec<ProfileSource> = Vec::new();
    let mut i: usize = 0;
    while i < sources.len()
        invariant
            i <= sources.len(),
            source_views(r@) == source_views(other_sources(sources@.take(i as int))),
        decreases sources.len() - i,
    {
        proof {
            assert(sources@.take(i + 1).drop_last() =~= sources@.take(i as int));
            assert(sources@.take(i + 1).last() == sources@[i as int]);
        }
        let keep = match &sources[i] {
            ProfileSource::Launcher(_) | ProfileSource::CoreMods(_) | ProfileSource::DiscordRPC(_) => false,
            _ => true,
        };
        if keep {
            let c = clone_source(&sources[i]);
            let ghost before = r@;
            r.push(c);
            assert(source_view(c) == source_view(sources@[i as int]));
            assert(source_views(r@) =~= source_views(before).push(source_view(sources@[i as int])));
            assert(source_views(other_sources(sources@.take(i + 1))) =~= source_views(
                other_sources(sources@.take(i as int)),
            ).push(source_view(sources@[i as int])));
        }
        i = i + 1;
    }
    assert(sources@.take(i as int) =~= sources@);
    let ghost kept = r@;
    r.push(ProfileSource::Launcher(Origin::FromCommit(launcher)));
    r.push(ProfileSource::CoreMods(Origin::FromCommit(mods)));
    r.push(ProfileSource::DiscordRPC(Origin::FromCommit(rpc)));
    assert(source_views(r@) =~= source_views(kept) + seq![
        (SourceRole::Launcher, OriginView::FromCommit(launcher@)),
        (SourceRole::CoreMods, OriginView::FromCommit(mods@)),
        (SourceRole::DiscordRPC, OriginView::FromCommit(rpc@)),
    ]);
    r
}


/// The sources kept by `other_sources` are none of the build's own.
proof fn lemma_other_sources_not_build(s: Seq<ProfileSource>)
    ensures
        forall|i: int|
            0 <= i < other_sources(s).len() ==> !is_build_source(#[trigger] other_sources(s)[i]),
    decreases s.len(),
{
    if s.len() > 0 {
        let p = other_sources(s.drop_last());
        lemma_other_sources_not_build(s.drop_last());
        if !is_build_source(s.last()) {
            assert forall|i: int| 0 <= i < p.len() + 1 implies !is_build_source(
                #[trigger] p.push(s.last())[i],
            ) by {
                if i < p.len() {
                    assert(p.push(s.last())[i] == p[i]);
                }
            }
        }
    }
}

/// A profile switched to a build from commits installs exactly those
/// commits: whatever sources it had before, its new sources (as
/// `with_commit_sources` makes them) are ones an overlaid profile can be
/// bootstrapped from, and a forced bootstrap of it, as its first and only
/// step, builds Northstar from the given core-mods, launcher and Discord RPC
/// commits.
pub proof fn lemma_commit_sources_install_those_commits(
    before: Seq<ProfileSource>,
    profile: BootstrapProfile,
    launcher: Seq<char>,
    mods: Seq<char>,
    rpc: Seq<char>,
    os: Os,
    event: crate::bootstrap::EventView,
)
    requires
        profile.flavor is Overlayed,
        source_views(profile.sources@) == source_views(other_sources(before)) + seq![
            (SourceRole::Launcher, OriginView::FromCommit(launcher)),
            (SourceRole::CoreMods, OriginView::FromCommit(mods)),
            (SourceRole::DiscordRPC, OriginView::FromCommit(rpc)),
        ],
    ensures
        overlay_supported(profile.sources@),
        bootstrap_next(profile, Check::Force, os, StateView::Start, event) == (
            StateView::Done,
            ActionView::InstallFromRevs(mods, launcher, Some(rpc)),
        ),
{
    let x = profile.sources@;
    let o = other_sources(before);
    let k = o.len() as int;
    lemma_other_sources_not_build(before);
    assert(source_views(x).len() == x.len());
    assert(x.len() == k + 3);
    assert forall|i: int| 0 <= i < k implies !is_build_source(#[trigger] x[i]) by {
        assert(source_views(x)[i] == source_view(x[i]));
        assert(source_views(o)[i] == source_view(o[i]));
        assert(!is_build_source(o[i]));
    }
    assert(source_views(x)[k] == source_view(x[k]));
    assert(source_views(x)[k + 1] == source_view(x[k + 1]));
    assert(source_views(x)[k + 2] == source_view(x[k + 2]));
    assert(provides(x[k], 0) == Some(OriginView::FromCommit(launcher)));
    assert(provides(x[k + 1], 1) == Some(OriginView::FromCommit(mods)));
    assert(provides(x[k + 2], 2) == Some(OriginView::FromCommit(rpc)));
    assert forall|i: int| 0 <= i < k implies provides(#[trigger] x[i], 0) is None by {
        assert(!is_build_source(x[i]));
    }
    assert forall|i: int| 0 <= i < k + 1 implies provides(#[trigger] x[i], 1) is None by {
        if i < k {
            assert(!is_build_source(x[i]));
        }
    }
    assert forall|i: int| 0 <= i < k + 2 implies provides(#[trigger] x[i], 2) is None by {
        if i < k {
            assert(!is_build_source(x[i]));
        }
    }
    lemma_first_piece_step(x, 0, k);
    lemma_first_piece_step(x, 1, k + 1);
    lemma_first_piece_step(x, 2, k + 2);
    assert(first_launcher(x) == Some(OriginView::FromCommit(launcher)));
    assert(first_core_mods(x) == Some(OriginView::FromCommit(mods)));
    assert(first_discord_rpc(x) == Some(OriginView::FromCommit(rpc)));
}


/// Why a pull-request install is refused.
#[derive(Debug, Clone, Copy, PartialEq, Eq, Structural)]
pub enum PullRequestRefusal {
    /// None of the URLs is a pull request of the launcher, the core mods or
    /// the Discord RPC plugin.
    ForeignRepo,
    /// The profile is not built from commits, and `--force` was not given.
    NotCommitBased,
}

/// The position of the URL (by its path) taken for repository `repo` (see
/// `pick_pr_url`).
pub open spec fn pr_pick(paths: Seq<Seq<char>>, repo: Seq<char>) -> Option<int> {
    first_index(third_pieces(paths), |n: Seq<char>| n == repo)
}

/// The pull-request URLs taken for the launcher, the core mods and the
/// Discord RPC plugin, by their positions.
pub struct PullRequestPicks {
    pub launcher: Option<usize>,
    pub mods: Option<usize>,
    pub discord_rpc: Option<usize>,
}

/// The plain value of an optional position.
pub open spec fn opt_pos(o: Option<usize>) -> Option<int> {
    match o {
        Some(i) => Some(i as int),
        None => None,
    }
}

/// Picks the pull-request URLs (by their paths) for the launcher
/// (`NorthstarLauncher`), the core mods (`NorthstarMods`) and the Discord RPC
/// plugin (`NorthstarDiscordRPC`); refused as a foreign repository when none
/// of the three is found.
pub fn pick_pull_requests(paths: &Vec<String>) -> (r: Result<PullRequestPicks, PullRequestRefusal>)
    ensures
        r matches Ok(p) ==> {
            &&& opt_pos(p.launcher) == pr_pick(string_views(paths@), "NorthstarLauncher"@)
            &&& opt_pos(p.mods) == pr_pick(string_views(paths@), "NorthstarMods"@)
            &&& opt_pos(p.discord_rpc) == pr_pick(string_views(paths@), "NorthstarDiscordRPC"@)
        },
        r is Err <==> (pr_pick(string_views(paths@), "NorthstarLauncher"@) is None && pr_pick(
            string_views(paths@),
            "NorthstarMods"@,
        ) is None && pr_pick(string_views(paths@), "NorthstarDiscordRPC"@) is None),
        r matches Err(e) ==> e == PullRequestRefusal::ForeignRepo,
{
    let launcher = pick_pr_url(paths, "NorthstarLauncher");
    let mods = pick_pr_url(paths, "NorthstarMods");
    let discord_rpc = pick_pr_url(paths, "NorthstarDiscordRPC");
    if launcher.is_none() && mods.is_none() && discord_rpc.is_none() {
        Err(PullRequestRefusal::ForeignRepo)
    } else {
        Ok(PullRequestPicks { launcher, mods, discord_rpc })
    }
}

/// A profile may be switched to a build from commits when it is already
/// built from commits (overlaid) or when the switch is forced.
pub fn may_install_commits(is_overlayed: bool, force: bool) -> (r: Result<(), PullRequestRefusal>)
    ensures
        r is Ok <==> (is_overlayed || force),
        r matches Err(e) ==> e == PullRequestRefusal::NotCommitBased,
{
    if is_overlayed || force {
        Ok(())
    } else {
        Err(PullRequestRefusal::NotCommitBased)
    }
}

} // verus!
