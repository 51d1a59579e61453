//! Bringing a profile's Northstar install up to date. Deciding what to do is
//! done here, one step at a time: each step takes what the previous action
//! found out and names the next action; the caller performs the actions
//! (network, files, processes) and reports back.
use vstd::prelude::*;
use crate::paths::{join, join_on, join_path, join_path_on};
use crate::releases::{find_containing, first_index, name_views};
use crate::revs::NorthstarInstallInfo;
use crate::settings::{semver_text, semver_view, NorthstarSource, SemVer};
use crate::text::{before_first, contains_seq, eq, string_views, text_before};

verus! {

/// How hard bootstrapping tries.
#[derive(Debug, Clone, Copy, PartialEq, Eq, Structural, PartialOrd, Ord)]
pub enum Check {
    Force,
    Skip,
    Check,
}

/// The operating system the launcher runs on, as far as the launch and
/// install logic cares.
#[derive(Debug, Clone, Copy, PartialEq, Eq, Structural)]
pub enum Os {
    Linux,
    Windows,
    Other,
}

/// Where a piece of a commit-based Northstar install comes from.
#[derive(Debug, Clone)]
pub enum Origin {
    FromCommit(String),
    Path(String),
}

/// The plain value of an origin.
pub enum OriginView {
    FromCommit(Seq<char>),
    Path(Seq<char>),
}

impl View for Origin {
    type V = OriginView;

    open spec fn view(&self) -> OriginView {
        match self {
            Origin::FromCommit(s) => OriginView::FromCommit(s@),
            Origin::Path(s) => OriginView::Path(s@),
        }
    }
}

/// A source that a profile draws from.
#[derive(Debug, Clone)]
pub enum ProfileSource {
    Launcher(Origin),
    CoreMods(Origin),
    DiscordRPC(Origin),
    Mod(String),
    ModRepo(String),
    Package(String),
}

/// The profile being bootstrapped.
#[derive(Debug, Clone)]
pub struct BootstrapProfile {
    pub name: String,
    pub titanfall2_path: String,
    pub flavor: NorthstarSource,
    pub sources: Vec<ProfileSource>,
}

/// The first launcher source.
pub open spec fn first_launcher(sources: Seq<ProfileSource>) -> Option<OriginView>
    decreases sources.len(),
{
    if sources.len() == 0 {
        None
    } else {
        match sources[0] {
            ProfileSource::Launcher(o) => Some(o@),
            _ => first_launcher(sources.drop_first()),
        }
    }
}

/// The first core-mods source.
pub open spec fn first_core_mods(sources: Seq<ProfileSource>) -> Option<OriginView>
    decreases sources.len(),
{
    if sources.len() == 0 {
        None
    } else {
        match sources[0] {
            ProfileSource::CoreMods(o) => Some(o@),
            _ => first_core_mods(sources.drop_first()),
        }
    }
}

/// The first Discord RPC source.
pub open spec fn first_discord_rpc(sources: Seq<ProfileSource>) -> Option<OriginView>
    decreases sources.len(),
{
    if sources.len() == 0 {
        None
    } else {
        match sources[0] {
            ProfileSource::DiscordRPC(o) => Some(o@),
            _ => first_discord_rpc(sources.drop_first()),
        }
    }
}

/// The origin a source gives for a piece of the build (the launcher
/// first, then the core mods, then the Discord RPC plugin), if it is that
/// piece's source.
pub open spec fn provides(s: ProfileSource, piece: int) -> Option<OriginView> {
    match s {
        ProfileSource::Launcher(o) => if piece == 0 {
            Some(o@)
        } else {
            None
        },
        ProfileSource::CoreMods(o) => if piece == 1 {
            Some(o@)
        } else {
            None
        },
        ProfileSource::DiscordRPC(o) => if piece == 2 {
            Some(o@)
        } else {
            None
        },
        _ => None,
    }
}

/// The first source that provides `piece`.
pub open spec fn first_piece(sources: Seq<ProfileSource>, piece: int) -> Option<OriginView> {
    if piece == 0 {
        first_launcher(sources)
    } else if piece == 1 {
        first_core_mods(sources)
    } else {
        first_discord_rpc(sources)
    }
}

pub(crate) proof fn lemma_first_piece_step(sources: Seq<ProfileSource>, piece: int, i: int)
    requires
        0 <= piece <= 2,
        0 <= i < sources.len(),
        forall|k: int| 0 <= k < i ==> provides(#[trigger] sources[k], piece) is None,
    ensures
        provides(sources[i], piece) is Some ==> first_piece(sources, piece) == provides(
            sources[i],
            piece,
        ),
        provides(sources[i], piece) is None ==> first_piece(sources, piece) == first_piece(
            sources.skip(i + 1),
            piece,
        ),
    decreases i,
{
    if i > 0 {
        assert forall|k: int| 0 <= k < i - 1 implies provides(
            #[trigger] sources.drop_first()[k],
            piece,
        ) is None by {
            assert(sources.drop_first()[k] == sources[k + 1]);
        }
        lemma_first_piece_step(sources.drop_first(), piece, i - 1);
        assert(sources.drop_first().skip(i) =~= sources.skip(i + 1));
        assert(provides(sources[0], piece) is None);
    } else {
        assert(sources.skip(1) =~= sources.drop_first());
    }
}

fn find_piece(sources: &Vec<ProfileSource>, piece: u8) -> (r: Option<Origin>)
    requires
        piece <= 2,
    ensures
        r matches Some(o) ==> first_piece(sources@, piece as int) == Some(o@),
        r is None ==> first_piece(sources@, piece as int) is None,
{
    let mut i: usize = 0;
    while i < sources.len()
        invariant
            piece <= 2,
            i <= sources.len(),
            forall|k: int| 0 <= k < i ==> provides(#[trigger] sources@[k], piece as int) is None,
        decreases sources.len() - i,
    {
        proof {
            lemma_first_piece_step(sources@, piece as int, i as int);
        }
        let found = match &sources[i] {
            ProfileSource::Launcher(o) => if piece == 0 {
                Some(clone_origin(o))
            } else {
                None
            },
            ProfileSource::CoreMods(o) => if piece == 1 {
                Some(clone_origin(o))
            } else {
                None
            },
            ProfileSource::DiscordRPC(o) => if piece == 2 {
                Some(clone_origin(o))
            } else {
                None
            },
            _ => None,
        };
        match found {
            Some(o) => {
                return Some(o);
            },
            None => {},
        }
        i = i + 1;
    }
    proof {
        lemma_no_piece(sources@, piece as int);
    }
    None
}

proof fn lemma_no_piece(sources: Seq<ProfileSource>, piece: int)
    requires
        0 <= piece <= 2,
        forall|k: int| 0 <= k < sources.len() ==> provides(#[trigger] sources[k], piece) is None,
    ensures
        first_piece(sources, piece) is None,
    decreases sources.len(),
{
    if sources.len() > 0 {
        assert(provides(sources[0], piece) is None);
        assert forall|k: int| 0 <= k < sources.len() - 1 implies provides(
            #[trigger] sources.drop_first()[k],
            piece,
        ) is None by {
            assert(sources.drop_first()[k] == sources[k + 1]);
        }
        lemma_no_piece(sources.drop_first(), piece);
    }
}

fn clone_origin(o: &Origin) -> (r: Origin)
    ensures
        r@ == o@,
{
    match o {
        Origin::FromCommit(s) => Origin::FromCommit(s.clone()),
        Origin::Path(s) => Origin::Path(s.clone()),
    }
}


/// The core mods that every Northstar install carries, relative to the
/// profile directory.
pub open spec fn core_mod_paths() -> Seq<Seq<char>> {
    seq!["mods/Northstar.Client"@, "mods/Northstar.Custom"@, "mods/Northstar.CustomServers"@]
}

/// Core mod number `i` (see `core_mod_paths`).
pub fn core_mod(i: usize) -> (r: &'static str)
    requires
        i < 3,
    ensures
        r@ == core_mod_paths()[i as int],
{
    if i == 0 {
        "mods/Northstar.Client"
    } else if i == 1 {
        "mods/Northstar.Custom"
    } else {
        "mods/Northstar.CustomServers"
    }
}

/// The first component of a path as `Path::components` yields it: `/` for
/// an absolute path, otherwise the text before the first separator.
pub open spec fn first_component(p: Seq<char>) -> Option<Seq<char>> {
    if p.len() == 0 {
        None
    } else if p[0] == '/' {
        Some(seq!['/'])
    } else {
        Some(before_first(p, '/'))
    }
}

fn first_component_of(p: &str) -> (r: Option<String>)
    ensures
        r matches Some(c) ==> first_component(p@) == Some(c@),
        r is None ==> first_component(p@) is None,
{
    let n = p.unicode_len();
    if n == 0 {
        None
    } else if p.get_char(0) == '/' {
        proof { reveal_strlit("/"); }
        assert("/"@ =~= seq!['/']);
        Some(String::from_str("/"))
    } else {
        Some(text_before(p, '/'))
    }
}

/// The directory of a profile inside its Titanfall 2 directory.
pub open spec fn profile_dir(profile: BootstrapProfile, os: Os) -> Seq<char> {
    join_path_on(os, profile.titanfall2_path@, profile.name@)
}

/// Which build to download and install.
#[derive(Debug, Clone)]
pub enum DownloadKind {
    Version(SemVer),
    Latest,
    Nightly,
    Ion,
}

/// The plain value of a download kind.
pub enum DownloadView {
    Version((u64, u64, u64, Seq<char>, Seq<char>)),
    Latest,
    Nightly,
    Ion,
}

impl View for DownloadKind {
    type V = DownloadView;

    open spec fn view(&self) -> DownloadView {
        match self {
            DownloadKind::Version(v) => DownloadView::Version(semver_view(*v)),
            DownloadKind::Latest => DownloadView::Latest,
            DownloadKind::Nightly => DownloadView::Nightly,
            DownloadKind::Ion => DownloadView::Ion,
        }
    }
}

/// Symbolic links that make a profile run a local build: the launcher
/// library, then one link per core mod, each as (link target, link path).
pub struct LocalLinks {
    pub dll_source: String,
    pub dll_target: String,
    pub mod_links: Vec<(String, String)>,
}

/// The plain values of a pair of strings.
pub open spec fn pair_views(v: Seq<(String, String)>) -> Seq<(Seq<char>, Seq<char>)> {
    v.map_values(|p: (String, String)| (p.0@, p.1@))
}

/// The links for a local launcher build in `launcher` and local core mods in
/// `mods`, installed into the profile directory `dir`: the launcher library
/// comes from `launcher/build/game/Northstar.dll`; each core mod path is
/// linked to `mods` joined with the first component of that path.
pub open spec fn local_links(launcher: Seq<char>, mods: Seq<char>, dir: Seq<char>) -> (
    Seq<char>,
    Seq<char>,
    Seq<(Seq<char>, Seq<char>)>,
) {
    (
        join_path(join_path(join_path(launcher, "build"@), "game"@), "Northstar.dll"@),
        join_path(dir, "Northstar.dll"@),
        Seq::new(
            3,
            |i: int|
                {
                    let target = join_path(dir, core_mod_paths()[i]);
                    (join_path(mods, first_component(target)->0), target)
                },
        ),
    )
}

/// A relative name joined onto anything is not empty.
proof fn lemma_join_nonempty(base: Seq<char>, rel: Seq<char>)
    requires
        rel.len() > 0,
    ensures
        join_path(base, rel).len() > 0,
{
}

fn make_local_links(launcher: &str, mods: &str, dir: &str) -> (r: LocalLinks)
    ensures
        (r.dll_source@, r.dll_target@, pair_views(r.mod_links@)) == local_links(
            launcher@,
            mods@,
            dir@,
        ),
{
    let build = join(launcher, "build");
    let game = join(build.as_str(), "game");
    let dll_source = join(game.as_str(), "Northstar.dll");
    let dll_target = join(dir, "Northstar.dll");
    let mut mod_links: Vec<(String, String)> = Vec::new();
    let ghost expected = local_links(launcher@, mods@, dir@).2;
    let mut i: usize = 0;
    while i < 3
        invariant
            i <= 3,
            expected == local_links(launcher@, mods@, dir@).2,
            pair_views(mod_links@) == expected.take(i as int),
        decreases 3 - i,
    {
        let target = join(dir, core_mod(i));
        proof {
            reveal_strlit("mods/Northstar.Client");
            reveal_strlit("mods/Northstar.Custom");
            reveal_strlit("mods/Northstar.CustomServers");
            lemma_join_nonempty(dir@, core_mod_paths()[i as int]);
        }
        let top = match first_component_of(target.as_str()) {
            Some(t) => t,
            None => String::new(),
        };
        let source = join(mods, top.as_str());
        let ghost before = mod_links@;
        mod_links.push((source, target));
        assert(pair_views(mod_links@) =~= pair_views(before).push(
            (mod_links@[i as int].0@, mod_links@[i as int].1@),
        ));
        assert(expected.take(i + 1) =~= expected.take(i as int).push(expected[i as int]));
        i = i + 1;
    }
    assert(expected.take(3) =~= expected);
    LocalLinks { dll_source, dll_target, mod_links }
}

/// What bootstrapping does next.
pub enum BootstrapAction {
    /// Stop; bootstrapping succeeded.
    Finish,
    /// Stop with an error: an overlaid profile must name both a launcher
    /// and core mods.
    MissingOverlaySources,
    /// Find out whether the given version is installed in the profile.
    CheckInstalled(String),
    /// Fetch the version of the latest release of `owner/repo`.
    FetchLatestVersion(String, String),
    /// Find out whether the given profile directory exists.
    CheckProfileDir(String),
    /// Read the nightly version recorded in the given file, creating the
    /// file when it is missing.
    ReadNightlyVersion(String),
    /// Fetch the asset names of the latest nightly release.
    FetchNightlyAssets,
    /// Record the given nightly version (a failure is ignored).
    WriteNightlyVersion(String),
    /// Download and install a release; then stop.
    Download(DownloadKind),
    /// Build Northstar from these commits and install it into the profile;
    /// then stop.
    InstallFromRevs(NorthstarInstallInfo),
    /// Replace the profile's launcher library and core mods with these links;
    /// then stop.
    LinkLocalBuild(LocalLinks),
}

/// The plain value of an action.
pub enum ActionView {
    Finish,
    MissingOverlaySources,
    CheckInstalled(Seq<char>),
    FetchLatestVersion(Seq<char>, Seq<char>),
    CheckProfileDir(Seq<char>),
    ReadNightlyVersion(Seq<char>),
    FetchNightlyAssets,
    WriteNightlyVersion(Seq<char>),
    Download(DownloadView),
    InstallFromRevs(Seq<char>, Seq<char>, Option<Seq<char>>),
    LinkLocalBuild(Seq<char>, Seq<char>, Seq<(Seq<char>, Seq<char>)>),
}

impl View for BootstrapAction {
    type V = ActionView;

    open spec fn view(&self) -> ActionView {
        match self {
            BootstrapAction::Finish => ActionView::Finish,
            BootstrapAction::MissingOverlaySources => ActionView::MissingOverlaySources,
            BootstrapAction::CheckInstalled(v) => ActionView::CheckInstalled(v@),
            BootstrapAction::FetchLatestVersion(o, r) => ActionView::FetchLatestVersion(o@, r@),
            BootstrapAction::CheckProfileDir(p) => ActionView::CheckProfileDir(p@),
            BootstrapAction::ReadNightlyVersion(p) => ActionView::ReadNightlyVersion(p@),
            BootstrapAction::FetchNightlyAssets => ActionView::FetchNightlyAssets,
            BootstrapAction::WriteNightlyVersion(v) => ActionView::WriteNightlyVersion(v@),
            BootstrapAction::Download(k) => ActionView::Download(k@),
            BootstrapAction::InstallFromRevs(i) => ActionView::InstallFromRevs(
                i.mods_sha@,
                i.launcher_sha@,
                crate::revs::opt_view(i.rpc_sha),
            ),
            BootstrapAction::LinkLocalBuild(l) => ActionView::LinkLocalBuild(
                l.dll_source@,
                l.dll_target@,
                pair_views(l.mod_links@),
            ),
        }
    }
}

/// Where bootstrapping stands between two actions.
pub enum BootstrapState {
    /// Nothing done yet.
    Start,
    /// Waiting to hear whether a version is installed; then the download is
    /// made unless it is installed and `skip_if_installed` holds.
    AwaitInstalled { skip_if_installed: bool, download: DownloadKind },
    /// Waiting for the latest release version; the download is made when it
    /// is not installed.
    AwaitLatest { download: DownloadKind },
    /// Waiting to hear whether the nightly profile directory exists.
    AwaitProfileDir,
    /// Waiting for the recorded nightly version.
    AwaitNightlyVersion,
    /// Waiting for the latest nightly assets; `current` is the recorded
    /// version.
    AwaitNightlyAssets { current: String },
    /// Waiting for the new nightly version to be recorded.
    AwaitWritten,
    /// Finished: a final action was named.
    Done,
}

/// The plain value of a state.
pub enum StateView {
    Start,
    AwaitInstalled(bool, DownloadView),
    AwaitLatest(DownloadView),
    AwaitProfileDir,
    AwaitNightlyVersion,
    AwaitNightlyAssets(Seq<char>),
    AwaitWritten,
    Done,
}

impl View for BootstrapState {
    type V = StateView;

    open spec fn view(&self) -> StateView {
        match self {
            BootstrapState::Start => StateView::Start,
            BootstrapState::AwaitInstalled { skip_if_installed, download } => StateView::AwaitInstalled(
                *skip_if_installed,
                download@,
            ),
            BootstrapState::AwaitLatest { download } => StateView::AwaitLatest(download@),
            BootstrapState::AwaitProfileDir => StateView::AwaitProfileDir,
            BootstrapState::AwaitNightlyVersion => StateView::AwaitNightlyVersion,
            BootstrapState::AwaitNightlyAssets { current } => StateView::AwaitNightlyAssets(current@),
            BootstrapState::AwaitWritten => StateView::AwaitWritten,
            BootstrapState::Done => StateView::Done,
        }
    }
}

/// What the caller found out by performing the last action.
pub enum BootstrapEvent {
    /// Bootstrapping starts (answers `Start`).
    Begin,
    /// Whether the version is installed.
    Installed(bool),
    /// The latest release version, or `None` when it could not be fetched.
    LatestVersion(Option<String>),
    /// Whether the profile directory exists.
    ProfileDir(bool),
    /// The recorded nightly version, or `None` when the file could neither be
    /// opened nor created.
    NightlyVersion(Option<String>),
    /// The asset names of the latest nightly release.
    NightlyAssets(Vec<String>),
    /// The nightly version was recorded (or recording it failed).
    Written,
}

/// The plain value of an event.
pub enum EventView {
    Begin,
    Installed(bool),
    LatestVersion(Option<Seq<char>>),
    ProfileDir(bool),
    NightlyVersion(Option<Seq<char>>),
    NightlyAssets(Seq<Seq<char>>),
    Written,
}

impl View for BootstrapEvent {
    type V = EventView;

    open spec fn view(&self) -> EventView {
        match self {
            BootstrapEvent::Begin => EventView::Begin,
            BootstrapEvent::Installed(b) => EventView::Installed(*b),
            BootstrapEvent::LatestVersion(v) => EventView::LatestVersion(crate::revs::opt_view(*v)),
            BootstrapEvent::ProfileDir(b) => EventView::ProfileDir(*b),
            BootstrapEvent::NightlyVersion(v) => EventView::NightlyVersion(crate::revs::opt_view(*v)),
            BootstrapEvent::NightlyAssets(v) => EventView::NightlyAssets(string_views(v@)),
            BootstrapEvent::Written => EventView::Written,
        }
    }
}

/// The event that answers the action that led to `state`.
pub open spec fn event_fits(state: StateView, event: EventView) -> bool {
    match state {
        StateView::Start => event is Begin,
        StateView::AwaitInstalled(_, _) => event is Installed,
        StateView::AwaitLatest(_) => event is LatestVersion,
        StateView::AwaitProfileDir => event is ProfileDir,
        StateView::AwaitNightlyVersion => event is NightlyVersion,
        StateView::AwaitNightlyAssets(_) => event is NightlyAssets,
        StateView::AwaitWritten => event is Written,
        StateView::Done => false,
    }
}

/// An overlaid profile whose sources Northstar can be bootstrapped from:
/// launcher and core mods both from commits (with the Discord RPC plugin
/// from a commit or not given), or both from local paths. A profile missing
/// the launcher or the core mods is reported as an error, so it counts too.
pub open spec fn overlay_supported(sources: Seq<ProfileSource>) -> bool {
    match (first_launcher(sources), first_core_mods(sources)) {
        (Some(OriginView::FromCommit(_)), Some(OriginView::FromCommit(_))) => match first_discord_rpc(
            sources,
        ) {
            Some(OriginView::Path(_)) => false,
            _ => true,
        },
        (Some(OriginView::Path(_)), Some(OriginView::Path(_))) => true,
        (Some(_), Some(_)) => false,
        _ => true,
    }
}

/// What an overlaid profile does when it is not merely checked.
pub open spec fn overlay_action(profile: BootstrapProfile, os: Os) -> ActionView {
    match (first_launcher(profile.sources@), first_core_mods(profile.sources@)) {
        (Some(OriginView::FromCommit(l)), Some(OriginView::FromCommit(m))) => match first_discord_rpc(
            profile.sources@,
        ) {
            Some(OriginView::FromCommit(r)) => ActionView::InstallFromRevs(m, l, Some(r)),
            _ => ActionView::InstallFromRevs(m, l, None),
        },
        (Some(OriginView::Path(l)), Some(OriginView::Path(m))) => if os == Os::Linux {
            let links = local_links(l, m, profile_dir(profile, os));
            ActionView::LinkLocalBuild(links.0, links.1, links.2)
        } else {
            ActionView::Finish
        },
        _ => ActionView::MissingOverlaySources,
    }
}

/// The latest nightly release: the first asset whose name contains
/// `northstar-nightly`, or the empty name when there is none.
pub open spec fn latest_nightly(names: Seq<Seq<char>>) -> Seq<char> {
    match first_index(names, |n: Seq<char>| contains_seq(n, "northstar-nightly"@)) {
        Some(i) => names[i],
        None => Seq::empty(),
    }
}

/// One step of bootstrapping: the next state and action, given the state
/// and what the last action found out.
///
/// - Starting: with `Skip` nothing is done. A fixed version is checked for
///   and downloaded unless it is installed and the check is `Force`. The
///   latest stable release (R2Northstar/Northstar) and the latest Ion release
///   (r2ion/Ion) have their version fetched, then checked for, and are
///   downloaded unless installed. A nightly profile whose directory does not
///   exist downloads the latest nightly. An overlaid profile does nothing
///   when merely checked; otherwise it is built from its commits, linked to
///   its local builds (Linux only; elsewhere nothing), or reported as
///   missing its launcher or core mods.
/// - A latest version that could not be fetched ends bootstrapping without
///   a download.
/// - A nightly version file that could not be opened or created ends
///   bootstrapping; otherwise the recorded version is compared with the
///   latest nightly asset, and a different one is recorded and downloaded.
pub open spec fn bootstrap_next(
    profile: BootstrapProfile,
    check: Check,
    os: Os,
    state: StateView,
    event: EventView,
) -> (StateView, ActionView) {
    match state {
        StateView::Start => if check == Check::Skip {
            (StateView::Done, ActionView::Finish)
        } else {
            match profile.flavor {
                NorthstarSource::Version(v) => (
                    StateView::AwaitInstalled(
                        check == Check::Force,
                        DownloadView::Version(semver_view(v)),
                    ),
                    ActionView::CheckInstalled(semver_text(semver_view(v))),
                ),
                NorthstarSource::Stable => (
                    StateView::AwaitLatest(DownloadView::Latest),
                    ActionView::FetchLatestVersion("R2Northstar"@, "Northstar"@),
                ),
                NorthstarSource::Ion => (
                    StateView::AwaitLatest(DownloadView::Ion),
                    ActionView::FetchLatestVersion("r2ion"@, "Ion"@),
                ),
                NorthstarSource::Nightly => (
                    StateView::AwaitProfileDir,
                    ActionView::CheckProfileDir(profile_dir(profile, os)),
                ),
                NorthstarSource::Overlayed => if check == Check::Check {
                    (StateView::Done, ActionView::Finish)
                } else {
                    (StateView::Done, overlay_action(profile, os))
                },
            }
        },
        StateView::AwaitInstalled(skip, download) => match event {
            EventView::Installed(true) if skip => (StateView::Done, ActionView::Finish),
            _ => (StateView::Done, ActionView::Download(download)),
        },
        StateView::AwaitLatest(download) => match event {
            EventView::LatestVersion(Some(v)) => (
                StateView::AwaitInstalled(true, download),
                ActionView::CheckInstalled(v),
            ),
            _ => (StateView::Done, ActionView::Finish),
        },
        StateView::AwaitProfileDir => match event {
            EventView::ProfileDir(true) => (
                StateView::AwaitNightlyVersion,
                ActionView::ReadNightlyVersion(
                    join_path_on(os, profile_dir(profile, os), "nightly-ver"@),
                ),
            ),
            _ => (StateView::Done, ActionView::Download(DownloadView::Nightly)),
        },
        StateView::AwaitNightlyVersion => match event {
            EventView::NightlyVersion(Some(v)) => (
                StateView::AwaitNightlyAssets(v),
                ActionView::FetchNightlyAssets,
            ),
            _ => (StateView::Done, ActionView::Finish),
        },
        StateView::AwaitNightlyAssets(current) => match event {
            EventView::NightlyAssets(names) => if current == latest_nightly(names) {
                (StateView::Done, ActionView::Finish)
            } else {
                (StateView::AwaitWritten, ActionView::WriteNightlyVersion(latest_nightly(names)))
            },
            _ => (StateView::Done, ActionView::Finish),
        },
        StateView::AwaitWritten => (StateView::Done, ActionView::Download(DownloadView::Nightly)),
        StateView::Done => (StateView::Done, ActionView::Finish),
    }
}

/// How many more actions bootstrapping can take from a state.
pub open spec fn steps_left(state: StateView) -> nat {
    match state {
        StateView::Start => 5,
        StateView::AwaitProfileDir => 4,
        StateView::AwaitNightlyVersion => 3,
        StateView::AwaitLatest(_) => 2,
        StateView::AwaitNightlyAssets(_) => 2,
        StateView::AwaitInstalled(_, _) => 1,
        StateView::AwaitWritten => 1,
        StateView::Done => 0,
    }
}

/// An action after which bootstrapping is over.
pub open spec fn is_final(action: ActionView) -> bool {
    action is Finish || action is MissingOverlaySources || action is Download
        || action is InstallFromRevs || action is LinkLocalBuild
}

/// Bootstrapping always comes to an end: every step from a state that is
/// not finished leads to a state with fewer actions left, so a run takes at
/// most five actions; and a step ends in the finished state exactly when
/// its action is a final one.
pub proof fn lemma_bootstrap_terminates(
    profile: BootstrapProfile,
    check: Check,
    os: Os,
    state: StateView,
    event: EventView,
)
    requires
        !(state is Done),
    ensures
        steps_left(bootstrap_next(profile, check, os, state, event).0) < steps_left(state),
        (bootstrap_next(profile, check, os, state, event).0 is Done) == is_final(
            bootstrap_next(profile, check, os, state, event).1,
        ),
{
}

/// With `Check::Skip` bootstrapping does nothing at all: its first step
/// finishes.
pub proof fn lemma_skip_does_nothing(profile: BootstrapProfile, os: Os, event: EventView)
    ensures
        bootstrap_next(profile, Check::Skip, os, StateView::Start, event) == (
            StateView::Done,
            ActionView::Finish,
        ),
{
}

fn clone_semver(v: &SemVer) -> (r: SemVer)
    ensures
        semver_view(r) == semver_view(*v),
{
    SemVer {
        major: v.major,
        minor: v.minor,
        patch: v.patch,
        pre: v.pre.clone(),
        build: v.build.clone(),
    }
}

/// Whether an overlaid profile with these sources can be bootstrapped (see
/// `overlay_supported`); the other combinations of sources are not
/// supported.
pub fn overlay_is_supported(sources: &Vec<ProfileSource>) -> (r: bool)
    ensures
        r == overlay_supported(sources@),
{
    let launcher = find_piece(sources, 0);
    let mods = find_piece(sources, 1);
    let rpc = find_piece(sources, 2);
    match (launcher, mods) {
        (Some(Origin::FromCommit(_)), Some(Origin::FromCommit(_))) => match rpc {
            Some(Origin::Path(_)) => false,
            _ => true,
        },
        (Some(Origin::Path(_)), Some(Origin::Path(_))) => true,
        (Some(_), Some(_)) => false,
        _ => true,
    }
}

fn overlay_step(profile: &BootstrapProfile, os: Os) -> (r: BootstrapAction)
    requires
        overlay_supported(profile.sources@),
    ensures
        r@ == overlay_action(*profile, os),
{
    let launcher = find_piece(&profile.sources, 0);
    let mods = find_piece(&profile.sources, 1);
    let rpc = find_piece(&profile.sources, 2);
    match (launcher, mods) {
        (Some(Origin::FromCommit(l)), Some(Origin::FromCommit(m))) => {
            let info = NorthstarInstallInfo::new(m, l);
            match rpc {
                Some(Origin::FromCommit(r)) => BootstrapAction::InstallFromRevs(
                    info.with_discord_rpc(r),
                ),
                _ => BootstrapAction::InstallFromRevs(info),
            }
        },
        (Some(Origin::Path(l)), Some(Origin::Path(m))) => {
            if os == Os::Linux {
                let dir = join_on(os, profile.titanfall2_path.as_str(), profile.name.as_str());
                BootstrapAction::LinkLocalBuild(
                    make_local_links(l.as_str(), m.as_str(), dir.as_str()),
                )
            } else {
                BootstrapAction::Finish
            }
        },
        _ => BootstrapAction::MissingOverlaySources,
    }
}

fn latest_nightly_of(names: &Vec<String>) -> (r: String)
    ensures
        r@ == latest_nightly(string_views(names@)),
{
    proof {
        assert(string_views(names@) == name_views(names@));
        crate::releases::lemma_first_index(
            string_views(names@),
            |n: Seq<char>| contains_seq(n, "northstar-nightly"@),
        );
    }
    match find_containing(names, "northstar-nightly") {
        Some(i) => {
            assert(string_views(names@)[i as int] == names@[i as int]@);
            names[i].clone()
        },
        None => String::new(),
    }
}

/// One step of bootstrapping (see `bootstrap_next`).
pub fn bootstrap_step(
    profile: &BootstrapProfile,
    check: Check,
    os: Os,
    state: BootstrapState,
    event: BootstrapEvent,
) -> (r: (BootstrapState, BootstrapAction))
    requires
        event_fits(state@, event@),
        state is Start && check != Check::Skip && check != Check::Check
            && profile.flavor is Overlayed ==> overlay_supported(profile.sources@),
    ensures
        (r.0@, r.1@) == bootstrap_next(*profile, check, os, state@, event@),
{
    proof {
        reveal_strlit("R2Northstar");
        reveal_strlit("Northstar");
        reveal_strlit("r2ion");
        reveal_strlit("Ion");
    }
    match state {
        BootstrapState::Start => {
            if check == Check::Skip {
                return (BootstrapState::Done, BootstrapAction::Finish);
            }
            match &profile.flavor {
                NorthstarSource::Version(v) => (
                    BootstrapState::AwaitInstalled {
                        skip_if_installed: check == Check::Force,
                        download: DownloadKind::Version(clone_semver(v)),
                    },
                    BootstrapAction::CheckInstalled(v.to_text()),
                ),
                NorthstarSource::Stable => (
                    BootstrapState::AwaitLatest { download: DownloadKind::Latest },
                    BootstrapAction::FetchLatestVersion(
                        String::from_str("R2Northstar"),
                        String::from_str("Northstar"),
                    ),
                ),
                NorthstarSource::Ion => (
                    BootstrapState::AwaitLatest { download: DownloadKind::Ion },
                    BootstrapAction::FetchLatestVersion(
                        String::from_str("r2ion"),
                        String::from_str("Ion"),
                    ),
                ),
                NorthstarSource::Nightly => (
                    BootstrapState::AwaitProfileDir,
                    BootstrapAction::CheckProfileDir(
                        join_on(os, profile.titanfall2_path.as_str(), profile.name.as_str()),
                    ),
                ),
                NorthstarSource::Overlayed => {
                    if check == Check::Check {
                        (BootstrapState::Done, BootstrapAction::Finish)
                    } else {
                        (BootstrapState::Done, overlay_step(profile, os))
                    }
                },
            }
        },
        BootstrapState::AwaitInstalled { skip_if_installed, download } => {
            match event {
                BootstrapEvent::Installed(installed) => {
                    if installed && skip_if_installed {
                        (BootstrapState::Done, BootstrapAction::Finish)
                    } else {
                        (BootstrapState::Done, BootstrapAction::Download(download))
                    }
                },
                _ => (BootstrapState::Done, BootstrapAction::Download(download)),
            }
        },
        BootstrapState::AwaitLatest { download } => {
            match event {
                BootstrapEvent::LatestVersion(Some(v)) => (
                    BootstrapState::AwaitInstalled { skip_if_installed: true, download },
                    BootstrapAction::CheckInstalled(v),
                ),
                _ => (BootstrapState::Done, BootstrapAction::Finish),
            }
        },
        BootstrapState::AwaitProfileDir => {
            match event {
                BootstrapEvent::ProfileDir(true) => {
                    let dir = join_on(os, profile.titanfall2_path.as_str(), profile.name.as_str());
                    (
                        BootstrapState::AwaitNightlyVersion,
                        BootstrapAction::ReadNightlyVersion(join_on(os, dir.as_str(), "nightly-ver")),
                    )
                },
                _ => (BootstrapState::Done, BootstrapAction::Download(DownloadKind::Nightly)),
            }
        },
        BootstrapState::AwaitNightlyVersion => {
            match event {
                BootstrapEvent::NightlyVersion(Some(v)) => (
                    BootstrapState::AwaitNightlyAssets { current: v },
                    BootstrapAction::FetchNightlyAssets,
                ),
                _ => (BootstrapState::Done, BootstrapAction::Finish),
            }
        },
        BootstrapState::AwaitNightlyAssets { current } => {
            match event {
                BootstrapEvent::NightlyAssets(names) => {
                    let latest = latest_nightly_of(&names);
                    if eq(current.as_str(), latest.as_str()) {
                        (BootstrapState::Done, BootstrapAction::Finish)
                    } else {
                        (BootstrapState::AwaitWritten, BootstrapAction::WriteNightlyVersion(latest))
                    }
                },
                _ => (BootstrapState::Done, BootstrapAction::Finish),
            }
        },
        BootstrapState::AwaitWritten => (
            BootstrapState::Done,
            BootstrapAction::Download(DownloadKind::Nightly),
        ),
        BootstrapState::Done => (BootstrapState::Done, BootstrapAction::Finish),
    }
}


/// The first launcher source of `sources` is at `i` and is the commit `l`.
pub open spec fn launcher_commit_at(sources: Seq<ProfileSource>, i: int, l: Seq<char>) -> bool {
    &&& 0 <= i < sources.len()
    &&& sources[i] matches ProfileSource::Launcher(Origin::FromCommit(c)) && c@ == l
    &&& forall|k: int| 0 <= k < i ==> !(#[trigger] sources[k] is Launcher)
}

/// The first core-mods source of `sources` is at `j` and is the commit `m`.
pub open spec fn mods_commit_at(sources: Seq<ProfileSource>, j: int, m: Seq<char>) -> bool {
    &&& 0 <= j < sources.len()
    &&& sources[j] matches ProfileSource::CoreMods(Origin::FromCommit(c)) && c@ == m
    &&& forall|k: int| 0 <= k < j ==> !(#[trigger] sources[k] is CoreMods)
}

proof fn lemma_commit_sources_found(sources: Seq<ProfileSource>, i: int, l: Seq<char>, j: int, m: Seq<char>)
    requires
        launcher_commit_at(sources, i, l),
        mods_commit_at(sources, j, m),
    ensures
        first_launcher(sources) == Some(OriginView::FromCommit(l)),
        first_core_mods(sources) == Some(OriginView::FromCommit(m)),
{
    assert forall|k: int| 0 <= k < i implies provides(#[trigger] sources[k], 0) is None by {
        assert(!(sources[k] is Launcher));
    }
    assert forall|k: int| 0 <= k < j implies provides(#[trigger] sources[k], 1) is None by {
        assert(!(sources[k] is CoreMods));
    }
    lemma_first_piece_step(sources, 0, i);
    lemma_first_piece_step(sources, 1, j);
}

/// A forced bootstrap of an overlaid profile whose first launcher source and
/// first core-mods source are commits, and which names no Discord RPC
/// plugin, builds Northstar from those commits: the core mods from the
/// core-mods commit, the launcher from the launcher commit, and no Discord
/// RPC commit. Whatever action stands for that step carries them so.
pub proof fn lemma_overlay_commits_install_without_rpc(
    profile: BootstrapProfile,
    os: Os,
    event: EventView,
    i: int,
    l: Seq<char>,
    j: int,
    m: Seq<char>,
    action: BootstrapAction,
)
    requires
        profile.flavor is Overlayed,
        launcher_commit_at(profile.sources@, i, l),
        mods_commit_at(profile.sources@, j, m),
        forall|k: int| 0 <= k < profile.sources@.len() ==> !(#[trigger] profile.sources@[k] is DiscordRPC),
        action@ == bootstrap_next(profile, Check::Force, os, StateView::Start, event).1,
    ensures
        bootstrap_next(profile, Check::Force, os, StateView::Start, event).0 is Done,
        action matches BootstrapAction::InstallFromRevs(info) && info.mods_sha@ == m
            && info.launcher_sha@ == l && info.rpc_sha is None,
{
    let x = profile.sources@;
    lemma_commit_sources_found(x, i, l, j, m);
    assert forall|k: int| 0 <= k < x.len() implies provides(#[trigger] x[k], 2) is None by {
        assert(!(x[k] is DiscordRPC));
    }
    lemma_no_piece(x, 2);
    assert(first_discord_rpc(x) is None);
}

/// A forced bootstrap of an overlaid profile whose first launcher, core-mods
/// and Discord RPC sources are commits builds Northstar from exactly those
/// commits, each in its own place.
pub proof fn lemma_overlay_commits_install_with_rpc(
    profile: BootstrapProfile,
    os: Os,
    event: EventView,
    i: int,
    l: Seq<char>,
    j: int,
    m: Seq<char>,
    q: int,
    r: Seq<char>,
    action: BootstrapAction,
)
    requires
        profile.flavor is Overlayed,
        launcher_commit_at(profile.sources@, i, l),
        mods_commit_at(profile.sources@, j, m),
        0 <= q < profile.sources@.len(),
        profile.sources@[q] matches ProfileSource::DiscordRPC(Origin::FromCommit(c)) && c@ == r,
        forall|k: int| 0 <= k < q ==> !(#[trigger] profile.sources@[k] is DiscordRPC),
        action@ == bootstrap_next(profile, Check::Force, os, StateView::Start, event).1,
    ensures
        bootstrap_next(profile, Check::Force, os, StateView::Start, event).0 is Done,
        action matches BootstrapAction::InstallFromRevs(info) && info.mods_sha@ == m
            && info.launcher_sha@ == l && crate::revs::opt_view(info.rpc_sha) == Some(r),
{
    let x = profile.sources@;
    lemma_commit_sources_found(x, i, l, j, m);
    assert forall|k: int| 0 <= k < q implies provides(#[trigger] x[k], 2) is None by {
        assert(!(x[k] is DiscordRPC));
    }
    lemma_first_piece_step(x, 2, q);
    assert(first_discord_rpc(x) == Some(OriginView::FromCommit(r)));
}

} // verus!
