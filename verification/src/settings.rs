//! The launcher's configuration: profiles, the Northstar flavour each one
//! runs, and how the game is started.
use vstd::prelude::*;
use crate::decimal::{decimal, u64_to_decimal};

verus! {

/// How the game is started.
#[derive(Debug, Clone, Copy, PartialEq, Eq, Structural, Hash, PartialOrd, Ord)]
pub enum LaunchMethod {
    Any,
    Steam,
    Wine,
    Direct,
}

impl Default for LaunchMethod {
    fn default() -> (r: Self)
        ensures
            r == LaunchMethod::Any,
    {
        LaunchMethod::Any
    }
}

/// A semantic version: `major.minor.patch`, with optional pre-release and
/// build-metadata text (empty when absent).
#[derive(Debug, Clone)]
pub struct SemVer {
    pub major: u64,
    pub minor: u64,
    pub patch: u64,
    pub pre: String,
    pub build: String,
}

/// The plain values of a version.
pub open spec fn semver_view(v: SemVer) -> (u64, u64, u64, Seq<char>, Seq<char>) {
    (v.major, v.minor, v.patch, v.pre@, v.build@)
}

/// The text of a version: `major.minor.patch`, then `-pre` when there is a
/// pre-release part and `+build` when there is build metadata.
pub open spec fn semver_text(v: (u64, u64, u64, Seq<char>, Seq<char>)) -> Seq<char> {
    let core = decimal(v.0 as nat) + seq!['.'] + decimal(v.1 as nat) + seq!['.'] + decimal(
        v.2 as nat,
    );
    let with_pre = if v.3.len() > 0 {
        core + seq!['-'] + v.3
    } else {
        core
    };
    if v.4.len() > 0 {
        with_pre + seq!['+'] + v.4
    } else {
        with_pre
    }
}

impl SemVer {
    /// The text of this version (see `semver_text`).
    pub fn to_text(&self) -> (r: String)
        ensures
            r@ == semver_text(semver_view(*self)),
    {
        proof {
            reveal_strlit(".");
            reveal_strlit("-");
            reveal_strlit("+");
        }
        let mut s = u64_to_decimal(self.major);
        s.append(".");
        let minor = u64_to_decimal(self.minor);
        s.append(minor.as_str());
        s.append(".");
        let patch = u64_to_decimal(self.patch);
        s.append(patch.as_str());
        if self.pre.as_str().unicode_len() > 0 {
            s.append("-");
            s.append(self.pre.as_str());
        }
        if self.build.as_str().unicode_len() > 0 {
            s.append("+");
            s.append(self.build.as_str());
        }
        s
    }
}

/// Which Northstar build a profile runs.
#[derive(Debug, Clone)]
pub enum NorthstarSource {
    Version(SemVer),
    Stable,
    Nightly,
    Ion,
    Overlayed,
}

impl Default for NorthstarSource {
    fn default() -> (r: Self)
        ensures
            r is Stable,
    {
        NorthstarSource::Stable
    }
}

/// The plain value of a Northstar flavour.
pub enum FlavorView {
    Version((u64, u64, u64, Seq<char>, Seq<char>)),
    Stable,
    Nightly,
    Ion,
    Overlayed,
}

impl View for NorthstarSource {
    type V = FlavorView;

    open spec fn view(&self) -> FlavorView {
        match self {
            NorthstarSource::Version(v) => FlavorView::Version(semver_view(*v)),
            NorthstarSource::Stable => FlavorView::Stable,
            NorthstarSource::Nightly => FlavorView::Nightly,
            NorthstarSource::Ion => FlavorView::Ion,
            NorthstarSource::Overlayed => FlavorView::Overlayed,
        }
    }
}

/// The plain values of a profile: name, Titanfall 2 path, flavour, sources,
/// launch arguments, whether the global launch arguments are ignored, and
/// the launch method.
pub open spec fn profile_view(p: ProfileConfig) -> (
    Seq<char>,
    Seq<char>,
    FlavorView,
    Seq<Seq<char>>,
    Seq<Seq<char>>,
    bool,
    LaunchMethod,
) {
    (
        p.name@,
        p.titanfall2_path@,
        p.flavor@,
        crate::text::string_views(p.sources@),
        crate::text::string_views(p.launch_args@),
        p.ignore_global_launch_args,
        p.launch_method,
    )
}

/// One profile: a Northstar install inside a Titanfall 2 directory.
#[derive(Debug, Clone)]
pub struct ProfileConfig {
    pub name: String,
    pub titanfall2_path: String,
    pub flavor: NorthstarSource,
    pub sources: Vec<String>,
    pub launch_args: Vec<String>,
    pub ignore_global_launch_args: bool,
    pub launch_method: LaunchMethod,
}

impl Default for ProfileConfig {
    fn default() -> (r: Self)
        ensures
            r.name@.len() == 0,
            r.titanfall2_path@.len() == 0,
            r.flavor is Stable,
            r.sources@.len() == 0,
            r.launch_args@.len() == 0,
            !r.ignore_global_launch_args,
            r.launch_method == LaunchMethod::Any,
    {
        ProfileConfig {
            name: String::new(),
            titanfall2_path: String::new(),
            flavor: NorthstarSource::Stable,
            sources: Vec::new(),
            launch_args: Vec::new(),
            ignore_global_launch_args: false,
            launch_method: LaunchMethod::Any,
        }
    }
}

/// The whole configuration.
#[derive(Debug, Clone)]
pub struct Config {
    pub titanfall2: String,
    pub profiles: Vec<ProfileConfig>,
    pub launch_args: Vec<String>,
    pub preferred_launch: LaunchMethod,
}

impl Default for Config {
    fn default() -> (r: Self)
        ensures
            r.titanfall2@.len() == 0,
            r.profiles@.len() == 0,
            r.launch_args@.len() == 0,
            r.preferred_launch == LaunchMethod::Any,
    {
        Config {
            titanfall2: String::new(),
            profiles: Vec::new(),
            launch_args: Vec::new(),
            preferred_launch: LaunchMethod::Any,
        }
    }
}

/// The position of the first profile called `name`.
pub open spec fn first_profile_named(profiles: Seq<ProfileConfig>, name: Seq<char>) -> Option<int>
    decreases profiles.len(),
{
    if profiles.len() == 0 {
        None
    } else if profiles[0].name@ == name {
        Some(0)
    } else {
        match first_profile_named(profiles.drop_first(), name) {
            Some(i) => Some(i + 1),
            None => None,
        }
    }
}

proof fn lemma_first_profile_named_step(profiles: Seq<ProfileConfig>, name: Seq<char>, i: int)
    requires
        0 <= i < profiles.len(),
        forall|k: int| 0 <= k < i ==> profiles[k].name@ != name,
    ensures
        profiles[i].name@ == name ==> first_profile_named(profiles, name) == Some(i),
        profiles[i].name@ != name ==> first_profile_named(profiles, name) == (
            match first_profile_named(profiles.skip(i + 1), name) {
                Some(j) => Some(j + i + 1),
                None => None,
            }
        ),
    decreases i,
{
    if i > 0 {
        lemma_first_profile_named_step(profiles.drop_first(), name, i - 1);
        assert(profiles.drop_first().skip(i) =~= profiles.skip(i + 1));
    } else {
        assert(profiles.skip(1) =~= profiles.drop_first());
    }
}

impl Config {
    /// The position of the first profile called `name`, if any.
    pub fn find_profile(&self, name: &str) -> (r: Option<usize>)
        ensures
            r matches Some(i) ==> first_profile_named(self.profiles@, name@) == Some(i as int),
            r is None ==> first_profile_named(self.profiles@, name@) is None,
    {
        let mut i: usize = 0;
        while i < self.profiles.len()
            invariant
                i <= self.profiles.len(),
                forall|k: int| 0 <= k < i ==> self.profiles@[k].name@ != name@,
            decreases self.profiles.len() - i,
        {
            proof {
                lemma_first_profile_named_step(self.profiles@, name@, i as int);
            }
            if crate::text::eq(self.profiles[i].name.as_str(), name) {
                return Some(i);
            }
            i = i + 1;
        }
        proof {
            lemma_no_profile_named(self.profiles@, name@);
        }
        None
    }

    /// The first profile called `name`, if any.
    pub fn get_profile(&self, name: &str) -> (r: Option<&ProfileConfig>)
        ensures
            r matches Some(p) ==> (first_profile_named(self.profiles@, name@) matches Some(i) && 0
                <= i < self.profiles@.len() && *p == self.profiles@[i]),
            r is None ==> first_profile_named(self.profiles@, name@) is None,
    {
        proof {
            lemma_first_profile_named_bound(self.profiles@, name@);
        }
        match self.find_profile(name) {
            Some(i) => Some(&self.profiles[i]),
            None => None,
        }
    }
}

proof fn lemma_first_profile_named_bound(profiles: Seq<ProfileConfig>, name: Seq<char>)
    ensures
        first_profile_named(profiles, name) matches Some(i) ==> 0 <= i < profiles.len()
            && profiles[i].name@ == name,
    decreases profiles.len(),
{
    if profiles.len() > 0 {
        lemma_first_profile_named_bound(profiles.drop_first(), name);
    }
}

proof fn lemma_no_profile_named(profiles: Seq<ProfileConfig>, name: Seq<char>)
    requires
        forall|k: int| 0 <= k < profiles.len() ==> profiles[k].name@ != name,
    ensures
        first_profile_named(profiles, name) is None,
    decreases profiles.len(),
{
    if profiles.len() > 0 {
        lemma_no_profile_named(profiles.drop_first(), name);
    }
}

/// The names of the profiles, in order; this is what the profiles screen
/// lists.
pub fn build_profile_cache(profiles: &Vec<ProfileConfig>) -> (r: Vec<String>)
    ensures
        r@.len() == profiles@.len(),
        forall|i: int| 0 <= i < r@.len() ==> #[trigger] r@[i]@ == profiles@[i].name@,
{
    let mut r: Vec<String> = Vec::new();
    let mut i: usize = 0;
    while i < profiles.len()
        invariant
            i <= profiles.len(),
            r@.len() == i,
            forall|k: int| 0 <= k < i ==> #[trigger] r@[k]@ == profiles@[k].name@,
        decreases profiles.len() - i,
    {
        r.push(profiles[i].name.clone());
        i = i + 1;
    }
    r
}

} // verus!
