//! Turning the evaluated Nix configuration into the launcher's
//! configuration.
use vstd::prelude::*;
use crate::nix::{attr_names, lemma_attr_index_step, select, select_spec, NixKind, NixValue};
use crate::settings::{
    profile_view, semver_view, Config, FlavorView, LaunchMethod, NorthstarSource, ProfileConfig,
    SemVer,
};
use crate::text::{eq, string_views};

verus! {

/// Why the configuration could not be read.
#[derive(Debug, Clone, Copy, PartialEq, Eq, Structural)]
pub enum ConfigError {
    /// No `titanfall2-path` is configured.
    NoTitanfallPath,
    /// A `titanfall2-path` is not a path.
    BadTitanfallPath,
    /// `profiles` is not a list.
    ProfilesNotList,
    /// `profiles` holds something other than attribute sets.
    ProfilesNotAttrs,
    /// `profiles` is not empty (profiles are not read from the configuration
    /// yet).
    ProfilesNotEmpty,
    /// A profile has no `name`.
    MissingName,
    /// A profile has no `flavor`.
    MissingFlavor,
    /// A profile's `flavor` is not an attribute set.
    FlavorNotAttrs,
    /// A `version` flavour has no version, or one that is not a version.
    BadVersion,
    /// A flavour of unknown type.
    BadFlavor,
    /// A profile's `sources` is not a list.
    SourcesNotList,
    /// A profile's `sources` holds something other than strings.
    SourcesNotStrings,
    /// `launch-args` is not a list.
    LaunchArgsNotList,
    /// `launch-args` holds something other than strings.
    LaunchArgsNotStrings,
}

/// Lower-case text as `str::to_lowercase` gives it.
pub uninterp spec fn lowercase(s: Seq<char>) -> Seq<char>;

/// `str::to_lowercase` of std: Unicode lower-casing of the whole text. Its
/// result is named `lowercase`; nothing more is stated of it.
#[verifier::external_body]
fn to_lowercase(s: &str) -> (r: String)
    ensures
        r@ == lowercase(s@),
{
    s.to_lowercase()
}

/// What `semver::Version::parse` gives for a text: the version's numbers,
/// pre-release and build metadata, or nothing when the text is no version.
pub uninterp spec fn semver_parsed(text: Seq<char>) -> Option<(u64, u64, u64, Seq<char>, Seq<char>)>;

/// `semver::Version::from_str` (via `str::parse`), with the version's parts
/// copied out. Its result is named `semver_parsed`.
#[verifier::external_body]
fn parse_semver(text: &str) -> (r: Option<SemVer>)
    ensures
        r matches Some(v) ==> semver_parsed(text@) == Some(semver_view(v)),
        r is None ==> semver_parsed(text@) is None,
{
    text.parse::<semver::Version>().ok().map(
        |v| SemVer {
            major: v.major,
            minor: v.minor,
            patch: v.patch,
            pre: v.pre.as_str().to_string(),
            build: v.build.as_str().to_string(),
        },
    )
}

/// The contents of a list of strings, or nothing when an item is not a
/// string.
pub open spec fn list_strings(items: Seq<NixValue>) -> Option<Seq<Seq<char>>>
    decreases items.len(),
{
    if items.len() == 0 {
        Some(Seq::empty())
    } else {
        match list_strings(items.drop_last()) {
            Some(p) => match items.last().kind {
                NixKind::Str(s) => Some(p.push(s@)),
                _ => None,
            },
            None => None,
        }
    }
}

/// A list-of-strings attribute: empty when absent; `not_list` when it is
/// not a list; `not_strings` when an item is not a string.
pub open spec fn string_list_attr(
    attrs: Seq<(String, NixValue)>,
    key: Seq<char>,
    not_list: ConfigError,
    not_strings: ConfigError,
) -> Result<Seq<Seq<char>>, ConfigError> {
    match select_spec(attrs, key) {
        None => Ok(Seq::empty()),
        Some(v) => match v.kind {
            NixKind::List(items) => match list_strings(items@) {
                Some(s) => Ok(s),
                None => Err(not_strings),
            },
            _ => Err(not_list),
        },
    }
}

fn string_list(
    attrs: &Vec<(String, NixValue)>,
    key: &str,
    not_list: ConfigError,
    not_strings: ConfigError,
) -> (r: Result<Vec<String>, ConfigError>)
    ensures
        r matches Ok(v) ==> string_list_attr(attrs@, key@, not_list, not_strings) == Ok::<
            Seq<Seq<char>>,
            ConfigError,
        >(string_views(v@)),
        r matches Err(e) ==> string_list_attr(attrs@, key@, not_list, not_strings) == Err::<
            Seq<Seq<char>>,
            ConfigError,
        >(e),
{
    match select(attrs, key) {
        None => {
            let out: Vec<String> = Vec::new();
            assert(string_views(out@) =~= Seq::<Seq<char>>::empty());
            Ok(out)
        },
        Some(v) => match &v.kind {
            NixKind::List(items) => {
                let mut out: Vec<String> = Vec::new();
                let mut i: usize = 0;
                while i < items.len()
                    invariant
                        i <= items.len(),
                        select_spec(attrs@, key@) == Some(*v),
                        v.kind == NixKind::List(*items),
                        list_strings(items@.take(i as int)) == Some(string_views(out@)),
                    decreases items.len() - i,
                {
                    proof {
                        assert(items@.take(i + 1).drop_last() =~= items@.take(i as int));
                        assert(items@.take(i + 1).last() == items@[i as int]);
                    }
                    match &items[i].kind {
                        NixKind::Str(s) => {
                            let ghost before = out@;
                            out.push(s.clone());
                            assert(string_views(out@) =~= string_views(before).push(s@));
                        },
                        _ => {
                            proof {
                                lemma_list_strings_none_extends(items@, i as int + 1);
                            }
                            return Err(not_strings);
                        },
                    }
                    i = i + 1;
                }
                assert(items@.take(i as int) =~= items@);
                Ok(out)
            },
            _ => Err(not_list),
        },
    }
}

proof fn lemma_list_strings_none_extends(items: Seq<NixValue>, i: int)
    requires
        0 <= i <= items.len(),
        list_strings(items.take(i)) is None,
    ensures
        list_strings(items) is None,
    decreases items.len() - i,
{
    if i < items.len() {
        assert(items.take(i + 1).drop_last() =~= items.take(i));
        lemma_list_strings_none_extends(items, i + 1);
    } else {
        assert(items.take(i) =~= items);
    }
}

/// The `titanfall2-path` attribute: nothing when absent, an error when it is
/// not a path.
pub open spec fn titanfall_path_attr(attrs: Seq<(String, NixValue)>) -> Option<
    Result<Seq<char>, ConfigError>,
> {
    match select_spec(attrs, "titanfall2-path"@) {
        None => None,
        Some(v) => match v.kind {
            NixKind::Path(p) => Some(Ok(p@)),
            _ => Some(Err(ConfigError::BadTitanfallPath)),
        },
    }
}

/// Reads the `titanfall2-path` attribute (see `titanfall_path_attr`).
pub fn evaluate_titanfall2_path(attrs: &Vec<(String, NixValue)>) -> (r: Option<
    Result<String, ConfigError>,
>)
    ensures
        r matches Some(Ok(p)) ==> titanfall_path_attr(attrs@) == Some(
            Ok::<Seq<char>, ConfigError>(p@),
        ),
        r matches Some(Err(e)) ==> titanfall_path_attr(attrs@) == Some(
            Err::<Seq<char>, ConfigError>(e),
        ),
        r is None ==> titanfall_path_attr(attrs@) is None,
{
    match select(attrs, "titanfall2-path") {
        None => None,
        Some(v) => match &v.kind {
            NixKind::Path(p) => Some(Ok(p.clone())),
            _ => Some(Err(ConfigError::BadTitanfallPath)),
        },
    }
}

/// The launch method a lower-cased name stands for; unknown names stand for
/// `Any`.
pub open spec fn method_named(name: Seq<char>) -> LaunchMethod {
    if name == "any"@ {
        LaunchMethod::Any
    } else if name == "steam"@ {
        LaunchMethod::Steam
    } else if name == "wine"@ {
        LaunchMethod::Wine
    } else if name == "direct"@ {
        LaunchMethod::Direct
    } else {
        LaunchMethod::Any
    }
}

/// The `launch-method` attribute: the method its lower-cased display names,
/// `Any` when absent.
pub open spec fn launch_method_attr(attrs: Seq<(String, NixValue)>) -> LaunchMethod {
    match select_spec(attrs, "launch-method"@) {
        None => LaunchMethod::Any,
        Some(v) => method_named(lowercase(v.shown@)),
    }
}

/// Reads the `launch-method` attribute (see `launch_method_attr`).
pub fn evaluate_launch_method(attrs: &Vec<(String, NixValue)>) -> (r: LaunchMethod)
    ensures
        r == launch_method_attr(attrs@),
{
    match select(attrs, "launch-method") {
        None => LaunchMethod::Any,
        Some(v) => {
            let name = to_lowercase(v.shown.as_str());
            let n = name.as_str();
            if eq(n, "any") {
                LaunchMethod::Any
            } else if eq(n, "steam") {
                LaunchMethod::Steam
            } else if eq(n, "wine") {
                LaunchMethod::Wine
            } else if eq(n, "direct") {
                LaunchMethod::Direct
            } else {
                LaunchMethod::Any
            }
        },
    }
}

/// The `flavor` attribute of a profile: an attribute set whose `_type`,
/// displayed and lower-cased, names the flavour; a `version` flavour also
/// carries a `version` whose lower-cased display parses as a version.
pub open spec fn flavor_attr(attrs: Seq<(String, NixValue)>) -> Result<FlavorView, ConfigError> {
    match select_spec(attrs, "flavor"@) {
        None => Err(ConfigError::MissingFlavor),
        Some(f) => match f.kind {
            NixKind::Attrs(fa) => match select_spec(fa@, "_type"@) {
                Some(t) => {
                    let ty = lowercase(t.shown@);
                    if ty == "version"@ {
                        match select_spec(fa@, "version"@) {
                            Some(v) => match semver_parsed(lowercase(v.shown@)) {
                                Some(parsed) => Ok(FlavorView::Version(parsed)),
                                None => Err(ConfigError::BadVersion),
                            },
                            None => Err(ConfigError::BadVersion),
                        }
                    } else if ty == "stable"@ {
                        Ok(FlavorView::Stable)
                    } else if ty == "nightly"@ {
                        Ok(FlavorView::Nightly)
                    } else if ty == "ion"@ {
                        Ok(FlavorView::Ion)
                    } else if ty == "overlayed"@ {
                        Ok(FlavorView::Overlayed)
                    } else {
                        Err(ConfigError::BadFlavor)
                    }
                },
                None => Err(ConfigError::BadFlavor),
            },
            _ => Err(ConfigError::FlavorNotAttrs),
        },
    }
}

/// Reads the `flavor` attribute of a profile (see `flavor_attr`).
pub fn evaluate_flavor(attrs: &Vec<(String, NixValue)>) -> (r: Result<NorthstarSource, ConfigError>)
    ensures
        r matches Ok(f) ==> flavor_attr(attrs@) == Ok::<FlavorView, ConfigError>(f@),
        r matches Err(e) ==> flavor_attr(attrs@) == Err::<FlavorView, ConfigError>(e),
{
    let f = match select(attrs, "flavor") {
        None => return Err(ConfigError::MissingFlavor),
        Some(f) => f,
    };
    let fa = match &f.kind {
        NixKind::Attrs(fa) => fa,
        _ => return Err(ConfigError::FlavorNotAttrs),
    };
    let t = match select(fa, "_type") {
        None => return Err(ConfigError::BadFlavor),
        Some(t) => t,
    };
    let ty = to_lowercase(t.shown.as_str());
    let ty = ty.as_str();
    if eq(ty, "version") {
        match select(fa, "version") {
            None => Err(ConfigError::BadVersion),
            Some(v) => {
                let text = to_lowercase(v.shown.as_str());
                match parse_semver(text.as_str()) {
                    Some(parsed) => Ok(NorthstarSource::Version(parsed)),
                    None => Err(ConfigError::BadVersion),
                }
            },
        }
    } else if eq(ty, "stable") {
        Ok(NorthstarSource::Stable)
    } else if eq(ty, "nightly") {
        Ok(NorthstarSource::Nightly)
    } else if eq(ty, "ion") {
        Ok(NorthstarSource::Ion)
    } else if eq(ty, "overlayed") {
        Ok(NorthstarSource::Overlayed)
    } else {
        Err(ConfigError::BadFlavor)
    }
}

/// Reads the `sources` attribute of a profile: source names.
pub fn evaluate_sources_ref(attrs: &Vec<(String, NixValue)>) -> (r: Result<Vec<String>, ConfigError>)
    ensures
        r matches Ok(v) ==> string_list_attr(
            attrs@,
            "sources"@,
            ConfigError::SourcesNotList,
            ConfigError::SourcesNotStrings,
        ) == Ok::<Seq<Seq<char>>, ConfigError>(string_views(v@)),
        r matches Err(e) ==> string_list_attr(
            attrs@,
            "sources"@,
            ConfigError::SourcesNotList,
            ConfigError::SourcesNotStrings,
        ) == Err::<Seq<Seq<char>>, ConfigError>(e),
{
    string_list(attrs, "sources", ConfigError::SourcesNotList, ConfigError::SourcesNotStrings)
}

/// Reads the `launch-args` attribute: the arguments the game gets.
pub fn evaluate_launch_args(attrs: &Vec<(String, NixValue)>) -> (r: Result<Vec<String>, ConfigError>)
    ensures
        r matches Ok(v) ==> string_list_attr(
            attrs@,
            "launch-args"@,
            ConfigError::LaunchArgsNotList,
            ConfigError::LaunchArgsNotStrings,
        ) == Ok::<Seq<Seq<char>>, ConfigError>(string_views(v@)),
        r matches Err(e) ==> string_list_attr(
            attrs@,
            "launch-args"@,
            ConfigError::LaunchArgsNotList,
            ConfigError::LaunchArgsNotStrings,
        ) == Err::<Seq<Seq<char>>, ConfigError>(e),
{
    string_list(attrs, "launch-args", ConfigError::LaunchArgsNotList, ConfigError::LaunchArgsNotStrings)
}


/// The `ignore-global-launch-args` attribute: its value when it is a
/// boolean, otherwise false.
pub open spec fn ignore_global_attr(attrs: Seq<(String, NixValue)>) -> bool {
    match select_spec(attrs, "ignore-global-launch-args"@) {
        Some(v) => match v.kind {
            NixKind::Bool(b) => b,
            _ => false,
        },
        None => false,
    }
}

/// The plain values of a profile (see `profile_view`).
pub type ProfileView = (
    Seq<char>,
    Seq<char>,
    FlavorView,
    Seq<Seq<char>>,
    Seq<Seq<char>>,
    bool,
    LaunchMethod,
);

/// One profile of the configuration: its `name` as displayed (required);
/// its own Titanfall 2 path, or the global one when it has none; its
/// flavour; its source names; its launch arguments; whether it ignores the
/// global launch arguments; its launch method. The first problem met, in
/// that order, is the error.
pub open spec fn profile_attr(attrs: Seq<(String, NixValue)>, global: Seq<char>) -> Result<
    ProfileView,
    ConfigError,
> {
    match select_spec(attrs, "name"@) {
        None => Err(ConfigError::MissingName),
        Some(n) => {
            let path = match titanfall_path_attr(attrs) {
                None => Ok(global),
                Some(r) => r,
            };
            match path {
                Err(e) => Err(e),
                Ok(p) => match flavor_attr(attrs) {
                    Err(e) => Err(e),
                    Ok(f) => match string_list_attr(
                        attrs,
                        "sources"@,
                        ConfigError::SourcesNotList,
                        ConfigError::SourcesNotStrings,
                    ) {
                        Err(e) => Err(e),
                        Ok(src) => match string_list_attr(
                            attrs,
                            "launch-args"@,
                            ConfigError::LaunchArgsNotList,
                            ConfigError::LaunchArgsNotStrings,
                        ) {
                            Err(e) => Err(e),
                            Ok(args) => Ok(
                                (
                                    n.shown@,
                                    p,
                                    f,
                                    src,
                                    args,
                                    ignore_global_attr(attrs),
                                    launch_method_attr(attrs),
                                ),
                            ),
                        },
                    },
                },
            }
        },
    }
}

/// Reads one profile of the configuration (see `profile_attr`).
pub fn evaluate_profile(attrs: &Vec<(String, NixValue)>, global: &str) -> (r: Result<
    ProfileConfig,
    ConfigError,
>)
    ensures
        r matches Ok(p) ==> profile_attr(attrs@, global@) == Ok::<ProfileView, ConfigError>(
            profile_view(p),
        ),
        r matches Err(e) ==> profile_attr(attrs@, global@) == Err::<ProfileView, ConfigError>(e),
{
    let name = match select(attrs, "name") {
        None => return Err(ConfigError::MissingName),
        Some(n) => n.shown.clone(),
    };
    let titanfall2_path = match evaluate_titanfall2_path(attrs) {
        None => String::from_str(global),
        Some(Ok(p)) => p,
        Some(Err(e)) => return Err(e),
    };
    let flavor = match evaluate_flavor(attrs) {
        Ok(f) => f,
        Err(e) => return Err(e),
    };
    let sources = match evaluate_sources_ref(attrs) {
        Ok(s) => s,
        Err(e) => return Err(e),
    };
    let launch_args = match evaluate_launch_args(attrs) {
        Ok(a) => a,
        Err(e) => return Err(e),
    };
    let ignore_global_launch_args = match select(attrs, "ignore-global-launch-args") {
        Some(v) => match &v.kind {
            NixKind::Bool(b) => *b,
            _ => false,
        },
        None => false,
    };
    let launch_method = evaluate_launch_method(attrs);
    Ok(
        ProfileConfig {
            name,
            titanfall2_path,
            flavor,
            sources,
            launch_args,
            ignore_global_launch_args,
            launch_method,
        },
    )
}

/// Every item is an attribute set.
pub open spec fn all_attrs(items: Seq<NixValue>) -> bool {
    forall|i: int| 0 <= i < items.len() ==> (#[trigger] items[i]).kind is Attrs
}

/// The `profiles` attribute: no profiles when absent; an error when it is
/// not a list, or holds something other than attribute sets, or is not
/// empty. (Profiles are not read from the configuration yet: a non-empty
/// list is refused.)
pub open spec fn profiles_attr(attrs: Seq<(String, NixValue)>) -> Result<Seq<ProfileView>, ConfigError> {
    match select_spec(attrs, "profiles"@) {
        None => Ok(Seq::empty()),
        Some(v) => match v.kind {
            NixKind::List(items) => if !all_attrs(items@) {
                Err(ConfigError::ProfilesNotAttrs)
            } else if items@.len() != 0 {
                Err(ConfigError::ProfilesNotEmpty)
            } else {
                Ok(Seq::empty())
            },
            _ => Err(ConfigError::ProfilesNotList),
        },
    }
}

/// The plain values of a list of profiles.
pub open spec fn profile_views(v: Seq<ProfileConfig>) -> Seq<ProfileView> {
    v.map_values(|p: ProfileConfig| profile_view(p))
}

/// Reads the `profiles` attribute (see `profiles_attr`); `global` is the
/// Titanfall 2 path of profiles that name none.
pub fn evaluate_profiles(attrs: &Vec<(String, NixValue)>, global: &str) -> (r: Result<
    Vec<ProfileConfig>,
    ConfigError,
>)
    ensures
        r matches Ok(v) ==> profiles_attr(attrs@) == Ok::<Seq<ProfileView>, ConfigError>(
            profile_views(v@),
        ),
        r matches Err(e) ==> profiles_attr(attrs@) == Err::<Seq<ProfileView>, ConfigError>(e),
{
    let mut acc: Vec<ProfileConfig> = Vec::new();
    let v = match select(attrs, "profiles") {
        None => {
            assert(profile_views(acc@) =~= Seq::<ProfileView>::empty());
            return Ok(acc);
        },
        Some(v) => v,
    };
    let items = match &v.kind {
        NixKind::List(items) => items,
        _ => return Err(ConfigError::ProfilesNotList),
    };
    let mut i: usize = 0;
    while i < items.len()
        invariant
            i <= items.len(),
            select_spec(attrs@, "profiles"@) == Some(*v),
            v.kind == NixKind::List(*items),
            forall|k: int| 0 <= k < i ==> (#[trigger] items@[k]).kind is Attrs,
        decreases items.len() - i,
    {
        match &items[i].kind {
            NixKind::Attrs(_) => {},
            _ => return Err(ConfigError::ProfilesNotAttrs),
        }
        i = i + 1;
    }
    if items.len() != 0 {
        return Err(ConfigError::ProfilesNotEmpty);
    }
    let mut k: usize = 0;
    while k < items.len()
        invariant
            items@.len() == 0,
            acc@.len() == 0,
        decreases items.len() - k,
    {
        match &items[k].kind {
            NixKind::Attrs(profile) => {
                match evaluate_profile(profile, global) {
                    Ok(p) => acc.push(p),
                    Err(e) => return Err(e),
                }
            },
            _ => {},
        }
        k = k + 1;
    }
    assert(profile_views(acc@) =~= Seq::<ProfileView>::empty());
    Ok(acc)
}

/// The plain values of a configuration: Titanfall 2 path, profiles, launch
/// arguments, preferred launch method.
pub type ConfigView = (Seq<char>, Seq<ProfileView>, Seq<Seq<char>>, LaunchMethod);

/// The plain values of a configuration (see `ConfigView`).
pub open spec fn config_view(c: Config) -> ConfigView {
    (c.titanfall2@, profile_views(c.profiles@), string_views(c.launch_args@), c.preferred_launch)
}

/// The whole configuration: a Titanfall 2 path is required; then the
/// profiles, the launch arguments and the preferred launch method. The
/// first problem met, in that order, is the error.
pub open spec fn config_attr(attrs: Seq<(String, NixValue)>) -> Result<ConfigView, ConfigError> {
    match titanfall_path_attr(attrs) {
        None => Err(ConfigError::NoTitanfallPath),
        Some(Err(e)) => Err(e),
        Some(Ok(p)) => match profiles_attr(attrs) {
            Err(e) => Err(e),
            Ok(ps) => match string_list_attr(
                attrs,
                "launch-args"@,
                ConfigError::LaunchArgsNotList,
                ConfigError::LaunchArgsNotStrings,
            ) {
                Err(e) => Err(e),
                Ok(a) => Ok((p, ps, a, launch_method_attr(attrs))),
            },
        },
    }
}

/// Reads the launcher's configuration from the evaluated `config`
/// attribute set (see `config_attr`).
pub fn evaluate_config(attrs: &Vec<(String, NixValue)>) -> (r: Result<Config, ConfigError>)
    ensures
        r matches Ok(c) ==> config_attr(attrs@) == Ok::<ConfigView, ConfigError>(config_view(c)),
        r matches Err(e) ==> config_attr(attrs@) == Err::<ConfigView, ConfigError>(e),
{
    let titanfall2 = match evaluate_titanfall2_path(attrs) {
        None => return Err(ConfigError::NoTitanfallPath),
        Some(Err(e)) => return Err(e),
        Some(Ok(p)) => p,
    };
    let profiles = match evaluate_profiles(attrs, titanfall2.as_str()) {
        Ok(p) => p,
        Err(e) => return Err(e),
    };
    let launch_args = match evaluate_launch_args(attrs) {
        Ok(a) => a,
        Err(e) => return Err(e),
    };
    let preferred_launch = evaluate_launch_method(attrs);
    Ok(Config { titanfall2, profiles, launch_args, preferred_launch })
}

/// Profiles are not read from the configuration yet: whenever the
/// configuration is read, it has no profiles.
pub proof fn lemma_config_has_no_profiles(attrs: Seq<(String, NixValue)>)
    ensures
        config_attr(attrs) matches Ok(c) ==> c.1.len() == 0,
{
}


/// A profile read from the configuration ignores the global launch
/// arguments only when its `ignore-global-launch-args` attribute (the first
/// one of that name) is the boolean `true`: a profile with no such
/// attribute, or with one that is not a boolean, is read as not ignoring
/// them.
pub proof fn lemma_ignore_global_only_when_true(
    attrs: Seq<(String, NixValue)>,
    global: Seq<char>,
    p: ProfileConfig,
)
    requires
        profile_attr(attrs, global) == Ok::<ProfileView, ConfigError>(profile_view(p)),
    ensures
        p.ignore_global_launch_args <==> (select_spec(attrs, "ignore-global-launch-args"@) matches Some(
            v,
        ) && v.kind == NixKind::Bool(true)),
        (forall|k: int| 0 <= k < attrs.len() ==> (#[trigger] attrs[k]).0@ != "ignore-global-launch-args"@)
            ==> !p.ignore_global_launch_args,
{
    if forall|k: int| 0 <= k < attrs.len() ==> (#[trigger] attrs[k]).0@ != "ignore-global-launch-args"@ {
        let names = attr_names(attrs);
        assert forall|k: int| 0 <= k < names.len() implies names[k] != "ignore-global-launch-args"@ by {
            assert(names[k] == attrs[k].0@);
        }
        lemma_attr_index_step(names, "ignore-global-launch-args"@, names.len() as int);
    }
}

} // verus!
