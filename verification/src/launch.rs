//! Starting the game for a profile: which way it is started and with what
//! arguments.
use vstd::prelude::*;
use crate::bootstrap::Os;
use crate::decimal::{decimal, u64_to_decimal};
use crate::paths::{join_on, join_path_on};
use crate::settings::{first_profile_named, Config, LaunchMethod, ProfileConfig};
use crate::text::string_views;

verus! {

/// The way a profile is started: its own method, unless that is `Any`;
/// then Steam on Linux when Steam is preferred, Wine on Linux otherwise,
/// and the launcher itself elsewhere.
pub open spec fn resolved_method(profile: LaunchMethod, preferred: LaunchMethod, os: Os) -> LaunchMethod {
    if profile == LaunchMethod::Any {
        if os == Os::Linux && preferred == LaunchMethod::Steam {
            LaunchMethod::Steam
        } else if os == Os::Linux {
            LaunchMethod::Wine
        } else {
            LaunchMethod::Direct
        }
    } else {
        profile
    }
}

/// Resolves the way a profile is started (see `resolved_method`).
pub fn resolve_launch_method(profile: LaunchMethod, preferred: LaunchMethod, os: Os) -> (r:
    LaunchMethod)
    ensures
        r == resolved_method(profile, preferred, os),
        r != LaunchMethod::Any,
{
    if profile == LaunchMethod::Any {
        if os == Os::Linux && preferred == LaunchMethod::Steam {
            LaunchMethod::Steam
        } else if os == Os::Linux {
            LaunchMethod::Wine
        } else {
            LaunchMethod::Direct
        }
    } else {
        profile
    }
}

/// The arguments the game gets: those given, then `-profile=NAME`, then the
/// profile's own, then the global ones unless the profile ignores them.
pub open spec fn launch_arguments(given: Seq<Seq<char>>, profile: ProfileConfig, config: Config) -> Seq<
    Seq<char>,
> {
    let own = given.push("-profile="@ + profile.name@) + string_views(profile.launch_args@);
    if profile.ignore_global_launch_args {
        own
    } else {
        own + string_views(config.launch_args@)
    }
}

/// The arguments written one after the other, each followed by two spaces.
pub open spec fn spaced(args: Seq<Seq<char>>) -> Seq<char>
    decreases args.len(),
{
    if args.len() == 0 {
        Seq::empty()
    } else {
        spaced(args.drop_last()) + args.last() + seq![' ', ' ']
    }
}

/// The Steam URL that starts the game through Steam.
pub open spec fn steam_url(name: Seq<char>, args: Seq<Seq<char>>) -> Seq<char> {
    "steam://run/"@ + decimal(1237970) + "//-profile="@ + name + " --northstar "@ + spaced(args)
        + "/"@
}

/// The command line that starts the launcher directly.
pub open spec fn direct_command(exe: Seq<char>, name: Seq<char>, args: Seq<Seq<char>>) -> Seq<char> {
    exe + " -profile="@ + name + " --northstar "@ + spaced(args) + "/"@
}

/// How the game is started.
pub enum LaunchPlan {
    /// Open this target (a URL or a command line) detached, then wait for
    /// the game to exit.
    OpenAndWait(String),
    /// Run the launcher executable under Wine with these arguments.
    RunWine(String, Vec<String>),
}

/// Why the game could not be started.
#[derive(Debug, Clone, Copy, PartialEq, Eq, Structural)]
pub enum LaunchError {
    /// No profile has the given name.
    MissingProfile,
}

/// The plain value of a launch plan.
pub enum LaunchPlanView {
    OpenAndWait(Seq<char>),
    RunWine(Seq<char>, Seq<Seq<char>>),
}

impl View for LaunchPlan {
    type V = LaunchPlanView;

    open spec fn view(&self) -> LaunchPlanView {
        match self {
            LaunchPlan::OpenAndWait(t) => LaunchPlanView::OpenAndWait(t@),
            LaunchPlan::RunWine(e, a) => LaunchPlanView::RunWine(e@, string_views(a@)),
        }
    }
}

/// How the profile `profile` is started on `os`: through Steam with the
/// Steam URL; on Windows a direct start opens the launcher's command line;
/// otherwise the launcher runs under Wine.
pub open spec fn launch_plan(profile: ProfileConfig, config: Config, given: Seq<Seq<char>>, os: Os) -> LaunchPlanView {
    let args = launch_arguments(given, profile, config);
    let exe = join_path_on(os, profile.titanfall2_path@, "NorthstarLauncher.exe"@);
    match resolved_method(profile.launch_method, config.preferred_launch, os) {
        LaunchMethod::Steam => LaunchPlanView::OpenAndWait(steam_url(profile.name@, args)),
        LaunchMethod::Direct => if os == Os::Windows {
            LaunchPlanView::OpenAndWait(direct_command(exe, profile.name@, args))
        } else {
            LaunchPlanView::RunWine(exe, args)
        },
        _ => LaunchPlanView::RunWine(exe, args),
    }
}

fn push_all(v: &mut Vec<String>, extra: &Vec<String>)
    ensures
        string_views(final(v)@) == string_views(old(v)@) + string_views(extra@),
{
    let mut i: usize = 0;
    while i < extra.len()
        invariant
            i <= extra.len(),
            string_views(v@) == string_views(old(v)@) + string_views(extra@).take(i as int),
        decreases extra.len() - i,
    {
        let ghost before = v@;
        v.push(extra[i].clone());
        assert(string_views(v@) =~= string_views(before).push(extra@[i as int]@));
        assert(string_views(extra@).take(i + 1) =~= string_views(extra@).take(i as int).push(
            extra@[i as int]@,
        ));
        assert(string_views(old(v)@) + string_views(extra@).take(i + 1) =~= (string_views(old(v)@)
            + string_views(extra@).take(i as int)).push(extra@[i as int]@));
        i = i + 1;
    }
    assert(string_views(extra@).take(i as int) =~= string_views(extra@));
}

fn spaced_text(args: &Vec<String>) -> (r: String)
    ensures
        r@ == spaced(string_views(args@)),
{
    let mut r = String::new();
    let mut i: usize = 0;
    proof {
        reveal_strlit("  ");
    }
    while i < args.len()
        invariant
            i <= args.len(),
            r@ == spaced(string_views(args@).take(i as int)),
            "  "@ == seq![' ', ' '],
        decreases args.len() - i,
    {
        r.append(args[i].as_str());
        r.append("  ");
        assert(string_views(args@).take(i + 1).drop_last() =~= string_views(args@).take(i as int));
        i = i + 1;
    }
    assert(string_views(args@).take(i as int) =~= string_views(args@));
    r
}

/// Plans starting the game with profile `profile_name` and the given extra
/// arguments (see `launch_plan`); an unknown profile is an error.
pub fn plan_launch(config: &Config, profile_name: &str, given: Vec<String>, os: Os) -> (r: Result<
    LaunchPlan,
    LaunchError,
>)
    ensures
        r matches Err(e) ==> e == LaunchError::MissingProfile && first_profile_named(
            config.profiles@,
            profile_name@,
        ) is None,
        r matches Ok(plan) ==> (first_profile_named(config.profiles@, profile_name@) matches Some(i)
            && 0 <= i < config.profiles@.len() && plan@ == launch_plan(
            config.profiles@[i],
            *config,
            string_views(given@),
            os,
        )),
{
    let profile = match config.get_profile(profile_name) {
        Some(p) => p,
        None => return Err(LaunchError::MissingProfile),
    };
    let mut args = given;
    let ghost given_views = string_views(args@);
    let mut flag = String::from_str("-profile=");
    flag.append(profile.name.as_str());
    let ghost before = args@;
    args.push(flag);
    assert(string_views(args@) =~= string_views(before).push("-profile="@ + profile.name@));
    push_all(&mut args, &profile.launch_args);
    if !profile.ignore_global_launch_args {
        push_all(&mut args, &config.launch_args);
    }
    assert(string_views(args@) == launch_arguments(given_views, *profile, *config));
    let method = resolve_launch_method(profile.launch_method, config.preferred_launch, os);
    let exe = join_on(os, profile.titanfall2_path.as_str(), "NorthstarLauncher.exe");
    proof {
        reveal_strlit("steam://run/");
        reveal_strlit("//-profile=");
        reveal_strlit(" --northstar ");
        reveal_strlit("/");
        reveal_strlit(" -profile=");
    }
    match method {
        LaunchMethod::Steam => {
            let mut url = String::from_str("steam://run/");
            let id = u64_to_decimal(1237970);
            url.append(id.as_str());
            url.append("//-profile=");
            url.append(profile.name.as_str());
            url.append(" --northstar ");
            let sp = spaced_text(&args);
            url.append(sp.as_str());
            url.append("/");
            Ok(LaunchPlan::OpenAndWait(url))
        },
        LaunchMethod::Direct => {
            if os == Os::Windows {
                let mut cmd = exe;
                cmd.append(" -profile=");
                cmd.append(profile.name.as_str());
                cmd.append(" --northstar ");
                let sp = spaced_text(&args);
                cmd.append(sp.as_str());
                cmd.append("/");
                Ok(LaunchPlan::OpenAndWait(cmd))
            } else {
                Ok(LaunchPlan::RunWine(exe, args))
            }
        },
        _ => Ok(LaunchPlan::RunWine(exe, args)),
    }
}

/// While the launcher or the game is still running, waiting goes on.
pub fn still_running(launcher_running: bool, game_running: bool) -> (r: bool)
    ensures
        r == (launcher_running || game_running),
{
    launcher_running || game_running
}


/// Whenever the game runs under Wine, whatever way of starting was chosen
/// and on whatever system, the launcher gets the arguments given, then
/// `-profile=NAME`, then the profile's own arguments, then the global ones
/// unless the profile ignores them; and the launcher run is the profile's
/// `NorthstarLauncher.exe`.
pub proof fn lemma_wine_runs_get_every_argument(
    profile: ProfileConfig,
    config: Config,
    given: Seq<Seq<char>>,
    os: Os,
    plan: LaunchPlan,
)
    requires
        plan@ == launch_plan(profile, config, given, os),
        plan is RunWine,
    ensures
        plan matches LaunchPlan::RunWine(exe, args) && string_views(args@) == given.push(
            "-profile="@ + profile.name@,
        ) + string_views(profile.launch_args@) + (if profile.ignore_global_launch_args {
            Seq::<Seq<char>>::empty()
        } else {
            string_views(config.launch_args@)
        }) && exe@ == join_path_on(os, profile.titanfall2_path@, "NorthstarLauncher.exe"@),
{
    let own = given.push("-profile="@ + profile.name@) + string_views(profile.launch_args@);
    assert(own + Seq::<Seq<char>>::empty() =~= own);
}

} // verus!
