use flightcore_ng_core::bootstrap::{
    bootstrap_step, overlay_is_supported, BootstrapAction, BootstrapEvent, BootstrapProfile,
    BootstrapState, Check, Origin, Os, ProfileSource,
};
use flightcore_ng_core::settings::NorthstarSource;
use flightcore_ng_core::commands::{
    may_install_commits, pick_pull_requests, PullRequestRefusal, command_profile, launch_request, pull_request_profile, with_commit_sources,
};
use flightcore_ng_core::screens::{server_stats, stats_label, switch_screen, version_label, SwitchOutcome};

#[test]
fn screens_switch_only_to_another_existing_screen() {
    assert_eq!(switch_screen(0, 2, 1), SwitchOutcome::Switch { from: 0, to: 1 });
    assert_eq!(switch_screen(1, 2, 1), SwitchOutcome::Stay);
    assert_eq!(switch_screen(0, 2, 5), SwitchOutcome::NoSuchScreen);
}

#[test]
fn server_statistics_sum_players_and_count_servers() {
    assert_eq!(server_stats(&vec![3, 0, 12]), (15, 3));
    assert_eq!(server_stats(&Vec::new()), (0, 0));
    assert_eq!(stats_label(15, 3), "15 players, 3 servers");
}

#[test]
fn version_label_shows_unknown_without_a_version() {
    assert_eq!(version_label(&Some("1.25.3".to_string())), "version: 1.25.3");
    assert_eq!(version_label(&None), "version: unknown");
}

#[test]
fn default_profiles_of_the_commands() {
    assert_eq!(command_profile(None), "R2Northstar");
    assert_eq!(command_profile(Some("mine")), "mine");
    assert_eq!(pull_request_profile(None), "R2NorthstarDev");
    assert_eq!(pull_request_profile(Some("pr")), "pr");
}

#[test]
fn launch_request_names_the_profile() {
    let (args, profile) = launch_request(vec!["-dev".to_string()], None);
    assert_eq!(args, vec!["-dev".to_string()]);
    assert_eq!(profile, "R2NorthstarStable");
    let (args, profile) = launch_request(vec!["-dev".to_string()], Some("mine"));
    assert_eq!(args, vec!["-dev".to_string(), "-profile=mine".to_string()]);
    assert_eq!(profile, "mine");
}

fn describe(s: &ProfileSource) -> String {
    match s {
        ProfileSource::Launcher(Origin::FromCommit(c)) => format!("launcher@{c}"),
        ProfileSource::CoreMods(Origin::FromCommit(c)) => format!("mods@{c}"),
        ProfileSource::DiscordRPC(Origin::FromCommit(c)) => format!("rpc@{c}"),
        ProfileSource::Mod(n) => format!("mod:{n}"),
        ProfileSource::Package(n) => format!("package:{n}"),
        ProfileSource::ModRepo(n) => format!("repo:{n}"),
        _ => "path".to_string(),
    }
}

#[test]
fn commit_sources_replace_the_build_sources() {
    let sources = vec![
        ProfileSource::Launcher(Origin::Path("/l".to_string())),
        ProfileSource::Mod("m".to_string()),
        ProfileSource::CoreMods(Origin::FromCommit("old".to_string())),
        ProfileSource::Package("p".to_string()),
    ];
    let r = with_commit_sources(&sources, "l2".to_string(), "m2".to_string(), "r2".to_string());
    let d: Vec<String> = r.iter().map(describe).collect();
    assert_eq!(d, vec!["mod:m", "package:p", "launcher@l2", "mods@m2", "rpc@r2"]);
}

#[test]
fn switched_profile_installs_the_given_commits() {
    let before = vec![
        ProfileSource::DiscordRPC(Origin::Path("/rpc".to_string())),
        ProfileSource::Mod("m".to_string()),
        ProfileSource::Launcher(Origin::Path("/l".to_string())),
    ];
    let sources = with_commit_sources(&before, "l2".to_string(), "m2".to_string(), "r2".to_string());
    assert!(overlay_is_supported(&sources));
    let p = BootstrapProfile {
        name: "R2NorthstarDev".to_string(),
        titanfall2_path: "/tf2".to_string(),
        flavor: NorthstarSource::Overlayed,
        sources,
    };
    let (state, action) = bootstrap_step(&p, Check::Force, Os::Linux, BootstrapState::Start, BootstrapEvent::Begin);
    assert!(matches!(state, BootstrapState::Done));
    match action {
        BootstrapAction::InstallFromRevs(info) => {
            assert_eq!(info.launcher_sha, "l2");
            assert_eq!(info.mods_sha, "m2");
            assert_eq!(info.rpc_sha, Some("r2".to_string()));
        }
        _ => panic!("expected an install from commits"),
    }
}

#[test]
fn pull_request_installs_need_a_known_repository_and_a_commit_profile() {
    let paths = vec![
        "/R2Northstar/NorthstarMods/pull/1".to_string(),
        "/R2Northstar/NorthstarLauncher/pull/2".to_string(),
    ];
    let picks = pick_pull_requests(&paths).unwrap();
    assert_eq!((picks.launcher, picks.mods, picks.discord_rpc), (Some(1), Some(0), None));
    assert_eq!(
        pick_pull_requests(&vec!["/someone/else/pull/3".to_string()]).err(),
        Some(PullRequestRefusal::ForeignRepo)
    );
    assert!(may_install_commits(true, false).is_ok());
    assert!(may_install_commits(false, true).is_ok());
    assert_eq!(may_install_commits(false, false), Err(PullRequestRefusal::NotCommitBased));
}
