use flightcore_ng_core::bootstrap::{
    bootstrap_step, core_mod, overlay_is_supported, BootstrapAction, BootstrapEvent,
    BootstrapProfile, BootstrapState, Check, DownloadKind, Origin, Os, ProfileSource,
};
use flightcore_ng_core::settings::{NorthstarSource, SemVer};

fn profile(flavor: NorthstarSource, sources: Vec<ProfileSource>) -> BootstrapProfile {
    BootstrapProfile {
        name: "R2Northstar".to_string(),
        titanfall2_path: "/games/Titanfall2".to_string(),
        flavor,
        sources,
    }
}

fn version(major: u64, minor: u64, patch: u64) -> NorthstarSource {
    NorthstarSource::Version(SemVer {
        major,
        minor,
        patch,
        pre: String::new(),
        build: String::new(),
    })
}

fn start(p: &BootstrapProfile, check: Check, os: Os) -> (BootstrapState, BootstrapAction) {
    bootstrap_step(p, check, os, BootstrapState::Start, BootstrapEvent::Begin)
}

#[test]
fn skip_does_nothing() {
    for flavor in [NorthstarSource::Stable, NorthstarSource::Nightly, NorthstarSource::Ion] {
        let p = profile(flavor, Vec::new());
        let (state, action) = start(&p, Check::Skip, Os::Linux);
        assert!(matches!(state, BootstrapState::Done));
        assert!(matches!(action, BootstrapAction::Finish));
    }
}

#[test]
fn fixed_version_is_checked_then_downloaded() {
    let p = profile(version(1, 25, 3), Vec::new());
    let (state, action) = start(&p, Check::Check, Os::Linux);
    match &action {
        BootstrapAction::CheckInstalled(v) => assert_eq!(v, "1.25.3"),
        _ => panic!("expected a version check"),
    }
    let (state, action) = bootstrap_step(&p, Check::Check, Os::Linux, state, BootstrapEvent::Installed(true));
    assert!(matches!(state, BootstrapState::Done));
    match action {
        BootstrapAction::Download(DownloadKind::Version(v)) => {
            assert_eq!((v.major, v.minor, v.patch), (1, 25, 3))
        }
        _ => panic!("expected a download"),
    }
}

#[test]
fn fixed_version_installed_is_kept_when_forced() {
    let p = profile(version(1, 0, 0), Vec::new());
    let (state, _) = start(&p, Check::Force, Os::Linux);
    let (state, action) = bootstrap_step(&p, Check::Force, Os::Linux, state, BootstrapEvent::Installed(true));
    assert!(matches!(state, BootstrapState::Done));
    assert!(matches!(action, BootstrapAction::Finish));
    let (state, _) = start(&p, Check::Force, Os::Linux);
    let (_, action) = bootstrap_step(&p, Check::Force, Os::Linux, state, BootstrapEvent::Installed(false));
    assert!(matches!(action, BootstrapAction::Download(DownloadKind::Version(_))));
}

#[test]
fn stable_fetches_latest_then_downloads_when_missing() {
    let p = profile(NorthstarSource::Stable, Vec::new());
    let (state, action) = start(&p, Check::Check, Os::Linux);
    match &action {
        BootstrapAction::FetchLatestVersion(owner, repo) => {
            assert_eq!(owner, "R2Northstar");
            assert_eq!(repo, "Northstar");
        }
        _ => panic!("expected a fetch"),
    }
    let (state, action) = bootstrap_step(
        &p,
        Check::Check,
        Os::Linux,
        state,
        BootstrapEvent::LatestVersion(Some("1.30.0".to_string())),
    );
    match &action {
        BootstrapAction::CheckInstalled(v) => assert_eq!(v, "1.30.0"),
        _ => panic!("expected a version check"),
    }
    let (state2, action2) = bootstrap_step(&p, Check::Check, Os::Linux, state, BootstrapEvent::Installed(false));
    assert!(matches!(state2, BootstrapState::Done));
    assert!(matches!(action2, BootstrapAction::Download(DownloadKind::Latest)));
}

#[test]
fn stable_already_installed_finishes() {
    let p = profile(NorthstarSource::Stable, Vec::new());
    let (state, _) = start(&p, Check::Check, Os::Linux);
    let (state, _) = bootstrap_step(
        &p,
        Check::Check,
        Os::Linux,
        state,
        BootstrapEvent::LatestVersion(Some("1.30.0".to_string())),
    );
    let (_, action) = bootstrap_step(&p, Check::Check, Os::Linux, state, BootstrapEvent::Installed(true));
    assert!(matches!(action, BootstrapAction::Finish));
}

#[test]
fn ion_uses_its_own_repository_and_a_failed_fetch_finishes() {
    let p = profile(NorthstarSource::Ion, Vec::new());
    let (state, action) = start(&p, Check::Force, Os::Windows);
    match &action {
        BootstrapAction::FetchLatestVersion(owner, repo) => {
            assert_eq!(owner, "r2ion");
            assert_eq!(repo, "Ion");
        }
        _ => panic!("expected a fetch"),
    }
    let (state, action) = bootstrap_step(&p, Check::Force, Os::Windows, state, BootstrapEvent::LatestVersion(None));
    assert!(matches!(state, BootstrapState::Done));
    assert!(matches!(action, BootstrapAction::Finish));
}

#[test]
fn nightly_without_profile_directory_downloads() {
    let p = profile(NorthstarSource::Nightly, Vec::new());
    let (state, action) = start(&p, Check::Check, Os::Linux);
    match &action {
        BootstrapAction::CheckProfileDir(d) => assert_eq!(d, "/games/Titanfall2/R2Northstar"),
        _ => panic!("expected a directory check"),
    }
    let (state, action) = bootstrap_step(&p, Check::Check, Os::Linux, state, BootstrapEvent::ProfileDir(false));
    assert!(matches!(state, BootstrapState::Done));
    assert!(matches!(action, BootstrapAction::Download(DownloadKind::Nightly)));
}

#[test]
fn nightly_records_and_downloads_a_new_version() {
    let p = profile(NorthstarSource::Nightly, Vec::new());
    let (state, _) = start(&p, Check::Check, Os::Linux);
    let (state, action) = bootstrap_step(&p, Check::Check, Os::Linux, state, BootstrapEvent::ProfileDir(true));
    match &action {
        BootstrapAction::ReadNightlyVersion(f) => {
            assert_eq!(f, "/games/Titanfall2/R2Northstar/nightly-ver")
        }
        _ => panic!("expected a read"),
    }
    let (state, action) = bootstrap_step(
        &p,
        Check::Check,
        Os::Linux,
        state,
        BootstrapEvent::NightlyVersion(Some("northstar-nightly-1.zip".to_string())),
    );
    assert!(matches!(action, BootstrapAction::FetchNightlyAssets));
    let assets = vec!["notes.txt".to_string(), "northstar-nightly-2.zip".to_string()];
    let (state, action) = bootstrap_step(&p, Check::Check, Os::Linux, state, BootstrapEvent::NightlyAssets(assets));
    match &action {
        BootstrapAction::WriteNightlyVersion(v) => assert_eq!(v, "northstar-nightly-2.zip"),
        _ => panic!("expected a write"),
    }
    let (state, action) = bootstrap_step(&p, Check::Check, Os::Linux, state, BootstrapEvent::Written);
    assert!(matches!(state, BootstrapState::Done));
    assert!(matches!(action, BootstrapAction::Download(DownloadKind::Nightly)));
}

#[test]
fn nightly_up_to_date_finishes() {
    let p = profile(NorthstarSource::Nightly, Vec::new());
    let (state, _) = start(&p, Check::Check, Os::Linux);
    let (state, _) = bootstrap_step(&p, Check::Check, Os::Linux, state, BootstrapEvent::ProfileDir(true));
    let (state, _) = bootstrap_step(
        &p,
        Check::Check,
        Os::Linux,
        state,
        BootstrapEvent::NightlyVersion(Some("northstar-nightly-2.zip".to_string())),
    );
    let assets = vec!["northstar-nightly-2.zip".to_string()];
    let (state, action) = bootstrap_step(&p, Check::Check, Os::Linux, state, BootstrapEvent::NightlyAssets(assets));
    assert!(matches!(state, BootstrapState::Done));
    assert!(matches!(action, BootstrapAction::Finish));
    let (state, _) = start(&p, Check::Check, Os::Linux);
    let (state, _) = bootstrap_step(&p, Check::Check, Os::Linux, state, BootstrapEvent::ProfileDir(true));
    let (_, action) = bootstrap_step(&p, Check::Check, Os::Linux, state, BootstrapEvent::NightlyVersion(None));
    assert!(matches!(action, BootstrapAction::Finish));
}

#[test]
fn overlay_from_commits_installs_from_revs() {
    let sources = vec![
        ProfileSource::Mod("x".to_string()),
        ProfileSource::Launcher(Origin::FromCommit("l1".to_string())),
        ProfileSource::CoreMods(Origin::FromCommit("m1".to_string())),
        ProfileSource::DiscordRPC(Origin::FromCommit("r1".to_string())),
        ProfileSource::Launcher(Origin::FromCommit("ignored".to_string())),
    ];
    assert!(overlay_is_supported(&sources));
    let p = profile(NorthstarSource::Overlayed, sources);
    let (state, action) = start(&p, Check::Force, Os::Linux);
    assert!(matches!(state, BootstrapState::Done));
    match action {
        BootstrapAction::InstallFromRevs(info) => {
            assert_eq!(info.launcher_sha, "l1");
            assert_eq!(info.mods_sha, "m1");
            assert_eq!(info.rpc_sha, Some("r1".to_string()));
        }
        _ => panic!("expected an install"),
    }
    let (_, action) = start(&p, Check::Check, Os::Linux);
    assert!(matches!(action, BootstrapAction::Finish));
}

#[test]
fn overlay_from_paths_links_local_build_on_linux() {
    let sources = vec![
        ProfileSource::Launcher(Origin::Path("/src/launcher".to_string())),
        ProfileSource::CoreMods(Origin::Path("/src/mods".to_string())),
    ];
    assert!(overlay_is_supported(&sources));
    let p = profile(NorthstarSource::Overlayed, sources);
    let (_, action) = start(&p, Check::Force, Os::Linux);
    match action {
        BootstrapAction::LinkLocalBuild(links) => {
            assert_eq!(links.dll_source, "/src/launcher/build/game/Northstar.dll");
            assert_eq!(links.dll_target, "/games/Titanfall2/R2Northstar/Northstar.dll");
            assert_eq!(links.mod_links.len(), 3);
            assert_eq!(
                links.mod_links[0].1,
                format!("/games/Titanfall2/R2Northstar/{}", core_mod(0))
            );
            assert_eq!(links.mod_links[0].0, "/");
        }
        _ => panic!("expected links"),
    }
    let (_, action) = start(&p, Check::Force, Os::Windows);
    assert!(matches!(action, BootstrapAction::Finish));
}

#[test]
fn overlay_missing_sources_is_reported() {
    let sources = vec![ProfileSource::Launcher(Origin::FromCommit("l1".to_string()))];
    assert!(overlay_is_supported(&sources));
    let p = profile(NorthstarSource::Overlayed, sources);
    let (_, action) = start(&p, Check::Force, Os::Linux);
    assert!(matches!(action, BootstrapAction::MissingOverlaySources));
}

#[test]
fn mixed_overlay_sources_are_not_supported() {
    let mixed = vec![
        ProfileSource::Launcher(Origin::FromCommit("l1".to_string())),
        ProfileSource::CoreMods(Origin::Path("/src/mods".to_string())),
    ];
    assert!(!overlay_is_supported(&mixed));
    let rpc_path = vec![
        ProfileSource::Launcher(Origin::FromCommit("l1".to_string())),
        ProfileSource::CoreMods(Origin::FromCommit("m1".to_string())),
        ProfileSource::DiscordRPC(Origin::Path("/src/rpc".to_string())),
    ];
    assert!(!overlay_is_supported(&rpc_path));
}

#[test]
fn core_mods_are_the_three_northstar_mods() {
    assert_eq!(core_mod(0), "mods/Northstar.Client");
    assert_eq!(core_mod(1), "mods/Northstar.Custom");
    assert_eq!(core_mod(2), "mods/Northstar.CustomServers");
}

#[test]
fn windows_profile_paths_use_backslashes() {
    let mut p = profile(NorthstarSource::Nightly, Vec::new());
    p.titanfall2_path = "C:\\Games\\Titanfall2".to_string();
    let (state, action) = start(&p, Check::Check, Os::Windows);
    match &action {
        BootstrapAction::CheckProfileDir(d) => assert_eq!(d, "C:\\Games\\Titanfall2\\R2Northstar"),
        _ => panic!("expected a directory check"),
    }
    let (_, action) = bootstrap_step(&p, Check::Check, Os::Windows, state, BootstrapEvent::ProfileDir(true));
    match &action {
        BootstrapAction::ReadNightlyVersion(f) => {
            assert_eq!(f, "C:\\Games\\Titanfall2\\R2Northstar\\nightly-ver")
        }
        _ => panic!("expected a read"),
    }
}
