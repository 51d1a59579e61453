use flightcore_ng_core::releases::{
    find_containing, find_proton_archive, find_release_for_version, proton_extract_dir,
    version_from_tag,
};
use flightcore_ng_core::revs::{
    flake_inputs, get_github_uri, git_reset_args, nix_build_args, nix_clone_args, nix_lock_args,
    parse_pull_request_path, parse_repository_path, pick_pr_url, NorthstarInstallInfo,
    RevPathError,
};
use flightcore_ng_core::settings::{
    build_profile_cache, Config, LaunchMethod, NorthstarSource, ProfileConfig, SemVer,
};

fn strings(items: &[&str]) -> Vec<String> {
    items.iter().map(|s| s.to_string()).collect()
}

fn profile(name: &str) -> ProfileConfig {
    ProfileConfig { name: name.to_string(), ..ProfileConfig::default() }
}

#[test]
fn default_config_is_empty() {
    let c = Config::default();
    assert_eq!(c.titanfall2, "");
    assert!(c.profiles.is_empty());
    assert!(c.launch_args.is_empty());
    assert_eq!(c.preferred_launch, LaunchMethod::Any);
    assert_eq!(LaunchMethod::default(), LaunchMethod::Any);
    assert!(matches!(NorthstarSource::default(), NorthstarSource::Stable));
}

#[test]
fn get_profile_finds_the_first_with_the_name() {
    let mut c = Config::default();
    let mut second = profile("dev");
    second.ignore_global_launch_args = true;
    c.profiles = vec![profile("main"), second, profile("dev")];
    assert_eq!(c.find_profile("dev"), Some(1));
    assert!(c.get_profile("dev").unwrap().ignore_global_launch_args);
    assert_eq!(c.find_profile("main"), Some(0));
    assert_eq!(c.find_profile("missing"), None);
    assert!(c.get_profile("missing").is_none());
}

#[test]
fn profile_cache_lists_names_in_order() {
    let profiles = vec![profile("a"), profile("b"), profile("a")];
    assert_eq!(build_profile_cache(&profiles), strings(&["a", "b", "a"]));
    assert!(build_profile_cache(&Vec::new()).is_empty());
}

#[test]
fn semver_text_has_optional_parts() {
    let plain = SemVer { major: 1, minor: 25, patch: 3, pre: String::new(), build: String::new() };
    assert_eq!(plain.to_text(), "1.25.3");
    let full = SemVer {
        major: 0,
        minor: 1,
        patch: 0,
        pre: "rc.1".to_string(),
        build: "abc".to_string(),
    };
    assert_eq!(full.to_text(), "0.1.0-rc.1+abc");
    let built = SemVer { major: 2, minor: 0, patch: 0, pre: String::new(), build: "7".to_string() };
    assert_eq!(built.to_text(), "2.0.0+7");
}

#[test]
fn release_lookup_by_tag() {
    let tags = strings(&["v1.2.0", "1.3.0", "v1.4.0"]);
    assert_eq!(find_release_for_version(&tags, "1.3.0"), Some(1));
    assert_eq!(find_release_for_version(&tags, "1.4.0"), Some(2));
    assert_eq!(find_release_for_version(&tags, "1.5.0"), None);
    assert_eq!(version_from_tag("v1.2.0"), "1.2.0");
    assert_eq!(version_from_tag("1.2.0"), "1.2.0");
}

#[test]
fn asset_lookup_by_part_of_the_name() {
    let names = strings(&["Northstar.release.v1.zip", "Northstar.release.v1.zip.sha256"]);
    assert_eq!(find_containing(&names, "zip"), Some(0));
    assert_eq!(find_containing(&names, "sha256"), Some(1));
    assert_eq!(find_containing(&names, "exe"), None);
}

#[test]
fn proton_archive_is_found_and_unpacks_to_its_stem() {
    let names = strings(&["GE-Proton9-1.sha512sum", "GE-Proton9-1.tar.gz", "GE-Proton9-2.tar.gz"]);
    assert_eq!(find_proton_archive(&names), Some(1));
    assert_eq!(find_proton_archive(&strings(&["proton.tar.gz"])), None);
    assert_eq!(
        proton_extract_dir("/home/u/.local/share/fc", "GE-Proton9-1.tar.gz"),
        "/home/u/.local/share/fc/GE-Proton9-1"
    );
}

#[test]
fn install_info_builders() {
    let info = NorthstarInstallInfo::new("m1".to_string(), "l1".to_string());
    assert_eq!(info.mods_sha, "m1");
    assert_eq!(info.launcher_sha, "l1");
    assert_eq!(info.rpc_sha, None);
    let info = info.with_discord_rpc("r1".to_string());
    assert_eq!(info.mods_sha, "m1");
    assert_eq!(info.launcher_sha, "l1");
    assert_eq!(info.rpc_sha, Some("r1".to_string()));
}

#[test]
fn github_uri_joins_owner_repo_and_commit() {
    assert_eq!(
        get_github_uri("abc123", "R2Northstar", "NorthstarLauncher"),
        "github:R2Northstar/NorthstarLauncher/abc123"
    );
}

#[test]
fn pull_request_path_is_read() {
    assert_eq!(
        parse_pull_request_path("/R2Northstar/NorthstarMods/pull/812"),
        Ok(("NorthstarMods".to_string(), 812))
    );
    assert_eq!(
        parse_pull_request_path("/R2Northstar/NorthstarMods/pull/812/files"),
        Ok(("NorthstarMods".to_string(), 812))
    );
}

#[test]
fn pull_request_path_errors() {
    assert_eq!(parse_pull_request_path("/R2Northstar/NorthstarMods"), Err(RevPathError::Invalid));
    assert_eq!(
        parse_pull_request_path("/someone/NorthstarMods/pull/1"),
        Err(RevPathError::NotPullRequest)
    );
    assert_eq!(
        parse_pull_request_path("/R2Northstar/NorthstarMods/issues/1"),
        Err(RevPathError::NotPullRequest)
    );
    assert_eq!(
        parse_pull_request_path("/R2Northstar/NorthstarMods/pull/x1"),
        Err(RevPathError::BadNumber)
    );
}

#[test]
fn repository_path_is_read() {
    assert_eq!(parse_repository_path("/R2Northstar/NorthstarLauncher"), Ok("NorthstarLauncher".to_string()));
    assert_eq!(parse_repository_path("/R2Northstar/NorthstarLauncher/"), Ok("NorthstarLauncher".to_string()));
    assert_eq!(parse_repository_path("/someone/NorthstarLauncher"), Err(RevPathError::NotR2Northstar));
    assert_eq!(parse_repository_path("/R2Northstar"), Err(RevPathError::Invalid));
    assert_eq!(parse_repository_path("/R2Northstar/a/b"), Err(RevPathError::Invalid));
}

#[test]
fn pull_request_url_is_picked_by_repository() {
    let paths = strings(&["/R2Northstar/NorthstarMods/pull/1", "/R2Northstar/NorthstarLauncher/pull/2"]);
    assert_eq!(pick_pr_url(&paths, "NorthstarLauncher"), Some(1));
    assert_eq!(pick_pr_url(&paths, "NorthstarMods"), Some(0));
    assert_eq!(pick_pr_url(&paths, "NorthstarDiscordRPC"), None);
}

#[test]
fn flake_inputs_pin_each_commit() {
    let info = NorthstarInstallInfo::new("m1".to_string(), "l1".to_string());
    assert_eq!(
        flake_inputs(&info, "github:R2Northstar/NorthstarLauncher/l1"),
        strings(&[
            "--override-input",
            "mods",
            "github:R2Northstar/NorthstarMods/m1",
            "--override-input",
            "launcher",
            "github:R2Northstar/NorthstarLauncher/l1",
        ])
    );
    let info = info.with_discord_rpc("r1".to_string());
    let args = flake_inputs(&info, "L");
    assert_eq!(args.len(), 9);
    assert_eq!(args[6], "--override-input");
    assert_eq!(args[7], "discordrpc");
    assert_eq!(args[8], "github:R2Northstar/NorthstarMods/r1");
}

#[test]
fn nix_and_git_arguments() {
    assert_eq!(git_reset_args(), strings(&["reset", "origin", "--hard"]));
    let flags = ["--extra-experimental-features", "nix-command", "--extra-experimental-features", "flakes"];
    let mut clone = strings(&["flake", "clone", "github:catornot/northstar-nightly"]);
    clone.extend(strings(&flags));
    clone.extend(strings(&["--dest", "/tmp/x"]));
    assert_eq!(nix_clone_args("/tmp/x"), clone);
    let mut lock = strings(&["flake", "lock", "."]);
    lock.extend(strings(&flags));
    lock.extend(strings(&["a", "b"]));
    assert_eq!(nix_lock_args(&strings(&["a", "b"])), lock);
    let mut build = strings(&["build"]);
    build.extend(strings(&flags));
    build.extend(strings(&["--out-link", "out"]));
    assert_eq!(nix_build_args("out"), build);
}
