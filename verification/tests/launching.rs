use flightcore_ng_core::bootstrap::Os;
use flightcore_ng_core::installed::{check_if_installed, installed_in_profile, CoreModState, PeVersionInfo};
use flightcore_ng_core::launch::{plan_launch, resolve_launch_method, still_running, LaunchError, LaunchPlan};
use flightcore_ng_core::paths::join_on;
use flightcore_ng_core::settings::{Config, LaunchMethod, ProfileConfig};
use flightcore_ng_core::wine::{debug_args, game_args, wine_env, wine_run_args, wine_start_args};
use flightcore_ng_core::TITANFALL_ID;

fn strings(items: &[&str]) -> Vec<String> {
    items.iter().map(|s| s.to_string()).collect()
}

fn config(method: LaunchMethod, preferred: LaunchMethod, ignore_global: bool) -> Config {
    let mut c = Config::default();
    c.preferred_launch = preferred;
    c.launch_args = strings(&["-global"]);
    c.profiles = vec![ProfileConfig {
        name: "R2Northstar".to_string(),
        titanfall2_path: "/games/tf2".to_string(),
        launch_args: strings(&["-own"]),
        ignore_global_launch_args: ignore_global,
        launch_method: method,
        ..ProfileConfig::default()
    }];
    c
}

#[test]
fn launch_method_resolution() {
    let (any, steam, wine, direct) =
        (LaunchMethod::Any, LaunchMethod::Steam, LaunchMethod::Wine, LaunchMethod::Direct);
    assert_eq!(resolve_launch_method(any, steam, Os::Linux), steam);
    assert_eq!(resolve_launch_method(any, any, Os::Linux), wine);
    assert_eq!(resolve_launch_method(any, wine, Os::Linux), wine);
    assert_eq!(resolve_launch_method(any, steam, Os::Windows), direct);
    assert_eq!(resolve_launch_method(direct, steam, Os::Linux), direct);
    assert_eq!(resolve_launch_method(wine, steam, Os::Windows), wine);
}

#[test]
fn steam_launch_opens_the_steam_url() {
    let c = config(LaunchMethod::Steam, LaunchMethod::Any, false);
    match plan_launch(&c, "R2Northstar", strings(&["-dev"]), Os::Linux) {
        Ok(LaunchPlan::OpenAndWait(url)) => assert_eq!(
            url,
            format!(
                "steam://run/{}//-profile=R2Northstar --northstar -dev  -profile=R2Northstar  -own  -global  /",
                TITANFALL_ID
            )
        ),
        _ => panic!("expected a Steam launch"),
    }
}

#[test]
fn wine_launch_runs_the_launcher_with_the_arguments() {
    let c = config(LaunchMethod::Any, LaunchMethod::Any, true);
    match plan_launch(&c, "R2Northstar", Vec::new(), Os::Linux) {
        Ok(LaunchPlan::RunWine(exe, args)) => {
            assert_eq!(exe, "/games/tf2/NorthstarLauncher.exe");
            assert_eq!(args, strings(&["-profile=R2Northstar", "-own"]));
        }
        _ => panic!("expected a Wine launch"),
    }
}

#[test]
fn direct_launch_on_windows_opens_the_command_line() {
    let mut c = config(LaunchMethod::Direct, LaunchMethod::Any, false);
    c.profiles[0].titanfall2_path = "C:\\Games\\Titanfall2".to_string();
    match plan_launch(&c, "R2Northstar", Vec::new(), Os::Windows) {
        Ok(LaunchPlan::OpenAndWait(cmd)) => assert_eq!(
            cmd,
            "C:\\Games\\Titanfall2\\NorthstarLauncher.exe -profile=R2Northstar --northstar -profile=R2Northstar  -own  -global  /"
        ),
        _ => panic!("expected a direct launch"),
    }
    match plan_launch(&c, "R2Northstar", Vec::new(), Os::Linux) {
        Ok(LaunchPlan::RunWine(_, _)) => {}
        _ => panic!("a direct launch off Windows runs under Wine"),
    }
}

#[test]
fn unknown_profile_is_an_error() {
    let c = config(LaunchMethod::Any, LaunchMethod::Any, false);
    assert!(matches!(plan_launch(&c, "nope", Vec::new(), Os::Linux), Err(LaunchError::MissingProfile)));
}

#[test]
fn waiting_goes_on_while_anything_runs() {
    assert!(still_running(true, false));
    assert!(still_running(false, true));
    assert!(!still_running(false, false));
}

#[test]
fn wine_environment_and_arguments() {
    let env = wine_env("/pfx", "/proton");
    assert_eq!(env.len(), 9);
    assert_eq!(env[0], ("UMU_ZENITY".to_string(), "1".to_string()));
    assert_eq!(env[7], ("WINEPREFIX".to_string(), "/pfx".to_string()));
    assert_eq!(env[8], ("PROTONPATH".to_string(), "/proton".to_string()));
    assert_eq!(
        wine_start_args("/x.exe", &strings(&["-a"])),
        strings(&["umu-run", "start.exe", "/b", "/unix", "/x.exe", "-a"])
    );
    assert_eq!(wine_run_args("/x.exe", &strings(&["-a", "-b"])), strings(&["/x.exe", "-a", "-b"]));
}

#[test]
fn game_arguments_add_the_fixed_flags() {
    assert_eq!(
        game_args(&strings(&["-x"]), false),
        strings(&["-x", "-noOriginStartup", "-multiple", "-northstar"])
    );
    assert_eq!(
        game_args(&Vec::new(), true),
        strings(&["-noOriginStartup", "-multiple", "-northstar", "-vanilla"])
    );
}

#[test]
fn debug_arguments_join_the_game_arguments() {
    assert_eq!(
        debug_args("/x.exe", &strings(&["-a", "-b"])),
        strings(&["/x.exe", "-ex", "set args -a  -b  -waitfordebugger", "-ex", "run", "-ex", "c"])
    );
    assert_eq!(
        debug_args("/x.exe", &Vec::new())[2],
        "set args -waitfordebugger"
    );
}

fn mods(version: Option<&str>, exists: bool) -> Vec<CoreModState> {
    (0..3)
        .map(|_| CoreModState { exists, version: version.map(|v| v.to_string()) })
        .collect()
}

#[test]
fn installed_when_launcher_names_the_version() {
    let info = PeVersionInfo::Strings(vec![
        ("ProductName".to_string(), "Northstar".to_string()),
        ("FileVersion".to_string(), "v1.25.3".to_string()),
    ]);
    assert!(check_if_installed(true, &mods(Some("1.25.3"), true), Some(&info), "1.25.3"));
    assert!(!check_if_installed(true, &mods(Some("1.25.3"), true), Some(&info), "1.26.0"));
    assert!(!check_if_installed(false, &mods(Some("1.25.3"), true), Some(&info), "1.25.3"));
    assert!(!check_if_installed(true, &mods(Some("1.25.3"), true), None, "1.25.3"));
}

#[test]
fn launcher_without_version_info_carries_any_version() {
    let info = PeVersionInfo::NoVersionInfo;
    assert!(check_if_installed(true, &mods(None, true), Some(&info), "9.9.9"));
}

#[test]
fn core_mods_rule_out_only_when_missing_and_mismatched() {
    let info = PeVersionInfo::NoVersionInfo;
    assert!(!check_if_installed(true, &mods(Some("1.0.0"), false), Some(&info), "2.0.0"));
    assert!(check_if_installed(true, &mods(Some("2.0.0"), false), Some(&info), "2.0.0"));
    assert!(check_if_installed(true, &mods(Some("1.0.0"), true), Some(&info), "2.0.0"));
}

#[test]
fn unreadable_launcher_image_gives_no_answer() {
    let ok = mods(Some("1.0.0"), true);
    assert_eq!(installed_in_profile(true, &ok, Some(&[0u8; 16][..]), "1.0.0"), None);
    assert_eq!(installed_in_profile(true, &ok, Some(&[0x4du8; 200][..]), "1.0.0"), None);
    assert_eq!(installed_in_profile(true, &ok, None, "1.0.0"), Some(false));
    assert_eq!(installed_in_profile(false, &ok, Some(&[0u8; 16][..]), "1.0.0"), Some(false));
}

#[test]
fn missing_profile_is_not_installed_whatever_the_library() {
    let info = PeVersionInfo::NotPe;
    assert!(!check_if_installed(false, &mods(Some("1.0.0"), true), Some(&info), "1.0.0"));
    assert!(!check_if_installed(true, &mods(Some("1.0.0"), false), Some(&info), "2.0.0"));
}

#[test]
fn names_join_as_each_system_joins_them() {
    assert_eq!(join_on(Os::Windows, "C:\\Games", "a.exe"), "C:\\Games\\a.exe");
    assert_eq!(join_on(Os::Windows, "C:\\Games\\", "a.exe"), "C:\\Games\\a.exe");
    assert_eq!(join_on(Os::Windows, "D:/Games/", "a.exe"), "D:/Games/a.exe");
    assert_eq!(join_on(Os::Windows, "C:", "a.exe"), "C:a.exe");
    assert_eq!(join_on(Os::Windows, "", "a.exe"), "a.exe");
    assert_eq!(join_on(Os::Windows, "C:\\Games", "D:\\x"), "D:\\x");
    assert_eq!(join_on(Os::Windows, "C:\\Games", "\\\\server\\share"), "\\\\server\\share");
    assert_eq!(join_on(Os::Windows, "C:\\Games", "\\x"), "C:\\x");
    assert_eq!(join_on(Os::Windows, "Games", "/x"), "/x");
    for (base, rel) in [("/games", "a.exe"), ("/games/", "b"), ("", "c"), ("/g", "/abs")] {
        assert_eq!(join_on(Os::Linux, base, rel), std::path::Path::new(base).join(rel).to_string_lossy());
    }
}
