use flightcore_ng_core::settings::ProfileConfig;
use flightcore_ng_core::window::{
    game_ended, is_space, launch_button, launch_screen_update, lists_cached_profiles, launch_screen_view,
    profiles_screen_update, shown_screen, split_words, switch_tasks, version_answer, LaunchButton,
    LaunchScreenState, ProfilesScreenState, ScreenMessage, ScreenTask,
};

fn launch_state() -> LaunchScreenState {
    LaunchScreenState {
        profile: None,
        launch_args: String::new(),
        is_running: false,
        version: None,
        did_startup: false,
        servers: 0,
        players: 0,
    }
}

fn describe(tasks: &[ScreenTask]) -> Vec<String> {
    tasks
        .iter()
        .map(|t| match t {
            ScreenTask::Launch { profile, args } => format!("launch {profile} {args:?}"),
            ScreenTask::Notify(n) => format!("notify {n}"),
            ScreenTask::Error(e) => format!("error {e}"),
            ScreenTask::FetchServerStats => "stats".to_string(),
            ScreenTask::ReadVersion(p) => format!("version {p}"),
            ScreenTask::AcquireLock => "lock".to_string(),
            ScreenTask::Send(ScreenMessage::NewNorthstarVersion(None)) => "send version?".to_string(),
            ScreenTask::Send(ScreenMessage::Startup) => "send startup".to_string(),
            ScreenTask::Send(ScreenMessage::SwitchActiveScreen(i)) => format!("send switch {i}"),
            ScreenTask::Send(_) => "send".to_string(),
        })
        .collect()
}

#[test]
fn words_match_split_whitespace() {
    for text in ["", "  ", "-a", " -a  -b\t-c\n", "x\u{3000}y\u{a0}z", "a\u{200b}b"] {
        let expected: Vec<String> = text.split_whitespace().map(String::from).collect();
        assert_eq!(split_words(text), expected, "{text:?}");
    }
    for c in ['\t', ' ', '\u{85}', '\u{2028}', 'a', '\u{200b}', '\u{feff}'] {
        assert_eq!(is_space(c), c.is_whitespace(), "{c:?}");
    }
}

#[test]
fn launching_marks_the_game_running() {
    let mut s = launch_state();
    s.launch_args = " -dev  -x ".to_string();
    let tasks = launch_screen_update(&mut s, &mut ScreenMessage::LaunchGame { profile: "p".to_string() }, true).unwrap();
    assert!(s.is_running);
    assert_eq!(describe(&tasks), vec!["launch p [\"-dev\", \"-x\"]"]);

    let mut busy = launch_state();
    let tasks = launch_screen_update(&mut busy, &mut ScreenMessage::LaunchGame { profile: "p".to_string() }, false).unwrap();
    assert!(!busy.is_running);
    assert_eq!(describe(&tasks), vec!["notify flightcore-ng is busy"]);
}

#[test]
fn game_end_and_profile_switch() {
    let mut s = launch_state();
    s.is_running = true;
    let tasks = launch_screen_update(&mut s, &mut ScreenMessage::GameEnded(Err("boom".to_string())), true).unwrap();
    assert!(!s.is_running);
    assert_eq!(describe(&tasks), vec!["stats", "error boom"]);
    let tasks = launch_screen_update(&mut s, &mut ScreenMessage::GameEnded(Ok(())), true).unwrap();
    assert_eq!(describe(&tasks), vec!["stats"]);

    let tasks = launch_screen_update(&mut s, &mut ScreenMessage::SwitchProfile("dev".to_string()), true).unwrap();
    assert_eq!(s.profile.as_deref(), Some("dev"));
    assert_eq!(describe(&tasks), vec!["send version?", "stats"]);
    let tasks = launch_screen_update(&mut s, &mut ScreenMessage::NewNorthstarVersion(None), true).unwrap();
    assert_eq!(describe(&tasks), vec!["version dev"]);
    launch_screen_update(&mut s, &mut ScreenMessage::NewNorthstarVersion(Some("1.2.3".to_string())), true);
    assert_eq!(s.version.as_deref(), Some("1.2.3"));
    launch_screen_update(&mut s, &mut ScreenMessage::ServerStatsUpdate { players_count: 7, servers_count: 2 }, true);
    assert_eq!((s.players, s.servers), (7, 2));
}

#[test]
fn version_is_forgotten_without_a_profile() {
    let mut s = launch_state();
    s.version = Some("1.0.0".to_string());
    let tasks = launch_screen_update(&mut s, &mut ScreenMessage::NewNorthstarVersion(None), true).unwrap();
    assert!(tasks.is_empty());
    assert_eq!(s.version, None);
}

#[test]
fn startup_runs_once() {
    let mut s = launch_state();
    let tasks = launch_screen_update(&mut s, &mut ScreenMessage::Startup, true).unwrap();
    assert!(s.did_startup);
    assert_eq!(describe(&tasks), vec!["stats", "send version?", "send startup"]);
    assert!(launch_screen_update(&mut s, &mut ScreenMessage::Startup, true).is_none());
    assert!(launch_screen_update(&mut s, &mut ScreenMessage::SwitchedTo, true).is_none());
}

#[test]
fn profiles_screen_locks_while_shown() {
    let profiles = vec![
        ProfileConfig { name: "a".to_string(), ..ProfileConfig::default() },
        ProfileConfig { name: "b".to_string(), ..ProfileConfig::default() },
    ];
    let mut s = ProfilesScreenState { cached_profiles: Vec::new(), locked: false, focused: false };
    assert!(profiles_screen_update(&mut s, &mut ScreenMessage::AcquiredLock(true), &profiles).is_none());
    let tasks = profiles_screen_update(&mut s, &mut ScreenMessage::SwitchedTo, &profiles).unwrap();
    assert_eq!(describe(&tasks), vec!["lock"]);
    profiles_screen_update(&mut s, &mut ScreenMessage::AcquiredLock(true), &profiles);
    assert!(s.locked);
    assert_eq!(s.cached_profiles, vec!["a".to_string(), "b".to_string()]);
    profiles_screen_update(&mut s, &mut ScreenMessage::SwitchedFrom, &profiles);
    assert!(!s.locked && !s.focused);
    profiles_screen_update(&mut s, &mut ScreenMessage::SwitchedTo, &profiles);
    let tasks = profiles_screen_update(&mut s, &mut ScreenMessage::AcquiredLock(false), &profiles).unwrap();
    assert_eq!(describe(&tasks), vec!["error Failed to Acquire lock", "send switch 0"]);
    assert!(!s.locked);
}

#[test]
fn switching_screens_joins_their_tasks() {
    let left = Some(vec![ScreenTask::FetchServerStats]);
    let shown = Some(vec![ScreenTask::AcquireLock]);
    assert_eq!(describe(&switch_tasks(left, shown)), vec!["stats", "lock"]);
    assert!(switch_tasks(Some(vec![ScreenTask::FetchServerStats]), None).is_empty());
    assert_eq!(describe(&switch_tasks(None, Some(vec![ScreenTask::AcquireLock]))), vec!["lock"]);
}

#[test]
fn version_answer_takes_the_first_recorded_version() {
    assert_eq!(version_answer(false, &vec![Some("1".to_string())]), Err("non existent profile".to_string()));
    assert_eq!(
        version_answer(true, &vec![None, Some("1.2.0".to_string()), Some("9".to_string())]),
        Ok("1.2.0".to_string())
    );
    assert_eq!(
        version_answer(true, &vec![None, None, None]),
        Err("didn't find any good northstar versions on the current profile; it might be broken".to_string())
    );
}

#[test]
fn launch_button_states() {
    let p = Some("dev".to_string());
    assert!(matches!(launch_button(true, &p), LaunchButton::Running));
    assert!(matches!(launch_button(true, &None), LaunchButton::Running));
    assert!(matches!(launch_button(false, &p), LaunchButton::Launch(q) if q == "dev"));
    assert!(matches!(launch_button(false, &None), LaunchButton::ChooseProfile));
}

#[test]
fn launch_screen_shows_its_state() {
    let mut s = launch_state();
    let v = launch_screen_view(&s);
    assert!(matches!(v.button, LaunchButton::ChooseProfile));
    assert_eq!(v.version_line, "version: unknown");
    assert_eq!(v.stats_line, "0 players, 0 servers");
    s.profile = Some("R2Northstar".to_string());
    s.version = Some("1.30.0".to_string());
    s.players = 120;
    s.servers = 9;
    let v = launch_screen_view(&s);
    assert!(matches!(v.button, LaunchButton::Launch(q) if q == "R2Northstar"));
    assert_eq!(v.version_line, "version: 1.30.0");
    assert_eq!(v.stats_line, "120 players, 9 servers");
    s.is_running = true;
    assert!(matches!(launch_screen_view(&s).button, LaunchButton::Running));
}

#[test]
fn game_end_messages() {
    match game_ended("dev", false, true) {
        ScreenMessage::GameEnded(Err(e)) => assert_eq!(e, "failed to step profile : dev"),
        _ => panic!("expected a failure"),
    }
    match game_ended("dev", true, false) {
        ScreenMessage::GameEnded(Err(e)) => assert_eq!(e, "game failed while running profile : dev"),
        _ => panic!("expected a failure"),
    }
    assert!(matches!(game_ended("dev", true, true), ScreenMessage::GameEnded(Ok(()))));
}

#[test]
fn shown_screen_falls_back_to_the_first() {
    assert_eq!(shown_screen(2, 3), 2);
    assert_eq!(shown_screen(3, 3), 0);
    assert!(lists_cached_profiles(&vec!["a".to_string()]));
    assert!(!lists_cached_profiles(&Vec::new()));
}

#[test]
fn switching_profile_hands_back_the_old_one() {
    let mut s = launch_state();
    let mut m = ScreenMessage::SwitchProfile("first".to_string());
    launch_screen_update(&mut s, &mut m, true);
    assert_eq!(s.profile.as_deref(), Some("first"));
    assert!(matches!(&m, ScreenMessage::SwitchProfile(p) if p == "first"));
    let mut m = ScreenMessage::SwitchProfile("second".to_string());
    launch_screen_update(&mut s, &mut m, true);
    assert_eq!(s.profile.as_deref(), Some("second"));
    assert!(matches!(&m, ScreenMessage::SwitchProfile(p) if p == "first"));
}

#[test]
fn profiles_screen_takes_the_lock_out_of_the_message() {
    let mut s = ProfilesScreenState { cached_profiles: Vec::new(), locked: false, focused: true };
    let mut m = ScreenMessage::AcquiredLock(true);
    profiles_screen_update(&mut s, &mut m, &Vec::new());
    assert!(s.locked);
    assert!(matches!(m, ScreenMessage::AcquiredLock(false)));
    let mut unfocused = ProfilesScreenState { cached_profiles: Vec::new(), locked: false, focused: false };
    let mut m = ScreenMessage::AcquiredLock(true);
    assert!(profiles_screen_update(&mut unfocused, &mut m, &Vec::new()).is_none());
    assert!(matches!(m, ScreenMessage::AcquiredLock(true)));
}
