//! The launcher window's screens: how the launch screen and the profiles
//! screen answer the messages they get, and what they ask to be done.
use vstd::prelude::*;
use crate::settings::{build_profile_cache, ProfileConfig};
use crate::text::{chars_of, string_views};
use crate::screens::{stats_label, stats_line, version_label, version_line};

verus! {

/// White space in Unicode's sense (the `White_Space` property that
/// `char::is_whitespace` tests).
pub open spec fn is_white(c: char) -> bool {
    let n = c as u32;
    (9 <= n <= 13) || n == 32 || n == 0x85 || n == 0xa0 || n == 0x1680 || (0x2000 <= n <= 0x200a)
        || n == 0x2028 || n == 0x2029 || n == 0x202f || n == 0x205f || n == 0x3000
}

/// Whether `c` is white space (see `is_white`).
pub fn is_space(c: char) -> (r: bool)
    ensures
        r == is_white(c),
{
    let n = c as u32;
    (9 <= n && n <= 13) || n == 32 || n == 0x85 || n == 0xa0 || n == 0x1680 || (0x2000 <= n && n
        <= 0x200a) || n == 0x2028 || n == 0x2029 || n == 0x202f || n == 0x205f || n == 0x3000
}

/// The word being read, as a list of zero or one words.
pub open spec fn pending(cur: Seq<char>) -> Seq<Seq<char>> {
    if cur.len() > 0 {
        seq![cur]
    } else {
        Seq::empty()
    }
}

/// The words of `s` after a word `cur` that has been read so far: the
/// maximal runs of characters that are not white space.
pub open spec fn words_from(s: Seq<char>, cur: Seq<char>) -> Seq<Seq<char>>
    decreases s.len(),
{
    if s.len() == 0 {
        pending(cur)
    } else if is_white(s[0]) {
        pending(cur) + words_from(s.drop_first(), Seq::empty())
    } else {
        words_from(s.drop_first(), cur.push(s[0]))
    }
}

/// The words of `s`, as `str::split_whitespace` gives them.
pub open spec fn words(s: Seq<char>) -> Seq<Seq<char>> {
    words_from(s, Seq::empty())
}

/// Splits `s` into its words (see `words`).
pub fn split_words(s: &str) -> (r: Vec<String>)
    ensures
        string_views(r@) == words(s@),
{
    let chars = chars_of(s);
    let mut out: Vec<String> = Vec::new();
    let mut cur = String::new();
    let mut i: usize = 0;
    assert(s@.skip(0) =~= s@);
    assert(string_views(out@) =~= Seq::<Seq<char>>::empty());
    assert(cur@ =~= Seq::<char>::empty());
    assert(string_views(out@) + words_from(s@.skip(0), cur@) =~= words(s@));
    while i < chars.len()
        invariant
            i <= chars.len(),
            chars@ == s@,
            string_views(out@) + words_from(s@.skip(i as int), cur@) == words(s@),
        decreases chars.len() - i,
    {
        let ghost rest = s@.skip(i as int);
        assert(rest[0] == s@[i as int]);
        assert(rest.drop_first() =~= s@.skip(i + 1));
        let c = chars[i];
        let ghost out0 = string_views(out@);
        let ghost cur0 = cur@;
        if is_space(c) {
            if cur.unicode_len() > 0 {
                let word = cur;
                out.push(word);
                assert(string_views(out@) =~= out0 + pending(cur0));
                cur = String::new();
            } else {
                assert(pending(cur0) =~= Seq::<Seq<char>>::empty());
                assert(out0 + pending(cur0) =~= out0);
            }
            assert(cur@ =~= Seq::<char>::empty());
            assert(out0 + (pending(cur0) + words_from(s@.skip(i + 1), Seq::empty())) =~= (out0
                + pending(cur0)) + words_from(s@.skip(i + 1), Seq::empty()));
        } else {
            let one = s.substring_char(i, i + 1);
            assert(one@ =~= seq![c]);
            cur.append(one);
            assert(cur@ =~= cur0.push(c));
        }
        i = i + 1;
    }
    assert(s@.skip(i as int) =~= Seq::<char>::empty());
    let ghost out0 = string_views(out@);
    let ghost cur0 = cur@;
    if cur.unicode_len() > 0 {
        out.push(cur);
        assert(string_views(out@) =~= out0 + pending(cur0));
    } else {
        assert(out0 + pending(cur0) =~= out0);
    }
    out
}


/// A message to the window's screens.
pub enum ScreenMessage {
    /// Show screen number `0`.
    SwitchActiveScreen(usize),
    /// The screen is now shown.
    SwitchedTo,
    /// The screen is no longer shown.
    SwitchedFrom,
    /// Another profile was chosen.
    SwitchProfile(String),
    /// Launch the game with this profile.
    LaunchGame { profile: String },
    /// The game ended, or failed with this error.
    GameEnded(Result<(), String>),
    /// New statistics of the server list.
    ServerStatsUpdate { players_count: u32, servers_count: u32 },
    /// The window has just opened.
    Startup,
    /// The Northstar version of the chosen profile, or a request to read it.
    NewNorthstarVersion(Option<String>),
    /// Whether a write lock on the settings was obtained.
    AcquiredLock(bool),
}

/// The plain value of a message.
pub enum MessageView {
    SwitchActiveScreen(usize),
    SwitchedTo,
    SwitchedFrom,
    SwitchProfile(Seq<char>),
    LaunchGame(Seq<char>),
    GameEnded(Result<(), Seq<char>>),
    ServerStatsUpdate(u32, u32),
    Startup,
    NewNorthstarVersion(Option<Seq<char>>),
    AcquiredLock(bool),
}

impl View for ScreenMessage {
    type V = MessageView;

    open spec fn view(&self) -> MessageView {
        match self {
            ScreenMessage::SwitchActiveScreen(i) => MessageView::SwitchActiveScreen(*i),
            ScreenMessage::SwitchedTo => MessageView::SwitchedTo,
            ScreenMessage::SwitchedFrom => MessageView::SwitchedFrom,
            ScreenMessage::SwitchProfile(p) => MessageView::SwitchProfile(p@),
            ScreenMessage::LaunchGame { profile } => MessageView::LaunchGame(profile@),
            ScreenMessage::GameEnded(r) => MessageView::GameEnded(
                match r {
                    Ok(()) => Ok(()),
                    Err(e) => Err(e@),
                },
            ),
            ScreenMessage::ServerStatsUpdate { players_count, servers_count } => MessageView::ServerStatsUpdate(
                *players_count,
                *servers_count,
            ),
            ScreenMessage::Startup => MessageView::Startup,
            ScreenMessage::NewNorthstarVersion(v) => MessageView::NewNorthstarVersion(
                match v {
                    Some(s) => Some(s@),
                    None => None,
                },
            ),
            ScreenMessage::AcquiredLock(b) => MessageView::AcquiredLock(*b),
        }
    }
}

/// Work a screen asks for, done in order.
pub enum ScreenTask {
    /// Launch the game with a profile and arguments; `GameEnded` answers.
    Launch { profile: String, args: Vec<String> },
    /// Report a notification.
    Notify(String),
    /// Report an error.
    Error(String),
    /// Fetch the statistics of the server list; `ServerStatsUpdate` answers.
    FetchServerStats,
    /// Read the Northstar version of a profile; `NewNorthstarVersion`
    /// answers.
    ReadVersion(String),
    /// Take a write lock on the settings; `AcquiredLock` answers.
    AcquireLock,
    /// Hand this message to the screens.
    Send(ScreenMessage),
}

/// The plain value of a task.
pub enum TaskView {
    Launch(Seq<char>, Seq<Seq<char>>),
    Notify(Seq<char>),
    Error(Seq<char>),
    FetchServerStats,
    ReadVersion(Seq<char>),
    AcquireLock,
    Send(MessageView),
}

impl View for ScreenTask {
    type V = TaskView;

    open spec fn view(&self) -> TaskView {
        match self {
            ScreenTask::Launch { profile, args } => TaskView::Launch(profile@, string_views(args@)),
            ScreenTask::Notify(t) => TaskView::Notify(t@),
            ScreenTask::Error(t) => TaskView::Error(t@),
            ScreenTask::FetchServerStats => TaskView::FetchServerStats,
            ScreenTask::ReadVersion(p) => TaskView::ReadVersion(p@),
            ScreenTask::AcquireLock => TaskView::AcquireLock,
            ScreenTask::Send(m) => TaskView::Send(m@),
        }
    }
}

/// The plain values of a list of tasks.
pub open spec fn task_views(v: Seq<ScreenTask>) -> Seq<TaskView> {
    v.map_values(|t: ScreenTask| t@)
}

/// The plain value of an optional list of tasks.
pub open spec fn opt_task_views(v: Option<Vec<ScreenTask>>) -> Option<Seq<TaskView>> {
    match v {
        Some(t) => Some(task_views(t@)),
        None => None,
    }
}


/// What the launch screen keeps.
pub struct LaunchScreenState {
    /// The chosen profile.
    pub profile: Option<String>,
    /// The extra launch arguments, separated by white space.
    pub launch_args: String,
    /// Whether the game is running.
    pub is_running: bool,
    /// The Northstar version of the chosen profile, when known.
    pub version: Option<String>,
    /// Whether the window's start-up work was done.
    pub did_startup: bool,
    pub servers: u32,
    pub players: u32,
}

/// The plain value of the launch screen's state.
pub struct LaunchView {
    pub profile: Option<Seq<char>>,
    pub launch_args: Seq<char>,
    pub is_running: bool,
    pub version: Option<Seq<char>>,
    pub did_startup: bool,
    pub servers: u32,
    pub players: u32,
}

/// The plain value of an optional string.
pub open spec fn opt_seq(o: Option<String>) -> Option<Seq<char>> {
    match o {
        Some(s) => Some(s@),
        None => None,
    }
}

impl View for LaunchScreenState {
    type V = LaunchView;

    open spec fn view(&self) -> LaunchView {
        LaunchView {
            profile: opt_seq(self.profile),
            launch_args: self.launch_args@,
            is_running: self.is_running,
            version: opt_seq(self.version),
            did_startup: self.did_startup,
            servers: self.servers,
            players: self.players,
        }
    }
}

/// The launch screen with some fields changed.
pub open spec fn with_running(s: LaunchView, running: bool) -> LaunchView {
    LaunchView {
        profile: s.profile,
        launch_args: s.launch_args,
        is_running: running,
        version: s.version,
        did_startup: s.did_startup,
        servers: s.servers,
        players: s.players,
    }
}

/// The message as the launch screen leaves it: choosing a profile when one
/// was chosen before swaps the old profile into the message; every other
/// message is left as it was.
pub open spec fn launch_message_after(s: LaunchView, m: MessageView) -> MessageView {
    match m {
        MessageView::SwitchProfile(_) => match s.profile {
            Some(old) => MessageView::SwitchProfile(old),
            None => m,
        },
        _ => m,
    }
}

/// The text of the notice given when the settings are in use.
pub open spec fn busy_notice() -> Seq<char> {
    "flightcore-ng is busy"@
}

/// How the launch screen answers a message: its next state, and the tasks
/// it asks for (`None` when the message is not for it).
///
/// - Launching, when the settings are free, marks the game as running and
///   launches it with the screen's arguments split at white space; when they
///   are in use, it only reports that the launcher is busy.
/// - Choosing a profile takes it and asks for its version, then for the
///   server statistics.
/// - The end of the game marks it as not running, asks for the server
///   statistics, and reports the error it ended with.
/// - New statistics and a known version are kept.
/// - A request for the version reads it for the chosen profile, or forgets
///   the version when no profile is chosen.
/// - The first start-up asks for the server statistics and the version, and
///   then hands the start-up message on; later ones are not for this screen.
pub open spec fn launch_step(s: LaunchView, m: MessageView, settings_free: bool) -> (
    LaunchView,
    Option<Seq<TaskView>>,
) {
    match m {
        MessageView::LaunchGame(p) => if settings_free {
            (with_running(s, true), Some(seq![TaskView::Launch(p, words(s.launch_args))]))
        } else {
            (s, Some(seq![TaskView::Notify(busy_notice())]))
        },
        MessageView::SwitchProfile(p) => (
            LaunchView {
                profile: Some(p),
                launch_args: s.launch_args,
                is_running: s.is_running,
                version: s.version,
                did_startup: s.did_startup,
                servers: s.servers,
                players: s.players,
            },
            Some(
                seq![TaskView::Send(MessageView::NewNorthstarVersion(None)), TaskView::FetchServerStats],
            ),
        ),
        MessageView::GameEnded(result) => (
            with_running(s, false),
            Some(
                match result {
                    Ok(()) => seq![TaskView::FetchServerStats],
                    Err(e) => seq![TaskView::FetchServerStats, TaskView::Error(e)],
                },
            ),
        ),
        MessageView::ServerStatsUpdate(players, servers) => (
            LaunchView {
                profile: s.profile,
                launch_args: s.launch_args,
                is_running: s.is_running,
                version: s.version,
                did_startup: s.did_startup,
                servers: servers,
                players: players,
            },
            Some(Seq::empty()),
        ),
        MessageView::NewNorthstarVersion(Some(v)) => (
            LaunchView {
                profile: s.profile,
                launch_args: s.launch_args,
                is_running: s.is_running,
                version: Some(v),
                did_startup: s.did_startup,
                servers: s.servers,
                players: s.players,
            },
            Some(Seq::empty()),
        ),
        MessageView::NewNorthstarVersion(None) => match s.profile {
            Some(p) => (s, Some(seq![TaskView::ReadVersion(p)])),
            None => (
                LaunchView {
                    profile: s.profile,
                    launch_args: s.launch_args,
                    is_running: s.is_running,
                    version: None,
                    did_startup: s.did_startup,
                    servers: s.servers,
                    players: s.players,
                },
                Some(Seq::empty()),
            ),
        },
        MessageView::Startup => if !s.did_startup {
            (
                LaunchView {
                    profile: s.profile,
                    launch_args: s.launch_args,
                    is_running: s.is_running,
                    version: s.version,
                    did_startup: true,
                    servers: s.servers,
                    players: s.players,
                },
                Some(
                    seq![
                        TaskView::FetchServerStats,
                        TaskView::Send(MessageView::NewNorthstarVersion(None)),
                        TaskView::Send(MessageView::Startup),
                    ],
                ),
            )
        } else {
            (s, None)
        },
        _ => (s, None),
    }
}

fn clone_opt(o: &Option<String>) -> (r: Option<String>)
    ensures
        opt_seq(r) == opt_seq(*o),
{
    match o {
        Some(s) => Some(s.clone()),
        None => None,
    }
}

/// How the launch screen answers a message (see `launch_step`);
/// `settings_free` tells whether the settings could be read right now.
pub fn launch_screen_update(
    state: &mut LaunchScreenState,
    message: &mut ScreenMessage,
    settings_free: bool,
) -> (r: Option<Vec<ScreenTask>>)
    ensures
        (final(state)@, opt_task_views(r)) == launch_step(old(state)@, old(message)@, settings_free),
        final(message)@ == launch_message_after(old(state)@, old(message)@),
{
    proof {
        reveal_strlit("flightcore-ng is busy");
    }
    if let ScreenMessage::SwitchProfile(p) = &*message {
        let new = p.clone();
        match &state.profile {
            Some(old) => {
                *message = ScreenMessage::SwitchProfile(old.clone());
            },
            None => {},
        }
        state.profile = Some(new);
        let tasks = vec![
            ScreenTask::Send(ScreenMessage::NewNorthstarVersion(None)),
            ScreenTask::FetchServerStats,
        ];
        assert(task_views(tasks@) =~= seq![
            TaskView::Send(MessageView::NewNorthstarVersion(None)),
            TaskView::FetchServerStats,
        ]);
        return Some(tasks);
    }
    match &*message {
        ScreenMessage::LaunchGame { profile } => {
            if settings_free {
                state.is_running = true;
                let args = split_words(state.launch_args.as_str());
                let tasks = vec![ScreenTask::Launch { profile: profile.clone(), args }];
                assert(task_views(tasks@) =~= seq![TaskView::Launch(profile@, words(state.launch_args@))]);
                Some(tasks)
            } else {
                let tasks = vec![ScreenTask::Notify(String::from_str("flightcore-ng is busy"))];
                assert(task_views(tasks@) =~= seq![TaskView::Notify(busy_notice())]);
                Some(tasks)
            }
        },
        ScreenMessage::GameEnded(result) => {
            state.is_running = false;
            match result {
                Ok(()) => {
                    let tasks = vec![ScreenTask::FetchServerStats];
                    assert(task_views(tasks@) =~= seq![TaskView::FetchServerStats]);
                    Some(tasks)
                },
                Err(e) => {
                    let tasks = vec![ScreenTask::FetchServerStats, ScreenTask::Error(e.clone())];
                    assert(task_views(tasks@) =~= seq![TaskView::FetchServerStats, TaskView::Error(e@)]);
                    Some(tasks)
                },
            }
        },
        ScreenMessage::ServerStatsUpdate { players_count, servers_count } => {
            state.servers = *servers_count;
            state.players = *players_count;
            let tasks: Vec<ScreenTask> = Vec::new();
            assert(task_views(tasks@) =~= Seq::<TaskView>::empty());
            Some(tasks)
        },
        ScreenMessage::NewNorthstarVersion(Some(v)) => {
            state.version = Some(v.clone());
            let tasks: Vec<ScreenTask> = Vec::new();
            assert(task_views(tasks@) =~= Seq::<TaskView>::empty());
            Some(tasks)
        },
        ScreenMessage::NewNorthstarVersion(None) => {
            match clone_opt(&state.profile) {
                Some(p) => {
                    let tasks = vec![ScreenTask::ReadVersion(p)];
                    assert(task_views(tasks@) =~= seq![TaskView::ReadVersion(opt_seq(state.profile)->0)]);
                    Some(tasks)
                },
                None => {
                    state.version = None;
                    let tasks: Vec<ScreenTask> = Vec::new();
                    assert(task_views(tasks@) =~= Seq::<TaskView>::empty());
                    Some(tasks)
                },
            }
        },
        ScreenMessage::Startup => {
            if !state.did_startup {
                state.did_startup = true;
                let tasks = vec![
                    ScreenTask::FetchServerStats,
                    ScreenTask::Send(ScreenMessage::NewNorthstarVersion(None)),
                    ScreenTask::Send(ScreenMessage::Startup),
                ];
                assert(task_views(tasks@) =~= seq![
                    TaskView::FetchServerStats,
                    TaskView::Send(MessageView::NewNorthstarVersion(None)),
                    TaskView::Send(MessageView::Startup),
                ]);
                Some(tasks)
            } else {
                None
            }
        },
        _ => None,
    }
}


/// What the profiles screen keeps.
pub struct ProfilesScreenState {
    /// The names of the profiles, as last read while the settings were
    /// locked.
    pub cached_profiles: Vec<String>,
    /// Whether the screen holds a write lock on the settings.
    pub locked: bool,
    /// Whether the screen is shown.
    pub focused: bool,
}

/// The plain value of the profiles screen's state.
pub struct ProfilesView {
    pub cached_profiles: Seq<Seq<char>>,
    pub locked: bool,
    pub focused: bool,
}

impl View for ProfilesScreenState {
    type V = ProfilesView;

    open spec fn view(&self) -> ProfilesView {
        ProfilesView {
            cached_profiles: string_views(self.cached_profiles@),
            locked: self.locked,
            focused: self.focused,
        }
    }
}

/// The names of a list of profiles.
pub open spec fn profile_names(profiles: Seq<ProfileConfig>) -> Seq<Seq<char>> {
    profiles.map_values(|p: ProfileConfig| p.name@)
}

/// The error reported when the settings could not be locked.
pub open spec fn lock_failure() -> Seq<char> {
    "Failed to Acquire lock"@
}

/// How the profiles screen answers a message, given the profiles of the
/// settings: being shown asks for a write lock on the settings; being left
/// lets the lock go; a lock obtained while shown is kept, with the names of
/// the profiles; a lock that could not be obtained is reported, and the
/// first screen is shown instead. Other messages are not for this screen.
pub open spec fn profiles_step(s: ProfilesView, m: MessageView, profiles: Seq<ProfileConfig>) -> (
    ProfilesView,
    Option<Seq<TaskView>>,
) {
    match m {
        MessageView::SwitchedTo => (
            ProfilesView { cached_profiles: s.cached_profiles, locked: s.locked, focused: true },
            Some(seq![TaskView::AcquireLock]),
        ),
        MessageView::SwitchedFrom => (
            ProfilesView { cached_profiles: s.cached_profiles, locked: false, focused: false },
            Some(Seq::empty()),
        ),
        MessageView::AcquiredLock(got) => if !s.focused {
            (s, None)
        } else if got {
            (
                ProfilesView {
                    cached_profiles: profile_names(profiles),
                    locked: true,
                    focused: s.focused,
                },
                Some(Seq::empty()),
            )
        } else {
            (
                s,
                Some(
                    seq![
                        TaskView::Error(lock_failure()),
                        TaskView::Send(MessageView::SwitchActiveScreen(0)),
                    ],
                ),
            )
        },
        _ => (s, None),
    }
}

/// The message as the profiles screen leaves it: a lock handed to the
/// screen while it is shown is taken out of the message.
pub open spec fn profiles_message_after(s: ProfilesView, m: MessageView) -> MessageView {
    match m {
        MessageView::AcquiredLock(_) => if s.focused {
            MessageView::AcquiredLock(false)
        } else {
            m
        },
        _ => m,
    }
}

fn profiles_lock_answer(state: &mut ProfilesScreenState, got: bool, profiles: &Vec<ProfileConfig>) -> (r:
    Option<Vec<ScreenTask>>)
    requires
        old(state).focused,
    ensures
        (final(state)@, opt_task_views(r)) == profiles_step(
            old(state)@,
            MessageView::AcquiredLock(got),
            profiles@,
        ),
{
    proof {
        reveal_strlit("Failed to Acquire lock");
    }
    if got {
        let cache = build_profile_cache(profiles);
        assert(string_views(cache@) =~= profile_names(profiles@));
        state.cached_profiles = cache;
        state.locked = true;
        let tasks: Vec<ScreenTask> = Vec::new();
        assert(task_views(tasks@) =~= Seq::<TaskView>::empty());
        Some(tasks)
    } else {
        let tasks = vec![
            ScreenTask::Error(String::from_str("Failed to Acquire lock")),
            ScreenTask::Send(ScreenMessage::SwitchActiveScreen(0)),
        ];
        assert(task_views(tasks@) =~= seq![
            TaskView::Error(lock_failure()),
            TaskView::Send(MessageView::SwitchActiveScreen(0)),
        ]);
        Some(tasks)
    }
}

/// How the profiles screen answers a message (see `profiles_step`).
pub fn profiles_screen_update(
    state: &mut ProfilesScreenState,
    message: &mut ScreenMessage,
    profiles: &Vec<ProfileConfig>,
) -> (r: Option<Vec<ScreenTask>>)
    ensures
        (final(state)@, opt_task_views(r)) == profiles_step(old(state)@, old(message)@, profiles@),
        final(message)@ == profiles_message_after(old(state)@, old(message)@),
{
    if let ScreenMessage::AcquiredLock(_) = &*message {
        if state.focused {
            let got = match &*message {
                ScreenMessage::AcquiredLock(g) => *g,
                _ => false,
            };
            *message = ScreenMessage::AcquiredLock(false);
            return profiles_lock_answer(state, got, profiles);
        }
    }
    match &*message {
        ScreenMessage::SwitchedTo => {
            state.focused = true;
            let tasks = vec![ScreenTask::AcquireLock];
            assert(task_views(tasks@) =~= seq![TaskView::AcquireLock]);
            Some(tasks)
        },
        ScreenMessage::SwitchedFrom => {
            state.focused = false;
            state.locked = false;
            let tasks: Vec<ScreenTask> = Vec::new();
            assert(task_views(tasks@) =~= Seq::<TaskView>::empty());
            Some(tasks)
        },
        _ => None,
    }
}

/// The tasks of a switch between screens: those of the screen left, then
/// those of the screen shown; none at all when the screen shown asks for
/// nothing.
pub open spec fn switch_tasks_spec(left: Option<Seq<TaskView>>, shown: Option<Seq<TaskView>>) -> Seq<
    TaskView,
> {
    match shown {
        None => Seq::empty(),
        Some(t) => match left {
            Some(l) => l + t,
            None => t,
        },
    }
}

/// Joins the tasks of the screen left and of the screen shown (see
/// `switch_tasks_spec`).
pub fn switch_tasks(left: Option<Vec<ScreenTask>>, shown: Option<Vec<ScreenTask>>) -> (r: Vec<
    ScreenTask,
>)
    ensures
        task_views(r@) == switch_tasks_spec(opt_task_views(left), opt_task_views(shown)),
{
    match shown {
        None => {
            let r: Vec<ScreenTask> = Vec::new();
            assert(task_views(r@) =~= Seq::<TaskView>::empty());
            r
        },
        Some(mut t) => match left {
            Some(mut l) => {
                let ghost lv = task_views(l@);
                let ghost tv = task_views(t@);
                l.append(&mut t);
                assert(task_views(l@) =~= lv + tv);
                l
            },
            None => t,
        },
    }
}

/// The answer to a request for a profile's Northstar version: the version
/// recorded by the first core mod that records one; an error when the
/// profile does not exist or no core mod records a version.
pub open spec fn version_answer_spec(profile_exists: bool, recorded: Seq<Option<Seq<char>>>) -> Result<
    Seq<char>,
    Seq<char>,
> {
    if !profile_exists {
        Err("non existent profile"@)
    } else {
        match first_recorded(recorded) {
            Some(v) => Ok(v),
            None => Err(
                "didn't find any good northstar versions on the current profile; it might be broken"@,
            ),
        }
    }
}

/// The first version that is recorded.
pub open spec fn first_recorded(recorded: Seq<Option<Seq<char>>>) -> Option<Seq<char>>
    decreases recorded.len(),
{
    if recorded.len() == 0 {
        None
    } else {
        match recorded[0] {
            Some(v) => Some(v),
            None => first_recorded(recorded.drop_first()),
        }
    }
}

/// The plain values of a list of optional strings.
pub open spec fn opt_seqs(v: Seq<Option<String>>) -> Seq<Option<Seq<char>>> {
    v.map_values(|o: Option<String>| opt_seq(o))
}

proof fn lemma_first_recorded_step(recorded: Seq<Option<Seq<char>>>, i: int)
    requires
        0 <= i < recorded.len(),
        forall|k: int| 0 <= k < i ==> recorded[k] is None,
    ensures
        recorded[i] is Some ==> first_recorded(recorded) == recorded[i],
        recorded[i] is None ==> first_recorded(recorded) == first_recorded(recorded.skip(i + 1)),
    decreases i,
{
    if i > 0 {
        lemma_first_recorded_step(recorded.drop_first(), i - 1);
        assert(recorded.drop_first().skip(i) =~= recorded.skip(i + 1));
    } else {
        assert(recorded.skip(1) =~= recorded.drop_first());
    }
}

/// Answers a request for a profile's Northstar version (see
/// `version_answer_spec`), from whether the profile exists and the version
/// each core mod records (`None` when its `mod.json` could not be read).
pub fn version_answer(profile_exists: bool, recorded: &Vec<Option<String>>) -> (r: Result<String, String>)
    ensures
        match r {
            Ok(v) => version_answer_spec(profile_exists, opt_seqs(recorded@)) == Ok::<
                Seq<char>,
                Seq<char>,
            >(v@),
            Err(e) => version_answer_spec(profile_exists, opt_seqs(recorded@)) == Err::<
                Seq<char>,
                Seq<char>,
            >(e@),
        },
{
    proof {
        reveal_strlit("non existent profile");
        reveal_strlit(
            "didn't find any good northstar versions on the current profile; it might be broken",
        );
    }
    if !profile_exists {
        return Err(String::from_str("non existent profile"));
    }
    let ghost rs = opt_seqs(recorded@);
    let mut i: usize = 0;
    assert(rs.skip(0) =~= rs);
    while i < recorded.len()
        invariant
            i <= recorded.len(),
            profile_exists,
            rs == opt_seqs(recorded@),
            forall|k: int| 0 <= k < i ==> rs[k] is None,
            first_recorded(rs) == first_recorded(rs.skip(i as int)),
        decreases recorded.len() - i,
    {
        proof {
            assert(rs[i as int] == opt_seq(recorded@[i as int]));
            lemma_first_recorded_step(rs, i as int);
        }
        match &recorded[i] {
            Some(v) => {
                let c = v.clone();
                assert(rs[i as int] == Some(c@));
                return Ok(c);
            },
            None => {},
        }
        i = i + 1;
    }
    assert(rs.skip(i as int) =~= Seq::<Option<Seq<char>>>::empty());
    Err(
        String::from_str(
            "didn't find any good northstar versions on the current profile; it might be broken",
        ),
    )
}


/// The window's start-up work is done once: the first start-up message is
/// answered by the launch screen, and from the state it leaves, a second
/// one is not for it.
pub proof fn lemma_startup_once(s: LaunchView, settings_free: bool)
    requires
        !s.did_startup,
    ensures
        launch_step(s, MessageView::Startup, settings_free).1 is Some,
        launch_step(
            launch_step(s, MessageView::Startup, settings_free).0,
            MessageView::Startup,
            settings_free,
        ).1 is None,
{
}

/// The profiles screen holds the lock on the settings only while it is
/// shown: every message keeps that so.
pub proof fn lemma_lock_only_while_shown(s: ProfilesView, m: MessageView, profiles: Seq<ProfileConfig>)
    requires
        s.locked ==> s.focused,
    ensures
        profiles_step(s, m, profiles).0.locked ==> profiles_step(s, m, profiles).0.focused,
{
}


/// What the launch screen shows where the game is started.
pub enum LaunchButton {
    /// A button that launches the game with this profile: pressing it sends
    /// `LaunchGame` for the profile.
    Launch(String),
    /// A button marked as running, which does nothing, while the game runs.
    Running,
    /// The hint `Go to profiles tab`, when no profile is chosen.
    ChooseProfile,
}

/// The plain value of what is shown where the game is started.
pub enum ButtonView {
    Launch(Seq<char>),
    Running,
    ChooseProfile,
}

impl View for LaunchButton {
    type V = ButtonView;

    open spec fn view(&self) -> ButtonView {
        match self {
            LaunchButton::Launch(p) => ButtonView::Launch(p@),
            LaunchButton::Running => ButtonView::Running,
            LaunchButton::ChooseProfile => ButtonView::ChooseProfile,
        }
    }
}

/// What the launch screen shows where the game is started: while the game
/// runs, the running button; otherwise a button that launches the chosen
/// profile, or the hint to choose one when none is chosen.
pub open spec fn launch_button_spec(is_running: bool, profile: Option<Seq<char>>) -> ButtonView {
    if is_running {
        ButtonView::Running
    } else {
        match profile {
            Some(p) => ButtonView::Launch(p),
            None => ButtonView::ChooseProfile,
        }
    }
}

/// What the launch screen shows where the game is started (see
/// `launch_button_spec`).
pub fn launch_button(is_running: bool, profile: &Option<String>) -> (r: LaunchButton)
    ensures
        r@ == launch_button_spec(is_running, opt_seq(*profile)),
{
    if is_running {
        LaunchButton::Running
    } else {
        match profile {
            Some(p) => LaunchButton::Launch(p.clone()),
            None => LaunchButton::ChooseProfile,
        }
    }
}

/// Everything the launch screen shows that depends on its state: the
/// button where the game is started, the version line and the line of
/// server statistics.
pub struct LaunchScreenView {
    pub button: LaunchButton,
    pub version_line: String,
    pub stats_line: String,
}

/// What the launch screen shows for its state (see `launch_button_spec`,
/// `version_line` and `stats_line`).
pub fn launch_screen_view(state: &LaunchScreenState) -> (r: LaunchScreenView)
    ensures
        r.button@ == launch_button_spec(state.is_running, opt_seq(state.profile)),
        r.version_line@ == version_line(opt_seq(state.version)),
        r.stats_line@ == stats_line(state.players, state.servers),
{
    LaunchScreenView {
        button: launch_button(state.is_running, &state.profile),
        version_line: version_label(&state.version),
        stats_line: stats_label(state.players, state.servers),
    }
}

/// The message that ends a launch of the game with `profile`: the launch
/// failing, the game failing while it ran, or the game ending well.
pub open spec fn game_end(profile: Seq<char>, launched: bool, ran: bool) -> MessageView {
    if !launched {
        MessageView::GameEnded(Err("failed to step profile : "@ + profile))
    } else if !ran {
        MessageView::GameEnded(Err("game failed while running profile : "@ + profile))
    } else {
        MessageView::GameEnded(Ok(()))
    }
}

/// The message that ends a launch of the game (see `game_end`); whether the
/// run succeeded matters only when the launch did.
pub fn game_ended(profile: &str, launched: bool, ran: bool) -> (r: ScreenMessage)
    ensures
        r@ == game_end(profile@, launched, ran),
{
    if !launched {
        let mut e = String::from_str("failed to step profile : ");
        e.append(profile);
        ScreenMessage::GameEnded(Err(e))
    } else if !ran {
        let mut e = String::from_str("game failed while running profile : ");
        e.append(profile);
        ScreenMessage::GameEnded(Err(e))
    } else {
        ScreenMessage::GameEnded(Ok(()))
    }
}

/// The screen shown: the active one when it exists, otherwise the first.
pub fn shown_screen(active: usize, count: usize) -> (r: usize)
    ensures
        active < count ==> r == active,
        active >= count ==> r == 0,
{
    if active < count {
        active
    } else {
        0
    }
}

/// Whether the profiles screen, while it cannot lock the settings, lists
/// the profiles it last read (with a notice that the launcher is busy), or
/// shows only that notice because it read none.
pub fn lists_cached_profiles(cached_profiles: &Vec<String>) -> (r: bool)
    ensures
        r == (cached_profiles@.len() > 0),
{
    cached_profiles.len() > 0
}

} // verus!
