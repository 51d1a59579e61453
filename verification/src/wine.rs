//! Running the game under Wine through `umu-run`: its environment and the
//! command lines for a normal and a debugging run.
use vstd::prelude::*;
use crate::text::string_views;

verus! {

/// The plain values of a list of string pairs.
pub open spec fn pair_views(v: Seq<(String, String)>) -> Seq<(Seq<char>, Seq<char>)> {
    v.map_values(|p: (String, String)| (p.0@, p.1@))
}

/// The environment `umu-run` gets: the fixed settings, then the Wine
/// prefix and the Proton directory.
pub open spec fn wine_environment(wine_prefix: Seq<char>, proton: Seq<char>) -> Seq<(Seq<char>, Seq<char>)> {
    seq![
        ("UMU_ZENITY"@, "1"@),
        ("LD_LIBRARY_PATH"@, ""@),
        ("LD_PRELOAD"@, ""@),
        ("STORE"@, "ea"@),
        ("WINEDEBUG"@, "fixme-all"@),
        ("GAMEID"@, "umu-0"@),
        ("PROTON_VERB"@, "run"@),
        ("WINEPREFIX"@, wine_prefix),
        ("PROTONPATH"@, proton),
    ]
}

fn push_pair(v: &mut Vec<(String, String)>, k: &str, x: &str)
    ensures
        pair_views(final(v)@) == pair_views(old(v)@).push((k@, x@)),
{
    v.push((String::from_str(k), String::from_str(x)));
    assert(pair_views(v@) =~= pair_views(old(v)@).push((k@, x@)));
}

/// The environment for running a Windows program with `umu-run` (see
/// `wine_environment`).
pub fn wine_env(wine_prefix: &str, proton: &str) -> (r: Vec<(String, String)>)
    ensures
        pair_views(r@) == wine_environment(wine_prefix@, proton@),
{
    let mut r: Vec<(String, String)> = Vec::new();
    push_pair(&mut r, "UMU_ZENITY", "1");
    push_pair(&mut r, "LD_LIBRARY_PATH", "");
    push_pair(&mut r, "LD_PRELOAD", "");
    push_pair(&mut r, "STORE", "ea");
    push_pair(&mut r, "WINEDEBUG", "fixme-all");
    push_pair(&mut r, "GAMEID", "umu-0");
    push_pair(&mut r, "PROTON_VERB", "run");
    push_pair(&mut r, "WINEPREFIX", wine_prefix);
    push_pair(&mut r, "PROTONPATH", proton);
    assert(pair_views(r@) =~= wine_environment(wine_prefix@, proton@));
    r
}

fn push_text(v: &mut Vec<String>, s: &str)
    ensures
        string_views(final(v)@) == string_views(old(v)@).push(s@),
{
    v.push(String::from_str(s));
    assert(string_views(v@) =~= string_views(old(v)@).push(s@));
}

fn push_all(v: &mut Vec<String>, extra: &Vec<String>)
    ensures
        string_views(final(v)@) == string_views(old(v)@) + string_views(extra@),
{
    let mut i: usize = 0;
    while i < extra.len()
        invariant
            i <= extra.len(),
            string_views(v@) == string_views(old(v)@) + string_views(extra@).take(i as int),
        decreases extra.len() - i,
    {
        push_text(v, extra[i].as_str());
        assert(string_views(extra@).take(i + 1) =~= string_views(extra@).take(i as int).push(
            extra@[i as int]@,
        ));
        assert(string_views(old(v)@) + string_views(extra@).take(i + 1) =~= (string_views(old(v)@)
            + string_views(extra@).take(i as int)).push(extra@[i as int]@));
        i = i + 1;
    }
    assert(string_views(extra@).take(i as int) =~= string_views(extra@));
}

/// The arguments that start `program` with `args` through `umu-run` and
/// Wine's `start.exe`, in the Wine prefix, as an argument list that follows
/// the command the caller gives.
pub fn wine_start_args(program: &str, args: &Vec<String>) -> (r: Vec<String>)
    ensures
        string_views(r@) == seq!["umu-run"@, "start.exe"@, "/b"@, "/unix"@, program@] + string_views(
            args@,
        ),
{
    let mut r: Vec<String> = Vec::new();
    push_text(&mut r, "umu-run");
    push_text(&mut r, "start.exe");
    push_text(&mut r, "/b");
    push_text(&mut r, "/unix");
    push_text(&mut r, program);
    let ghost head = string_views(r@);
    assert(head =~= seq!["umu-run"@, "start.exe"@, "/b"@, "/unix"@, program@]);
    push_all(&mut r, args);
    r
}

/// The arguments `umu-run` gets to run `program` with `args`.
pub fn wine_run_args(program: &str, args: &Vec<String>) -> (r: Vec<String>)
    ensures
        string_views(r@) == seq![program@] + string_views(args@),
{
    let mut r: Vec<String> = Vec::new();
    push_text(&mut r, program);
    assert(string_views(r@) =~= seq![program@]);
    push_all(&mut r, args);
    r
}

/// The arguments the game always gets under Wine, after the caller's: the
/// launcher must not wait for Origin, may run beside other instances and
/// runs Northstar; `-vanilla` is added for an unmodded run.
pub open spec fn game_arguments(launch_args: Seq<Seq<char>>, vanilla: bool) -> Seq<Seq<char>> {
    let fixed = launch_args + seq!["-noOriginStartup"@, "-multiple"@, "-northstar"@];
    if vanilla {
        fixed.push("-vanilla"@)
    } else {
        fixed
    }
}

/// The full argument list of the game under Wine (see `game_arguments`).
pub fn game_args(launch_args: &Vec<String>, vanilla: bool) -> (r: Vec<String>)
    ensures
        string_views(r@) == game_arguments(string_views(launch_args@), vanilla),
{
    let mut r: Vec<String> = Vec::new();
    push_all(&mut r, launch_args);
    push_text(&mut r, "-noOriginStartup");
    push_text(&mut r, "-multiple");
    push_text(&mut r, "-northstar");
    if vanilla {
        push_text(&mut r, "-vanilla");
    }
    assert(string_views(r@) =~= game_arguments(string_views(launch_args@), vanilla));
    r
}

/// The arguments joined into one line, two spaces between neighbours.
pub open spec fn joined(args: Seq<Seq<char>>) -> Seq<char>
    recommends
        args.len() > 0,
    decreases args.len(),
{
    if args.len() <= 1 {
        args[0]
    } else {
        joined(args.drop_last()) + seq![' ', ' '] + args.last()
    }
}

/// The `gdb` arguments for a debugging run of `exe`: the game's arguments
/// followed by `-waitfordebugger`, joined into one `set args` command, then
/// `run` and `c`.
pub open spec fn debug_arguments(exe: Seq<char>, game_args: Seq<Seq<char>>) -> Seq<Seq<char>> {
    seq![
        exe,
        "-ex"@,
        "set args "@ + joined(game_args.push("-waitfordebugger"@)),
        "-ex"@,
        "run"@,
        "-ex"@,
        "c"@,
    ]
}

/// The `gdb` arguments for a debugging run (see `debug_arguments`).
pub fn debug_args(exe: &str, game_args: &Vec<String>) -> (r: Vec<String>)
    ensures
        string_views(r@) == debug_arguments(exe@, string_views(game_args@)),
{
    let mut all: Vec<String> = Vec::new();
    push_all(&mut all, game_args);
    push_text(&mut all, "-waitfordebugger");
    let ghost a = string_views(all@);
    assert(a =~= string_views(game_args@).push("-waitfordebugger"@));
    let mut line = String::from_str("set args ");
    line.append(all[0].as_str());
    proof {
        reveal_strlit("  ");
        assert(a[0] == all@[0]@);
        assert(a.take(1) =~= seq![a[0]]);
    }
    let mut i: usize = 1;
    while i < all.len()
        invariant
            1 <= i <= all.len(),
            a == string_views(all@),
            "  "@ == seq![' ', ' '],
            line@ == "set args "@ + joined(a.take(i as int)),
        decreases all.len() - i,
    {
        line.append("  ");
        line.append(all[i].as_str());
        proof {
            assert(a.take(i + 1).drop_last() =~= a.take(i as int));
            assert(a.take(i + 1).last() == all@[i as int]@);
            assert("set args "@ + joined(a.take(i + 1)) =~= "set args "@ + joined(a.take(i as int))
                + seq![' ', ' '] + all@[i as int]@);
        }
        i = i + 1;
    }
    assert(a.take(i as int) =~= a);
    let mut r: Vec<String> = Vec::new();
    push_text(&mut r, exe);
    push_text(&mut r, "-ex");
    let ghost before = r@;
    r.push(line);
    assert(string_views(r@) =~= string_views(before).push(r@[2]@));
    push_text(&mut r, "-ex");
    push_text(&mut r, "run");
    push_text(&mut r, "-ex");
    push_text(&mut r, "c");
    assert(string_views(r@) =~= debug_arguments(exe@, string_views(game_args@)));
    r
}

} // verus!
