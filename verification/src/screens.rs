//! What the launcher's window shows and how it moves between its screens.
use vstd::prelude::*;
use crate::decimal::{decimal, u64_to_decimal};

verus! {

/// What a request to show screen `index` leads to.
#[derive(Debug, Clone, Copy, PartialEq, Eq, Structural)]
pub enum SwitchOutcome {
    /// Leave screen `from` and show screen `to`.
    Switch { from: usize, to: usize },
    /// The screen is already shown; nothing happens.
    Stay,
    /// There is no such screen.
    NoSuchScreen,
}

/// Switching from the shown screen `active` to screen `index` out of
/// `count` screens: a different existing screen is switched to, the shown
/// one stays, anything else is refused.
pub fn switch_screen(active: usize, count: usize, index: usize) -> (r: SwitchOutcome)
    ensures
        index < count && index != active ==> r == (SwitchOutcome::Switch { from: active, to: index }),
        index == active ==> r == SwitchOutcome::Stay,
        index >= count && index != active ==> r == SwitchOutcome::NoSuchScreen,
{
    if index < count && index != active {
        SwitchOutcome::Switch { from: active, to: index }
    } else if index == active {
        SwitchOutcome::Stay
    } else {
        SwitchOutcome::NoSuchScreen
    }
}

/// The sum of the player counts.
pub open spec fn total_players(counts: Seq<u32>) -> int
    decreases counts.len(),
{
    if counts.len() == 0 {
        0
    } else {
        total_players(counts.drop_last()) + counts.last()
    }
}

proof fn lemma_total_players_prefix(counts: Seq<u32>, i: int)
    requires
        0 <= i <= counts.len(),
    ensures
        0 <= total_players(counts.take(i)) <= total_players(counts),
    decreases counts.len() - i,
{
    if i < counts.len() {
        lemma_total_players_prefix(counts, i + 1);
        assert(counts.take(i + 1).drop_last() =~= counts.take(i));
    } else {
        assert(counts.take(i) =~= counts);
    }
    lemma_total_players_nonneg(counts.take(i));
}

proof fn lemma_total_players_nonneg(counts: Seq<u32>)
    ensures
        total_players(counts) >= 0,
    decreases counts.len(),
{
    if counts.len() > 0 {
        lemma_total_players_nonneg(counts.drop_last());
    }
}

/// The statistics shown for the server list: the number of players in
/// all servers, and the number of servers (as a `u32`, keeping the low 32
/// bits). The player total must fit in a `u32`.
pub fn server_stats(player_counts: &Vec<u32>) -> (r: (u32, u32))
    requires
        total_players(player_counts@) <= u32::MAX,
    ensures
        r.0 == total_players(player_counts@),
        r.1 == player_counts@.len() as u32,
{
    let mut sum: u32 = 0;
    let mut i: usize = 0;
    while i < player_counts.len()
        invariant
            i <= player_counts.len(),
            total_players(player_counts@) <= u32::MAX,
            sum == total_players(player_counts@.take(i as int)),
        decreases player_counts.len() - i,
    {
        proof {
            lemma_total_players_prefix(player_counts@, i + 1);
            assert(player_counts@.take(i + 1).drop_last() =~= player_counts@.take(i as int));
        }
        sum = sum + player_counts[i];
        i = i + 1;
    }
    assert(player_counts@.take(i as int) =~= player_counts@);
    (sum, player_counts.len() as u32)
}

/// The version line of the launch screen.
pub open spec fn version_line(version: Option<Seq<char>>) -> Seq<char> {
    match version {
        Some(v) => "version: "@ + v,
        None => "version: unknown"@,
    }
}

/// The version line of the launch screen (see `version_line`).
pub fn version_label(version: &Option<String>) -> (r: String)
    ensures
        r@ == version_line(
            match version {
                Some(v) => Some(v@),
                None => None,
            },
        ),
{
    match version {
        Some(v) => {
            let mut s = String::from_str("version: ");
            s.append(v.as_str());
            s
        },
        None => String::from_str("version: unknown"),
    }
}

/// The statistics line of the launch screen: `P players, S servers`.
pub open spec fn stats_line(players: u32, servers: u32) -> Seq<char> {
    decimal(players as nat) + " players, "@ + decimal(servers as nat) + " servers"@
}

/// The statistics line of the launch screen (see `stats_line`).
pub fn stats_label(players: u32, servers: u32) -> (r: String)
    ensures
        r@ == stats_line(players, servers),
{
    let mut s = u64_to_decimal(players as u64);
    s.append(" players, ");
    let sv = u64_to_decimal(servers as u64);
    s.append(sv.as_str());
    s.append(" servers");
    s
}

} // verus!
