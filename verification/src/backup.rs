//! Numbering of backup copies: a backup of `name` is written next to it as
//! `name.bakN`, where `N` is the highest backup number found among the
//! files around it.
use vstd::prelude::*;
use crate::decimal::{decimal, parse_unsigned, parse_u32, u64_to_decimal};
use crate::bootstrap::Os;
use crate::paths::{join_on, join_path_on};
use crate::text::{extension, file_extension, starts_with};

verus! {

/// The backup number that the file `entry` contributes when a backup of
/// `file_name` is made: files whose name starts with `file_name` are passed
/// over; any other file whose extension starts with `bak` contributes the
/// number written after `bak`, when that text reads as a `u32`.
pub open spec fn entry_backup_number(file_name: Seq<char>, entry: Seq<char>) -> Option<nat> {
    if file_name.is_prefix_of(entry) {
        None
    } else {
        match file_extension(entry) {
            Some(ext) => if seq!['b', 'a', 'k'].is_prefix_of(ext) {
                parse_unsigned(ext.skip(3), u32::MAX as nat)
            } else {
                None
            },
            None => None,
        }
    }
}

/// The largest backup number contributed by `entries`, or 0 when none
/// contributes one.
pub open spec fn max_backup_number(file_name: Seq<char>, entries: Seq<Seq<char>>) -> nat
    decreases entries.len(),
{
    if entries.len() == 0 {
        0
    } else {
        let m = max_backup_number(file_name, entries.drop_last());
        match entry_backup_number(file_name, entries.last()) {
            Some(b) => if b > m {
                b
            } else {
                m
            },
            None => m,
        }
    }
}

/// The views of a list of strings.
pub open spec fn views(v: Seq<String>) -> Seq<Seq<char>> {
    v.map_values(|s: String| s@)
}

/// The backup number contributed by the file named `entry` (see
/// `entry_backup_number`).
pub fn backup_number(file_name: &str, entry: &str) -> (r: Option<u32>)
    ensures
        r matches Some(b) ==> entry_backup_number(file_name@, entry@) == Some(b as nat),
        r is None ==> entry_backup_number(file_name@, entry@) is None,
{
    if starts_with(entry, file_name) {
        return None;
    }
    match extension(entry) {
        None => None,
        Some(ext) => {
            let e = ext.as_str();
            proof { reveal_strlit("bak"); }
            if starts_with(e, "bak") {
                let n = e.unicode_len();
                let digits = e.substring_char(3, n);
                assert(digits@ =~= e@.skip(3));
                parse_u32(digits)
            } else {
                None
            }
        },
    }
}

/// The largest backup number among the files named in `entries` (0 when
/// there is none).
pub fn max_backup(file_name: &str, entries: &Vec<String>) -> (r: u32)
    ensures
        r as nat == max_backup_number(file_name@, views(entries@)),
{
    let mut m: u32 = 0;
    let mut i: usize = 0;
    while i < entries.len()
        invariant
            i <= entries.len(),
            m as nat == max_backup_number(file_name@, views(entries@).take(i as int)),
        decreases entries.len() - i,
    {
        let b = backup_number(file_name, entries[i].as_str());
        proof {
            let t = views(entries@).take(i + 1);
            assert(t.drop_last() =~= views(entries@).take(i as int));
            assert(t.last() == entries@[i as int]@);
        }
        match b {
            Some(b) => {
                if b > m {
                    m = b;
                }
            },
            None => {},
        }
        i = i + 1;
    }
    assert(views(entries@).take(i as int) =~= views(entries@));
    m
}

/// The name given to backup number `n` of `file_name`: `file_name.bakN`.
pub open spec fn backup_name(file_name: Seq<char>, n: nat) -> Seq<char> {
    file_name + seq!['.', 'b', 'a', 'k'] + decimal(n)
}

/// The path of backup number `n` of the file `file_name` in the directory
/// `parent`, joined as `os` joins paths.
pub fn backup_path(os: Os, parent: &str, file_name: &str, n: u32) -> (r: String)
    ensures
        r@ == join_path_on(os, parent@, backup_name(file_name@, n as nat)),
{
    let mut name = String::from_str(file_name);
    proof { reveal_strlit(".bak"); }
    name.append(".bak");
    let digits = u64_to_decimal(n as u64);
    name.append(digits.as_str());
    join_on(os, parent, name.as_str())
}

/// The backup number chosen for a file is at least the number that any
/// file around it contributes, and it is either 0 or the number of one of
/// them.
pub proof fn lemma_max_backup_is_max(file_name: Seq<char>, entries: Seq<Seq<char>>)
    ensures
        forall|i: int| #![trigger entries[i]]
            0 <= i < entries.len() ==> (entry_backup_number(file_name, entries[i]) matches Some(b)
                ==> b <= max_backup_number(file_name, entries)),
        max_backup_number(file_name, entries) == 0 || exists|i: int|
            0 <= i < entries.len() && entry_backup_number(file_name, #[trigger] entries[i])
                == Some(max_backup_number(file_name, entries)),
    decreases entries.len(),
{
    if entries.len() > 0 {
        let init = entries.drop_last();
        lemma_max_backup_is_max(file_name, init);
        assert forall|i: int| #![trigger entries[i]]
            0 <= i < entries.len() implies (entry_backup_number(file_name, entries[i]) matches Some(b)
                ==> b <= max_backup_number(file_name, entries)) by {
            if i < entries.len() - 1 {
                assert(entries[i] == init[i]);
            }
        }
        let m = max_backup_number(file_name, entries);
        if m != 0 && m == max_backup_number(file_name, init) {
            let i = choose|i: int|
                0 <= i < init.len() && entry_backup_number(file_name, #[trigger] init[i]) == Some(
                    max_backup_number(file_name, init),
                );
            assert(entries[i] == init[i]);
        } else if m != 0 {
            assert(entry_backup_number(file_name, entries[entries.len() - 1]) == Some(m));
        }
    }
}

/// Every file that already holds a backup of `file_name` starts with
/// `file_name`, so it contributes no number to the next backup of it.
pub proof fn lemma_own_backups_not_counted(file_name: Seq<char>, n: nat)
    ensures
        entry_backup_number(file_name, backup_name(file_name, n)) is None,
{
    let b = backup_name(file_name, n);
    assert(file_name =~= b.subrange(0, file_name.len() as int));
}

} // verus!
