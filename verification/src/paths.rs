//! Paths joined the way `PathBuf::join` joins them, on Unix and on Windows,
//! and the launcher's own directories.
use vstd::prelude::*;
use crate::bootstrap::Os;

verus! {

/// `base` joined with `rel` the way `PathBuf::join` does on Unix: an
/// absolute `rel` replaces `base`; otherwise a separator is put between them
/// when `base` is not empty and does not already end with one.
pub open spec fn join_path(base: Seq<char>, rel: Seq<char>) -> Seq<char> {
    if rel.len() > 0 && rel[0] == '/' {
        rel
    } else if base.len() > 0 && base.last() != '/' {
        base + seq!['/'] + rel
    } else {
        base + rel
    }
}

/// Joins `rel` onto `base` as on Unix (see `join_path`).
pub fn join(base: &str, rel: &str) -> (r: String)
    ensures
        r@ == join_path(base@, rel@),
{
    let rel_len = rel.unicode_len();
    if rel_len > 0 && rel.get_char(0) == '/' {
        return String::from_str(rel);
    }
    let base_len = base.unicode_len();
    let mut r = String::from_str(base);
    if base_len > 0 && base.get_char(base_len - 1) != '/' {
        proof { reveal_strlit("/"); }
        r.append("/");
    }
    r.append(rel);
    r
}

/// The scratch directory inside the launcher's local data directory.
pub fn tmp_dir(os: Os, local_dir: &str) -> (r: String)
    ensures
        r@ == join_path_on(os, local_dir@, "tmp"@),
{
    join_on(os, local_dir, "tmp")
}

/// The directory that holds the Proton build used to run the game (Proton
/// and Wine run on Linux only, so the path is joined as there).
pub fn proton_dir(local_dir: &str) -> (r: String)
    ensures
        r@ == join_path(local_dir@, "proton"@),
{
    join(local_dir, "proton")
}

/// The Wine prefix the game runs in (joined as on Linux).
pub fn wine_dir(local_dir: &str) -> (r: String)
    ensures
        r@ == join_path(local_dir@, "wine"@),
{
    join(local_dir, "wine")
}

/// Wine counts as installed when both the Proton directory and the Wine
/// prefix exist. Each argument says whether that directory exists, or is
/// `None` when its path could not be determined.
pub fn is_wine_installed(proton_exists: Option<bool>, wine_exists: Option<bool>) -> (r: bool)
    ensures
        r == (proton_exists == Some(true) && wine_exists == Some(true)),
{
    let proton = match proton_exists {
        Some(b) => b,
        None => false,
    };
    let wine = match wine_exists {
        Some(b) => b,
        None => false,
    };
    proton && wine
}

/// Joining a relative name onto a directory keeps the directory as a prefix
/// of the result.
pub proof fn lemma_join_keeps_base(base: Seq<char>, rel: Seq<char>)
    requires
        !(rel.len() > 0 && rel[0] == '/'),
    ensures
        base.is_prefix_of(join_path(base, rel)),
        rel.is_suffix_of(join_path(base, rel)),
{
    let j = join_path(base, rel);
    if base.len() > 0 && base.last() != '/' {
        assert(j =~= base + (seq!['/'] + rel));
        assert(base =~= j.subrange(0, base.len() as int));
        assert(rel =~= j.subrange(j.len() - rel.len(), j.len() as int));
    } else {
        assert(base =~= j.subrange(0, base.len() as int));
        assert(rel =~= j.subrange(j.len() - rel.len(), j.len() as int));
    }
}


/// A separator of Windows paths: `\` or `/`.
pub open spec fn is_win_sep(c: char) -> bool {
    c == '\\' || c == '/'
}

/// A path that starts with a drive, such as `C:`.
pub open spec fn has_drive(p: Seq<char>) -> bool {
    p.len() >= 2 && p[1] == ':' && ((65 <= (p[0] as u32) <= 90) || (97 <= (p[0] as u32) <= 122))
}

/// A path that starts with two separators: a UNC, device or verbatim
/// prefix.
pub open spec fn double_sep(p: Seq<char>) -> bool {
    p.len() >= 2 && is_win_sep(p[0]) && is_win_sep(p[1])
}

/// `base` joined with `rel` the way `PathBuf::join` does on Windows, for a
/// base without a UNC, device or verbatim prefix: a `rel` with a prefix
/// replaces `base`; a `rel` that starts with a separator keeps only the
/// drive of `base`; otherwise a `\` is put between them unless `base` is
/// empty, ends with a separator, or is a drive alone.
pub open spec fn windows_join_path(base: Seq<char>, rel: Seq<char>) -> Seq<char> {
    if has_drive(rel) || double_sep(rel) {
        rel
    } else if rel.len() > 0 && is_win_sep(rel[0]) {
        if has_drive(base) {
            base.take(2) + rel
        } else {
            rel
        }
    } else if base.len() > 0 && !is_win_sep(base.last()) && !(base.len() == 2 && has_drive(base)) {
        base + seq!['\\'] + rel
    } else {
        base + rel
    }
}

/// `base` joined with `rel` the way `PathBuf::join` does on `os`: Windows
/// paths as `windows_join_path` says, others as on Unix (`join_path`).
pub open spec fn join_path_on(os: Os, base: Seq<char>, rel: Seq<char>) -> Seq<char> {
    if os == Os::Windows {
        windows_join_path(base, rel)
    } else {
        join_path(base, rel)
    }
}

fn drive_at_start(p: &str) -> (r: bool)
    ensures
        r == has_drive(p@),
{
    let n = p.unicode_len();
    if n < 2 || p.get_char(1) != ':' {
        return false;
    }
    let c = p.get_char(0) as u32;
    (65 <= c && c <= 90) || (97 <= c && c <= 122)
}

/// Joins `rel` onto `base` as `os` does (see `join_path_on`).
pub fn join_on(os: Os, base: &str, rel: &str) -> (r: String)
    ensures
        r@ == join_path_on(os, base@, rel@),
{
    if os != Os::Windows {
        return join(base, rel);
    }
    proof {
        reveal_strlit("\\");
    }
    let rn = rel.unicode_len();
    let bn = base.unicode_len();
    let rel_double = rn >= 2 && (rel.get_char(0) == '\\' || rel.get_char(0) == '/') && (rel.get_char(1)
        == '\\' || rel.get_char(1) == '/');
    if drive_at_start(rel) || rel_double {
        return String::from_str(rel);
    }
    if rn > 0 && (rel.get_char(0) == '\\' || rel.get_char(0) == '/') {
        if drive_at_start(base) {
            let mut r = String::from_str(base.substring_char(0, 2));
            assert(base@.subrange(0, 2) =~= base@.take(2));
            r.append(rel);
            return r;
        }
        return String::from_str(rel);
    }
    let mut r = String::from_str(base);
    if bn > 0 {
        let last = base.get_char(bn - 1);
        let drive_alone = bn == 2 && drive_at_start(base);
        if last != '\\' && last != '/' && !drive_alone {
            r.append("\\");
        }
    }
    r.append(rel);
    r
}

} // verus!
