//! Telling whether a Northstar version is already installed in a profile,
//! from its core mods' recorded versions and the version resource of its
//! launcher library.
use vstd::prelude::*;
use pelite::pe64::Pe;
use crate::text::{eq, strip_v, without_v};

verus! {

/// What was found about one core mod of the profile.
pub struct CoreModState {
    /// Whether the mod's directory exists.
    pub exists: bool,
    /// The version recorded in its `mod.json`, or `None` when the file could
    /// not be read or holds no version.
    pub version: Option<String>,
}

/// The plain values of the core mods' states.
pub open spec fn mod_views(mods: Seq<CoreModState>) -> Seq<(bool, Option<Seq<char>>)> {
    mods.map_values(
        |m: CoreModState|
            (
                m.exists,
                match m.version {
                    Some(v) => Some(v@),
                    None => None,
                },
            ),
    )
}

/// The core mods rule the version out when one of them is missing and one
/// of them does not record that version.
pub open spec fn core_mods_rule_out(mods: Seq<(bool, Option<Seq<char>>)>, version: Seq<char>) -> bool {
    (exists|i: int| 0 <= i < mods.len() && !(#[trigger] mods[i]).0) && (exists|i: int|
        0 <= i < mods.len() && (#[trigger] mods[i]).1 != Some(version))
}

/// What the version resource of the launcher library holds.
pub enum PeVersionInfo {
    /// The bytes are not a 64-bit PE image.
    NotPe,
    /// The image has no version resource, or it names no language.
    NoVersionInfo,
    /// The string entries (key, value) of the first language.
    Strings(Vec<(String, String)>),
}

/// The plain value of a version resource.
pub enum PeVersionView {
    NotPe,
    NoVersionInfo,
    Strings(Seq<(Seq<char>, Seq<char>)>),
}

impl View for PeVersionInfo {
    type V = PeVersionView;

    open spec fn view(&self) -> PeVersionView {
        match self {
            PeVersionInfo::NotPe => PeVersionView::NotPe,
            PeVersionInfo::NoVersionInfo => PeVersionView::NoVersionInfo,
            PeVersionInfo::Strings(v) => PeVersionView::Strings(string_pairs(v@)),
        }
    }
}

/// The plain values of a list of string pairs.
pub open spec fn string_pairs(v: Seq<(String, String)>) -> Seq<(Seq<char>, Seq<char>)> {
    v.map_values(|p: (String, String)| (p.0@, p.1@))
}

/// A version-resource entry that names `version` as the file version.
pub open spec fn is_version_entry(entry: (Seq<char>, Seq<char>), version: Seq<char>) -> bool {
    entry.0 == "FileVersion"@ && without_v(entry.1) == version
}

/// One of the entries names `version` as the file version.
pub open spec fn names_version(s: Seq<(Seq<char>, Seq<char>)>, version: Seq<char>) -> bool {
    exists|i: int| 0 <= i < s.len() && #[trigger] is_version_entry(s[i], version)
}

/// The launcher library carries `version`: one of its `FileVersion`
/// entries, without a leading `v`, is `version`. A library without version
/// information is taken to carry any version.
pub open spec fn launcher_carries(info: PeVersionView, version: Seq<char>) -> bool {
    match info {
        PeVersionView::Strings(s) => names_version(s, version),
        _ => true,
    }
}

/// Whether `version` counts as installed in a profile: the profile
/// directory exists, its core mods do not rule it out, its launcher library
/// could be opened, and the library carries the version.
pub open spec fn is_installed(
    profile_exists: bool,
    mods: Seq<(bool, Option<Seq<char>>)>,
    launcher: Option<PeVersionView>,
    version: Seq<char>,
) -> bool {
    profile_exists && !core_mods_rule_out(mods, version) && match launcher {
        Some(info) => launcher_carries(info, version),
        None => false,
    }
}

fn core_mods_rule_out_exec(mods: &Vec<CoreModState>, version: &str) -> (r: bool)
    ensures
        r == core_mods_rule_out(mod_views(mods@), version@),
{
    let ghost m = mod_views(mods@);
    let mut missing = false;
    let mut mismatch = false;
    let mut i: usize = 0;
    while i < mods.len()
        invariant
            i <= mods.len(),
            m == mod_views(mods@),
            missing == exists|k: int| 0 <= k < i && !(#[trigger] m[k]).0,
            mismatch == exists|k: int| 0 <= k < i && (#[trigger] m[k]).1 != Some(version@),
        decreases mods.len() - i,
    {
        assert(m[i as int].0 == mods@[i as int].exists);
        if !mods[i].exists {
            missing = true;
        }
        let same = match &mods[i].version {
            Some(v) => eq(v.as_str(), version),
            None => false,
        };
        if !same {
            mismatch = true;
        }
        i = i + 1;
    }
    missing && mismatch
}

fn launcher_carries_exec(info: &PeVersionInfo, version: &str) -> (r: bool)
    ensures
        r == launcher_carries(info@, version@),
{
    match info {
        PeVersionInfo::Strings(s) => {
            let ghost sv = string_pairs(s@);
            let mut found = false;
            let mut i: usize = 0;
            proof {
                reveal_strlit("FileVersion");
            }
            while i < s.len()
                invariant
                    i <= s.len(),
                    sv == string_pairs(s@),
                    found == exists|k: int| 0 <= k < i && #[trigger] is_version_entry(sv[k], version@),
                decreases s.len() - i,
            {
                assert(sv[i as int] == (s@[i as int].0@, s@[i as int].1@));
                assert(is_version_entry(sv[i as int], version@) == (s@[i as int].0@ == "FileVersion"@
                    && without_v(s@[i as int].1@) == version@));
                let value = strip_v(s[i].1.as_str());
                if eq(s[i].0.as_str(), "FileVersion") && eq(value.as_str(), version) {
                    found = true;
                }
                i = i + 1;
            }
            assert(sv.len() == s@.len());
            assert(found == names_version(sv, version@));
            found
        },
        _ => true,
    }
}

/// Whether `version` counts as installed in a profile (see `is_installed`),
/// from what was found about the profile: whether its directory exists, its
/// core mods, and the version resource of its launcher library (`None` when
/// the library could not be opened). The library is looked at only when the
/// profile exists and its core mods do not rule the version out; it must then
/// be a 64-bit PE image.
pub fn check_if_installed(
    profile_exists: bool,
    mods: &Vec<CoreModState>,
    launcher: Option<&PeVersionInfo>,
    version: &str,
) -> (r: bool)
    requires
        profile_exists && !core_mods_rule_out(mod_views(mods@), version@) ==> !(launcher matches Some(
            info) && info@ is NotPe),
    ensures
        r == is_installed(
            profile_exists,
            mod_views(mods@),
            match launcher {
                Some(info) => Some(info@),
                None => None,
            },
            version@,
        ),
{
    if !profile_exists {
        return false;
    }
    if core_mods_rule_out_exec(mods, version) {
        return false;
    }
    match launcher {
        Some(info) => launcher_carries_exec(info, version),
        None => false,
    }
}

fn record_string(pairs: &mut Vec<(String, String)>, key: &str, value: &str)
    ensures
        final(pairs)@.len() == old(pairs)@.len() + 1,
        forall|i: int| 0 <= i < old(pairs)@.len() ==> final(pairs)@[i] == old(pairs)@[i],
        final(pairs)@.last().0@ == key@,
        final(pairs)@.last().1@ == value@,
{
    pairs.push((String::from_str(key), String::from_str(value)));
}

/// Bytes that cannot start a PE image: fewer than the 64 bytes of a DOS
/// header, or a header whose first two bytes are not the `MZ` signature (in
/// either byte order).
pub open spec fn lacks_dos_header(image: Seq<u8>) -> bool {
    image.len() < 64 || !((image[0] == 0x4d && image[1] == 0x5a) || (image[0] == 0x5a && image[1]
        == 0x4d))
}

/// Reads the version resource of a 64-bit PE image with `pelite`:
/// `PeFile::from_bytes`, then the resources' version info, then the string
/// entries of its first language. Which images `from_bytes` accepts also
/// depends on where the bytes lie in memory (it asks for 4-byte alignment),
/// so nothing is promised of the outcome beyond this: bytes without a DOS
/// header (see `lacks_dos_header`) are never an image.
#[verifier::external_body]
fn read_pe_version_info(image: &[u8]) -> (r: PeVersionInfo)
    ensures
        lacks_dos_header(image@) ==> r is NotPe,
{
    let Ok(pe) = pelite::pe64::PeFile::from_bytes(image) else { return PeVersionInfo::NotPe };
    let Some(info) = pe.resources().ok().and_then(|res| res.version_info().ok()) else {
        return PeVersionInfo::NoVersionInfo;
    };
    let Some(lang) = info.translation().first() else { return PeVersionInfo::NoVersionInfo };
    let mut pairs = Vec::new();
    info.strings(*lang, |key, value| record_string(&mut pairs, key, value));
    PeVersionInfo::Strings(pairs)
}

/// Whether `version` is installed in a profile, reading the launcher
/// library's version resource from its bytes (`None` when the library could
/// not be opened). Gives `None` when the bytes are not a 64-bit PE image,
/// where checking cannot go on; otherwise the answer of
/// `check_if_installed` for what was read.
pub fn installed_in_profile(
    profile_exists: bool,
    mods: &Vec<CoreModState>,
    launcher_image: Option<&[u8]>,
    version: &str,
) -> (r: Option<bool>)
    ensures
        !profile_exists ==> r == Some(false),
        profile_exists && core_mods_rule_out(mod_views(mods@), version@) ==> r == Some(false),
        launcher_image is None ==> r == Some(false),
        launcher_image matches Some(img) && profile_exists && !core_mods_rule_out(
            mod_views(mods@),
            version@,
        ) && lacks_dos_header(img@) ==> r is None,
        r == Some(true) ==> exists|info: PeVersionView|
            !(info is NotPe) && is_installed(profile_exists, mod_views(mods@), Some(info), version@),
{
    if !profile_exists || core_mods_rule_out_exec(mods, version) {
        return Some(false);
    }
    match launcher_image {
        None => Some(false),
        Some(image) => {
            let info = read_pe_version_info(image);
            match info {
                PeVersionInfo::NotPe => None,
                _ => {
                    let r = check_if_installed(profile_exists, mods, Some(&info), version);
                    proof {
                        if r {
                            assert(is_installed(profile_exists, mod_views(mods@), Some(info@), version@));
                        }
                    }
                    Some(r)
                },
            }
        },
    }
}


/// A `FileVersion` value names `version`: it is the version, or `v`
/// followed by the version (one leading `v` is dropped, and only one).
pub open spec fn value_names(value: Seq<char>, version: Seq<char>) -> bool {
    ||| value.len() > 0 && value[0] == 'v' && value.drop_first() == version
    ||| (value.len() == 0 || value[0] != 'v') && value == version
}

/// A launcher library's string entries carry a version exactly when some
/// entry, wherever it stands, has the key `FileVersion` and a value that
/// names the version; so adding an entry can only make the answer true, and
/// the order of the entries does not matter.
pub proof fn lemma_launcher_carries_any_entry(
    entries: Seq<(Seq<char>, Seq<char>)>,
    version: Seq<char>,
    extra: (Seq<char>, Seq<char>),
)
    ensures
        launcher_carries(PeVersionView::Strings(entries), version) <==> exists|i: int|
            0 <= i < entries.len() && (#[trigger] entries[i]).0 == "FileVersion"@ && value_names(
                entries[i].1,
                version,
            ),
        launcher_carries(PeVersionView::Strings(entries.push(extra)), version) <==> (
        launcher_carries(PeVersionView::Strings(entries), version) || (extra.0 == "FileVersion"@
            && value_names(extra.1, version))),
        launcher_carries(PeVersionView::Strings(seq![extra] + entries), version)
            == launcher_carries(PeVersionView::Strings(entries.push(extra)), version),
{
    let a = entries.push(extra);
    let b = seq![extra] + entries;
    assert forall|i: int| 0 <= i < entries.len() implies (is_version_entry(#[trigger] entries[i], version)
        <==> (entries[i].0 == "FileVersion"@ && value_names(entries[i].1, version))) by {}
    if launcher_carries(PeVersionView::Strings(a), version) {
        let i = choose|i: int| 0 <= i < a.len() && #[trigger] is_version_entry(a[i], version);
        if i < entries.len() {
            assert(a[i] == entries[i]);
            assert(b[i + 1] == entries[i]);
            assert(is_version_entry(b[i + 1], version));
        } else {
            assert(b[0] == extra);
            assert(is_version_entry(b[0], version));
        }
    }
    if launcher_carries(PeVersionView::Strings(b), version) {
        let i = choose|i: int| 0 <= i < b.len() && #[trigger] is_version_entry(b[i], version);
        if i == 0 {
            assert(a[entries.len() as int] == extra);
            assert(is_version_entry(a[entries.len() as int], version));
        } else {
            assert(b[i] == entries[i - 1]);
            assert(a[i - 1] == entries[i - 1]);
            assert(is_version_entry(a[i - 1], version));
        }
    }
    if launcher_carries(PeVersionView::Strings(entries), version) {
        let i = choose|i: int| 0 <= i < entries.len() && #[trigger] is_version_entry(entries[i], version);
        assert(a[i] == entries[i]);
        assert(is_version_entry(a[i], version));
    }
    if extra.0 == "FileVersion"@ && value_names(extra.1, version) {
        assert(a[entries.len() as int] == extra);
        assert(is_version_entry(a[entries.len() as int], version));
    }
    if launcher_carries(PeVersionView::Strings(a), version) {
        let i = choose|i: int| 0 <= i < a.len() && #[trigger] is_version_entry(a[i], version);
        if i < entries.len() {
            assert(a[i] == entries[i]);
        }
    }
}

/// With the profile present and its core mods not ruling it out, a version
/// counts as installed exactly when the launcher library's string entries
/// carry it (as `lemma_launcher_carries_any_entry` says), and never when
/// the library could not be opened or the profile is missing.
pub proof fn lemma_installed_by_file_version(
    mods: Seq<(bool, Option<Seq<char>>)>,
    entries: Seq<(Seq<char>, Seq<char>)>,
    version: Seq<char>,
)
    requires
        !core_mods_rule_out(mods, version),
    ensures
        is_installed(true, mods, Some(PeVersionView::Strings(entries)), version) <==> exists|i: int|
            0 <= i < entries.len() && (#[trigger] entries[i]).0 == "FileVersion"@ && value_names(
                entries[i].1,
                version,
            ),
        !is_installed(true, mods, None, version),
        !is_installed(false, mods, Some(PeVersionView::Strings(entries)), version),
{
    lemma_launcher_carries_any_entry(entries, version, (Seq::empty(), Seq::empty()));
}

} // verus!
