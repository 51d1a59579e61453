//! Choosing among the releases and release assets that a repository
//! publishes.
use vstd::prelude::*;
use crate::paths::{join, join_path};
use crate::text::{before_first, contains, contains_seq, ends_with, eq, starts_with, strip_v, text_before, without_v};

verus! {

/// The position of the first name in `names` that satisfies `p`.
pub open spec fn first_index(names: Seq<Seq<char>>, p: spec_fn(Seq<char>) -> bool) -> Option<int>
    decreases names.len(),
{
    if names.len() == 0 {
        None
    } else if p(names[0]) {
        Some(0)
    } else {
        match first_index(names.drop_first(), p) {
            Some(i) => Some(i + 1),
            None => None,
        }
    }
}

/// `first_index` picks an element that satisfies the predicate, and no
/// element before it does.
pub proof fn lemma_first_index(names: Seq<Seq<char>>, p: spec_fn(Seq<char>) -> bool)
    ensures
        first_index(names, p) matches Some(i) ==> 0 <= i < names.len() && p(names[i]) && forall|
            k: int,
        | 0 <= k < i ==> !p(#[trigger] names[k]),
        first_index(names, p) is None ==> forall|k: int|
            0 <= k < names.len() ==> !p(#[trigger] names[k]),
    decreases names.len(),
{
    if names.len() > 0 {
        lemma_first_index(names.drop_first(), p);
        if !p(names[0]) {
            assert forall|k: int| 1 <= k < names.len() implies names[k] == names.drop_first()[k - 1] by {}
        }
    }
}

/// The views of a list of strings.
pub open spec fn name_views(v: Seq<String>) -> Seq<Seq<char>> {
    v.map_values(|s: String| s@)
}

proof fn lemma_first_index_step(names: Seq<Seq<char>>, p: spec_fn(Seq<char>) -> bool, i: int)
    requires
        0 <= i <= names.len(),
        forall|k: int| 0 <= k < i ==> !p(#[trigger] names[k]),
    ensures
        i < names.len() && p(names[i]) ==> first_index(names, p) == Some(i),
        i == names.len() ==> first_index(names, p) is None,
    decreases i,
{
    if i > 0 {
        lemma_first_index_step(names.drop_first(), p, i - 1);
        assert forall|k: int| 0 <= k < i - 1 implies !p(#[trigger] names.drop_first()[k]) by {
            assert(names.drop_first()[k] == names[k + 1]);
        }
    } else if names.len() > 0 {
    }
}

/// The position of the first name that contains `needle`.
pub fn find_containing(names: &Vec<String>, needle: &str) -> (r: Option<usize>)
    ensures
        r matches Some(i) ==> first_index(name_views(names@), |n: Seq<char>| contains_seq(n, needle@))
            == Some(i as int),
        r is None ==> first_index(name_views(names@), |n: Seq<char>| contains_seq(n, needle@)) is None,
{
    let ghost p = |n: Seq<char>| contains_seq(n, needle@);
    let mut i: usize = 0;
    while i < names.len()
        invariant
            i <= names.len(),
            p == (|n: Seq<char>| contains_seq(n, needle@)),
            forall|k: int| 0 <= k < i ==> !p(#[trigger] name_views(names@)[k]),
        decreases names.len() - i,
    {
        assert(name_views(names@)[i as int] == names@[i as int]@);
        if contains(names[i].as_str(), needle) {
            proof {
                lemma_first_index_step(name_views(names@), p, i as int);
            }
            return Some(i);
        }
        assert(!p(name_views(names@)[i as int]));
        i = i + 1;
    }
    proof {
        lemma_first_index_step(name_views(names@), p, i as int);
    }
    None
}

/// The version that a release tag names: the tag without a leading `v`.
pub fn version_from_tag(tag: &str) -> (r: String)
    ensures
        r@ == without_v(tag@),
{
    strip_v(tag)
}

/// The position of the first release whose tag, without a leading `v`, is
/// `version`.
pub fn find_release_for_version(tags: &Vec<String>, version: &str) -> (r: Option<usize>)
    ensures
        r matches Some(i) ==> first_index(name_views(tags@), |t: Seq<char>| without_v(t) == version@)
            == Some(i as int),
        r is None ==> first_index(name_views(tags@), |t: Seq<char>| without_v(t) == version@) is None,
{
    let ghost p = |t: Seq<char>| without_v(t) == version@;
    let mut i: usize = 0;
    while i < tags.len()
        invariant
            i <= tags.len(),
            p == (|t: Seq<char>| without_v(t) == version@),
            forall|k: int| 0 <= k < i ==> !p(#[trigger] name_views(tags@)[k]),
        decreases tags.len() - i,
    {
        assert(name_views(tags@)[i as int] == tags@[i as int]@);
        let t = strip_v(tags[i].as_str());
        if eq(t.as_str(), version) {
            proof {
                lemma_first_index_step(name_views(tags@), p, i as int);
            }
            return Some(i);
        }
        assert(!p(name_views(tags@)[i as int]));
        i = i + 1;
    }
    proof {
        lemma_first_index_step(name_views(tags@), p, i as int);
    }
    None
}

/// A Proton build that can be installed: an asset whose name starts with
/// `GE-Proton` and ends with `.tar.gz`.
pub open spec fn is_proton_archive(name: Seq<char>) -> bool {
    "GE-Proton"@.is_prefix_of(name) && ".tar.gz"@.is_suffix_of(name)
}

/// The position of the first Proton archive among the asset names.
pub fn find_proton_archive(names: &Vec<String>) -> (r: Option<usize>)
    ensures
        r matches Some(i) ==> first_index(name_views(names@), |n: Seq<char>| is_proton_archive(n))
            == Some(i as int),
        r is None ==> first_index(name_views(names@), |n: Seq<char>| is_proton_archive(n)) is None,
{
    let ghost p = |n: Seq<char>| is_proton_archive(n);
    let mut i: usize = 0;
    while i < names.len()
        invariant
            i <= names.len(),
            p == (|n: Seq<char>| is_proton_archive(n)),
            forall|k: int| 0 <= k < i ==> !p(#[trigger] name_views(names@)[k]),
        decreases names.len() - i,
    {
        assert(name_views(names@)[i as int] == names@[i as int]@);
        let n = names[i].as_str();
        proof {
            reveal_strlit("GE-Proton");
            reveal_strlit(".tar.gz");
        }
        if starts_with(n, "GE-Proton") && ends_with(n, ".tar.gz") {
            proof {
                lemma_first_index_step(name_views(names@), p, i as int);
            }
            return Some(i);
        }
        assert(!p(name_views(names@)[i as int]));
        i = i + 1;
    }
    proof {
        lemma_first_index_step(name_views(names@), p, i as int);
    }
    None
}

/// Where a Proton archive unpacks inside the local data directory: the
/// archive's name up to its first `.` (Proton is installed on Linux only,
/// so the path is joined as there).
pub fn proton_extract_dir(local_dir: &str, archive_name: &str) -> (r: String)
    requires
        "GE-Proton"@.is_prefix_of(archive_name@),
    ensures
        r@ == join_path(local_dir@, before_first(archive_name@, '.')),
{
    let stem = text_before(archive_name, '.');
    join(local_dir, stem.as_str())
}

} // verus!
