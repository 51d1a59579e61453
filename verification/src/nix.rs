//! Values produced by evaluating the Nix configuration, holding what the
//! configuration logic reads of them.
use vstd::prelude::*;
use crate::text::eq;

verus! {

/// What kind of Nix value this is, with its contents where the
/// configuration logic reads them.
pub enum NixKind {
    Null,
    Bool(bool),
    /// A string, with its contents.
    Str(String),
    /// A path, as text.
    Path(String),
    List(Vec<NixValue>),
    /// An attribute set, as (name, value) pairs.
    Attrs(Vec<(String, NixValue)>),
    /// Any other value (numbers, functions, ...).
    Other,
}

/// An evaluated Nix value.
pub struct NixValue {
    /// The value as the evaluator displays it.
    pub shown: String,
    pub kind: NixKind,
}

/// The names of an attribute set's entries.
pub open spec fn attr_names(attrs: Seq<(String, NixValue)>) -> Seq<Seq<char>> {
    attrs.map_values(|p: (String, NixValue)| p.0@)
}

/// The position of the first attribute called `name`.
pub open spec fn attr_index(names: Seq<Seq<char>>, name: Seq<char>) -> Option<int>
    decreases names.len(),
{
    if names.len() == 0 {
        None
    } else if names[0] == name {
        Some(0)
    } else {
        match attr_index(names.drop_first(), name) {
            Some(i) => Some(i + 1),
            None => None,
        }
    }
}

pub(crate) proof fn lemma_attr_index_step(names: Seq<Seq<char>>, name: Seq<char>, i: int)
    requires
        0 <= i <= names.len(),
        forall|k: int| 0 <= k < i ==> names[k] != name,
    ensures
        i < names.len() && names[i] == name ==> attr_index(names, name) == Some(i),
        i == names.len() ==> attr_index(names, name) is None,
    decreases i,
{
    if i > 0 {
        assert forall|k: int| 0 <= k < i - 1 implies names.drop_first()[k] != name by {
            assert(names.drop_first()[k] == names[k + 1]);
        }
        lemma_attr_index_step(names.drop_first(), name, i - 1);
    }
}

/// The value of attribute `name`: the first entry with that name.
pub open spec fn select_spec(attrs: Seq<(String, NixValue)>, name: Seq<char>) -> Option<NixValue> {
    match attr_index(attr_names(attrs), name) {
        Some(i) => Some(attrs[i].1),
        None => None,
    }
}

/// The value of attribute `name` of an attribute set (see `select_spec`).
pub fn select<'a>(attrs: &'a Vec<(String, NixValue)>, name: &str) -> (r: Option<&'a NixValue>)
    ensures
        r matches Some(v) ==> select_spec(attrs@, name@) == Some(*v),
        r is None ==> select_spec(attrs@, name@) is None,
{
    let ghost names = attr_names(attrs@);
    let mut i: usize = 0;
    while i < attrs.len()
        invariant
            i <= attrs.len(),
            names == attr_names(attrs@),
            forall|k: int| 0 <= k < i ==> names[k] != name@,
        decreases attrs.len() - i,
    {
        assert(names[i as int] == attrs@[i as int].0@);
        if eq(attrs[i].0.as_str(), name) {
            proof {
                lemma_attr_index_step(names, name@, i as int);
            }
            return Some(&attrs[i].1);
        }
        i = i + 1;
    }
    proof {
        lemma_attr_index_step(names, name@, i as int);
    }
    None
}


impl NixValue {
    /// The entries of this value when it is an attribute set.
    pub fn get_attr(&self) -> (r: Option<&Vec<(String, NixValue)>>)
        ensures
            match self.kind {
                NixKind::Attrs(a) => r == Some(&a),
                _ => r is None,
            },
    {
        match &self.kind {
            NixKind::Attrs(a) => Some(a),
            _ => None,
        }
    }

    /// The items of this value when it is a list.
    pub fn get_list(&self) -> (r: Option<&Vec<NixValue>>)
        ensures
            match self.kind {
                NixKind::List(l) => r == Some(&l),
                _ => r is None,
            },
    {
        match &self.kind {
            NixKind::List(l) => Some(l),
            _ => None,
        }
    }
}

} // verus!
