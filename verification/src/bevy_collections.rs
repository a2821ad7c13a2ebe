//! Bevy's hash map and hash set (`bevy::platform::collections`), as the library uses them:
//! for the inputs blocked for an action set, a map from a kind of binding to the set of
//! blocked binding ids of that kind; for the registry of subaction paths, a map from a path
//! string to the path that stands for it; for the OpenXR bindings of an action, a map from
//! an interaction profile to its binding paths.
use crate::openxr::binding_texts;
use crate::subaction_paths::SubactionPath;
use bevy::platform::collections::{HashMap, HashSet};
use vstd::prelude::*;

verus! {

#[verifier::external_type_specification]
#[verifier::external_body]
#[verifier::reject_recursive_types(K)]
#[verifier::reject_recursive_types(V)]
#[verifier::reject_recursive_types(S)]
pub struct ExBevyHashMap<K, V, S>(HashMap<K, V, S>);

#[verifier::external_type_specification]
#[verifier::external_body]
#[verifier::reject_recursive_types(T)]
#[verifier::reject_recursive_types(S)]
pub struct ExBevyHashSet<T, S>(HashSet<T, S>);

#[verifier::external_type_specification]
#[verifier::external_body]
pub struct ExFixedHasher(bevy::platform::hash::FixedHasher);

/// A map from a kind of binding to the set of blocked binding ids of that kind.
pub type IdMap = HashMap<u64, HashSet<u64>>;

/// The ids a set of binding ids holds.
pub uninterp spec fn id_set_contents(s: HashSet<u64>) -> Set<u64>;

/// What a map of blocked ids holds: for each kind of binding it has, the ids of its set.
pub uninterp spec fn id_map_contents(m: IdMap) -> Map<u64, Set<u64>>;

/// `HashSet::new`: an empty set.
#[verifier::external_body]
pub(crate) fn id_set_new() -> (r: HashSet<u64>)
    ensures
        id_set_contents(r) == Set::<u64>::empty(),
{
    HashSet::new()
}

/// `HashSet::insert`: the set holds `id` afterwards, and nothing else changes.
#[verifier::external_body]
pub(crate) fn id_set_insert(s: &mut HashSet<u64>, id: u64)
    ensures
        id_set_contents(*final(s)) == id_set_contents(*old(s)).insert(id),
{
    s.insert(id);
}

/// `HashSet::contains`: whether the set holds `id`.
#[verifier::external_body]
pub(crate) fn id_set_contains(s: &HashSet<u64>, id: u64) -> (r: bool)
    ensures
        r == id_set_contents(*s).contains(id),
{
    s.contains(&id)
}

/// `HashMap::new`: an empty map.
#[verifier::external_body]
pub(crate) fn id_map_new() -> (r: IdMap)
    ensures
        id_map_contents(r).dom() == Set::<u64>::empty(),
{
    HashMap::new()
}

/// `HashMap::insert`: `key` maps to the set `s` afterwards (replacing any set it had), and
/// the other keys keep their sets.
#[verifier::external_body]
pub(crate) fn id_map_insert(m: &mut IdMap, key: u64, s: HashSet<u64>)
    ensures
        id_map_contents(*final(m)) == id_map_contents(*old(m)).insert(key, id_set_contents(s)),
{
    m.insert(key, s);
}

/// `HashMap::clone`: a map with the same keys, each with a set holding the same ids.
#[verifier::external_body]
pub(crate) fn id_map_clone(m: &IdMap) -> (r: IdMap)
    ensures
        id_map_contents(r) == id_map_contents(*m),
{
    m.clone()
}

/// `HashMap::get`: the set under `key`, if the map has the key.
#[verifier::external_body]
pub(crate) fn id_map_get(m: &IdMap, key: u64) -> (r: Option<&HashSet<u64>>)
    ensures
        match r {
            Some(s) => id_map_contents(*m).contains_key(key) && id_set_contents(*s)
                == id_map_contents(*m)[key],
            None => !id_map_contents(*m).contains_key(key),
        },
{
    m.get(&key)
}

/// A map from a subaction path string to the path that stands for it.
pub type PathMap = HashMap<String, SubactionPath>;

/// What a map of subaction paths holds: for each path string it has, its path.
pub uninterp spec fn path_map_contents(m: PathMap) -> Map<Seq<char>, SubactionPath>;

/// `HashMap::new`: an empty map of subaction paths.
#[verifier::external_body]
pub(crate) fn path_map_new() -> (r: PathMap)
    ensures
        path_map_contents(r).dom() == Set::<Seq<char>>::empty(),
{
    HashMap::new()
}

/// `HashMap::get` with a string: the path stored under the string equal to `path`, if the
/// map has one (two strings are equal exactly when their characters are).
#[verifier::external_body]
pub(crate) fn path_map_get(m: &PathMap, path: &str) -> (r: Option<SubactionPath>)
    ensures
        r == (if path_map_contents(*m).contains_key(path@) {
            Some(path_map_contents(*m)[path@])
        } else {
            None
        }),
{
    m.get(path).copied()
}

/// `HashMap::insert`: `path` maps to `value` afterwards (replacing any path it had), and the
/// other strings keep theirs.
#[verifier::external_body]
pub(crate) fn path_map_insert(m: &mut PathMap, path: String, value: SubactionPath)
    ensures
        path_map_contents(*final(m)) == path_map_contents(*old(m)).insert(path@, value),
{
    m.insert(path, value);
}

/// A map from an OpenXR interaction profile to its binding paths.
pub type OxrMap = HashMap<String, Vec<String>>;

/// What a map of OpenXR bindings holds: for each profile it has, its binding paths in order.
pub uninterp spec fn oxr_map_contents(m: OxrMap) -> Map<Seq<char>, Seq<Seq<char>>>;

/// `HashMap::new`: an empty map of OpenXR bindings.
#[verifier::external_body]
pub(crate) fn oxr_map_new() -> (r: OxrMap)
    ensures
        oxr_map_contents(r).dom() == Set::<Seq<char>>::empty(),
{
    HashMap::new()
}

/// `HashMap::get` with a string: the binding paths stored under the profile equal to
/// `profile`, if the map has it.
#[verifier::external_body]
pub(crate) fn oxr_map_get<'a>(m: &'a OxrMap, profile: &str) -> (r: Option<&'a Vec<String>>)
    ensures
        match r {
            Some(list) => oxr_map_contents(*m).contains_key(profile@) && binding_texts(list@)
                == oxr_map_contents(*m)[profile@],
            None => !oxr_map_contents(*m).contains_key(profile@),
        },
{
    m.get(profile)
}

/// `HashMap::insert`: `profile` maps to `list` afterwards (replacing any list it had), and
/// the other profiles keep theirs.
#[verifier::external_body]
pub(crate) fn oxr_map_insert(m: &mut OxrMap, profile: String, list: Vec<String>)
    ensures
        oxr_map_contents(*final(m)) == oxr_map_contents(*old(m)).insert(
            profile@,
            binding_texts(list@),
        ),
{
    m.insert(profile, list);
}

/// `HashMap::remove` with a string: the profile equal to `profile` is gone afterwards, and
/// the other profiles keep their lists.
#[verifier::external_body]
pub(crate) fn oxr_map_remove(m: &mut OxrMap, profile: &str)
    ensures
        oxr_map_contents(*final(m)) == oxr_map_contents(*old(m)).remove(profile@),
{
    m.remove(profile);
}

/// `HashMap::clone`: a map with the same profiles, each with the same binding paths.
#[verifier::external_body]
pub(crate) fn oxr_map_clone(m: &OxrMap) -> (r: OxrMap)
    ensures
        oxr_map_contents(r) == oxr_map_contents(*m),
{
    m.clone()
}

/// `HashMap::iter`, collected: each profile of the map once, with its binding paths. The
/// order is the one in which the map is walked, which nothing here names.
#[verifier::external_body]
pub(crate) fn oxr_map_iter<'a>(m: &'a OxrMap) -> (r: Vec<(&'a String, &'a Vec<String>)>)
    ensures
        forall|i: int|
            0 <= i < r@.len() ==> oxr_map_contents(*m).contains_key(#[trigger] r@[i].0@)
                && oxr_map_contents(*m)[r@[i].0@] == binding_texts(r@[i].1@),
        forall|i: int, j: int| 0 <= i < j < r@.len() ==> #[trigger] r@[i].0@ != #[trigger] r@[j].0@,
        forall|p: Seq<char>|
            #[trigger] oxr_map_contents(*m).contains_key(p) ==> exists|i: int|
                0 <= i < r@.len() && #[trigger] r@[i].0@ == p,
{
    m.iter().collect()
}

} // verus!
