//! Subaction paths: named filters (such as `/keyboard` or `/gamepad/*/trigger/left`) under
//! which an action also reports the value that only the matching bindings produce.
use crate::bevy_collections::{path_map_contents, path_map_get, path_map_insert, path_map_new, PathMap};
use std::collections::hash_map::Entry;
use std::collections::HashMap;
use vstd::prelude::*;
use vstd::std_specs::hash::EntrySpecFns;

verus! {

broadcast use vstd::std_specs::hash::group_hash_axioms;

/// Subaction path of an action: the id of the entity that stands for the path string.
#[derive(Clone, Copy, Debug, PartialEq, Eq, Structural, Hash)]
pub struct SubactionPath(pub u64);

/// Message that announces a subaction path that was created since the last announcement.
#[derive(Clone, Copy, Debug, PartialEq, Eq, Structural)]
pub struct SubactionPathCreated(pub SubactionPath);

/// The path string of a subaction path entity.
#[derive(Clone, Debug)]
pub struct SubactionPathStr(pub String);

/// Registry of all subaction paths: each path string stands for exactly one
/// [`SubactionPath`], and the paths created since the last announcement are kept in order.
pub struct SubactionPaths {
    map: PathMap,
    new_paths: Vec<SubactionPath>,
}

impl SubactionPaths {
    /// The path strings that are registered, each with the path that stands for it.
    pub closed spec fn registered(&self) -> Map<Seq<char>, SubactionPath> {
        path_map_contents(self.map)
    }

    /// The paths created since the last call of `take_new_paths`, oldest first.
    pub closed spec fn pending_new_paths(&self) -> Seq<SubactionPath> {
        self.new_paths@
    }

    /// An empty registry.
    pub fn new() -> (r: SubactionPaths)
        ensures
            r.registered() == Map::<Seq<char>, SubactionPath>::empty(),
            r.pending_new_paths() == Seq::<SubactionPath>::empty(),
    {
        SubactionPaths { map: path_map_new(), new_paths: Vec::new() }
    }

    /// The path that stands for the string `path`, if it was registered.
    pub fn get(&self, path: &str) -> (r: Option<SubactionPath>)
        ensures
            r == (if self.registered().contains_key(path@) {
                Some(self.registered()[path@])
            } else {
                None
            }),
    {
        path_map_get(&self.map, path)
    }

    /// Registers `new_path` as the path that stands for the string `path` and records it as
    /// newly created.
    pub fn register_new_path(&mut self, path: &str, new_path: SubactionPath)
        requires
            !old(self).registered().contains_key(path@),
        ensures
            final(self).registered() == old(self).registered().insert(path@, new_path),
            final(self).pending_new_paths() == old(self).pending_new_paths().push(new_path),
    {
        path_map_insert(&mut self.map, path.to_string(), new_path);
        self.new_paths.push(new_path);
    }

    /// The path that stands for the string `path`. When none does yet, `create` makes one
    /// (it spawns the entity that holds the string), which is registered and recorded as
    /// newly created; `create` is called only then.
    pub fn get_or_create_path<F: FnOnce(&str) -> SubactionPath>(
        &mut self,
        path: &str,
        create: F,
    ) -> (r: SubactionPath)
        requires
            create.requires((path,)),
        ensures
            final(self).registered().contains_key(path@),
            final(self).registered()[path@] == r,
            old(self).registered().contains_key(path@) ==> {
                &&& r == old(self).registered()[path@]
                &&& final(self).registered() == old(self).registered()
                &&& final(self).pending_new_paths() == old(self).pending_new_paths()
            },
            !old(self).registered().contains_key(path@) ==> {
                &&& create.ensures((path,), r)
                &&& final(self).registered() == old(self).registered().insert(path@, r)
                &&& final(self).pending_new_paths() == old(self).pending_new_paths().push(r)
            },
    {
        match self.get(path) {
            Some(existing) => existing,
            None => {
                let created = create(path);
                self.register_new_path(path, created);
                created
            },
        }
    }

    /// Hands out the paths created since the last call, oldest first, and forgets them.
    pub fn take_new_paths(&mut self) -> (r: Vec<SubactionPath>)
        ensures
            r@ == old(self).pending_new_paths(),
            final(self).pending_new_paths() == Seq::<SubactionPath>::empty(),
            final(self).registered() == old(self).registered(),
    {
        let mut taken: Vec<SubactionPath> = Vec::new();
        std::mem::swap(&mut taken, &mut self.new_paths);
        taken
    }
}

impl Default for SubactionPaths {
    fn default() -> (r: SubactionPaths)
        ensures
            r.registered() == Map::<Seq<char>, SubactionPath>::empty(),
            r.pending_new_paths() == Seq::<SubactionPath>::empty(),
    {
        SubactionPaths::new()
    }
}

/// The subaction paths that an action reports values for, besides its value for any path.
#[derive(Clone, Debug)]
pub struct RequestedSubactionPaths(pub Vec<SubactionPath>);

impl RequestedSubactionPaths {
    /// No requested paths.
    pub fn new() -> (r: RequestedSubactionPaths)
        ensures
            r.0@ == Seq::<SubactionPath>::empty(),
    {
        RequestedSubactionPaths(Vec::new())
    }

    /// Adds a requested path at the end.
    pub fn push(&mut self, path: SubactionPath)
        ensures
            final(self).0@ == old(self).0@.push(path),
    {
        self.0.push(path);
    }

    /// Requests the path that stands for the string `path`, creating it in `paths` with
    /// `create` when it does not exist yet.
    pub fn push_path<F: FnOnce(&str) -> SubactionPath>(
        &mut self,
        path: &str,
        paths: &mut SubactionPaths,
        create: F,
    )
        requires
            create.requires((path,)),
        ensures
            final(self).0@.len() == old(self).0@.len() + 1,
            final(self).0@.drop_last() == old(self).0@,
            old(paths).registered().contains_key(path@) ==> {
                &&& final(self).0@.last() == old(paths).registered()[path@]
                &&& final(paths).registered() == old(paths).registered()
                &&& final(paths).pending_new_paths() == old(paths).pending_new_paths()
            },
            !old(paths).registered().contains_key(path@) ==> {
                &&& create.ensures((path,), final(self).0@.last())
                &&& final(paths).registered() == old(paths).registered().insert(
                    path@,
                    final(self).0@.last(),
                )
                &&& final(paths).pending_new_paths() == old(paths).pending_new_paths().push(
                    final(self).0@.last(),
                )
            },
    {
        let p = paths.get_or_create_path(path, create);
        self.0.push(p);
        assert(self.0@.drop_last() =~= old(self).0@);
    }

    /// The requested paths with the path that stands for the string `path` added at the
    /// end, creating it in `paths` with `create` when it does not exist yet.
    pub fn with_path<F: FnOnce(&str) -> SubactionPath>(
        self,
        path: &str,
        paths: &mut SubactionPaths,
        create: F,
    ) -> (r: RequestedSubactionPaths)
        requires
            create.requires((path,)),
        ensures
            r.0@.len() == self.0@.len() + 1,
            r.0@.drop_last() == self.0@,
            old(paths).registered().contains_key(path@) ==> {
                &&& r.0@.last() == old(paths).registered()[path@]
                &&& final(paths).registered() == old(paths).registered()
                &&& final(paths).pending_new_paths() == old(paths).pending_new_paths()
            },
            !old(paths).registered().contains_key(path@) ==> {
                &&& create.ensures((path,), r.0@.last())
                &&& final(paths).registered() == old(paths).registered().insert(
                    path@,
                    r.0@.last(),
                )
                &&& final(paths).pending_new_paths() == old(paths).pending_new_paths().push(
                    r.0@.last(),
                )
            },
    {
        let mut s = self;
        s.push_path(path, paths, create);
        s
    }
}

impl RequestedSubactionPaths {
    /// Requests the paths that stand for the strings `paths`, in order, creating each one in
    /// `registry` with `create` when it does not exist yet.
    pub fn push_paths<F: Fn(&str) -> SubactionPath>(
        &mut self,
        paths: &Vec<String>,
        registry: &mut SubactionPaths,
        create: F,
    )
        requires
            forall|p: &str| #[trigger] create.requires((p,)),
        ensures
            final(self).0@.len() == old(self).0@.len() + paths@.len(),
            final(self).0@.take(old(self).0@.len() as int) == old(self).0@,
            forall|i: int|
                0 <= i < paths@.len() ==> final(registry).registered().contains_key(
                    #[trigger] paths@[i]@,
                ) && final(registry).registered()[paths@[i]@] == final(self).0@[old(self).0@.len()
                    + i],
            forall|k: Seq<char>|
                #[trigger] old(registry).registered().contains_key(k) ==> {
                    &&& final(registry).registered().contains_key(k)
                    &&& final(registry).registered()[k] == old(registry).registered()[k]
                },
            forall|k: Seq<char>|
                #[trigger] final(registry).registered().contains_key(k) ==> {
                    ||| old(registry).registered().contains_key(k)
                    ||| exists|i: int| 0 <= i < paths@.len() && #[trigger] paths@[i]@ == k
                },
    {
        let ghost old_len = self.0@.len();
        let ghost start = self.0@;
        let ghost old_reg = registry.registered();
        let mut i: usize = 0;
        while i < paths.len()
            invariant
                i <= paths@.len(),
                forall|p: &str| #[trigger] create.requires((p,)),
                self.0@.len() == old_len + i,
                self.0@.take(old_len as int) == start,
                forall|j: int|
                    0 <= j < i ==> registry.registered().contains_key(#[trigger] paths@[j]@)
                        && registry.registered()[paths@[j]@] == self.0@[old_len + j],
                forall|k: Seq<char>|
                    #[trigger] old_reg.contains_key(k) ==> registry.registered().contains_key(k)
                        && registry.registered()[k] == old_reg[k],
                forall|k: Seq<char>|
                    #[trigger] registry.registered().contains_key(k) ==> old_reg.contains_key(k)
                        || exists|j: int| 0 <= j < i && #[trigger] paths@[j]@ == k,
            decreases paths@.len() - i,
        {
            let p = paths[i].as_str();
            let ghost before = registry.registered();
            let found = match registry.get(p) {
                Some(existing) => existing,
                None => {
                    let created = create(p);
                    registry.register_new_path(p, created);
                    created
                },
            };
            let ghost prev = self.0@;
            self.0.push(found);
            proof {
                assert(self.0@.take(old_len as int) =~= prev.take(old_len as int));
                assert forall|j: int| 0 <= j < i + 1 implies registry.registered().contains_key(
                    #[trigger] paths@[j]@,
                ) && registry.registered()[paths@[j]@] == self.0@[old_len + j] by {
                    if j < i {
                        assert(before.contains_key(paths@[j]@));
                        assert(self.0@[old_len + j] == prev[old_len + j]);
                    }
                }
                assert forall|k: Seq<char>| #[trigger] registry.registered().contains_key(k) implies old_reg.contains_key(k)
                    || exists|j: int| 0 <= j < i + 1 && #[trigger] paths@[j]@ == k by {
                    if k == p@ {
                        assert(paths@[i as int]@ == k);
                    } else {
                        assert(before.contains_key(k));
                    }
                }
            }
            i = i + 1;
        }
    }
}

impl Default for RequestedSubactionPaths {
    fn default() -> (r: RequestedSubactionPaths)
        ensures
            r.0@ == Seq::<SubactionPath>::empty(),
    {
        RequestedSubactionPaths::new()
    }
}

/// A value for any path together with values for single subaction paths, keyed by the id
/// of the path.
#[derive(Clone, Debug)]
pub struct SubactionPathMap<T> {
    pub paths: HashMap<u64, T>,
    pub any: T,
}

impl<T> SubactionPathMap<T> {
    /// The value stored for `path`, if any.
    pub fn get_with_path(&self, path: &SubactionPath) -> (r: Option<&T>)
        ensures
            r == (if self.paths@.contains_key(path.0) {
                Some(&self.paths@[path.0])
            } else {
                None
            }),
    {
        self.paths.get(&path.0)
    }

    /// Stores `value` for `path`, replacing what was stored for it.
    pub fn set_value_for_path(&mut self, path: SubactionPath, value: T)
        ensures
            final(self).paths@ == old(self).paths@.insert(path.0, value),
            final(self).any == old(self).any,
    {
        self.paths.insert(path.0, value);
    }

    /// The map's entry for `path`.
    pub fn entry_with_path(&mut self, path: SubactionPath) -> (r: Entry<'_, u64, T>)
        ensures
            r.key() == path.0,
            r.value() == old(self).paths@.get(path.0),
            final(self).paths@ == (match r.final_value() {
                Some(value) => old(self).paths@.insert(path.0, value),
                None => old(self).paths@.remove(path.0),
            }),
            final(self).any == old(self).any,
    {
        self.paths.entry(path.0)
    }
}

impl<T: Default + Clone> SubactionPathMap<T> {
    /// The value stored for `path`, or the default value when none is stored.
    pub fn get_with_path_or_default(&self, path: &SubactionPath) -> (r: T)
        ensures
            self.paths@.contains_key(path.0) ==> cloned(self.paths@[path.0], r),
            !self.paths@.contains_key(path.0) ==> call_ensures(T::default, (), r),
    {
        match self.paths.get(&path.0) {
            Some(v) => v.clone(),
            None => T::default(),
        }
    }

    /// The value stored for `path`, or the default value when there is no path or nothing
    /// is stored for it.
    pub fn get_or_default(&self, path: Option<SubactionPath>) -> (r: T)
        ensures
            match path {
                Some(p) => {
                    &&& self.paths@.contains_key(p.0) ==> cloned(self.paths@[p.0], r)
                    &&& !self.paths@.contains_key(p.0) ==> call_ensures(T::default, (), r)
                },
                None => call_ensures(T::default, (), r),
            },
    {
        match path {
            Some(p) => self.get_with_path_or_default(&p),
            None => T::default(),
        }
    }
}

impl<T: Default> SubactionPathMap<T> {
    /// No value for any path but the default one.
    pub fn new() -> (r: SubactionPathMap<T>)
        ensures
            r.paths@ == Map::<u64, T>::empty(),
            call_ensures(T::default, (), r.any),
    {
        SubactionPathMap { paths: HashMap::new(), any: T::default() }
    }
}

impl<T: Default> Default for SubactionPathMap<T> {
    fn default() -> (r: SubactionPathMap<T>)
        ensures
            r.paths@ == Map::<u64, T>::empty(),
            call_ensures(T::default, (), r.any),
    {
        SubactionPathMap::new()
    }
}

} // verus!
