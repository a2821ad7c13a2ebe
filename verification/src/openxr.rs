//! OpenXR bindings: suggested bindings per interaction profile, OpenXR subaction paths,
//! and the kind of OpenXR action an action becomes.
use crate::text::{chars_of, eq_str, starts_with, strip_prefix};
use crate::bevy_collections::{
    oxr_map_clone, oxr_map_contents, oxr_map_get, oxr_map_insert, oxr_map_iter, oxr_map_new,
    oxr_map_remove, OxrMap,
};
use crate::gamepad::string_from_chars;
use vstd::prelude::*;

verus! {

pub const OCULUS_TOUCH_PROFILE: &'static str = "/interaction_profiles/oculus/touch_controller";

pub const META_TOUCH_PRO_PROFILE: &'static str = "/interaction_profiles/facebook/touch_controller_pro";

pub const META_TOUCH_PLUS_PROFILE: &'static str = "/interaction_profiles/meta/touch_controller_plus";

/// The binding paths of `entries` as sequences of characters.
pub open spec fn binding_texts(bindings: Seq<String>) -> Seq<Seq<char>> {
    bindings.map_values(|b: String| b@)
}

/// The suggested bindings of an action: for each interaction profile, the binding paths in
/// the order they were added.
#[derive(Debug)]
pub struct OxrBindings {
    map: OxrMap,
}

impl OxrBindings {
    /// The bindings suggested for `profile`, or `None` when it has none.
    pub closed spec fn bindings_for(&self, profile: Seq<char>) -> Option<Seq<Seq<char>>> {
        if oxr_map_contents(self.map).contains_key(profile) {
            Some(oxr_map_contents(self.map)[profile])
        } else {
            None
        }
    }

    /// No suggested bindings.
    pub fn new() -> (r: OxrBindings)
        ensures
            forall|p: Seq<char>| #[trigger] r.bindings_for(p) is None,
    {
        OxrBindings { map: oxr_map_new() }
    }

    /// Each profile that has bindings, once, with its bindings; the profiles come in the
    /// order in which the underlying map is walked.
    pub fn entries(&self) -> (r: Vec<(String, Vec<String>)>)
        ensures
            forall|i: int|
                0 <= i < r@.len() ==> self.bindings_for(#[trigger] r@[i].0@) == Some(
                    binding_texts(r@[i].1@),
                ),
            forall|i: int, j: int| 0 <= i < j < r@.len() ==> #[trigger] r@[i].0@ != #[trigger] r@[j].0@,
            forall|p: Seq<char>|
                #[trigger] self.bindings_for(p) is Some ==> exists|i: int|
                    0 <= i < r@.len() && #[trigger] r@[i].0@ == p,
    {
        let pairs = oxr_map_iter(&self.map);
        let mut r: Vec<(String, Vec<String>)> = Vec::new();
        let mut i: usize = 0;
        while i < pairs.len()
            invariant
                i <= pairs@.len(),
                r@.len() == i,
                forall|k: int|
                    0 <= k < i ==> (#[trigger] r@[k]).0@ == pairs@[k].0@ && r@[k].1@ == pairs@[k].1@,
            decreases pairs@.len() - i,
        {
            let (k, v) = pairs[i];
            r.push((k.clone(), clone_strings(v)));
            i = i + 1;
        }
        proof {
            assert forall|x: int, y: int| 0 <= x < y < r@.len() implies #[trigger] r@[x].0@
                != #[trigger] r@[y].0@ by {
                assert(r@[x].0@ == pairs@[x].0@);
                assert(r@[y].0@ == pairs@[y].0@);
            }
            assert forall|p: Seq<char>| #[trigger] self.bindings_for(p) is Some implies exists|k: int|
                0 <= k < r@.len() && #[trigger] r@[k].0@ == p by {
                assert(oxr_map_contents(self.map).contains_key(p));
                let k = choose|k: int| 0 <= k < pairs@.len() && #[trigger] pairs@[k].0@ == p;
                assert(r@[k].0@ == p);
            }
            assert forall|k: int| 0 <= k < r@.len() implies self.bindings_for(#[trigger] r@[k].0@)
                == Some(binding_texts(r@[k].1@)) by {
                assert(r@[k].0@ == pairs@[k].0@);
                assert(r@[k].1@ == pairs@[k].1@);
            }
        }
        r
    }

    /// Adds `binding` at the end of the bindings of `profile`.
    fn add_binding(self, profile: &String, binding: &str) -> (r: OxrBindings)
        ensures
            r.bindings_for(profile@) == Some(
                match self.bindings_for(profile@) {
                    Some(old) => old,
                    None => Seq::<Seq<char>>::empty(),
                }.push(binding@),
            ),
            forall|p: Seq<char>| p != profile@ ==> #[trigger] r.bindings_for(p) == self.bindings_for(p),
    {
        let OxrBindings { mut map } = self;
        let ghost before = oxr_map_contents(map);
        let mut list = match oxr_map_get(&map, profile.as_str()) {
            Some(existing) => clone_strings(existing),
            None => Vec::new(),
        };
        let ghost old_list = list@;
        list.push(binding.to_string());
        proof {
            assert(binding_texts(list@) =~= binding_texts(old_list).push(binding@));
            if !before.contains_key(profile@) {
                assert(binding_texts(old_list) =~= Seq::<Seq<char>>::empty());
            }
        }
        oxr_map_insert(&mut map, profile.clone(), list);
        OxrBindings { map }
    }

    /// Forgets the profile `profile` and its bindings.
    pub fn remove_profile(&mut self, profile: &str)
        ensures
            final(self).bindings_for(profile@) is None,
            forall|p: Seq<char>|
                p != profile@ ==> #[trigger] final(self).bindings_for(p) == old(self).bindings_for(p),
    {
        oxr_map_remove(&mut self.map, profile);
    }

    /// Deletes the binding at `binding_index` of the profile `profile`; nothing changes
    /// when the profile has no bindings.
    pub fn delete_binding(&mut self, profile: &str, binding_index: usize)
        requires
            old(self).bindings_for(profile@) matches Some(b) ==> binding_index < b.len(),
        ensures
            final(self).bindings_for(profile@) == (match old(self).bindings_for(profile@) {
                Some(b) => Some(b.remove(binding_index as int)),
                None => None,
            }),
            forall|p: Seq<char>|
                p != profile@ ==> #[trigger] final(self).bindings_for(p) == old(self).bindings_for(p),
    {
        let found = match oxr_map_get(&self.map, profile) {
            Some(existing) => Some(clone_strings(existing)),
            None => None,
        };
        if let Some(mut list) = found {
            let ghost old_list = list@;
            let _deleted = list.remove(binding_index);
            assert(binding_texts(list@) =~= binding_texts(old_list).remove(binding_index as int));
            oxr_map_insert(&mut self.map, profile.to_string(), list);
        }
    }

    /// A builder that adds bindings for `profile`.
    pub fn interaction_profile(self, profile: &str) -> (r: OxrActionDeviceBindingBuilder)
        ensures
            r.bindings() == self,
            r.profile()@ == profile@,
    {
        OxrActionDeviceBindingBuilder { builder: self, curr_interaction_profile: profile.to_string() }
    }

    /// These bindings, with `bindings` added for `profile`.
    pub fn bindings(self, profile: &str, bindings: &Vec<String>) -> (r: OxrBindings)
        ensures
            r.bindings_for(profile@) == (if bindings@.len() == 0 {
                self.bindings_for(profile@)
            } else {
                Some(
                    match self.bindings_for(profile@) {
                        Some(old) => old,
                        None => Seq::<Seq<char>>::empty(),
                    } + binding_texts(bindings@),
                )
            }),
            forall|p: Seq<char>| p != profile@ ==> #[trigger] r.bindings_for(p) == self.bindings_for(p),
    {
        let mut builder = self.interaction_profile(profile);
        let ghost start = match self.bindings_for(profile@) {
            Some(old) => old,
            None => Seq::<Seq<char>>::empty(),
        };
        let mut i: usize = 0;
        while i < bindings.len()
            invariant
                i <= bindings@.len(),
                builder.profile()@ == profile@,
                start == (match self.bindings_for(profile@) {
                    Some(old) => old,
                    None => Seq::<Seq<char>>::empty(),
                }),
                builder.bindings().bindings_for(profile@) == (if i == 0 && self.bindings_for(
                    profile@,
                ) is None {
                    None
                } else {
                    Some(start + binding_texts(bindings@.take(i as int)))
                }),
                forall|p: Seq<char>|
                    p != profile@ ==> #[trigger] builder.bindings().bindings_for(p)
                        == self.bindings_for(p),
            decreases bindings@.len() - i,
        {
            let ghost prev = builder.bindings().bindings_for(profile@);
            let b = bindings[i].as_str();
            assert(b@ == bindings@[i as int]@);
            builder = builder.binding(b);
            proof {
                let old_or_empty = match prev {
                    Some(old) => old,
                    None => Seq::<Seq<char>>::empty(),
                };
                if i == 0 {
                    assert(bindings@.take(0) =~= Seq::<String>::empty());
                    assert(binding_texts(bindings@.take(0)) =~= Seq::<Seq<char>>::empty());
                    assert(start + binding_texts(bindings@.take(0)) =~= start);
                    if self.bindings_for(profile@) is None {
                        assert(prev is None);
                        assert(start =~= Seq::<Seq<char>>::empty());
                    } else {
                        assert(prev == Some(start + binding_texts(bindings@.take(i as int))));
                    }
                }
                assert(old_or_empty =~= start + binding_texts(bindings@.take(i as int)));
                assert(binding_texts(bindings@.take(i + 1)) =~= binding_texts(
                    bindings@.take(i as int),
                ).push(bindings@[i as int]@));
                assert(start + binding_texts(bindings@.take(i + 1)) =~= (start + binding_texts(
                    bindings@.take(i as int),
                )).push(bindings@[i as int]@));
                if i == 0 {
                    assert(binding_texts(bindings@.take(0)) =~= Seq::<Seq<char>>::empty());
                }
            }
            i = i + 1;
        }
        let r = builder.end();
        proof {
            assert(bindings@.take(i as int) =~= bindings@);
            if i == 0 {
                assert(binding_texts(bindings@) =~= Seq::<Seq<char>>::empty());
                assert(start + binding_texts(bindings@) =~= start);
            }
        }
        r
    }
}

/// A copy of `strings`.
fn clone_strings(strings: &Vec<String>) -> (r: Vec<String>)
    ensures
        r@ == strings@,
{
    let mut r: Vec<String> = Vec::new();
    let mut i: usize = 0;
    while i < strings.len()
        invariant
            i <= strings@.len(),
            r@ == strings@.take(i as int),
        decreases strings@.len() - i,
    {
        r.push(strings[i].clone());
        i = i + 1;
        assert(r@ =~= strings@.take(i as int));
    }
    assert(r@ =~= strings@);
    r
}

impl Clone for OxrBindings {
    fn clone(&self) -> (r: OxrBindings)
        ensures
            forall|p: Seq<char>| #[trigger] r.bindings_for(p) == self.bindings_for(p),
    {
        OxrBindings { map: oxr_map_clone(&self.map) }
    }
}

impl Default for OxrBindings {
    fn default() -> (r: OxrBindings)
        ensures
            forall|p: Seq<char>| #[trigger] r.bindings_for(p) is None,
    {
        OxrBindings::new()
    }
}

/// Adds bindings for one interaction profile.
#[derive(Debug)]
pub struct OxrActionDeviceBindingBuilder {
    builder: OxrBindings,
    curr_interaction_profile: String,
}

impl OxrActionDeviceBindingBuilder {
    /// The bindings built so far.
    pub closed spec fn bindings(&self) -> OxrBindings {
        self.builder
    }

    /// The profile bindings are added for.
    pub closed spec fn profile(&self) -> String {
        self.curr_interaction_profile
    }

    /// Adds `binding` at the end of the current profile's bindings.
    pub fn binding(self, binding: &str) -> (r: OxrActionDeviceBindingBuilder)
        ensures
            r.profile() == self.profile(),
            r.bindings().bindings_for(self.profile()@) == Some(
                match self.bindings().bindings_for(self.profile()@) {
                    Some(old) => old,
                    None => Seq::<Seq<char>>::empty(),
                }.push(binding@),
            ),
            forall|p: Seq<char>|
                p != self.profile()@ ==> #[trigger] r.bindings().bindings_for(p)
                    == self.bindings().bindings_for(p),
    {
        let OxrActionDeviceBindingBuilder { builder, curr_interaction_profile } = self;
        let bindings = builder.add_binding(&curr_interaction_profile, binding);
        OxrActionDeviceBindingBuilder { builder: bindings, curr_interaction_profile }
    }

    /// The bindings built.
    pub fn end(self) -> (r: OxrBindings)
        ensures
            r == self.bindings(),
    {
        self.builder
    }
}

/// Marks a subaction path that selects OpenXR bindings.
#[derive(Clone, Copy, Debug, PartialEq, Eq, Structural)]
pub struct IsOxrSubactionPath;

/// Marks an action whose bindings were suggested to the OpenXR runtime.
#[derive(Clone, Copy, Debug, PartialEq, Eq, Structural)]
pub struct BindingsSuggested;

/// What a subaction path string stands for with respect to OpenXR.
#[derive(Clone, Debug, PartialEq, Eq)]
pub enum OxrSubactionPathKind {
    /// Not an OpenXR path.
    NotOxr,
    /// An OpenXR path that selects all OpenXR bindings.
    AllOxr,
    /// An OpenXR path naming this OpenXR path (such as `/user/hand/left`).
    Path(String),
}

/// How a subaction path string is read for OpenXR: a path starting with `/oxr` is an
/// OpenXR path; followed by nothing or `/*` it selects all OpenXR bindings, else the rest
/// is an OpenXR path.
pub open spec fn oxr_path_spec(s: Seq<char>) -> Option<Option<Seq<char>>> {
    if !starts_with(s, "/oxr"@) {
        None
    } else {
        let rest = s.skip("/oxr"@.len() as int);
        if rest.len() == 0 || rest == "/*"@ {
            Some(None)
        } else {
            Some(Some(rest))
        }
    }
}

/// How the subaction path string `path` is read for OpenXR.
pub fn classify_oxr_subaction_path(path: &str) -> (r: OxrSubactionPathKind)
    ensures
        match (r, oxr_path_spec(path@)) {
            (OxrSubactionPathKind::NotOxr, None) => true,
            (OxrSubactionPathKind::AllOxr, Some(None)) => true,
            (OxrSubactionPathKind::Path(p), Some(Some(rest))) => p@ == rest,
            _ => false,
        },
{
    let v = chars_of(path);
    match strip_prefix(&v, "/oxr") {
        None => OxrSubactionPathKind::NotOxr,
        Some(rest) => {
            if rest.len() == 0 || eq_str(&rest, "/*") {
                OxrSubactionPathKind::AllOxr
            } else {
                OxrSubactionPathKind::Path(string_from_chars(&rest))
            }
        },
    }
}

/// The kind of OpenXR action an action becomes.
#[derive(Clone, Copy, Debug, PartialEq, Eq, Structural)]
pub enum OxrActionKind {
    Bool,
    F32,
    Vec2,
    Space,
}

/// Why an action cannot become an OpenXR action.
#[derive(Clone, Copy, Debug, PartialEq, Eq, Structural)]
pub enum OxrActionKindError {
    /// The action has no value component.
    NoValue,
    /// The action has more than one value component.
    TooManyValues,
}

/// The kind of OpenXR action for an action with the given value components: exactly one
/// of them decides the kind; none or several are errors.
pub fn select_oxr_action_kind(has_bool: bool, has_f32: bool, has_vec2: bool, has_space: bool) -> (r:
    Result<OxrActionKind, OxrActionKindError>)
    ensures
        r == (match (has_bool, has_f32, has_vec2, has_space) {
            (true, false, false, false) => Ok(OxrActionKind::Bool),
            (false, true, false, false) => Ok(OxrActionKind::F32),
            (false, false, true, false) => Ok(OxrActionKind::Vec2),
            (false, false, false, true) => Ok(OxrActionKind::Space),
            (false, false, false, false) => Err(OxrActionKindError::NoValue),
            _ => Err(OxrActionKindError::TooManyValues),
        }),
{
    match (has_bool, has_f32, has_vec2, has_space) {
        (true, false, false, false) => Ok(OxrActionKind::Bool),
        (false, true, false, false) => Ok(OxrActionKind::F32),
        (false, false, true, false) => Ok(OxrActionKind::Vec2),
        (false, false, false, true) => Ok(OxrActionKind::Space),
        (false, false, false, false) => Err(OxrActionKindError::NoValue),
        _ => Err(OxrActionKindError::TooManyValues),
    }
}

} // verus!
