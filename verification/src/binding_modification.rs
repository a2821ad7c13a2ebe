//! Modifications of how bindings are read: for all bindings of an action, or only for the
//! bindings that a subaction path selects.
use crate::subaction_paths::SubactionPath;
use vstd::prelude::*;

verus! {

/// A modification: the id of the entity that carries the modification's markers.
#[derive(Clone, Copy, Debug, PartialEq, Eq, Structural, Hash)]
pub struct BindingModifiaction(pub u64);

/// The modifications of an action: one that applies to all bindings, and ones that apply
/// to the bindings a subaction path selects.
#[derive(Clone, Debug)]
pub struct BindingModifications {
    pub all_paths: Option<BindingModifiaction>,
    pub per_path: Vec<(SubactionPath, BindingModifiaction)>,
}

impl BindingModifications {
    /// No modifications.
    pub fn new() -> (r: BindingModifications)
        ensures
            r.all_paths is None,
            r.per_path@ == Seq::<(SubactionPath, BindingModifiaction)>::empty(),
    {
        BindingModifications { all_paths: None, per_path: Vec::new() }
    }

    /// These modifications, with `modification` added for the bindings `path` selects.
    pub fn with_path_modification(self, path: SubactionPath, modification: u64) -> (r:
        BindingModifications)
        ensures
            r.all_paths == self.all_paths,
            r.per_path@ == self.per_path@.push((path, BindingModifiaction(modification))),
    {
        let mut s = self;
        s.path_modification(path, modification);
        s
    }

    /// Adds `modification` for the bindings `path` selects.
    pub fn path_modification(&mut self, path: SubactionPath, modification: u64)
        ensures
            final(self).all_paths == old(self).all_paths,
            final(self).per_path@ == old(self).per_path@.push(
                (path, BindingModifiaction(modification)),
            ),
    {
        self.per_path.push((path, BindingModifiaction(modification)));
    }
}

impl Default for BindingModifications {
    fn default() -> (r: BindingModifications)
        ensures
            r.all_paths is None,
            r.per_path@ == Seq::<(SubactionPath, BindingModifiaction)>::empty(),
    {
        BindingModifications::new()
    }
}

/// Marker of a modification that multiplies a binding's value by the frame's duration
/// in seconds.
#[derive(Clone, Copy, Debug, PartialEq, Eq, Structural, Hash)]
pub struct PremultiplyDeltaSecsModification;

/// Marker of a modification that reads a gamepad axis without clamping it.
#[derive(Clone, Copy, Debug, PartialEq, Eq, Structural, Hash)]
pub struct UnboundedModification;

/// The markers a modification entity carries.
#[derive(Clone, Copy, Debug, PartialEq, Eq, Structural, Hash)]
pub struct ModificationFlags {
    pub premul_delta_time: bool,
    pub unbounded: bool,
}

impl Default for ModificationFlags {
    fn default() -> (r: ModificationFlags)
        ensures
            !r.premul_delta_time,
            !r.unbounded,
    {
        ModificationFlags { premul_delta_time: false, unbounded: false }
    }
}

/// One entry of an action's per-path modifications, as seen from one binding: whether its
/// path exists and selects the binding, and the markers of its modification entity (`None`
/// when that entity does not exist).
#[derive(Clone, Copy, Debug, PartialEq, Eq, Structural)]
pub struct PathModification {
    pub applies: bool,
    pub flags: Option<ModificationFlags>,
}

/// Whether an entry applies and carries the pre-multiplication marker.
pub open spec fn entry_premul(e: PathModification) -> bool {
    e.applies && match e.flags {
        Some(f) => f.premul_delta_time,
        None => false,
    }
}

/// Whether an entry applies and carries the unbounded marker.
pub open spec fn entry_unbounded(e: PathModification) -> bool {
    e.applies && match e.flags {
        Some(f) => f.unbounded,
        None => false,
    }
}

/// Whether some entry applies and carries the pre-multiplication marker.
pub open spec fn some_premul(per_path: Seq<PathModification>) -> bool {
    exists|k: int| 0 <= k < per_path.len() && #[trigger] entry_premul(per_path[k])
}

/// Whether some entry applies and carries the unbounded marker.
pub open spec fn some_unbounded(per_path: Seq<PathModification>) -> bool {
    exists|k: int| 0 <= k < per_path.len() && #[trigger] entry_unbounded(per_path[k])
}

/// The modifications in effect for one binding: those of the modification for all paths
/// (none when it is missing) together with those of every per-path entry that applies.
pub open spec fn combined_modifications(
    all_paths: Option<ModificationFlags>,
    per_path: Seq<PathModification>,
) -> ModificationFlags {
    ModificationFlags {
        premul_delta_time: match all_paths {
            Some(a) => a.premul_delta_time,
            None => false,
        } || some_premul(per_path),
        unbounded: match all_paths {
            Some(a) => a.unbounded,
            None => false,
        } || some_unbounded(per_path),
    }
}

/// The modifications in effect for one binding: those of the modification for all paths
/// (none when it is missing) together with those of every per-path entry that applies.
pub fn combine_modifications(
    all_paths: Option<ModificationFlags>,
    per_path: &Vec<PathModification>,
) -> (r: ModificationFlags)
    ensures
        r == combined_modifications(all_paths, per_path@),
{
    let mut r = match all_paths {
        Some(a) => a,
        None => ModificationFlags::default(),
    };
    let ghost base = r;
    let mut i: usize = 0;
    while i < per_path.len()
        invariant
            i <= per_path@.len(),
            base == (match all_paths {
                Some(a) => a,
                None => ModificationFlags { premul_delta_time: false, unbounded: false },
            }),
            r.premul_delta_time == (base.premul_delta_time || some_premul(
                per_path@.take(i as int),
            )),
            r.unbounded == (base.unbounded || some_unbounded(per_path@.take(i as int))),
        decreases per_path@.len() - i,
    {
        let entry = per_path[i];
        proof {
            let before = per_path@.take(i as int);
            let after = per_path@.take(i + 1);
            assert(after =~= before.push(entry));
            assert(after[i as int] == entry);
            if entry_premul(entry) {
                assert(entry_premul(after[i as int]));
            }
            if entry_unbounded(entry) {
                assert(entry_unbounded(after[i as int]));
            }
            if some_premul(before) {
                let k = choose|k: int| 0 <= k < before.len() && #[trigger] entry_premul(before[k]);
                assert(after[k] == before[k]);
            }
            if some_unbounded(before) {
                let k = choose|k: int| 0 <= k < before.len() && #[trigger] entry_unbounded(before[k]);
                assert(after[k] == before[k]);
            }
            if some_premul(after) {
                let k = choose|k: int| 0 <= k < after.len() && #[trigger] entry_premul(after[k]);
                if k < i {
                    assert(before[k] == after[k]);
                }
            }
            if some_unbounded(after) {
                let k = choose|k: int| 0 <= k < after.len() && #[trigger] entry_unbounded(after[k]);
                if k < i {
                    assert(before[k] == after[k]);
                }
            }
            assert(some_premul(after) == (some_premul(before) || entry_premul(entry)));
            assert(some_unbounded(after) == (some_unbounded(before) || entry_unbounded(entry)));
        }
        if entry.applies {
            if let Some(f) = entry.flags {
                r.premul_delta_time = r.premul_delta_time || f.premul_delta_time;
                r.unbounded = r.unbounded || f.unbounded;
            }
        }
        i = i + 1;
    }
    assert(per_path@.take(i as int) =~= per_path@);
    r
}

} // verus!
