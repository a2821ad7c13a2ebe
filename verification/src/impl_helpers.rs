//! The rules shared by the input providers: which bindings an action evaluates for its
//! value for any path and for each requested subaction path, with which modifications,
//! and how boolean binding values are combined.
use crate::binding_modification::{
    combine_modifications, combined_modifications, ModificationFlags, PathModification,
};
use crate::subaction_paths::SubactionPath;
use crate::BoolActionValue;
use vstd::prelude::*;

verus! {

broadcast use vstd::std_specs::hash::group_hash_axioms;

/// `selected` lists, in increasing order, exactly the indices `i` with `matches[i]`.
pub open spec fn is_selection(selected: Seq<usize>, matches: Seq<bool>) -> bool {
    &&& forall|k: int|
        0 <= k < selected.len() ==> (#[trigger] selected[k]) < matches.len() && matches[selected[k] as int]
    &&& forall|k1: int, k2: int| 0 <= k1 < k2 < selected.len() ==> selected[k1] < selected[k2]
    &&& forall|i: int| 0 <= i < matches.len() && #[trigger] matches[i] ==> selected.contains(i as usize)
}

/// The indices of the bindings that `matches` marks, in increasing order.
pub fn select_matching(matches: &Vec<bool>) -> (r: Vec<usize>)
    ensures
        is_selection(r@, matches@),
{
    let mut r: Vec<usize> = Vec::new();
    let mut i: usize = 0;
    while i < matches.len()
        invariant
            i <= matches@.len(),
            forall|k: int| 0 <= k < r@.len() ==> (#[trigger] r@[k]) < i && matches@[r@[k] as int],
            forall|k1: int, k2: int| 0 <= k1 < k2 < r@.len() ==> r@[k1] < r@[k2],
            forall|j: int| 0 <= j < i && #[trigger] matches@[j] ==> r@.contains(j as usize),
        decreases matches@.len() - i,
    {
        if matches[i] {
            let ghost before = r@;
            r.push(i);
            proof {
                assert forall|j: int| 0 <= j < i + 1 && #[trigger] matches@[j] implies r@.contains(
                    j as usize,
                ) by {
                    if j < i {
                        let k = choose|k: int| 0 <= k < before.len() && before[k] == j as usize;
                        assert(r@[k] == j as usize);
                    } else {
                        assert(r@[r@.len() - 1] == j as usize);
                    }
                }
            }
        }
        i = i + 1;
    }
    r
}

/// What an action evaluates in one frame: the modifications in effect for each binding,
/// and for each requested subaction path whose path data exists, the bindings that path
/// selects. Every binding is evaluated for the value for any path.
#[derive(Clone, Debug)]
pub struct ProviderPlan {
    pub modifications: Vec<ModificationFlags>,
    pub paths: Vec<Option<Vec<usize>>>,
}

/// The plan for one action. `set_enabled` tells whether the action's set exists and is
/// enabled (nothing is evaluated otherwise); `per_binding[i]` holds the action's per-path
/// modifications as seen from binding `i`; `requested[j]` is `None` when the path data of
/// the `j`-th requested path does not exist, else whether that path selects each binding.
pub fn plan_provider_run(
    set_enabled: bool,
    all_paths: Option<ModificationFlags>,
    per_binding: &Vec<Vec<PathModification>>,
    requested: &Vec<Option<Vec<bool>>>,
) -> (r: Option<ProviderPlan>)
    ensures
        r is None <==> !set_enabled,
        r matches Some(plan) ==> {
            &&& plan.modifications@.len() == per_binding@.len()
            &&& forall|i: int|
                0 <= i < per_binding@.len() ==> #[trigger] plan.modifications@[i]
                    == combined_modifications(all_paths, per_binding@[i]@)
            &&& plan.paths@.len() == requested@.len()
            &&& forall|j: int|
                0 <= j < requested@.len() ==> match (#[trigger] plan.paths@[j], requested@[j]) {
                    (None, None) => true,
                    (Some(selected), Some(matches)) => is_selection(selected@, matches@),
                    _ => false,
                }
        },
{
    if !set_enabled {
        return None;
    }
    let mut modifications: Vec<ModificationFlags> = Vec::new();
    let mut i: usize = 0;
    while i < per_binding.len()
        invariant
            i <= per_binding@.len(),
            modifications@.len() == i,
            forall|k: int|
                0 <= k < i ==> #[trigger] modifications@[k] == combined_modifications(
                    all_paths,
                    per_binding@[k]@,
                ),
        decreases per_binding@.len() - i,
    {
        modifications.push(combine_modifications(all_paths, &per_binding[i]));
        i = i + 1;
    }
    let mut paths: Vec<Option<Vec<usize>>> = Vec::new();
    let mut j: usize = 0;
    while j < requested.len()
        invariant
            j <= requested@.len(),
            paths@.len() == j,
            forall|k: int|
                0 <= k < j ==> match (#[trigger] paths@[k], requested@[k]) {
                    (None, None) => true,
                    (Some(selected), Some(matches)) => is_selection(selected@, matches@),
                    _ => false,
                },
        decreases requested@.len() - j,
    {
        match &requested[j] {
            Some(matches) => paths.push(Some(select_matching(matches))),
            None => paths.push(None),
        }
        j = j + 1;
    }
    Some(ProviderPlan { modifications, paths })
}

/// Whether some evaluated binding gave `true`.
pub open spec fn any_true(values: Seq<Option<bool>>) -> bool {
    exists|k: int| 0 <= k < values.len() && #[trigger] values[k] == Some(true)
}

/// Adds the boolean results `values` of the bindings evaluated for `sub_path` (or for any
/// path, when `None`) to `value`: the result is `true` when some binding gave `true`, and
/// a value already `true` stays `true`. For a path, a missing value counts as `false` and
/// is created.
pub fn apply_values(
    sub_path: Option<SubactionPath>,
    values: &Vec<Option<bool>>,
    value: &mut BoolActionValue,
)
    ensures
        match sub_path {
            Some(p) => {
                &&& final(value).0.paths@ == old(value).0.paths@.insert(
                    p.0,
                    (old(value).0.paths@.contains_key(p.0) && old(value).0.paths@[p.0]) || any_true(
                        values@,
                    ),
                )
                &&& final(value).0.any == old(value).0.any
            },
            None => {
                &&& final(value).0.paths@ == old(value).0.paths@
                &&& final(value).0.any == (old(value).0.any || any_true(values@))
            },
        },
{
    let mut out = false;
    let mut k: usize = 0;
    while k < values.len()
        invariant
            k <= values@.len(),
            out == any_true(values@.take(k as int)),
        decreases values@.len() - k,
    {
        proof {
            let before = values@.take(k as int);
            let after = values@.take(k + 1);
            assert(after =~= before.push(values@[k as int]));
            if any_true(before) {
                let n = choose|n: int| 0 <= n < before.len() && #[trigger] before[n] == Some(true);
                assert(after[n] == Some(true));
            }
            if any_true(after) {
                let n = choose|n: int| 0 <= n < after.len() && #[trigger] after[n] == Some(true);
                if n < k {
                    assert(before[n] == Some(true));
                }
            }
            if values@[k as int] == Some(true) {
                assert(after[k as int] == Some(true));
            }
        }
        if let Some(b) = values[k] {
            out = out || b;
        }
        k = k + 1;
    }
    assert(values@.take(k as int) =~= values@);
    match sub_path {
        Some(p) => {
            let current = match value.0.paths.get(&p.0) {
                Some(v) => *v,
                None => false,
            };
            value.0.paths.insert(p.0, current || out);
        },
        None => {
            value.0.any = value.0.any || out;
        },
    }
}

} // verus!
