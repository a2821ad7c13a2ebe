//! Priorities between action sets: an enabled action set blocks, for every set of lower
//! priority, the inputs that its own actions are bound to.
use crate::bevy_collections::{IdMap, id_map_clone, id_map_contents, id_map_get, id_map_new, id_map_insert, id_set_contains, id_set_contents, id_set_insert, id_set_new};
use vstd::prelude::*;

verus! {

/// The bindings that are blocked for an action set: for each kind of binding (one per
/// kind of input device), the set of blocked binding ids of that kind.
#[derive(Debug)]
pub struct BlockedInputs(pub IdMap);

impl Clone for BlockedInputs {
    fn clone(&self) -> (r: BlockedInputs)
        ensures
            r@ == self@,
    {
        BlockedInputs(id_map_clone(&self.0))
    }
}

impl View for BlockedInputs {
    type V = Set<(u64, u64)>;

    open spec fn view(&self) -> Set<(u64, u64)> {
        Set::new(
            |b: (u64, u64)|
                id_map_contents(self.0).contains_key(b.0) && id_map_contents(self.0)[b.0].contains(b.1),
        )
    }
}

impl BlockedInputs {
    /// Whether the binding `binding_id` of the kind `binding_type` is blocked.
    pub fn contains(&self, binding_type: u64, binding_id: u64) -> (r: bool)
        ensures
            r == self@.contains((binding_type, binding_id)),
    {
        match id_map_get(&self.0, binding_type) {
            Some(s) => id_set_contains(s, binding_id),
            None => false,
        }
    }

    /// The blocked inputs made of the pairs of binding kind and binding id in `pairs`.
    pub fn from_pairs(pairs: &Vec<(u64, u64)>) -> (r: BlockedInputs)
        ensures
            r@ == Set::new(|b: (u64, u64)| pairs@.contains(b)),
    {
        let mut m = id_map_new();
        let mut i: usize = 0;
        while i < pairs.len()
            invariant
                i <= pairs@.len(),
                forall|t: u64|
                    #[trigger] id_map_contents(m).contains_key(t) <==> exists|k: int|
                        0 <= k < i && #[trigger] pairs@[k].0 == t,
                forall|t: u64|
                    #[trigger] id_map_contents(m).contains_key(t) ==> id_map_contents(m)[t] == Set::new(
                        |id: u64| pairs@.contains((t, id)),
                    ),
            decreases pairs@.len() - i,
        {
            let t = pairs[i].0;
            if id_map_get(&m, t).is_none() {
                let mut s = id_set_new();
                let mut k: usize = 0;
                while k < pairs.len()
                    invariant
                        k <= pairs@.len(),
                        id_set_contents(s) == Set::new(
                            |id: u64| exists|n: int| 0 <= n < k && pairs@[n] == (t, id),
                        ),
                    decreases pairs@.len() - k,
                {
                    if pairs[k].0 == t {
                        id_set_insert(&mut s, pairs[k].1);
                    }
                    k = k + 1;
                    assert(id_set_contents(s) =~= Set::new(
                        |id: u64| exists|n: int| 0 <= n < k && pairs@[n] == (t, id),
                    ));
                }
                assert(id_set_contents(s) =~= Set::new(|id: u64| pairs@.contains((t, id))));
                id_map_insert(&mut m, t, s);
            }
            proof {
                assert(pairs@[i as int].0 == t);
            }
            i = i + 1;
        }
        let r = BlockedInputs(m);
        assert(r@ =~= Set::new(|b: (u64, u64)| pairs@.contains(b))) by {
            assert forall|b: (u64, u64)| pairs@.contains(b) implies id_map_contents(m).contains_key(
                b.0,
            ) by {
                let n = choose|n: int| 0 <= n < pairs@.len() && pairs@[n] == b;
                assert(pairs@[n].0 == b.0);
            }
        }
        r
    }
}

/// Whether a binding id of the kind `binding_type` is left to act: it is not in `blocked`
/// (an action set with no blocked inputs blocks nothing).
pub open spec fn binding_unblocked(blocked: Option<BlockedInputs>, binding_type: u64, id: u64) -> bool {
    match blocked {
        Some(b) => !b@.contains((binding_type, id)),
        None => true,
    }
}

/// For each binding id in `ids`, of the kind `binding_type`, whether it is left to act
/// under the inputs `blocked` for its action set.
pub fn unblocked_bindings(blocked: &Option<BlockedInputs>, binding_type: u64, ids: &Vec<u64>) -> (r:
    Vec<bool>)
    ensures
        r@.len() == ids@.len(),
        forall|i: int|
            0 <= i < ids@.len() ==> #[trigger] r@[i] == binding_unblocked(*blocked, binding_type, ids@[i]),
{
    let mut r: Vec<bool> = Vec::new();
    let mut i: usize = 0;
    while i < ids.len()
        invariant
            i <= ids@.len(),
            r@.len() == i,
            forall|k: int| 0 <= k < i ==> #[trigger] r@[k] == binding_unblocked(*blocked, binding_type, ids@[k]),
        decreases ids@.len() - i,
    {
        let keep = match blocked {
            Some(b) => !b.contains(binding_type, ids[i]),
            None => true,
        };
        r.push(keep);
        i = i + 1;
    }
    r
}

/// An action set with the bindings of all its actions, as pairs of a binding kind id and
/// a binding id.
#[derive(Clone, Debug)]
pub struct ActionSetBindings {
    pub set: u64,
    pub enabled: bool,
    pub transparent: bool,
    pub priority: u32,
    pub bindings: Vec<(u64, u64)>,
}

/// Whether a set takes part in blocking: it is enabled and not transparent.
pub open spec fn takes_part(set: ActionSetBindings) -> bool {
    set.enabled && !set.transparent
}

/// Whether the set `j` blocks its bindings for the set `i`: both take part and `j` has the
/// strictly higher priority.
pub open spec fn blocks(sets: Seq<ActionSetBindings>, j: int, i: int) -> bool {
    0 <= j < sets.len() && takes_part(sets[j]) && sets[j].priority > sets[i].priority
}

/// The bindings blocked for the set `i`: those of every set that blocks it.
pub open spec fn blocked_for(sets: Seq<ActionSetBindings>, i: int) -> Set<(u64, u64)> {
    Set::new(|b: (u64, u64)| exists|j: int| #[trigger] blocks(sets, j, i) && sets[j].bindings@.contains(b))
}

/// For each set, in order: `None` for a set that does not take part, else the bindings
/// blocked for it.
pub fn compute_blocked_inputs(sets: &Vec<ActionSetBindings>) -> (r: Vec<Option<BlockedInputs>>)
    ensures
        r@.len() == sets@.len(),
        forall|i: int|
            0 <= i < sets@.len() ==> match #[trigger] r@[i] {
                Some(blocked) => takes_part(sets@[i]) && blocked@ == blocked_for(sets@, i),
                None => !takes_part(sets@[i]),
            },
{
    let mut result: Vec<Option<BlockedInputs>> = Vec::new();
    let mut i: usize = 0;
    while i < sets.len()
        invariant
            i <= sets@.len(),
            result@.len() == i,
            forall|k: int|
                0 <= k < i ==> match #[trigger] result@[k] {
                    Some(blocked) => takes_part(sets@[k]) && blocked@ == blocked_for(sets@, k),
                    None => !takes_part(sets@[k]),
                },
        decreases sets@.len() - i,
    {
        let current = &sets[i];
        if !(current.enabled && !current.transparent) {
            result.push(None);
        } else {
            let mut acc: Vec<(u64, u64)> = Vec::new();
            let mut j: usize = 0;
            while j < sets.len()
                invariant
                    i < sets@.len(),
                    j <= sets@.len(),
                    current == sets@[i as int],
                    forall|b: (u64, u64)|
                        acc@.contains(b) <==> exists|jj: int|
                            0 <= jj < j && #[trigger] blocks(sets@, jj, i as int)
                                && sets@[jj].bindings@.contains(b),
                decreases sets@.len() - j,
            {
                let other = &sets[j];
                if other.enabled && !other.transparent && other.priority > current.priority {
                    let ghost before = acc@;
                    let mut k: usize = 0;
                    while k < other.bindings.len()
                        invariant
                            i < sets@.len(),
                            j < sets@.len(),
                            other == sets@[j as int],
                            blocks(sets@, j as int, i as int),
                            k <= other.bindings@.len(),
                            acc@ == before + other.bindings@.take(k as int),
                        decreases other.bindings@.len() - k,
                    {
                        acc.push(other.bindings[k]);
                        k = k + 1;
                        assert(acc@ =~= before + other.bindings@.take(k as int));
                    }
                    assert(other.bindings@.take(k as int) =~= other.bindings@);
                    assert forall|b: (u64, u64)|
                        acc@.contains(b) <==> exists|jj: int|
                            0 <= jj < j + 1 && #[trigger] blocks(sets@, jj, i as int)
                                && sets@[jj].bindings@.contains(b) by {
                        if acc@.contains(b) {
                            let n = choose|n: int| 0 <= n < acc@.len() && acc@[n] == b;
                            if n >= before.len() {
                                assert(other.bindings@[n - before.len()] == b);
                                assert(blocks(sets@, j as int, i as int));
                            } else {
                                assert(before[n] == b);
                                assert(before.contains(b));
                            }
                        }
                        if exists|jj: int|
                            0 <= jj < j + 1 && #[trigger] blocks(sets@, jj, i as int)
                                && sets@[jj].bindings@.contains(b) {
                            let jj = choose|jj: int|
                                0 <= jj < j + 1 && #[trigger] blocks(sets@, jj, i as int)
                                    && sets@[jj].bindings@.contains(b);
                            if jj == j {
                                let n = choose|n: int|
                                    0 <= n < other.bindings@.len() && other.bindings@[n] == b;
                                assert(acc@[before.len() + n] == b);
                            } else {
                                assert(before.contains(b));
                                let n = choose|n: int| 0 <= n < before.len() && before[n] == b;
                                assert(acc@[n] == b);
                            }
                        }
                    }
                } else {
                    assert forall|b: (u64, u64)|
                        acc@.contains(b) <==> exists|jj: int|
                            0 <= jj < j + 1 && #[trigger] blocks(sets@, jj, i as int)
                                && sets@[jj].bindings@.contains(b) by {
                        if exists|jj: int|
                            0 <= jj < j + 1 && #[trigger] blocks(sets@, jj, i as int)
                                && sets@[jj].bindings@.contains(b) {
                            let jj = choose|jj: int|
                                0 <= jj < j + 1 && #[trigger] blocks(sets@, jj, i as int)
                                    && sets@[jj].bindings@.contains(b);
                            assert(jj != j);
                        }
                    }
                }
                j = j + 1;
            }
            let blocked = BlockedInputs::from_pairs(&acc);
            assert(blocked@ =~= blocked_for(sets@, i as int)) by {
                assert forall|b: (u64, u64)| blocked@.contains(b) <==> blocked_for(
                    sets@,
                    i as int,
                ).contains(b) by {
                    if blocked_for(sets@, i as int).contains(b) {
                        let jj = choose|jj: int|
                            #[trigger] blocks(sets@, jj, i as int) && sets@[jj].bindings@.contains(
                                b,
                            );
                        assert(0 <= jj < j);
                    }
                }
            }
            result.push(Some(blocked));
        }
        i = i + 1;
    }
    result
}

/// A set of the highest priority among the sets that take part has nothing blocked.
pub proof fn lemma_highest_priority_unblocked(sets: Seq<ActionSetBindings>, i: int)
    requires
        0 <= i < sets.len(),
        forall|j: int| 0 <= j < sets.len() && takes_part(sets[j]) ==> sets[j].priority <= sets[i].priority,
    ensures
        blocked_for(sets, i) == Set::<(u64, u64)>::empty(),
{
    assert(blocked_for(sets, i) =~= Set::<(u64, u64)>::empty());
}

/// Sets of equal priority never block each other, and a set never blocks itself: a
/// binding held only by sets whose priority is not above that of `i` is not blocked for `i`.
pub proof fn lemma_equal_priority_does_not_block(sets: Seq<ActionSetBindings>, i: int, b: (u64, u64))
    requires
        0 <= i < sets.len(),
        forall|j: int|
            0 <= j < sets.len() && takes_part(sets[j]) && sets[j].bindings@.contains(b)
                ==> sets[j].priority <= sets[i].priority,
    ensures
        !blocked_for(sets, i).contains(b),
{
}

/// The lower a set's priority, the more is blocked for it: what is blocked for a set is
/// also blocked for every set of lower priority.
pub proof fn lemma_lower_priority_blocks_more(sets: Seq<ActionSetBindings>, i: int, k: int)
    requires
        0 <= i < sets.len(),
        0 <= k < sets.len(),
        sets[k].priority < sets[i].priority,
    ensures
        blocked_for(sets, i).subset_of(blocked_for(sets, k)),
{
    assert forall|b: (u64, u64)| blocked_for(sets, i).contains(b) implies blocked_for(
        sets,
        k,
    ).contains(b) by {
        let j = choose|j: int| #[trigger] blocks(sets, j, i) && sets[j].bindings@.contains(b);
        assert(blocks(sets, j, k));
    }
}

/// Every binding of a set that takes part is blocked for every set of strictly lower
/// priority.
pub proof fn lemma_higher_priority_bindings_blocked(
    sets: Seq<ActionSetBindings>,
    j: int,
    i: int,
    b: (u64, u64),
)
    requires
        0 <= i < sets.len(),
        0 <= j < sets.len(),
        takes_part(sets[j]),
        sets[j].priority > sets[i].priority,
        sets[j].bindings@.contains(b),
    ensures
        blocked_for(sets, i).contains(b),
{
    assert(blocks(sets, j, i));
}

/// A transparent or disabled set blocks nothing for any set, and nothing is blocked for it
/// (it gets no blocked inputs at all).
pub proof fn lemma_transparent_set_neither_blocks_nor_is_blocked(
    sets: Seq<ActionSetBindings>,
    j: int,
)
    requires
        0 <= j < sets.len(),
        sets[j].transparent || !sets[j].enabled,
    ensures
        forall|i: int| 0 <= i < sets.len() ==> !#[trigger] blocks(sets, j, i),
        !takes_part(sets[j]),
{
}

} // verus!
