use schminput::priorities::{
    compute_blocked_inputs, unblocked_bindings, ActionSetBindings, BlockedInputs,
};

fn set(set: u64, priority: u32, enabled: bool, transparent: bool, bindings: Vec<(u64, u64)>) -> ActionSetBindings {
    ActionSetBindings { set, enabled, transparent, priority, bindings }
}

#[test]
fn higher_priority_sets_block_lower_ones() {
    let sets = vec![
        set(1, 0, true, false, vec![(1, 100), (2, 200)]),
        set(2, 5, true, false, vec![(1, 100)]),
        set(3, 5, true, false, vec![(1, 101)]),
        set(4, 9, true, false, vec![(2, 200), (2, 201)]),
    ];
    let r = compute_blocked_inputs(&sets);
    assert_eq!(r.len(), 4);
    let low = r[0].as_ref().unwrap();
    assert!(low.contains(1, 100));
    assert!(low.contains(1, 101));
    assert!(low.contains(2, 200));
    assert!(low.contains(2, 201));
    let mid_a = r[1].as_ref().unwrap();
    // a set of equal priority does not block
    assert!(!mid_a.contains(1, 101));
    assert!(!mid_a.contains(1, 100));
    assert!(mid_a.contains(2, 200));
    let mid_b = r[2].as_ref().unwrap();
    assert!(!mid_b.contains(1, 100));
    assert!(mid_b.contains(2, 201));
    let top = r[3].as_ref().unwrap();
    assert!(top.0.is_empty());
}

#[test]
fn transparent_and_disabled_sets_take_no_part() {
    let sets = vec![
        set(1, 0, true, false, vec![]),
        set(2, 5, true, true, vec![(1, 1)]),
        set(3, 7, false, false, vec![(1, 2)]),
        set(4, 9, true, false, vec![(1, 3)]),
    ];
    let r = compute_blocked_inputs(&sets);
    assert!(r[1].is_none());
    assert!(r[2].is_none());
    let low = r[0].as_ref().unwrap();
    assert!(!low.contains(1, 1));
    assert!(!low.contains(1, 2));
    assert!(low.contains(1, 3));
    assert!(compute_blocked_inputs(&vec![]).is_empty());
    let b = BlockedInputs::from_pairs(&vec![(5, 6)]);
    assert!(b.contains(5, 6));
    assert!(!b.contains(6, 5));
}

#[test]
fn blocked_bindings_are_left_out() {
    let blocked = Some(BlockedInputs::from_pairs(&vec![(1, 100), (2, 100), (1, 100)]));
    assert_eq!(
        unblocked_bindings(&blocked, 1, &vec![100, 101, 100]),
        vec![false, true, false]
    );
    assert_eq!(unblocked_bindings(&blocked, 3, &vec![100]), vec![true]);
    assert_eq!(unblocked_bindings(&None, 1, &vec![100, 7]), vec![true, true]);
    assert_eq!(unblocked_bindings(&blocked, 1, &Vec::new()), Vec::<bool>::new());
}

#[test]
fn blocked_inputs_from_pairs_and_clone() {
    let b = BlockedInputs::from_pairs(&vec![(1, 2), (3, 4), (1, 5)]);
    let c = b.clone();
    for (t, id, expected) in [(1, 2, true), (1, 5, true), (3, 4, true), (3, 2, false), (2, 2, false)] {
        assert_eq!(b.contains(t, id), expected);
        assert_eq!(c.contains(t, id), expected);
    }
    assert_eq!(b.0.len(), 2);
}
