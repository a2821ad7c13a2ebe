use schminput::binding_modification::{
    combine_modifications, BindingModifiaction, BindingModifications, ModificationFlags,
    PathModification,
};
use schminput::impl_helpers::{apply_values, plan_provider_run, select_matching};
use schminput::subaction_paths::SubactionPath;
use schminput::{
    Action, ActionSet, BoolActionValue, ButtonInputBeheavior, ButtonState, InputAxis,
    InputAxisDirection, SchminputSet,
};

#[test]
fn action_and_action_set_constructors() {
    let a = Action::new("move", "Move", 7);
    assert_eq!(a.name, "move");
    assert_eq!(a.localized_name, "Move");
    assert_eq!(a.set, 7);
    let s = ActionSet::new("core", "Core", 3);
    assert_eq!(s.name, "core");
    assert_eq!(s.localized_name, "Core");
    assert!(s.enabled);
    assert_eq!(s.priority, 3);
    assert!(!s.transparent);
    let t = s.transparent();
    assert!(t.transparent);
    assert!(t.enabled);
    assert_eq!(t.priority, 3);
    assert_ne!(SchminputSet::ClearValues, SchminputSet::SyncInputActions);
}

#[test]
fn defaults_and_display_texts() {
    assert_eq!(InputAxis::default(), InputAxis::Y);
    assert_eq!(InputAxisDirection::default(), InputAxisDirection::Positive);
    assert_eq!(ButtonInputBeheavior::default(), ButtonInputBeheavior::Pressed);
    assert_eq!(InputAxis::X.to_display_string(), "X Axis");
    assert_eq!(InputAxis::Y.to_display_string(), "Y Axis");
    assert_eq!(InputAxisDirection::Positive.to_display_string(), "+");
    assert_eq!(InputAxisDirection::Negative.to_display_string(), "-");
    assert_eq!(ButtonInputBeheavior::JustPressed.to_display_string(), "On Press");
    assert_eq!(ButtonInputBeheavior::Pressed.to_display_string(), "Pressed");
    assert_eq!(ButtonInputBeheavior::JustReleased.to_display_string(), "On Release");
}

#[test]
fn button_behavior_reads_its_state() {
    let state = ButtonState { just_pressed: true, pressed: false, just_released: false };
    assert!(ButtonInputBeheavior::JustPressed.apply(state));
    assert!(!ButtonInputBeheavior::Pressed.apply(state));
    assert!(!ButtonInputBeheavior::JustReleased.apply(state));
    let held = ButtonState { just_pressed: false, pressed: true, just_released: false };
    assert!(ButtonInputBeheavior::Pressed.apply(held));
    let released = ButtonState { just_pressed: false, pressed: false, just_released: true };
    assert!(ButtonInputBeheavior::JustReleased.apply(released));
}

#[test]
fn binding_modifications_builders() {
    let m = BindingModifications::new()
        .with_path_modification(SubactionPath(4), 9);
    assert!(m.all_paths.is_none());
    assert_eq!(m.per_path, vec![(SubactionPath(4), BindingModifiaction(9))]);
    let mut m = m;
    m.path_modification(SubactionPath(5), 10);
    assert_eq!(m.per_path.len(), 2);
    assert_eq!(m.per_path[1], (SubactionPath(5), BindingModifiaction(10)));
}

#[test]
fn modifications_combine_by_or() {
    let premul = ModificationFlags { premul_delta_time: true, unbounded: false };
    let unbounded = ModificationFlags { premul_delta_time: false, unbounded: true };
    let none = ModificationFlags::default();
    assert_eq!(combine_modifications(None, &vec![]), none);
    assert_eq!(combine_modifications(Some(premul), &vec![]), premul);
    // an entry that does not apply, or whose modification is missing, has no effect
    assert_eq!(
        combine_modifications(
            None,
            &vec![
                PathModification { applies: false, flags: Some(premul) },
                PathModification { applies: true, flags: None },
            ]
        ),
        none
    );
    assert_eq!(
        combine_modifications(
            Some(premul),
            &vec![PathModification { applies: true, flags: Some(unbounded) }]
        ),
        ModificationFlags { premul_delta_time: true, unbounded: true }
    );
}

#[test]
fn selection_of_matching_bindings() {
    assert_eq!(select_matching(&vec![true, false, true, true]), vec![0, 2, 3]);
    assert_eq!(select_matching(&vec![false, false]), Vec::<usize>::new());
    assert_eq!(select_matching(&vec![]), Vec::<usize>::new());
}

#[test]
fn provider_plan() {
    let premul = ModificationFlags { premul_delta_time: true, unbounded: false };
    let per_binding = vec![
        vec![PathModification { applies: true, flags: Some(premul) }],
        vec![PathModification { applies: false, flags: Some(premul) }],
    ];
    let requested = vec![Some(vec![false, true]), None, Some(vec![true, true])];
    let plan = plan_provider_run(true, None, &per_binding, &requested).unwrap();
    assert_eq!(plan.modifications, vec![premul, ModificationFlags::default()]);
    assert_eq!(plan.paths, vec![Some(vec![1]), None, Some(vec![0, 1])]);
    assert!(plan_provider_run(false, None, &per_binding, &requested).is_none());
}

#[test]
fn bool_values_accumulate_by_or() {
    let mut v = BoolActionValue::new();
    assert!(!v.0.any);
    apply_values(None, &vec![Some(false), None], &mut v);
    assert!(!v.0.any);
    apply_values(None, &vec![None, Some(true), Some(false)], &mut v);
    assert!(v.0.any);
    // once true, stays true for the frame
    apply_values(None, &vec![Some(false)], &mut v);
    assert!(v.0.any);
    let p = SubactionPath(3);
    apply_values(Some(p), &vec![Some(false)], &mut v);
    assert_eq!(v.0.get_with_path(&p), Some(&false));
    apply_values(Some(p), &vec![Some(true)], &mut v);
    assert_eq!(v.0.get_with_path(&p), Some(&true));
    assert_eq!(v.0.get_with_path(&SubactionPath(4)), None);
    let cleared = BoolActionValue::default();
    assert!(!cleared.0.any);
    assert!(cleared.0.paths.is_empty());
}
