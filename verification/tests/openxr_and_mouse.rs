use schminput::mouse::{
    MouseBindingKind, MouseButton, MouseButtonBinding, MouseMotionType, MouseSubactionPath,
};
use schminput::openxr::{
    select_oxr_action_kind, OxrActionKind, OxrActionKindError, OxrBindings, OCULUS_TOUCH_PROFILE,
};
use schminput::{ButtonInputBeheavior, InputAxis, InputAxisDirection};

fn bindings_of(b: &OxrBindings, profile: &str) -> Option<Vec<String>> {
    b.entries().iter().find(|(p, _)| p == profile).map(|(_, v)| v.clone())
}

#[test]
fn oxr_bindings_builder_groups_by_profile() {
    let b = OxrBindings::new()
        .interaction_profile(OCULUS_TOUCH_PROFILE)
        .binding("/user/hand/left/input/x/click")
        .binding("/user/hand/right/input/a/click")
        .end()
        .interaction_profile("/interaction_profiles/khr/simple_controller")
        .binding("/user/hand/left/input/select/click")
        .end()
        .interaction_profile(OCULUS_TOUCH_PROFILE)
        .binding("/user/hand/left/input/y/click")
        .end();
    assert_eq!(b.entries().len(), 2);
    assert_eq!(
        bindings_of(&b, OCULUS_TOUCH_PROFILE),
        Some(vec![
            "/user/hand/left/input/x/click".to_string(),
            "/user/hand/right/input/a/click".to_string(),
            "/user/hand/left/input/y/click".to_string(),
        ])
    );
    assert_eq!(
        bindings_of(&b, "/interaction_profiles/khr/simple_controller"),
        Some(vec!["/user/hand/left/input/select/click".to_string()])
    );
}

#[test]
fn oxr_bindings_list_and_deletions() {
    let list = vec!["a".to_string(), "b".to_string(), "c".to_string()];
    let mut b = OxrBindings::default().bindings("p", &list).bindings("q", &vec!["z".to_string()]);
    assert_eq!(bindings_of(&b, "p"), Some(list.clone()));
    // an empty list names no profile
    let c = OxrBindings::new().bindings("p", &vec![]);
    assert!(c.entries().is_empty());
    b.delete_binding("p", 1);
    assert_eq!(bindings_of(&b, "p"), Some(vec!["a".to_string(), "c".to_string()]));
    b.delete_binding("missing", 5);
    b.remove_profile("p");
    assert_eq!(bindings_of(&b, "p"), None);
    assert_eq!(bindings_of(&b, "q"), Some(vec!["z".to_string()]));
    b.remove_profile("missing");
    assert_eq!(b.entries().len(), 1);
    let copy = b.clone();
    assert_eq!(bindings_of(&copy, "q"), Some(vec!["z".to_string()]));
}

#[test]
fn oxr_action_kinds() {
    assert_eq!(select_oxr_action_kind(true, false, false, false), Ok(OxrActionKind::Bool));
    assert_eq!(select_oxr_action_kind(false, true, false, false), Ok(OxrActionKind::F32));
    assert_eq!(select_oxr_action_kind(false, false, true, false), Ok(OxrActionKind::Vec2));
    assert_eq!(select_oxr_action_kind(false, false, false, true), Ok(OxrActionKind::Space));
    assert_eq!(select_oxr_action_kind(false, false, false, false), Err(OxrActionKindError::NoValue));
    assert_eq!(select_oxr_action_kind(true, true, false, false), Err(OxrActionKindError::TooManyValues));
}

#[test]
fn mouse_paths_select_bindings() {
    let motion = MouseBindingKind::Motion(MouseMotionType::DeltaMotion);
    assert!(MouseSubactionPath::DeltaMotion.selects(motion));
    assert!(!MouseSubactionPath::DeltaMotion.selects(MouseBindingKind::Button));
    assert!(MouseSubactionPath::Button.selects(MouseBindingKind::Button));
    assert!(!MouseSubactionPath::Button.selects(motion));
    assert!(MouseSubactionPath::All.selects(motion));
    assert!(MouseSubactionPath::All.selects(MouseBindingKind::Button));
    assert_eq!(MouseMotionType::default(), MouseMotionType::DeltaMotion);
}

#[test]
fn mouse_button_binding_builders() {
    let b = MouseButtonBinding::new(MouseButton::Back);
    assert_eq!(b.axis, InputAxis::Y);
    assert_eq!(b.axis_dir, InputAxisDirection::Positive);
    assert_eq!(b.behavior, ButtonInputBeheavior::Pressed);
    let b = b.x_axis().negative_axis_dir().just_released();
    assert_eq!(b.axis, InputAxis::X);
    assert_eq!(b.axis_dir, InputAxisDirection::Negative);
    assert_eq!(b.behavior, ButtonInputBeheavior::JustReleased);
    let b = b.y_axis().positive_axis_dir().just_pressed();
    assert_eq!(b.axis, InputAxis::Y);
    assert_eq!(b.axis_dir, InputAxisDirection::Positive);
    assert_eq!(b.behavior, ButtonInputBeheavior::JustPressed);
    assert_eq!(b.button, MouseButton::Back);
}
