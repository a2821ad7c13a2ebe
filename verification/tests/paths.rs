use schminput::gamepad::{
    parse_gamepad_subaction_path, GamepadPathSelector, GamepadPathTarget, GamepadPathTargetSide,
};
use schminput::keyboard::is_keyboard_subaction_path;
use schminput::mouse::{parse_mouse_subaction_path, MouseSubactionPath};
use schminput::openxr::{classify_oxr_subaction_path, OxrSubactionPathKind};

fn gamepad(
    path: &str,
) -> Option<(GamepadPathSelector, Option<GamepadPathTarget>, Option<GamepadPathTargetSide>)> {
    parse_gamepad_subaction_path(path).map(|p| (p.selector, p.target, p.side))
}

#[test]
fn gamepad_path_without_selector_selects_all_gamepads() {
    assert_eq!(gamepad("/gamepad"), Some((GamepadPathSelector::All, None, None)));
    assert_eq!(gamepad("/gamepad/*"), Some((GamepadPathSelector::All, None, None)));
    assert_eq!(gamepad("/gamepad/"), Some((GamepadPathSelector::All, None, None)));
}

#[test]
fn gamepad_path_with_prefix_only_match() {
    // the prefix check does not require a separator after "/gamepad"
    assert_eq!(gamepad("/gamepads"), Some((GamepadPathSelector::All, None, None)));
}

#[test]
fn non_gamepad_paths_are_not_gamepad_paths() {
    assert_eq!(gamepad("/keyboard"), None);
    assert_eq!(gamepad("gamepad"), None);
    assert_eq!(gamepad(""), None);
}

#[test]
fn gamepad_path_targets() {
    let all = GamepadPathSelector::All;
    assert_eq!(gamepad("/gamepad/*/thumbstick"), Some((all.clone(), Some(GamepadPathTarget::Thumbstick), None)));
    assert_eq!(gamepad("/gamepad/*/thumbstick/*"), Some((all.clone(), Some(GamepadPathTarget::Thumbstick), None)));
    assert_eq!(gamepad("/gamepad/*/thumbstick/left"), Some((all.clone(), Some(GamepadPathTarget::Thumbstick), Some(GamepadPathTargetSide::Left))));
    assert_eq!(gamepad("/gamepad/*/thumbstick/right"), Some((all.clone(), Some(GamepadPathTarget::Thumbstick), Some(GamepadPathTargetSide::Right))));
    assert_eq!(gamepad("/gamepad/*/dpad"), Some((all.clone(), Some(GamepadPathTarget::Dpad), None)));
    assert_eq!(gamepad("/gamepad/*/buttons"), Some((all.clone(), Some(GamepadPathTarget::Buttons), None)));
    assert_eq!(gamepad("/gamepad/*/trigger"), Some((all.clone(), Some(GamepadPathTarget::Trigger), None)));
    assert_eq!(gamepad("/gamepad/*/trigger/*"), Some((all.clone(), Some(GamepadPathTarget::Trigger), None)));
    assert_eq!(gamepad("/gamepad/*/trigger/left"), Some((all.clone(), Some(GamepadPathTarget::Trigger), Some(GamepadPathTargetSide::Left))));
    assert_eq!(gamepad("/gamepad/*/trigger/right"), Some((all.clone(), Some(GamepadPathTarget::Trigger), Some(GamepadPathTargetSide::Right))));
    assert_eq!(gamepad("/gamepad/*/secondary_trigger"), Some((all.clone(), Some(GamepadPathTarget::SecondaryTrigger), None)));
    assert_eq!(gamepad("/gamepad/*/secondray_trigger/*"), Some((all.clone(), Some(GamepadPathTarget::SecondaryTrigger), None)));
    assert_eq!(
        gamepad("/gamepad/*/secondary_trigger/left"),
        Some((all.clone(), Some(GamepadPathTarget::SecondaryTrigger), Some(GamepadPathTargetSide::Left)))
    );
    assert_eq!(
        gamepad("/gamepad/*/secondary_trigger/right"),
        Some((all.clone(), Some(GamepadPathTarget::SecondaryTrigger), Some(GamepadPathTargetSide::Right)))
    );
    assert_eq!(gamepad("//dpad").is_none(), true);
    assert_eq!(gamepad("/gamepad//dpad"), Some((all.clone(), Some(GamepadPathTarget::Dpad), None)));
}

#[test]
fn gamepad_path_unknown_target_names_no_group() {
    let all = GamepadPathSelector::All;
    assert_eq!(gamepad("/gamepad/*/wheel"), Some((all.clone(), None, None)));
    // only the misspelled wildcard form is read for the secondary trigger
    assert_eq!(gamepad("/gamepad/*/secondary_trigger/*"), Some((all, None, None)));
}

#[test]
fn gamepad_path_with_identifier_names_no_group() {
    assert_eq!(
        gamepad("/gamepad/0"),
        Some((GamepadPathSelector::Gamepad("0".to_string()), None, None))
    );
    assert_eq!(
        gamepad("/gamepad/player_one/thumbstick/left"),
        Some((GamepadPathSelector::Gamepad("player_one".to_string()), None, None))
    );
}

#[test]
fn mouse_paths() {
    assert_eq!(parse_mouse_subaction_path("/mouse"), Some(MouseSubactionPath::All));
    assert_eq!(parse_mouse_subaction_path("/mouse/*"), Some(MouseSubactionPath::All));
    assert_eq!(parse_mouse_subaction_path("/mouse/motion"), Some(MouseSubactionPath::DeltaMotion));
    assert_eq!(parse_mouse_subaction_path("/mouse/button"), Some(MouseSubactionPath::Button));
    assert_eq!(parse_mouse_subaction_path("/mouse/scroll"), None);
    assert_eq!(parse_mouse_subaction_path("/keyboard"), None);
}

#[test]
fn keyboard_paths() {
    assert!(is_keyboard_subaction_path("/keyboard"));
    assert!(is_keyboard_subaction_path("/keyboard/anything"));
    assert!(!is_keyboard_subaction_path("/mouse"));
    assert!(!is_keyboard_subaction_path("/keyboar"));
}

#[test]
fn oxr_paths() {
    assert_eq!(classify_oxr_subaction_path("/mouse"), OxrSubactionPathKind::NotOxr);
    assert_eq!(classify_oxr_subaction_path("/oxr"), OxrSubactionPathKind::AllOxr);
    assert_eq!(classify_oxr_subaction_path("/oxr/*"), OxrSubactionPathKind::AllOxr);
    assert_eq!(
        classify_oxr_subaction_path("/oxr/user/hand/left"),
        OxrSubactionPathKind::Path("/user/hand/left".to_string())
    );
}
