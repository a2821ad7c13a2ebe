use schminput::binding_modification::{ModificationFlags, PathModification};
use schminput::gamepad::{
    plan_gamepad_sync, plan_haptics, select_gamepads, HapticSend, GamepadAxis, GamepadBinding, GamepadBindingSource,
    GamepadBindings, GamepadButton, GamepadHapticOutputBindings, GamepadHapticType,
    GamepadIdentifier, GamepadInput, GamepadPathSelector, GamepadPathTarget,
    GamepadPathTargetSide, GamepadSubactionPath,
};
use schminput::{ButtonInputBeheavior, InputAxis, InputAxisDirection};
use schminput::gamepad::GamepadBindingSource as S;

fn all_sources() -> Vec<GamepadBindingSource> {
    let mut v = vec![
        S::LeftStickX, S::LeftStickY, S::RightStickX, S::RightStickY, S::South, S::East,
        S::North, S::West, S::LeftTrigger, S::LeftSecondaryTrigger, S::RightTrigger,
        S::RightSecondaryTrigger, S::LeftStickClick, S::RightStickClick, S::DPadUp,
        S::DPadDown, S::DPadLeft, S::DPadRight, S::Select, S::Start, S::Mode, S::LeftZ,
        S::RightZ, S::C, S::Z,
    ];
    for n in [0u8, 1, 9, 10, 99, 100, 255] {
        v.push(S::OtherAxis(n));
        v.push(S::OtherButton(n));
    }
    v
}

#[test]
fn every_source_is_exactly_one_of_axis_or_button() {
    for s in all_sources() {
        assert!(s.as_axis_type().is_some() != s.as_button_type().is_some(), "{:?}", s);
    }
}

#[test]
fn axis_and_button_conversions_round_trip() {
    for s in all_sources() {
        if let Some(a) = s.as_axis_type() {
            assert_eq!(GamepadBindingSource::from_axis_type(&a), s);
        }
        if let Some(b) = s.as_button_type() {
            assert_eq!(GamepadBindingSource::from_button_type(&b), s);
        }
    }
    let axes = [
        GamepadAxis::LeftStickX, GamepadAxis::LeftStickY, GamepadAxis::LeftZ,
        GamepadAxis::RightStickX, GamepadAxis::RightStickY, GamepadAxis::RightZ,
        GamepadAxis::Other(3),
    ];
    for a in axes {
        assert_eq!(GamepadBindingSource::from_axis_type(&a).as_axis_type(), Some(a));
    }
    let buttons = [
        GamepadButton::South, GamepadButton::East, GamepadButton::North, GamepadButton::West,
        GamepadButton::C, GamepadButton::Z, GamepadButton::LeftTrigger,
        GamepadButton::LeftTrigger2, GamepadButton::RightTrigger, GamepadButton::RightTrigger2,
        GamepadButton::Select, GamepadButton::Start, GamepadButton::Mode,
        GamepadButton::LeftThumb, GamepadButton::RightThumb, GamepadButton::DPadUp,
        GamepadButton::DPadDown, GamepadButton::DPadLeft, GamepadButton::DPadRight,
        GamepadButton::Other(7),
    ];
    for b in buttons {
        assert_eq!(GamepadBindingSource::from_button_type(&b).as_button_type(), Some(b));
    }
}

#[test]
fn primary_triggers_are_the_second_trigger_buttons() {
    assert_eq!(
        GamepadBindingSource::LeftTrigger.as_button_type(),
        Some(GamepadButton::LeftTrigger2)
    );
    assert_eq!(
        GamepadBindingSource::LeftSecondaryTrigger.as_button_type(),
        Some(GamepadButton::LeftTrigger)
    );
    assert_eq!(
        GamepadBindingSource::from_button_type(&GamepadButton::RightTrigger),
        GamepadBindingSource::RightSecondaryTrigger
    );
}

#[test]
fn source_into_gamepad_input() {
    assert_eq!(
        GamepadInput::from(GamepadBindingSource::LeftStickX),
        GamepadInput::Axis(GamepadAxis::LeftStickX)
    );
    assert_eq!(
        GamepadInput::from(GamepadBindingSource::South),
        GamepadInput::Button(GamepadButton::South)
    );
    assert_eq!(
        GamepadInput::from(GamepadBindingSource::OtherButton(4)),
        GamepadInput::Button(GamepadButton::Other(4))
    );
}

#[test]
fn source_display_text() {
    assert_eq!(GamepadBindingSource::LeftTrigger.to_display_string(), "Left Trigger");
    assert_eq!(GamepadBindingSource::DPadUp.to_display_string(), "Dpad Up");
    assert_eq!(GamepadBindingSource::RightZ.to_display_string(), "Right Z Axis");
    assert_eq!(GamepadBindingSource::C.to_display_string(), "C Button");
    assert_eq!(GamepadBindingSource::OtherAxis(0).to_display_string(), "Axis 0");
    assert_eq!(GamepadBindingSource::OtherAxis(7).to_display_string(), "Axis 7");
    assert_eq!(GamepadBindingSource::OtherAxis(10).to_display_string(), "Axis 10");
    assert_eq!(GamepadBindingSource::OtherButton(105).to_display_string(), "Button 105");
    assert_eq!(GamepadBindingSource::OtherButton(255).to_display_string(), "Button 255");
    for s in all_sources() {
        if let GamepadBindingSource::OtherAxis(n) = s {
            assert_eq!(s.to_display_string(), format!("Axis {}", n));
        }
        if let GamepadBindingSource::OtherButton(n) = s {
            assert_eq!(s.to_display_string(), format!("Button {}", n));
        }
    }
}

#[test]
fn thumbstick_target_matches() {
    let t = GamepadPathTarget::Thumbstick;
    let left = GamepadPathTargetSide::Left;
    let right = GamepadPathTargetSide::Right;
    assert!(t.matches(&GamepadBindingSource::LeftStickX, None));
    assert!(t.matches(&GamepadBindingSource::RightStickClick, None));
    assert!(t.matches(&GamepadBindingSource::LeftStickY, Some(&left)));
    assert!(!t.matches(&GamepadBindingSource::RightStickY, Some(&left)));
    assert!(t.matches(&GamepadBindingSource::RightStickClick, Some(&right)));
    assert!(!t.matches(&GamepadBindingSource::South, None));
}

#[test]
fn buttons_and_dpad_ignore_sides() {
    let left = GamepadPathTargetSide::Left;
    assert!(GamepadPathTarget::Buttons.matches(&GamepadBindingSource::West, Some(&left)));
    assert!(GamepadPathTarget::Dpad.matches(&GamepadBindingSource::DPadRight, Some(&left)));
    assert!(!GamepadPathTarget::Dpad.matches(&GamepadBindingSource::South, None));
    assert!(!GamepadPathTarget::Buttons.matches(&GamepadBindingSource::Select, None));
}

#[test]
fn side_only_narrows_a_target() {
    let targets = [
        GamepadPathTarget::Thumbstick, GamepadPathTarget::Trigger,
        GamepadPathTarget::SecondaryTrigger, GamepadPathTarget::Buttons, GamepadPathTarget::Dpad,
    ];
    for t in targets {
        for s in all_sources() {
            for side in [GamepadPathTargetSide::Left, GamepadPathTargetSide::Right] {
                if t.matches(&s, Some(&side)) {
                    assert!(t.matches(&s, None));
                }
            }
        }
    }
}

#[test]
fn triggers_match_their_side() {
    let left = GamepadPathTargetSide::Left;
    assert!(GamepadPathTarget::Trigger.matches(&GamepadBindingSource::LeftTrigger, Some(&left)));
    assert!(!GamepadPathTarget::Trigger.matches(&GamepadBindingSource::RightTrigger, Some(&left)));
    assert!(!GamepadPathTarget::Trigger.matches(&GamepadBindingSource::LeftSecondaryTrigger, None));
    assert!(GamepadPathTarget::SecondaryTrigger
        .matches(&GamepadBindingSource::RightSecondaryTrigger, None));
}

#[test]
fn gamepad_binding_builders() {
    let b = GamepadBinding::new(GamepadBindingSource::South);
    assert_eq!(b.button_behavior, ButtonInputBeheavior::Pressed);
    assert_eq!(b.axis, InputAxis::Y);
    assert_eq!(b.axis_dir, InputAxisDirection::Positive);
    let b = b.button_just_pressed().x_axis().negative();
    assert_eq!(b.button_behavior, ButtonInputBeheavior::JustPressed);
    assert_eq!(b.axis, InputAxis::X);
    assert_eq!(b.axis_dir, InputAxisDirection::Negative);
    let b = b.button_just_released().y_axis().positive();
    assert_eq!(b.button_behavior, ButtonInputBeheavior::JustReleased);
    assert_eq!(b.axis, InputAxis::Y);
    assert_eq!(b.axis_dir, InputAxisDirection::Positive);
    assert_eq!(b.button_pressed().button_behavior, ButtonInputBeheavior::Pressed);
    let bindings = GamepadBindings::new()
        .add_binding(GamepadBinding::new(GamepadBindingSource::LeftStickX).x_axis())
        .add_binding(GamepadBinding::new(GamepadBindingSource::LeftStickY));
    assert_eq!(bindings.bindings.len(), 2);
    assert_eq!(bindings.bindings[0].axis, InputAxis::X);
    assert_eq!(bindings.bindings[1].source, GamepadBindingSource::LeftStickY);
}

#[test]
fn haptic_bindings() {
    let h = GamepadHapticOutputBindings::new().weak().strong();
    assert_eq!(h.bindings, vec![GamepadHapticType::Weak, GamepadHapticType::Strong]);
    assert_eq!(GamepadHapticType::Weak.to_display_string(), "Weak");
    assert_eq!(GamepadHapticType::Strong.to_display_string(), "Strong");
}

#[test]
fn select_gamepads_by_identifier() {
    let ids = vec![
        None,
        Some(GamepadIdentifier("p1".to_string())),
        Some(GamepadIdentifier("p2".to_string())),
        Some(GamepadIdentifier("p1".to_string())),
    ];
    assert_eq!(select_gamepads(&GamepadPathSelector::All, &ids), vec![0, 1, 2, 3]);
    assert_eq!(select_gamepads(&GamepadPathSelector::Gamepad("p1".to_string()), &ids), vec![1]);
    assert_eq!(select_gamepads(&GamepadPathSelector::Gamepad("p2".to_string()), &ids), vec![2]);
    assert_eq!(
        select_gamepads(&GamepadPathSelector::Gamepad("p3".to_string()), &ids),
        Vec::<usize>::new()
    );
    assert_eq!(select_gamepads(&GamepadPathSelector::All, &vec![]), Vec::<usize>::new());
}

#[test]
fn gamepad_sync_plan() {
    let bindings = vec![
        GamepadBinding::new(GamepadBindingSource::LeftStickX),
        GamepadBinding::new(GamepadBindingSource::South),
        GamepadBinding::new(GamepadBindingSource::RightStickY),
    ];
    let premul = ModificationFlags { premul_delta_time: true, unbounded: false };
    let unbounded = ModificationFlags { premul_delta_time: false, unbounded: true };
    let thumbstick_left = GamepadSubactionPath {
        selector: GamepadPathSelector::All,
        target: Some(GamepadPathTarget::Thumbstick),
        side: Some(GamepadPathTargetSide::Left),
    };
    let no_target = GamepadSubactionPath {
        selector: GamepadPathSelector::Gamepad("pad".to_string()),
        target: None,
        side: None,
    };
    let per_path = vec![
        (Some(thumbstick_left.clone()), Some(premul)),
        (Some(no_target.clone()), Some(premul)),
        (None, Some(premul)),
    ];
    let requested = vec![Some(thumbstick_left), None, Some(no_target)];
    let ids = vec![Some(GamepadIdentifier("other".to_string())), Some(GamepadIdentifier("pad".to_string()))];
    let plan = plan_gamepad_sync(true, Some(unbounded), &bindings, &per_path, &requested, &ids)
        .unwrap();
    assert_eq!(plan.modifications.len(), 3);
    assert_eq!(plan.modifications[0], ModificationFlags { premul_delta_time: true, unbounded: true });
    assert_eq!(plan.modifications[1], unbounded);
    assert_eq!(plan.modifications[2], unbounded);
    assert_eq!(plan.paths.len(), 3);
    let first = plan.paths[0].as_ref().unwrap();
    assert_eq!(first.bindings, vec![0]);
    assert_eq!(first.gamepads, vec![0, 1]);
    assert!(plan.paths[1].is_none());
    let third = plan.paths[2].as_ref().unwrap();
    assert_eq!(third.bindings, vec![0, 1, 2]);
    assert_eq!(third.gamepads, vec![1]);
    assert!(plan_gamepad_sync(false, None, &bindings, &per_path, &requested, &ids).is_none());
    let _ = PathModification { applies: true, flags: None };
}

#[test]
fn haptic_requests_go_to_the_selected_gamepads() {
    let ids = vec![
        Some(GamepadIdentifier("p1".to_string())),
        None,
        Some(GamepadIdentifier("p2".to_string())),
    ];
    let motors = vec![GamepadHapticType::Weak, GamepadHapticType::Strong];
    let paths = vec![
        Some((GamepadPathSelector::Gamepad("p2".to_string()), 1)),
        None,
        Some((GamepadPathSelector::Gamepad("p9".to_string()), 2)),
        Some((GamepadPathSelector::All, 1)),
    ];
    let sends = plan_haptics(true, &motors, 1, &paths, &ids);
    let send = |path: Option<usize>, feedback: usize, motor: GamepadHapticType, gamepad: usize| HapticSend {
        path,
        feedback,
        motor,
        gamepad,
    };
    let w = GamepadHapticType::Weak;
    let st = GamepadHapticType::Strong;
    assert_eq!(
        sends,
        vec![
            send(None, 0, w, 0),
            send(None, 0, w, 1),
            send(None, 0, w, 2),
            send(None, 0, st, 0),
            send(None, 0, st, 1),
            send(None, 0, st, 2),
            send(Some(0), 0, w, 2),
            send(Some(0), 0, st, 2),
            send(Some(3), 0, w, 0),
            send(Some(3), 0, w, 1),
            send(Some(3), 0, w, 2),
            send(Some(3), 0, st, 0),
            send(Some(3), 0, st, 1),
            send(Some(3), 0, st, 2),
        ]
    );
    assert!(plan_haptics(false, &motors, 1, &paths, &ids).is_empty());
    let two = plan_haptics(true, &vec![w], 2, &Vec::new(), &vec![None]);
    assert_eq!(two, vec![send(None, 0, w, 0), send(None, 1, w, 0)]);
}
