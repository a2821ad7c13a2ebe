use schminput::gamepad::{GamepadBinding, GamepadBindingSource, GamepadBindings};
use schminput::mouse::{MouseButton, MouseButtonBinding};
use schminput::rebinding::{
    apply_gamepad_input, apply_mouse_input, ActionBindingsState, ActionType, InputEffect,
    PendingRebinding, RebindingDevice, RebindingState, RequestEffect, RequestGamepadRebinding,
    RequestKeyboardRebinding, RequestMouseRebinding, WaitingForInput,
};

#[test]
fn rebind_request_waits_for_input() {
    let mut s = RebindingState::new();
    assert!(!s.waiting_for_input().waiting());
    let e = s.handle_keyboard_request(RequestKeyboardRebinding::RebindKey { binding_index: 1, action: 7 });
    assert_eq!(e, RequestEffect::Nothing);
    assert_eq!(
        s.pending_for(RebindingDevice::Keyboard),
        Some(PendingRebinding::Rebind { binding_index: 1, action: 7 })
    );
    assert_eq!(s.waiting_for_input(), WaitingForInput(1));
    // while waiting, further keyboard requests are ignored
    let e = s.handle_keyboard_request(RequestKeyboardRebinding::DeleteBinding { binding_index: 0, action: 7 });
    assert_eq!(e, RequestEffect::Nothing);
    assert_eq!(s.waiting_for_input(), WaitingForInput(1));
    // other devices are independent
    let e = s.handle_gamepad_request(RequestGamepadRebinding::NewBinding { action: 8 });
    assert_eq!(e, RequestEffect::Nothing);
    assert_eq!(s.waiting_for_input(), WaitingForInput(2));
    let e = s.handle_mouse_request(RequestMouseRebinding::NewButtonBinding { action: 9 });
    assert_eq!(e, RequestEffect::Nothing);
    assert_eq!(s.waiting_for_input(), WaitingForInput(3));
}

#[test]
fn delete_requests_ask_for_deletion() {
    let mut s = RebindingState::default();
    assert_eq!(
        s.handle_keyboard_request(RequestKeyboardRebinding::DeleteBinding { binding_index: 2, action: 1 }),
        RequestEffect::DeleteBinding { binding_index: 2, action: 1 }
    );
    assert_eq!(
        s.handle_gamepad_request(RequestGamepadRebinding::DeleteBinding { binding_index: 0, action: 3 }),
        RequestEffect::DeleteBinding { binding_index: 0, action: 3 }
    );
    assert_eq!(
        s.handle_mouse_request(RequestMouseRebinding::DeleteButtonBinding { binding_index: 4, action: 5 }),
        RequestEffect::DeleteBinding { binding_index: 4, action: 5 }
    );
    assert_eq!(
        s.handle_mouse_request(RequestMouseRebinding::NewMotionBinding { action: 5 }),
        RequestEffect::NewMotionBinding { action: 5 }
    );
    assert_eq!(
        s.handle_mouse_request(RequestMouseRebinding::DeleteMotionBinding { action: 5 }),
        RequestEffect::DeleteMotionBinding { action: 5 }
    );
    assert!(!s.waiting_for_input().waiting());
}

#[test]
fn pressed_input_finishes_or_keeps_waiting() {
    let mut s = RebindingState::new();
    s.handle_gamepad_request(RequestGamepadRebinding::Rebind { binding_index: 3, action: 2 });
    // binding index out of range: keep waiting
    let e = s.handle_pressed_input(
        RebindingDevice::Gamepad,
        ActionBindingsState { exists: true, bindings_len: Some(2) },
    );
    assert_eq!(e, InputEffect::KeepWaiting);
    assert!(s.waiting_for_input().waiting());
    // no bindings component: keep waiting
    let e = s.handle_pressed_input(
        RebindingDevice::Gamepad,
        ActionBindingsState { exists: true, bindings_len: None },
    );
    assert_eq!(e, InputEffect::KeepWaiting);
    let e = s.handle_pressed_input(
        RebindingDevice::Gamepad,
        ActionBindingsState { exists: true, bindings_len: Some(4) },
    );
    assert_eq!(e, InputEffect::Replace { binding_index: 3, action: 2 });
    assert!(!s.waiting_for_input().waiting());
    assert_eq!(s.pending_for(RebindingDevice::Gamepad), None);

    s.handle_mouse_request(RequestMouseRebinding::NewButtonBinding { action: 4 });
    let e = s.handle_pressed_input(
        RebindingDevice::Mouse,
        ActionBindingsState { exists: false, bindings_len: None },
    );
    assert_eq!(e, InputEffect::KeepWaiting);
    let e = s.handle_pressed_input(
        RebindingDevice::Mouse,
        ActionBindingsState { exists: true, bindings_len: None },
    );
    assert_eq!(e, InputEffect::Create { action: 4 });
    s.handle_keyboard_request(RequestKeyboardRebinding::NewBinding { action: 6 });
    let e = s.handle_pressed_input(
        RebindingDevice::Keyboard,
        ActionBindingsState { exists: true, bindings_len: Some(0) },
    );
    assert_eq!(e, InputEffect::Push { action: 6 });
    assert_eq!(s.waiting_for_input(), WaitingForInput(0));
}

#[test]
fn applying_gamepad_input() {
    let bindings = GamepadBindings::new()
        .add_binding(GamepadBinding::new(GamepadBindingSource::South).x_axis());
    let r = apply_gamepad_input(
        InputEffect::Replace { binding_index: 0, action: 1 },
        Some(bindings.clone()),
        GamepadBindingSource::East,
    )
    .unwrap();
    assert_eq!(r.bindings.len(), 1);
    assert_eq!(r.bindings[0].source, GamepadBindingSource::East);
    assert_eq!(r.bindings[0].axis, schminput::InputAxis::X);
    let r = apply_gamepad_input(InputEffect::Push { action: 1 }, Some(bindings.clone()), GamepadBindingSource::North)
        .unwrap();
    assert_eq!(r.bindings.len(), 2);
    assert_eq!(r.bindings[1], GamepadBinding::new(GamepadBindingSource::North));
    let r = apply_gamepad_input(InputEffect::Create { action: 1 }, None, GamepadBindingSource::LeftZ).unwrap();
    assert_eq!(r.bindings, vec![GamepadBinding::new(GamepadBindingSource::LeftZ)]);
    assert!(apply_gamepad_input(InputEffect::KeepWaiting, None, GamepadBindingSource::LeftZ).is_none());
}

#[test]
fn applying_mouse_input() {
    let buttons = vec![MouseButtonBinding::new(MouseButton::Left).just_pressed()];
    let r = apply_mouse_input(
        InputEffect::Replace { binding_index: 0, action: 1 },
        Some(buttons.clone()),
        MouseButton::Right,
    )
    .unwrap();
    assert_eq!(r[0].button, MouseButton::Right);
    assert_eq!(r[0].behavior, schminput::ButtonInputBeheavior::JustPressed);
    let r = apply_mouse_input(InputEffect::Push { action: 1 }, Some(buttons), MouseButton::Other(9)).unwrap();
    assert_eq!(r.len(), 2);
    assert_eq!(r[1], MouseButtonBinding::new(MouseButton::Other(9)));
    let r = apply_mouse_input(InputEffect::Create { action: 1 }, None, MouseButton::Middle).unwrap();
    assert_eq!(r, vec![MouseButtonBinding::new(MouseButton::Middle)]);
}

#[test]
fn action_type_from_components() {
    assert_eq!(ActionType::from_components(false, true, true, true, true), ActionType::Unkown);
    assert_eq!(ActionType::from_components(true, true, true, false, false), ActionType::Bool);
    assert_eq!(ActionType::from_components(true, false, true, true, false), ActionType::F32);
    assert_eq!(ActionType::from_components(true, false, false, true, true), ActionType::Vec2);
    assert_eq!(ActionType::from_components(true, false, false, false, true), ActionType::GamepadHaptic);
    assert_eq!(ActionType::from_components(true, false, false, false, false), ActionType::Unkown);
    assert_eq!(ActionType::Unkown.to_display_string(), "Unknown");
    assert_eq!(ActionType::Bool.to_display_string(), "Boolean");
    assert_eq!(ActionType::F32.to_display_string(), "1D Axis");
    assert_eq!(ActionType::Vec2.to_display_string(), "2D Axis");
    assert_eq!(ActionType::GamepadHaptic.to_display_string(), "Gamepad Haptics");
}
