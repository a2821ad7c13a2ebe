use schminput::binding_names::{
    gamepad_source_from_name, gamepad_source_to_name, mouse_button_from_name,
    mouse_button_to_name,
};
use schminput::gamepad::{GamepadBinding, GamepadBindingSource, GamepadHapticType};
use schminput::mouse::{MouseButton, MouseButtonBinding};
use schminput::persistent_bindings::{
    load_bindings, parse_mouse_bindings, save_bindings, ActionBindingsSave, ActionSave,
    ConfigNumber, KeyboardBindingConfig, LoadError, SaveError, SetActions,
};
use schminput::toml::TomlValue;
use schminput::{ButtonInputBeheavior, InputAxis, InputAxisDirection};

fn chars(s: &str) -> Vec<char> {
    s.chars().collect()
}

fn sets() -> Vec<SetActions> {
    vec![SetActions {
        name: "core".to_string(),
        actions: vec![("jump".to_string(), 7), ("run".to_string(), 8)],
    }]
}

const CONFIG: &str = r#"
version = 1

[core.jump]
keyboard = [{ key = "Space", multiplier = 1.5, axis_dir = "Positive", axis = "Y", button_behavior = "JustPressed" }, { key = "KeyW", multiplier = 2, axis_dir = "Up", axis = "Y", button_behavior = "Pressed" }]
gamepad = [{ key = "South", axis_dir = "Positive", axis = "Y", button_behavior = "Pressed" }, { key = "Nope", axis_dir = "Positive", axis = "Y", button_behavior = "Pressed" }]
gamepad_haptics = [{ haptic_type = "Weak" }, { haptic_type = 3 }]
mouse_button = [{ button = "Other:12", axis_dir = "Negative", axis = "X", button_behavior = "JustReleased" }]

[core.jump.openxr]
"/interaction_profiles/oculus/touch_controller" = ["/user/hand/left/input/x/click", 3]

[core.unknown]
keyboard = []

[other.jump]
keyboard = []
"#;

#[test]
fn bindings_file_is_read_for_known_actions() {
    let loaded = load_bindings(CONFIG, &sets()).unwrap();
    assert_eq!(loaded.len(), 1);
    let (action, config) = &loaded[0];
    assert_eq!(*action, 7);
    assert_eq!(config.keyboard.len(), 1);
    assert_eq!(config.keyboard[0].key, "Space");
    assert_eq!(config.keyboard[0].multiplier, ConfigNumber::Float("1.5".to_string()));
    assert_eq!(config.keyboard[0].behavior, ButtonInputBeheavior::JustPressed);
    assert_eq!(
        config.gamepad,
        vec![GamepadBinding::new(GamepadBindingSource::South)]
    );
    assert_eq!(config.gamepad_haptics, vec![GamepadHapticType::Weak]);
    assert_eq!(
        config.mouse_buttons,
        vec![MouseButtonBinding {
            axis: InputAxis::X,
            axis_dir: InputAxisDirection::Negative,
            button: MouseButton::Other(12),
            behavior: ButtonInputBeheavior::JustReleased,
        }]
    );
    assert_eq!(config.mouse_motion, None);
    assert_eq!(
        config.openxr,
        vec![(
            "/interaction_profiles/oculus/touch_controller".to_string(),
            vec!["/user/hand/left/input/x/click".to_string()]
        )]
    );
}

#[test]
fn bindings_file_needs_version_one() {
    assert_eq!(
        load_bindings("[core.jump]\nkeyboard = []\n", &sets()).unwrap_err(),
        LoadError::InvalidVersion
    );
    assert_eq!(
        load_bindings("version = 2\n", &sets()).unwrap_err(),
        LoadError::InvalidVersion
    );
    assert_eq!(
        load_bindings("version = \"1\"\n", &sets()).unwrap_err(),
        LoadError::InvalidVersion
    );
    assert_eq!(load_bindings("version = = 1", &sets()).unwrap_err(), LoadError::NotToml);
    assert!(load_bindings("version = 1\n", &sets()).unwrap().is_empty());
}

#[test]
fn bad_mouse_movement_drops_all_mouse_bindings() {
    let button = vec![
        ("button".to_string(), TomlValue::Str("Left".to_string())),
        ("axis_dir".to_string(), TomlValue::Str("Positive".to_string())),
        ("axis".to_string(), TomlValue::Str("Y".to_string())),
        ("button_behavior".to_string(), TomlValue::Str("Pressed".to_string())),
    ];
    let doc = vec![
        ("motion".to_string(), TomlValue::Integer(1)),
        ("mouse_movement".to_string(), TomlValue::Integer(3)),
        (
            "mouse_button".to_string(),
            TomlValue::Array(vec![TomlValue::InlineTable(button)]),
        ),
    ];
    let (motion, buttons) = parse_mouse_bindings(&doc);
    assert_eq!(motion, None);
    assert!(buttons.is_empty());
    let doc = vec![(
        "mouse_movement".to_string(),
        TomlValue::InlineTable(vec![("sensitivity".to_string(), TomlValue::Integer(2))]),
    )];
    let (motion, buttons) = parse_mouse_bindings(&doc);
    assert_eq!(motion, Some(ConfigNumber::Integer(2)));
    assert!(buttons.is_empty());
}

#[test]
fn written_bindings_read_back() {
    let save = ActionSave {
        set: "core".to_string(),
        action: "run".to_string(),
        bindings: ActionBindingsSave {
            keyboard: Some(vec![KeyboardBindingConfig {
                key: "ShiftLeft".to_string(),
                axis: InputAxis::X,
                axis_dir: InputAxisDirection::Negative,
                behavior: ButtonInputBeheavior::Pressed,
                multiplier: ConfigNumber::Float("0.5".to_string()),
            }]),
            mouse: Some((Some(ConfigNumber::Float("3.0".to_string())), Vec::new())),
            gamepad: Some(vec![GamepadBinding::new(GamepadBindingSource::OtherAxis(4)).x_axis()]),
            gamepad_haptics: Some(vec![GamepadHapticType::Strong]),
            openxr: Some(vec![("/p".to_string(), vec!["/a".to_string(), "/b".to_string()])]),
        },
    };
    let text = save_bindings("# my bindings\n", &vec![save]).unwrap();
    let loaded = load_bindings(&text, &sets()).unwrap();
    assert_eq!(loaded.len(), 1);
    let (action, config) = &loaded[0];
    assert_eq!(*action, 8);
    assert_eq!(config.keyboard[0].key, "ShiftLeft");
    assert_eq!(config.keyboard[0].axis, InputAxis::X);
    assert_eq!(config.keyboard[0].multiplier, ConfigNumber::Float("0.5".to_string()));
    assert_eq!(config.mouse_motion, Some(ConfigNumber::Float("3.0".to_string())));
    assert_eq!(
        config.gamepad,
        vec![GamepadBinding::new(GamepadBindingSource::OtherAxis(4)).x_axis()]
    );
    assert_eq!(config.gamepad_haptics, vec![GamepadHapticType::Strong]);
    assert_eq!(
        config.openxr,
        vec![("/p".to_string(), vec!["/a".to_string(), "/b".to_string()])]
    );
}

#[test]
fn writing_into_a_non_table_set_entry_is_refused() {
    let save = ActionSave {
        set: "core".to_string(),
        action: "run".to_string(),
        bindings: ActionBindingsSave {
            keyboard: None,
            mouse: None,
            gamepad: None,
            gamepad_haptics: None,
            openxr: None,
        },
    };
    assert_eq!(
        save_bindings("core = 3\n", &vec![save.clone()]).unwrap_err(),
        SaveError::Unsupported
    );
    assert_eq!(save_bindings("a = = b", &vec![save.clone()]).unwrap_err(), SaveError::NotToml);
    let text = save_bindings("", &vec![save]).unwrap();
    let doc = text.parse::<toml_edit::DocumentMut>().unwrap();
    let keys: Vec<&str> = doc.iter().map(|(k, _)| k).collect();
    assert_eq!(keys, vec!["version", "core"]);
    assert_eq!(doc["version"].as_integer(), Some(1));
}

#[test]
fn binding_names() {
    assert_eq!(gamepad_source_to_name(GamepadBindingSource::OtherAxis(7)), "OtherAxis:7");
    assert_eq!(gamepad_source_to_name(GamepadBindingSource::DPadUp), "DPadUp");
    assert_eq!(
        gamepad_source_from_name(&chars("OtherButton:255")),
        Some(GamepadBindingSource::OtherButton(255))
    );
    assert_eq!(gamepad_source_from_name(&chars("OtherButton:256")), None);
    assert_eq!(gamepad_source_from_name(&chars("OtherAxis:07")), None);
    assert_eq!(gamepad_source_from_name(&chars("OtherAxis:")), None);
    assert_eq!(gamepad_source_from_name(&chars("LeftZ")), Some(GamepadBindingSource::LeftZ));
    assert_eq!(mouse_button_to_name(MouseButton::Other(300)), "Other:300");
    assert_eq!(mouse_button_from_name(&chars("Other:65535")), Some(MouseButton::Other(65535)));
    assert_eq!(mouse_button_from_name(&chars("Other:65536")), None);
    assert_eq!(mouse_button_from_name(&chars("Middle")), Some(MouseButton::Middle));
    assert_eq!(mouse_button_from_name(&chars("middle")), None);
}

#[test]
fn keyboard_entries_with_unknown_keys_are_left_out() {
    let text = r#"
version = 1

[core.run]
keyboard = [{ key = "NotAKey", multiplier = 1, axis_dir = "Positive", axis = "X", button_behavior = "Pressed" }, { key = "KeyA", multiplier = 1, axis_dir = "Negative", axis = "X", button_behavior = "Pressed" }, { key = "Unidentified", multiplier = 1, axis_dir = "Negative", axis = "X", button_behavior = "Pressed" }]
"#;
    let loaded = load_bindings(text, &sets()).unwrap();
    assert_eq!(loaded.len(), 1);
    let config = &loaded[0].1;
    assert_eq!(config.keyboard.len(), 1);
    assert_eq!(config.keyboard[0].key, "KeyA");
    assert_eq!(config.keyboard[0].axis_dir, InputAxisDirection::Negative);
}

#[test]
fn float_texts_are_kept_as_written() {
    let text = r#"
version = 1

[core.run]
mouse_movement = { sensitivity = nan }
keyboard = [{ key = "KeyA", multiplier = 1_000.5, axis_dir = "Negative", axis = "X", button_behavior = "Pressed" }]
"#;
    let loaded = load_bindings(text, &sets()).unwrap();
    let config = &loaded[0].1;
    assert_eq!(config.mouse_motion, Some(ConfigNumber::Float("nan".to_string())));
    assert_eq!(config.keyboard[0].multiplier, ConfigNumber::Float("1_000.5".to_string()));
    // Written back, the texts read back the same.
    let save = ActionSave {
        set: "core".to_string(),
        action: "run".to_string(),
        bindings: ActionBindingsSave {
            keyboard: Some(config.keyboard.clone()),
            mouse: Some((config.mouse_motion.clone(), Vec::new())),
            gamepad: None,
            gamepad_haptics: None,
            openxr: None,
        },
    };
    let written = save_bindings("", &vec![save]).unwrap();
    let again = load_bindings(&written, &sets()).unwrap();
    assert_eq!(again[0].1.mouse_motion, Some(ConfigNumber::Float("nan".to_string())));
    assert_eq!(again[0].1.keyboard[0].multiplier, ConfigNumber::Float("1_000.5".to_string()));
}

#[test]
fn kinds_not_written_read_back_as_none() {
    let save = ActionSave {
        set: "core".to_string(),
        action: "jump".to_string(),
        bindings: ActionBindingsSave {
            keyboard: None,
            mouse: Some((None, vec![MouseButtonBinding {
                axis: InputAxis::Y,
                axis_dir: InputAxisDirection::Positive,
                button: MouseButton::Left,
                behavior: ButtonInputBeheavior::Pressed,
            }])),
            gamepad: Some(Vec::new()),
            gamepad_haptics: None,
            openxr: None,
        },
    };
    let written = save_bindings("", &vec![save]).unwrap();
    let loaded = load_bindings(&written, &sets()).unwrap();
    assert_eq!(loaded.len(), 1);
    let (action, config) = &loaded[0];
    assert_eq!(*action, 7);
    assert!(config.keyboard.is_empty());
    assert_eq!(config.mouse_motion, None);
    assert_eq!(config.mouse_buttons.len(), 1);
    assert!(config.gamepad.is_empty());
    assert!(config.gamepad_haptics.is_empty());
    assert!(config.openxr.is_empty());
}
