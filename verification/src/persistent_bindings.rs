//! Bindings files: reading the bindings of actions from a TOML document and writing them
//! into one.
//!
//! A bindings file has `version = 1` and, for each action set, a table named after the
//! set holding, for each action, a table named after the action. An action's table may
//! hold a `keyboard`, `mouse_button`, `gamepad` and `gamepad_haptics` array of inline
//! tables, a `mouse_movement` inline table and an `openxr` table of binding path arrays,
//! one per interaction profile.
use crate::binding_names::{
    axis_dir_from_name, axis_dir_name, axis_dir_named, axis_dir_to_name, axis_from_name,
    axis_name, axis_named, axis_to_name, behavior_from_name, behavior_name, behavior_named,
    behavior_to_name, gamepad_source_from_name, gamepad_source_name, gamepad_source_named,
    gamepad_source_to_name, haptic_from_name, haptic_name, haptic_named, haptic_to_name,
    mouse_button_from_name, mouse_button_name, mouse_button_named, mouse_button_to_name,
};
use crate::gamepad::{GamepadBinding, GamepadHapticType};
use crate::keyboard::{is_key_code_name, key_code_named};
use crate::mouse::MouseButtonBinding;
use crate::text::chars_of;
use crate::toml::{
    lemma_entries_view, lemma_values_view, parse_toml, print_toml, toml_entries_view, toml_parse,
    toml_print, toml_values_view, toml_view,
    TomlData, TomlValue,
};
use crate::{ButtonInputBeheavior, InputAxis, InputAxisDirection};
use vstd::prelude::*;

verus! {

/// A number in a bindings file: an integer, or the text of a float.
#[derive(Clone, Debug, PartialEq, Eq)]
pub enum ConfigNumber {
    Integer(i64),
    Float(String),
}

/// The mathematical form of a number in a bindings file.
pub enum NumberData {
    Integer(i64),
    Float(Seq<char>),
}

pub open spec fn number_view(n: ConfigNumber) -> NumberData {
    match n {
        ConfigNumber::Integer(i) => NumberData::Integer(i),
        ConfigNumber::Float(s) => NumberData::Float(s@),
    }
}

/// A keyboard binding as a bindings file holds it: the key by its name, and the
/// multiplier as it is written.
#[derive(Clone, Debug)]
pub struct KeyboardBindingConfig {
    pub key: String,
    pub axis: InputAxis,
    pub axis_dir: InputAxisDirection,
    pub behavior: ButtonInputBeheavior,
    pub multiplier: ConfigNumber,
}

/// The mathematical form of a keyboard binding of a bindings file.
pub struct KeyboardConfigData {
    pub key: Seq<char>,
    pub axis: InputAxis,
    pub axis_dir: InputAxisDirection,
    pub behavior: ButtonInputBeheavior,
    pub multiplier: NumberData,
}

pub open spec fn keyboard_view(c: KeyboardBindingConfig) -> KeyboardConfigData {
    KeyboardConfigData {
        key: c.key@,
        axis: c.axis,
        axis_dir: c.axis_dir,
        behavior: c.behavior,
        multiplier: number_view(c.multiplier),
    }
}

pub open spec fn keyboard_configs_view(s: Seq<KeyboardBindingConfig>) -> Seq<KeyboardConfigData> {
    s.map_values(|c: KeyboardBindingConfig| keyboard_view(c))
}

/// The OpenXR bindings of a bindings file: per interaction profile, in order, the binding
/// paths in order.
pub open spec fn oxr_config_view(s: Seq<(String, Vec<String>)>) -> Seq<(Seq<char>, Seq<Seq<char>>)> {
    s.map_values(|p: (String, Vec<String>)| (p.0@, p.1@.map_values(|b: String| b@)))
}

/// The bindings of one action as a bindings file holds them.
#[derive(Clone, Debug)]
pub struct ActionBindingsConfig {
    pub keyboard: Vec<KeyboardBindingConfig>,
    pub mouse_motion: Option<ConfigNumber>,
    pub mouse_buttons: Vec<MouseButtonBinding>,
    pub gamepad: Vec<GamepadBinding>,
    pub gamepad_haptics: Vec<GamepadHapticType>,
    pub openxr: Vec<(String, Vec<String>)>,
}

/// The mathematical form of the bindings of one action.
pub struct ActionConfigData {
    pub keyboard: Seq<KeyboardConfigData>,
    pub mouse_motion: Option<NumberData>,
    pub mouse_buttons: Seq<MouseButtonBinding>,
    pub gamepad: Seq<GamepadBinding>,
    pub gamepad_haptics: Seq<GamepadHapticType>,
    pub openxr: Seq<(Seq<char>, Seq<Seq<char>>)>,
}

pub open spec fn config_view(c: ActionBindingsConfig) -> ActionConfigData {
    ActionConfigData {
        keyboard: keyboard_configs_view(c.keyboard@),
        mouse_motion: match c.mouse_motion {
            Some(n) => Some(number_view(n)),
            None => None,
        },
        mouse_buttons: c.mouse_buttons@,
        gamepad: c.gamepad@,
        gamepad_haptics: c.gamepad_haptics@,
        openxr: oxr_config_view(c.openxr@),
    }
}

// Reading tables.

/// The index of the first entry at or after `i` with the key `k`.
pub open spec fn key_index_from(t: Seq<(Seq<char>, TomlData)>, k: Seq<char>, i: int) -> Option<int>
    decreases t.len() - i,
{
    if i < 0 || i >= t.len() {
        None
    } else if t[i].0 == k {
        Some(i)
    } else {
        key_index_from(t, k, i + 1)
    }
}

/// The index of the entry with the key `k`.
pub open spec fn key_index(t: Seq<(Seq<char>, TomlData)>, k: Seq<char>) -> Option<int> {
    key_index_from(t, k, 0)
}

/// The value under the key `k`.
pub open spec fn lookup(t: Seq<(Seq<char>, TomlData)>, k: Seq<char>) -> Option<TomlData> {
    match key_index(t, k) {
        Some(i) => Some(t[i].1),
        None => None,
    }
}

/// The string under the key `k`, if the value there is a string.
pub open spec fn str_field(t: Seq<(Seq<char>, TomlData)>, k: Seq<char>) -> Option<Seq<char>> {
    match lookup(t, k) {
        Some(TomlData::Str(s)) => Some(s),
        _ => None,
    }
}

/// The number under the key `k`, if the value there is a float or an integer.
pub open spec fn number_field(t: Seq<(Seq<char>, TomlData)>, k: Seq<char>) -> Option<NumberData> {
    match lookup(t, k) {
        Some(TomlData::Float(s)) => Some(NumberData::Float(s)),
        Some(TomlData::Integer(i)) => Some(NumberData::Integer(i)),
        _ => None,
    }
}

proof fn lemma_key_index_from(t: Seq<(Seq<char>, TomlData)>, k: Seq<char>, i: int)
    requires
        0 <= i,
    ensures
        key_index_from(t, k, i) matches Some(j) ==> i <= j < t.len() && t[j].0 == k && forall|m: int|
            i <= m < j ==> t[m].0 != k,
        key_index_from(t, k, i) is None ==> forall|j: int| i <= j < t.len() ==> t[j].0 != k,
    decreases t.len() - i,
{
    if i < t.len() && t[i].0 != k {
        lemma_key_index_from(t, k, i + 1);
    }
}

/// The index of the entry with the key `k`.
pub fn find_key(t: &Vec<(String, TomlValue)>, k: &str) -> (r: Option<usize>)
    ensures
        match r {
            Some(i) => key_index(toml_entries_view(t@), k@) == Some(i as int) && i < t@.len(),
            None => key_index(toml_entries_view(t@), k@) is None,
        },
{
    proof {
        lemma_entries_view(t@);
    }
    let key = k.to_string();
    let mut i: usize = 0;
    while i < t.len()
        invariant
            i <= t@.len(),
            key@ == k@,
            toml_entries_view(t@).len() == t@.len(),
            forall|j: int|
                0 <= j < t@.len() ==> #[trigger] toml_entries_view(t@)[j] == (t@[j].0@, toml_view(t@[j].1)),
            key_index(toml_entries_view(t@), k@) == key_index_from(toml_entries_view(t@), k@, i as int),
        decreases t@.len() - i,
    {
        if t[i].0 == key {
            return Some(i);
        }
        i = i + 1;
    }
    None
}

/// The string under the key `k`, if the value there is a string.
pub fn str_field_of(t: &Vec<(String, TomlValue)>, k: &str) -> (r: Option<String>)
    ensures
        match r {
            Some(s) => str_field(toml_entries_view(t@), k@) == Some(s@),
            None => str_field(toml_entries_view(t@), k@) is None,
        },
{
    proof {
        lemma_entries_view(t@);
    }
    match find_key(t, k) {
        Some(i) => match &t[i].1 {
            TomlValue::Str(s) => Some(s.clone()),
            _ => None,
        },
        None => None,
    }
}

/// The number under the key `k`, if the value there is a float or an integer.
pub fn number_field_of(t: &Vec<(String, TomlValue)>, k: &str) -> (r: Option<ConfigNumber>)
    ensures
        match r {
            Some(n) => number_field(toml_entries_view(t@), k@) == Some(number_view(n)),
            None => number_field(toml_entries_view(t@), k@) is None,
        },
{
    proof {
        lemma_entries_view(t@);
    }
    match find_key(t, k) {
        Some(i) => match &t[i].1 {
            TomlValue::Float(s) => Some(ConfigNumber::Float(s.clone())),
            TomlValue::Integer(v) => Some(ConfigNumber::Integer(*v)),
            _ => None,
        },
        None => None,
    }
}

/// The name under the key `k`, read with `named`.
fn name_field(t: &Vec<(String, TomlValue)>, k: &str) -> (r: Option<Vec<char>>)
    ensures
        match r {
            Some(v) => str_field(toml_entries_view(t@), k@) == Some(v@),
            None => str_field(toml_entries_view(t@), k@) is None,
        },
{
    match str_field_of(t, k) {
        Some(s) => Some(chars_of(s.as_str())),
        None => None,
    }
}

// Entries.

/// A keyboard entry: an inline table with the key's name, the direction, axis and button
/// behavior by name, and the multiplier. An entry with a field missing or of another type,
/// or whose key names no key, is left out.
pub open spec fn keyboard_entry(e: TomlData) -> Option<KeyboardConfigData> {
    match e {
        TomlData::InlineTable(t) => match (
            str_field(t, "key"@),
            str_field(t, "axis_dir"@),
            str_field(t, "axis"@),
            str_field(t, "button_behavior"@),
            number_field(t, "multiplier"@),
        ) {
            (Some(key), Some(d), Some(a), Some(b), Some(m)) => match (
                key_code_named(key),
                axis_dir_named(d),
                axis_named(a),
                behavior_named(b),
            ) {
                (true, Some(axis_dir), Some(axis), Some(behavior)) => Some(
                    KeyboardConfigData { key, axis, axis_dir, behavior, multiplier: m },
                ),
                _ => None,
            },
            _ => None,
        },
        _ => None,
    }
}

/// A mouse button entry: an inline table with the button, direction, axis and button
/// behavior by name.
pub open spec fn mouse_entry(e: TomlData) -> Option<MouseButtonBinding> {
    match e {
        TomlData::InlineTable(t) => match (
            str_field(t, "button"@),
            str_field(t, "axis_dir"@),
            str_field(t, "axis"@),
            str_field(t, "button_behavior"@),
        ) {
            (Some(n), Some(d), Some(a), Some(b)) => match (
                mouse_button_named(n),
                axis_dir_named(d),
                axis_named(a),
                behavior_named(b),
            ) {
                (Some(button), Some(axis_dir), Some(axis), Some(behavior)) => Some(
                    MouseButtonBinding { axis, axis_dir, button, behavior },
                ),
                _ => None,
            },
            _ => None,
        },
        _ => None,
    }
}

/// A gamepad entry: an inline table with the source (under `key`), direction, axis and
/// button behavior by name.
pub open spec fn gamepad_entry(e: TomlData) -> Option<GamepadBinding> {
    match e {
        TomlData::InlineTable(t) => match (
            str_field(t, "key"@),
            str_field(t, "axis_dir"@),
            str_field(t, "axis"@),
            str_field(t, "button_behavior"@),
        ) {
            (Some(n), Some(d), Some(a), Some(b)) => match (
                gamepad_source_named(n),
                axis_dir_named(d),
                axis_named(a),
                behavior_named(b),
            ) {
                (Some(source), Some(axis_dir), Some(axis), Some(button_behavior)) => Some(
                    GamepadBinding { source, button_behavior, axis, axis_dir },
                ),
                _ => None,
            },
            _ => None,
        },
        _ => None,
    }
}

/// A gamepad haptics entry: an inline table with the motor by name.
pub open spec fn haptic_entry(e: TomlData) -> Option<GamepadHapticType> {
    match e {
        TomlData::InlineTable(t) => match str_field(t, "haptic_type"@) {
            Some(n) => haptic_named(n),
            None => None,
        },
        _ => None,
    }
}

/// The keyboard entries that can be read, in order.
pub open spec fn keyboard_entries(a: Seq<TomlData>) -> Seq<KeyboardConfigData>
    decreases a.len(),
{
    if a.len() == 0 {
        Seq::empty()
    } else {
        let rest = keyboard_entries(a.drop_last());
        match keyboard_entry(a.last()) {
            Some(x) => rest.push(x),
            None => rest,
        }
    }
}

/// The mouse button entries that can be read, in order.
pub open spec fn mouse_entries(a: Seq<TomlData>) -> Seq<MouseButtonBinding>
    decreases a.len(),
{
    if a.len() == 0 {
        Seq::empty()
    } else {
        let rest = mouse_entries(a.drop_last());
        match mouse_entry(a.last()) {
            Some(x) => rest.push(x),
            None => rest,
        }
    }
}

/// The gamepad entries that can be read, in order.
pub open spec fn gamepad_entries(a: Seq<TomlData>) -> Seq<GamepadBinding>
    decreases a.len(),
{
    if a.len() == 0 {
        Seq::empty()
    } else {
        let rest = gamepad_entries(a.drop_last());
        match gamepad_entry(a.last()) {
            Some(x) => rest.push(x),
            None => rest,
        }
    }
}

/// The gamepad haptics entries that can be read, in order.
pub open spec fn haptic_entries(a: Seq<TomlData>) -> Seq<GamepadHapticType>
    decreases a.len(),
{
    if a.len() == 0 {
        Seq::empty()
    } else {
        let rest = haptic_entries(a.drop_last());
        match haptic_entry(a.last()) {
            Some(x) => rest.push(x),
            None => rest,
        }
    }
}

/// The strings of an array, in order; other values are left out.
pub open spec fn string_entries(a: Seq<TomlData>) -> Seq<Seq<char>>
    decreases a.len(),
{
    if a.len() == 0 {
        Seq::empty()
    } else {
        let rest = string_entries(a.drop_last());
        match a.last() {
            TomlData::Str(s) => rest.push(s),
            _ => rest,
        }
    }
}

/// The interaction profiles whose value is an array, each with its binding paths.
pub open spec fn oxr_entries(p: Seq<(Seq<char>, TomlData)>) -> Seq<(Seq<char>, Seq<Seq<char>>)>
    decreases p.len(),
{
    if p.len() == 0 {
        Seq::empty()
    } else {
        let rest = oxr_entries(p.drop_last());
        match p.last().1 {
            TomlData::Array(a) => rest.push((p.last().0, string_entries(a))),
            _ => rest,
        }
    }
}

// Sections of an action's table.

/// The keyboard bindings of an action's table: none unless `keyboard` is an array.
pub open spec fn keyboard_section(t: Seq<(Seq<char>, TomlData)>) -> Seq<KeyboardConfigData> {
    match lookup(t, "keyboard"@) {
        Some(TomlData::Array(a)) => keyboard_entries(a),
        _ => Seq::empty(),
    }
}

/// The mouse bindings of an action's table. A `mouse_movement` that is not an inline
/// table with a number `sensitivity` ends the reading: the action gets no mouse bindings
/// at all. Otherwise the buttons are read from the `mouse_button` array.
pub open spec fn mouse_section(t: Seq<(Seq<char>, TomlData)>) -> (Option<NumberData>, Seq<MouseButtonBinding>) {
    let motion: Option<Option<NumberData>> = match lookup(t, "mouse_movement"@) {
        None => Some(None),
        Some(TomlData::InlineTable(m)) => match number_field(m, "sensitivity"@) {
            Some(n) => Some(Some(n)),
            None => None,
        },
        Some(_) => None,
    };
    match motion {
        None => (None, Seq::empty()),
        Some(m) => (
            m,
            match lookup(t, "mouse_button"@) {
                Some(TomlData::Array(a)) => mouse_entries(a),
                _ => Seq::empty(),
            },
        ),
    }
}

/// The gamepad bindings of an action's table: none unless `gamepad` is an array.
pub open spec fn gamepad_section(t: Seq<(Seq<char>, TomlData)>) -> Seq<GamepadBinding> {
    match lookup(t, "gamepad"@) {
        Some(TomlData::Array(a)) => gamepad_entries(a),
        _ => Seq::empty(),
    }
}

/// The gamepad haptics of an action's table: none unless `gamepad_haptics` is an array.
pub open spec fn haptic_section(t: Seq<(Seq<char>, TomlData)>) -> Seq<GamepadHapticType> {
    match lookup(t, "gamepad_haptics"@) {
        Some(TomlData::Array(a)) => haptic_entries(a),
        _ => Seq::empty(),
    }
}

/// The OpenXR bindings of an action's table: none unless `openxr` is a table.
pub open spec fn oxr_section(t: Seq<(Seq<char>, TomlData)>) -> Seq<(Seq<char>, Seq<Seq<char>>)> {
    match lookup(t, "openxr"@) {
        Some(TomlData::Table(_, p)) => oxr_entries(p),
        _ => Seq::empty(),
    }
}

/// All bindings of an action's table.
pub open spec fn action_config(t: Seq<(Seq<char>, TomlData)>) -> ActionConfigData {
    ActionConfigData {
        keyboard: keyboard_section(t),
        mouse_motion: mouse_section(t).0,
        mouse_buttons: mouse_section(t).1,
        gamepad: gamepad_section(t),
        gamepad_haptics: haptic_section(t),
        openxr: oxr_section(t),
    }
}


// Reading entries.

/// Reads one keyboard entry.
fn keyboard_entry_of(e: &TomlValue) -> (r: Option<KeyboardBindingConfig>)
    ensures
        match r {
            Some(c) => keyboard_entry(toml_view(*e)) == Some(keyboard_view(c)),
            None => keyboard_entry(toml_view(*e)) is None,
        },
{
    match e {
        TomlValue::InlineTable(t) => {
            let key = str_field_of(t, "key");
            let d = name_field(t, "axis_dir");
            let a = name_field(t, "axis");
            let b = name_field(t, "button_behavior");
            let m = number_field_of(t, "multiplier");
            match (key, d, a, b, m) {
                (Some(key), Some(d), Some(a), Some(b), Some(multiplier)) => {
                    let known = is_key_code_name(key.as_str());
                    match (known, axis_dir_from_name(&d), axis_from_name(&a), behavior_from_name(&b)) {
                        (true, Some(axis_dir), Some(axis), Some(behavior)) => Some(
                            KeyboardBindingConfig { key, axis, axis_dir, behavior, multiplier },
                        ),
                        _ => None,
                    }
                },
                _ => None,
            }
        },
        _ => None,
    }
}

/// Reads one mouse button entry.
fn mouse_entry_of(e: &TomlValue) -> (r: Option<MouseButtonBinding>)
    ensures
        r == mouse_entry(toml_view(*e)),
{
    match e {
        TomlValue::InlineTable(t) => {
            let n = name_field(t, "button");
            let d = name_field(t, "axis_dir");
            let a = name_field(t, "axis");
            let b = name_field(t, "button_behavior");
            match (n, d, a, b) {
                (Some(n), Some(d), Some(a), Some(b)) => {
                    match (
                        mouse_button_from_name(&n),
                        axis_dir_from_name(&d),
                        axis_from_name(&a),
                        behavior_from_name(&b),
                    ) {
                        (Some(button), Some(axis_dir), Some(axis), Some(behavior)) => Some(
                            MouseButtonBinding { axis, axis_dir, button, behavior },
                        ),
                        _ => None,
                    }
                },
                _ => None,
            }
        },
        _ => None,
    }
}

/// Reads one gamepad entry.
fn gamepad_entry_of(e: &TomlValue) -> (r: Option<GamepadBinding>)
    ensures
        r == gamepad_entry(toml_view(*e)),
{
    match e {
        TomlValue::InlineTable(t) => {
            let n = name_field(t, "key");
            let d = name_field(t, "axis_dir");
            let a = name_field(t, "axis");
            let b = name_field(t, "button_behavior");
            match (n, d, a, b) {
                (Some(n), Some(d), Some(a), Some(b)) => {
                    match (
                        gamepad_source_from_name(&n),
                        axis_dir_from_name(&d),
                        axis_from_name(&a),
                        behavior_from_name(&b),
                    ) {
                        (Some(source), Some(axis_dir), Some(axis), Some(button_behavior)) => Some(
                            GamepadBinding { source, button_behavior, axis, axis_dir },
                        ),
                        _ => None,
                    }
                },
                _ => None,
            }
        },
        _ => None,
    }
}

/// Reads one gamepad haptics entry.
fn haptic_entry_of(e: &TomlValue) -> (r: Option<GamepadHapticType>)
    ensures
        r == haptic_entry(toml_view(*e)),
{
    match e {
        TomlValue::InlineTable(t) => match name_field(t, "haptic_type") {
            Some(n) => haptic_from_name(&n),
            None => None,
        },
        _ => None,
    }
}

/// Reads the entries of an array that can be read, in order.
fn keyboard_entries_of(a: &Vec<TomlValue>) -> (r: Vec<KeyboardBindingConfig>)
    ensures
        keyboard_configs_view(r@) == keyboard_entries(toml_values_view(a@)),
{
    proof {
        lemma_values_view(a@);
    }
    let mut r: Vec<KeyboardBindingConfig> = Vec::new();
    let mut i: usize = 0;
    while i < a.len()
        invariant
            i <= a@.len(),
            toml_values_view(a@).len() == a@.len(),
            forall|j: int| 0 <= j < a@.len() ==> #[trigger] toml_values_view(a@)[j] == toml_view(a@[j]),
            keyboard_configs_view(r@) == keyboard_entries(toml_values_view(a@).take(i as int)),
        decreases a@.len() - i,
    {
        let ghost before = r@;
        proof {
            let s = toml_values_view(a@).take(i + 1);
            assert(s.drop_last() =~= toml_values_view(a@).take(i as int));
            assert(s.last() == toml_view(a@[i as int]));
        }
        match keyboard_entry_of(&a[i]) {
            Some(c) => {
                r.push(c);
                proof {
                    assert(keyboard_configs_view(r@) =~= keyboard_configs_view(before).push(keyboard_view(c)));
                }
            },
            None => {},
        }
        i = i + 1;
    }
    assert(toml_values_view(a@).take(a@.len() as int) =~= toml_values_view(a@));
    r
}

/// Reads the entries of an array that can be read, in order.
fn mouse_entries_of(a: &Vec<TomlValue>) -> (r: Vec<MouseButtonBinding>)
    ensures
        r@ == mouse_entries(toml_values_view(a@)),
{
    proof {
        lemma_values_view(a@);
    }
    let mut r: Vec<MouseButtonBinding> = Vec::new();
    let mut i: usize = 0;
    while i < a.len()
        invariant
            i <= a@.len(),
            toml_values_view(a@).len() == a@.len(),
            forall|j: int| 0 <= j < a@.len() ==> #[trigger] toml_values_view(a@)[j] == toml_view(a@[j]),
            r@ == mouse_entries(toml_values_view(a@).take(i as int)),
        decreases a@.len() - i,
    {
        let ghost before = r@;
        proof {
            let s = toml_values_view(a@).take(i + 1);
            assert(s.drop_last() =~= toml_values_view(a@).take(i as int));
            assert(s.last() == toml_view(a@[i as int]));
        }
        match mouse_entry_of(&a[i]) {
            Some(c) => {
                r.push(c);
                proof {
                    assert(r@ =~= before.push(c));
                }
            },
            None => {},
        }
        i = i + 1;
    }
    assert(toml_values_view(a@).take(a@.len() as int) =~= toml_values_view(a@));
    r
}

/// Reads the entries of an array that can be read, in order.
fn gamepad_entries_of(a: &Vec<TomlValue>) -> (r: Vec<GamepadBinding>)
    ensures
        r@ == gamepad_entries(toml_values_view(a@)),
{
    proof {
        lemma_values_view(a@);
    }
    let mut r: Vec<GamepadBinding> = Vec::new();
    let mut i: usize = 0;
    while i < a.len()
        invariant
            i <= a@.len(),
            toml_values_view(a@).len() == a@.len(),
            forall|j: int| 0 <= j < a@.len() ==> #[trigger] toml_values_view(a@)[j] == toml_view(a@[j]),
            r@ == gamepad_entries(toml_values_view(a@).take(i as int)),
        decreases a@.len() - i,
    {
        let ghost before = r@;
        proof {
            let s = toml_values_view(a@).take(i + 1);
            assert(s.drop_last() =~= toml_values_view(a@).take(i as int));
            assert(s.last() == toml_view(a@[i as int]));
        }
        match gamepad_entry_of(&a[i]) {
            Some(c) => {
                r.push(c);
                proof {
                    assert(r@ =~= before.push(c));
                }
            },
            None => {},
        }
        i = i + 1;
    }
    assert(toml_values_view(a@).take(a@.len() as int) =~= toml_values_view(a@));
    r
}

/// Reads the entries of an array that can be read, in order.
fn haptic_entries_of(a: &Vec<TomlValue>) -> (r: Vec<GamepadHapticType>)
    ensures
        r@ == haptic_entries(toml_values_view(a@)),
{
    proof {
        lemma_values_view(a@);
    }
    let mut r: Vec<GamepadHapticType> = Vec::new();
    let mut i: usize = 0;
    while i < a.len()
        invariant
            i <= a@.len(),
            toml_values_view(a@).len() == a@.len(),
            forall|j: int| 0 <= j < a@.len() ==> #[trigger] toml_values_view(a@)[j] == toml_view(a@[j]),
            r@ == haptic_entries(toml_values_view(a@).take(i as int)),
        decreases a@.len() - i,
    {
        let ghost before = r@;
        proof {
            let s = toml_values_view(a@).take(i + 1);
            assert(s.drop_last() =~= toml_values_view(a@).take(i as int));
            assert(s.last() == toml_view(a@[i as int]));
        }
        match haptic_entry_of(&a[i]) {
            Some(c) => {
                r.push(c);
                proof {
                    assert(r@ =~= before.push(c));
                }
            },
            None => {},
        }
        i = i + 1;
    }
    assert(toml_values_view(a@).take(a@.len() as int) =~= toml_values_view(a@));
    r
}

/// The string of a value, if it is one.
fn string_of(e: &TomlValue) -> (r: Option<String>)
    ensures
        match r {
            Some(s) => toml_view(*e) == TomlData::Str(s@),
            None => !(toml_view(*e) is Str),
        },
{
    match e {
        TomlValue::Str(s) => Some(s.clone()),
        _ => None,
    }
}

/// The strings of an array, in order.
fn string_entries_of(a: &Vec<TomlValue>) -> (r: Vec<String>)
    ensures
        r@.map_values(|b: String| b@) == string_entries(toml_values_view(a@)),
{
    proof {
        lemma_values_view(a@);
    }
    let mut r: Vec<String> = Vec::new();
    let mut i: usize = 0;
    while i < a.len()
        invariant
            i <= a@.len(),
            toml_values_view(a@).len() == a@.len(),
            forall|j: int| 0 <= j < a@.len() ==> #[trigger] toml_values_view(a@)[j] == toml_view(a@[j]),
            r@.map_values(|b: String| b@) == string_entries(toml_values_view(a@).take(i as int)),
        decreases a@.len() - i,
    {
        let ghost before = r@;
        proof {
            let s = toml_values_view(a@).take(i + 1);
            assert(s.drop_last() =~= toml_values_view(a@).take(i as int));
            assert(s.last() == toml_view(a@[i as int]));
        }
        match string_of(&a[i]) {
            Some(c) => {
                r.push(c);
                proof {
                    assert(r@.map_values(|b: String| b@) =~= before.map_values(|b: String| b@).push(c@));
                }
            },
            None => {},
        }
        i = i + 1;
    }
    assert(toml_values_view(a@).take(a@.len() as int) =~= toml_values_view(a@));
    r
}

/// The interaction profiles whose value is an array, each with its binding paths.
fn oxr_entries_of(p: &Vec<(String, TomlValue)>) -> (r: Vec<(String, Vec<String>)>)
    ensures
        oxr_config_view(r@) == oxr_entries(toml_entries_view(p@)),
{
    proof {
        lemma_entries_view(p@);
    }
    let mut r: Vec<(String, Vec<String>)> = Vec::new();
    let mut i: usize = 0;
    while i < p.len()
        invariant
            i <= p@.len(),
            toml_entries_view(p@).len() == p@.len(),
            forall|j: int|
                0 <= j < p@.len() ==> #[trigger] toml_entries_view(p@)[j] == (p@[j].0@, toml_view(p@[j].1)),
            oxr_config_view(r@) == oxr_entries(toml_entries_view(p@).take(i as int)),
        decreases p@.len() - i,
    {
        let ghost before = r@;
        proof {
            let s = toml_entries_view(p@).take(i + 1);
            assert(s.drop_last() =~= toml_entries_view(p@).take(i as int));
            assert(s.last() == (p@[i as int].0@, toml_view(p@[i as int].1)));
        }
        match &p[i].1 {
            TomlValue::Array(a) => {
                let paths = string_entries_of(a);
                r.push((p[i].0.clone(), paths));
                proof {
                    assert(oxr_config_view(r@) =~= oxr_config_view(before).push(
                        (p@[i as int].0@, string_entries(toml_values_view(a@))),
                    ));
                }
            },
            _ => {},
        }
        i = i + 1;
    }
    assert(toml_entries_view(p@).take(p@.len() as int) =~= toml_entries_view(p@));
    r
}

// Sections.

/// The keyboard bindings of an action's table.
pub fn parse_keyboard_bindings(t: &Vec<(String, TomlValue)>) -> (r: Vec<KeyboardBindingConfig>)
    ensures
        keyboard_configs_view(r@) == keyboard_section(toml_entries_view(t@)),
{
    proof {
        lemma_entries_view(t@);
    }
    match find_key(t, "keyboard") {
        Some(i) => match &t[i].1 {
            TomlValue::Array(a) => keyboard_entries_of(a),
            _ => Vec::new(),
        },
        None => Vec::new(),
    }
}

/// The mouse bindings of an action's table: the motion sensitivity, if any, and the
/// button bindings.
pub fn parse_mouse_bindings(t: &Vec<(String, TomlValue)>) -> (r: (Option<ConfigNumber>, Vec<MouseButtonBinding>))
    ensures
        (match r.0 {
            Some(n) => Some(number_view(n)),
            None => None,
        }) == mouse_section(toml_entries_view(t@)).0,
        r.1@ == mouse_section(toml_entries_view(t@)).1,
{
    proof {
        lemma_entries_view(t@);
    }
    let motion = match find_key(t, "mouse_movement") {
        Some(i) => match &t[i].1 {
            TomlValue::InlineTable(m) => match number_field_of(m, "sensitivity") {
                Some(n) => Some(n),
                None => {
                    return (None, Vec::new());
                },
            },
            _ => {
                return (None, Vec::new());
            },
        },
        None => None,
    };
    let buttons = match find_key(t, "mouse_button") {
        Some(i) => match &t[i].1 {
            TomlValue::Array(a) => mouse_entries_of(a),
            _ => Vec::new(),
        },
        None => Vec::new(),
    };
    (motion, buttons)
}

/// The gamepad bindings of an action's table.
pub fn parse_gamepad_bindings(t: &Vec<(String, TomlValue)>) -> (r: Vec<GamepadBinding>)
    ensures
        r@ == gamepad_section(toml_entries_view(t@)),
{
    proof {
        lemma_entries_view(t@);
    }
    match find_key(t, "gamepad") {
        Some(i) => match &t[i].1 {
            TomlValue::Array(a) => gamepad_entries_of(a),
            _ => Vec::new(),
        },
        None => Vec::new(),
    }
}

/// The gamepad haptics of an action's table.
pub fn parse_gamepad_haptics(t: &Vec<(String, TomlValue)>) -> (r: Vec<GamepadHapticType>)
    ensures
        r@ == haptic_section(toml_entries_view(t@)),
{
    proof {
        lemma_entries_view(t@);
    }
    match find_key(t, "gamepad_haptics") {
        Some(i) => match &t[i].1 {
            TomlValue::Array(a) => haptic_entries_of(a),
            _ => Vec::new(),
        },
        None => Vec::new(),
    }
}

/// The OpenXR bindings of an action's table.
pub fn parse_openxr_bindings(t: &Vec<(String, TomlValue)>) -> (r: Vec<(String, Vec<String>)>)
    ensures
        oxr_config_view(r@) == oxr_section(toml_entries_view(t@)),
{
    proof {
        lemma_entries_view(t@);
    }
    match find_key(t, "openxr") {
        Some(i) => match &t[i].1 {
            TomlValue::Table(_, p) => oxr_entries_of(p),
            _ => Vec::new(),
        },
        None => Vec::new(),
    }
}

/// All bindings of an action's table.
pub fn parse_action_bindings(t: &Vec<(String, TomlValue)>) -> (r: ActionBindingsConfig)
    ensures
        config_view(r) == action_config(toml_entries_view(t@)),
{
    let keyboard = parse_keyboard_bindings(t);
    let (mouse_motion, mouse_buttons) = parse_mouse_bindings(t);
    let gamepad = parse_gamepad_bindings(t);
    let gamepad_haptics = parse_gamepad_haptics(t);
    let openxr = parse_openxr_bindings(t);
    ActionBindingsConfig { keyboard, mouse_motion, mouse_buttons, gamepad, gamepad_haptics, openxr }
}


// Documents.

/// An action set as a bindings file names it: its name, and its actions by name, each
/// with the id of its entity.
#[derive(Clone, Debug)]
pub struct SetActions {
    pub name: String,
    pub actions: Vec<(String, u64)>,
}

/// The index of the first set at or after `i` named `name`.
pub open spec fn set_index_from(sets: Seq<SetActions>, name: Seq<char>, i: int) -> Option<int>
    decreases sets.len() - i,
{
    if i < 0 || i >= sets.len() {
        None
    } else if sets[i].name@ == name {
        Some(i)
    } else {
        set_index_from(sets, name, i + 1)
    }
}

/// The index of the first action at or after `i` named `name`.
pub open spec fn action_index_from(actions: Seq<(String, u64)>, name: Seq<char>, i: int) -> Option<int>
    decreases actions.len() - i,
{
    if i < 0 || i >= actions.len() {
        None
    } else if actions[i].0@ == name {
        Some(i)
    } else {
        action_index_from(actions, name, i + 1)
    }
}

/// The bindings read from the table of one action set, in order: each entry that is a
/// table and is named after an action of the set gives that action's bindings.
pub open spec fn set_bindings(actions: Seq<(String, u64)>, t: Seq<(Seq<char>, TomlData)>) -> Seq<
    (u64, ActionConfigData),
>
    decreases t.len(),
{
    if t.len() == 0 {
        Seq::empty()
    } else {
        let rest = set_bindings(actions, t.drop_last());
        match (t.last().1, action_index_from(actions, t.last().0, 0)) {
            (TomlData::Table(_, bt), Some(j)) => rest.push((actions[j].1, action_config(bt))),
            _ => rest,
        }
    }
}

/// The bindings read from a document, in order: each entry other than `version` that is
/// a table and is named after an action set gives the bindings of that set's table.
pub open spec fn doc_bindings(doc: Seq<(Seq<char>, TomlData)>, sets: Seq<SetActions>) -> Seq<
    (u64, ActionConfigData),
>
    decreases doc.len(),
{
    if doc.len() == 0 {
        Seq::empty()
    } else {
        let rest = doc_bindings(doc.drop_last(), sets);
        let (name, item) = doc.last();
        if name == "version"@ {
            rest
        } else {
            match (set_index_from(sets, name, 0), item) {
                (Some(si), TomlData::Table(_, t)) => rest + set_bindings(sets[si].actions@, t),
                _ => rest,
            }
        }
    }
}

/// Why a bindings document is not read.
#[derive(Clone, Copy, Debug, PartialEq, Eq, Structural)]
pub enum DeserializeError {
    /// `version` is missing or not the integer 1.
    InvalidVersion,
}

/// The bindings a document gives: none unless its `version` is the integer 1.
pub open spec fn deserialize_spec(doc: Seq<(Seq<char>, TomlData)>, sets: Seq<SetActions>) -> Result<
    Seq<(u64, ActionConfigData)>,
    DeserializeError,
> {
    if lookup(doc, "version"@) == Some(TomlData::Integer(1)) {
        Ok(doc_bindings(doc, sets))
    } else {
        Err(DeserializeError::InvalidVersion)
    }
}

pub open spec fn loaded_view(s: Seq<(u64, ActionBindingsConfig)>) -> Seq<(u64, ActionConfigData)> {
    s.map_values(|p: (u64, ActionBindingsConfig)| (p.0, config_view(p.1)))
}

proof fn lemma_set_index_from(sets: Seq<SetActions>, name: Seq<char>, i: int)
    requires
        0 <= i,
    ensures
        set_index_from(sets, name, i) matches Some(j) ==> i <= j < sets.len(),
    decreases sets.len() - i,
{
    if i < sets.len() && sets[i].name@ != name {
        lemma_set_index_from(sets, name, i + 1);
    }
}

proof fn lemma_action_index_from(actions: Seq<(String, u64)>, name: Seq<char>, i: int)
    requires
        0 <= i,
    ensures
        action_index_from(actions, name, i) matches Some(j) ==> i <= j < actions.len(),
    decreases actions.len() - i,
{
    if i < actions.len() && actions[i].0@ != name {
        lemma_action_index_from(actions, name, i + 1);
    }
}

/// The index of the first set named `name`.
fn find_set(sets: &Vec<SetActions>, name: &String) -> (r: Option<usize>)
    ensures
        r == (match set_index_from(sets@, name@, 0) {
            Some(i) => Some(i as usize),
            None => None,
        }),
        r matches Some(i) ==> i < sets@.len() && set_index_from(sets@, name@, 0) == Some(i as int),
{
    proof {
        lemma_set_index_from(sets@, name@, 0);
    }
    let mut i: usize = 0;
    while i < sets.len()
        invariant
            i <= sets@.len(),
            set_index_from(sets@, name@, 0) == set_index_from(sets@, name@, i as int),
        decreases sets@.len() - i,
    {
        if sets[i].name == *name {
            return Some(i);
        }
        i = i + 1;
    }
    None
}

/// The index of the first action named `name`.
fn find_action(actions: &Vec<(String, u64)>, name: &String) -> (r: Option<usize>)
    ensures
        r == (match action_index_from(actions@, name@, 0) {
            Some(i) => Some(i as usize),
            None => None,
        }),
        r matches Some(i) ==> i < actions@.len() && action_index_from(actions@, name@, 0) == Some(
            i as int,
        ),
{
    proof {
        lemma_action_index_from(actions@, name@, 0);
    }
    let mut i: usize = 0;
    while i < actions.len()
        invariant
            i <= actions@.len(),
            action_index_from(actions@, name@, 0) == action_index_from(actions@, name@, i as int),
        decreases actions@.len() - i,
    {
        if actions[i].0 == *name {
            return Some(i);
        }
        i = i + 1;
    }
    None
}

/// Adds the bindings read from the table `t` of an action set with the actions
/// `actions` to `out`.
fn read_set_bindings(
    actions: &Vec<(String, u64)>,
    t: &Vec<(String, TomlValue)>,
    out: &mut Vec<(u64, ActionBindingsConfig)>,
)
    ensures
        loaded_view(final(out)@) == loaded_view(old(out)@) + set_bindings(
            actions@,
            toml_entries_view(t@),
        ),
{
    proof {
        lemma_entries_view(t@);
    }
    let ghost start = loaded_view(out@);
    let mut i: usize = 0;
    while i < t.len()
        invariant
            i <= t@.len(),
            toml_entries_view(t@).len() == t@.len(),
            forall|j: int|
                0 <= j < t@.len() ==> #[trigger] toml_entries_view(t@)[j] == (t@[j].0@, toml_view(t@[j].1)),
            loaded_view(out@) == start + set_bindings(actions@, toml_entries_view(t@).take(i as int)),
        decreases t@.len() - i,
    {
        let ghost before = out@;
        proof {
            let s = toml_entries_view(t@).take(i + 1);
            assert(s.drop_last() =~= toml_entries_view(t@).take(i as int));
            assert(s.last() == (t@[i as int].0@, toml_view(t@[i as int].1)));
        }
        match &t[i].1 {
            TomlValue::Table(implicit, bt) => {
                assert(toml_view(t@[i as int].1) == TomlData::Table(*implicit, toml_entries_view(bt@)));
                match find_action(actions, &t[i].0) {
                    Some(j) => {
                        let config = parse_action_bindings(bt);
                        out.push((actions[j].1, config));
                        proof {
                            let s = toml_entries_view(t@).take(i + 1);
                            assert(s.last().1 == toml_view(t@[i as int].1));
                            assert(set_bindings(actions@, s) == set_bindings(actions@, s.drop_last()).push(
                                (actions@[j as int].1, action_config(toml_entries_view(bt@))),
                            ));
                            assert(loaded_view(out@) =~= loaded_view(before).push(
                                (actions@[j as int].1, config_view(config)),
                            ));
                            assert(loaded_view(out@) =~= start + set_bindings(
                                actions@,
                                toml_entries_view(t@).take(i + 1),
                            ));
                        }
                    },
                    None => {},
                }
            },
            _ => {},
        }
        i = i + 1;
    }
    assert(toml_entries_view(t@).take(t@.len() as int) =~= toml_entries_view(t@));
}

/// The bindings a document gives for the action sets `sets`, in document order, each
/// with the entity id of its action.
pub fn deserialize_bindings(doc: &Vec<(String, TomlValue)>, sets: &Vec<SetActions>) -> (r: Result<
    Vec<(u64, ActionBindingsConfig)>,
    DeserializeError,
>)
    ensures
        match (r, deserialize_spec(toml_entries_view(doc@), sets@)) {
            (Ok(v), Ok(s)) => loaded_view(v@) == s,
            (Err(e), Err(f)) => e == f,
            _ => false,
        },
{
    proof {
        lemma_entries_view(doc@);
    }
    let version_ok = match find_key(doc, "version") {
        Some(i) => match &doc[i].1 {
            TomlValue::Integer(v) => *v == 1,
            _ => false,
        },
        None => false,
    };
    if !version_ok {
        return Err(DeserializeError::InvalidVersion);
    }
    let mut out: Vec<(u64, ActionBindingsConfig)> = Vec::new();
    let mut i: usize = 0;
    while i < doc.len()
        invariant
            i <= doc@.len(),
            toml_entries_view(doc@).len() == doc@.len(),
            forall|j: int|
                0 <= j < doc@.len() ==> #[trigger] toml_entries_view(doc@)[j] == (
                    doc@[j].0@,
                    toml_view(doc@[j].1),
                ),
            loaded_view(out@) == doc_bindings(toml_entries_view(doc@).take(i as int), sets@),
        decreases doc@.len() - i,
    {
        proof {
            let s = toml_entries_view(doc@).take(i + 1);
            assert(s.drop_last() =~= toml_entries_view(doc@).take(i as int));
            assert(s.last() == (doc@[i as int].0@, toml_view(doc@[i as int].1)));
        }
        let version = "version".to_string();
        let is_version = doc[i].0 == version;
        let ghost s = toml_entries_view(doc@).take(i + 1);
        let ghost rest = doc_bindings(s.drop_last(), sets@);
        assert(s.last() == (doc@[i as int].0@, toml_view(doc@[i as int].1)));
        if !is_version {
            match &doc[i].1 {
                TomlValue::Table(implicit, t) => {
                    assert(toml_view(doc@[i as int].1) == TomlData::Table(*implicit, toml_entries_view(t@)));
                    match find_set(sets, &doc[i].0) {
                        Some(si) => {
                            read_set_bindings(&sets[si].actions, t, &mut out);
                            assert(doc_bindings(s, sets@) == rest + set_bindings(
                                sets@[si as int].actions@,
                                toml_entries_view(t@),
                            ));
                        },
                        None => {
                            assert(doc_bindings(s, sets@) == rest);
                        },
                    }
                },
                _ => {
                    assert(doc_bindings(s, sets@) == rest);
                },
            }
        } else {
            assert(doc_bindings(s, sets@) == rest);
        }
        i = i + 1;
    }
    assert(toml_entries_view(doc@).take(doc@.len() as int) =~= toml_entries_view(doc@));
    Ok(out)
}

/// Why a bindings file is not read.
#[derive(Clone, Copy, Debug, PartialEq, Eq, Structural)]
pub enum LoadError {
    /// The text is not a TOML document.
    NotToml,
    /// `version` is missing or not the integer 1.
    InvalidVersion,
}

/// The bindings the bindings file `text` gives for the action sets `sets`: the text is
/// read with `toml_edit`, and its document is read as `deserialize_spec` says.
pub fn load_bindings(text: &str, sets: &Vec<SetActions>) -> (r: Result<
    Vec<(u64, ActionBindingsConfig)>,
    LoadError,
>)
    ensures
        match toml_parse(text@) {
            None => r == Err::<Vec<(u64, ActionBindingsConfig)>, LoadError>(LoadError::NotToml),
            Some(doc) => match deserialize_spec(doc, sets@) {
                Ok(s) => r matches Ok(v) && loaded_view(v@) == s,
                Err(_) => r == Err::<Vec<(u64, ActionBindingsConfig)>, LoadError>(
                    LoadError::InvalidVersion,
                ),
            },
        },
{
    match parse_toml(text) {
        None => Err(LoadError::NotToml),
        Some(doc) => match deserialize_bindings(&doc, sets) {
            Ok(v) => Ok(v),
            Err(_) => Err(LoadError::InvalidVersion),
        },
    }
}


// Writing.

/// The bindings of one action to write, per kind of binding; `None` leaves that part of
/// the action's table as it is.
#[derive(Clone, Debug)]
pub struct ActionBindingsSave {
    pub keyboard: Option<Vec<KeyboardBindingConfig>>,
    /// The mouse motion sensitivity (if the action has a motion binding) and the button
    /// bindings.
    pub mouse: Option<(Option<ConfigNumber>, Vec<MouseButtonBinding>)>,
    pub gamepad: Option<Vec<GamepadBinding>>,
    pub gamepad_haptics: Option<Vec<GamepadHapticType>>,
    pub openxr: Option<Vec<(String, Vec<String>)>>,
}

/// One action to write: the name of its set, its own name and its bindings.
#[derive(Clone, Debug)]
pub struct ActionSave {
    pub set: String,
    pub action: String,
    pub bindings: ActionBindingsSave,
}

/// A number as it is written.
pub open spec fn number_toml(n: NumberData) -> TomlData {
    match n {
        NumberData::Integer(i) => TomlData::Integer(i),
        NumberData::Float(s) => TomlData::Float(s),
    }
}

/// A keyboard binding as it is written.
pub open spec fn keyboard_entry_toml(c: KeyboardConfigData) -> TomlData {
    TomlData::InlineTable(
        seq![
            ("key"@, TomlData::Str(c.key)),
            ("multiplier"@, number_toml(c.multiplier)),
            ("axis_dir"@, TomlData::Str(axis_dir_name(c.axis_dir))),
            ("axis"@, TomlData::Str(axis_name(c.axis))),
            ("button_behavior"@, TomlData::Str(behavior_name(c.behavior))),
        ],
    )
}

/// A mouse button binding as it is written.
pub open spec fn mouse_entry_toml(b: MouseButtonBinding) -> TomlData {
    TomlData::InlineTable(
        seq![
            ("button"@, TomlData::Str(mouse_button_name(b.button))),
            ("axis_dir"@, TomlData::Str(axis_dir_name(b.axis_dir))),
            ("axis"@, TomlData::Str(axis_name(b.axis))),
            ("button_behavior"@, TomlData::Str(behavior_name(b.behavior))),
        ],
    )
}

/// A gamepad binding as it is written.
pub open spec fn gamepad_entry_toml(b: GamepadBinding) -> TomlData {
    TomlData::InlineTable(
        seq![
            ("key"@, TomlData::Str(gamepad_source_name(b.source))),
            ("axis_dir"@, TomlData::Str(axis_dir_name(b.axis_dir))),
            ("axis"@, TomlData::Str(axis_name(b.axis))),
            ("button_behavior"@, TomlData::Str(behavior_name(b.button_behavior))),
        ],
    )
}

/// A gamepad haptics binding as it is written.
pub open spec fn haptic_entry_toml(h: GamepadHapticType) -> TomlData {
    TomlData::InlineTable(seq![("haptic_type"@, TomlData::Str(haptic_name(h)))])
}

/// OpenXR bindings as they are written: a table with an array of paths per profile.
pub open spec fn oxr_toml(p: Seq<(Seq<char>, Seq<Seq<char>>)>) -> TomlData {
    TomlData::Table(
        false,
        p.map_values(
            |e: (Seq<char>, Seq<Seq<char>>)|
                (e.0, TomlData::Array(e.1.map_values(|b: Seq<char>| TomlData::Str(b)))),
        ),
    )
}

/// Sets the value under `k`: in place when the key is there, else at the end.
pub open spec fn set_entry(t: Seq<(Seq<char>, TomlData)>, k: Seq<char>, v: TomlData) -> Seq<
    (Seq<char>, TomlData),
> {
    match key_index(t, k) {
        Some(i) => t.update(i, (t[i].0, v)),
        None => t.push((k, v)),
    }
}

/// Sets the value under `k` of a table or inline table; `None` for any other value, which
/// has no keys.
pub open spec fn index_write(item: TomlData, k: Seq<char>, v: TomlData) -> Option<TomlData> {
    match item {
        TomlData::Table(implicit, t) => Some(TomlData::Table(implicit, set_entry(t, k, v))),
        TomlData::InlineTable(t) => Some(TomlData::InlineTable(set_entry(t, k, v))),
        _ => None,
    }
}

/// Writes `v` (if any) under `k` of the value `o` (if any).
pub open spec fn write_opt(o: Option<TomlData>, k: Seq<char>, v: Option<TomlData>) -> Option<
    TomlData,
> {
    match o {
        None => None,
        Some(x) => match v {
            None => Some(x),
            Some(val) => index_write(x, k, val),
        },
    }
}

/// Writes the mouse bindings of an action into its table: the motion binding goes under
/// `mouse_movement`, which needs a table (not an inline one); the buttons go under
/// `mouse_button`, and only when there are some.
pub open spec fn write_mouse(
    o: Option<TomlData>,
    mouse: Option<(Option<ConfigNumber>, Vec<MouseButtonBinding>)>,
) -> Option<TomlData> {
    match (o, mouse) {
        (None, _) => None,
        (Some(x), None) => Some(x),
        (Some(x), Some((motion, buttons))) => {
            let with_motion = match motion {
                None => Some(x),
                Some(n) => match x {
                    TomlData::Table(implicit, t) => Some(
                        TomlData::Table(
                            implicit,
                            set_entry(
                                t,
                                "mouse_movement"@,
                                TomlData::InlineTable(
                                    seq![("sensitivity"@, number_toml(number_view(n)))],
                                ),
                            ),
                        ),
                    ),
                    _ => None,
                },
            };
            if buttons@.len() > 0 {
                write_opt(
                    with_motion,
                    "mouse_button"@,
                    Some(TomlData::Array(buttons@.map_values(|b: MouseButtonBinding| mouse_entry_toml(b)))),
                )
            } else {
                with_motion
            }
        },
    }
}

/// Writes the bindings of an action into the value of its table, or `None` where that
/// value cannot hold them.
pub open spec fn write_action(item: TomlData, b: ActionBindingsSave) -> Option<TomlData> {
    let with_keyboard = write_opt(
        Some(item),
        "keyboard"@,
        match b.keyboard {
            Some(k) => Some(
                TomlData::Array(
                    keyboard_configs_view(k@).map_values(|c: KeyboardConfigData| keyboard_entry_toml(c)),
                ),
            ),
            None => None,
        },
    );
    let with_mouse = write_mouse(with_keyboard, b.mouse);
    let with_gamepad = write_opt(
        with_mouse,
        "gamepad"@,
        match b.gamepad {
            Some(g) => Some(TomlData::Array(g@.map_values(|x: GamepadBinding| gamepad_entry_toml(x)))),
            None => None,
        },
    );
    let with_haptics = write_opt(
        with_gamepad,
        "gamepad_haptics"@,
        match b.gamepad_haptics {
            Some(h) => Some(
                TomlData::Array(h@.map_values(|x: GamepadHapticType| haptic_entry_toml(x))),
            ),
            None => None,
        },
    );
    write_opt(
        with_haptics,
        "openxr"@,
        match b.openxr {
            Some(p) => Some(oxr_toml(oxr_config_view(p@))),
            None => None,
        },
    )
}

/// Writes the bindings of one action into a document: the set's table is found or added
/// (as an implicit table) at the end, and must be a table; in it the action's table is
/// found or added at the end; `None` where the document cannot hold them.
pub open spec fn save_action(doc: Seq<(Seq<char>, TomlData)>, a: ActionSave) -> Option<
    Seq<(Seq<char>, TomlData)>,
> {
    let empty = Seq::<(Seq<char>, TomlData)>::empty();
    let (doc1, set_item) = match key_index(doc, a.set@) {
        Some(i) => (doc, doc[i].1),
        None => (doc.push((a.set@, TomlData::Table(true, empty))), TomlData::Table(true, empty)),
    };
    match set_item {
        TomlData::Table(implicit, st) => {
            let (st1, act) = match key_index(st, a.action@) {
                Some(j) => (st, st[j].1),
                None => (
                    st.push((a.action@, TomlData::Table(false, empty))),
                    TomlData::Table(false, empty),
                ),
            };
            match write_action(act, a.bindings) {
                Some(written) => Some(
                    set_entry(
                        doc1,
                        a.set@,
                        TomlData::Table(implicit, set_entry(st1, a.action@, written)),
                    ),
                ),
                None => None,
            }
        },
        _ => None,
    }
}

/// Writes the bindings of the actions, in order.
pub open spec fn save_all(doc: Seq<(Seq<char>, TomlData)>, actions: Seq<ActionSave>) -> Option<
    Seq<(Seq<char>, TomlData)>,
>
    decreases actions.len(),
{
    if actions.len() == 0 {
        Some(doc)
    } else {
        match save_all(doc, actions.drop_last()) {
            None => None,
            Some(d) => save_action(d, actions.last()),
        }
    }
}

/// The document with `version = 1` added at the end when it has no `version`, and the
/// bindings of the actions written into it; `None` where the document cannot hold them.
pub open spec fn serialize_spec(doc: Seq<(Seq<char>, TomlData)>, actions: Seq<ActionSave>) -> Option<
    Seq<(Seq<char>, TomlData)>,
> {
    let with_version = if key_index(doc, "version"@) is None {
        doc.push(("version"@, TomlData::Integer(1)))
    } else {
        doc
    };
    save_all(with_version, actions)
}

proof fn lemma_key_index_push(t: Seq<(Seq<char>, TomlData)>, k: Seq<char>, v: TomlData)
    requires
        key_index(t, k) is None,
    ensures
        key_index(t.push((k, v)), k) == Some(t.len() as int),
{
    lemma_key_index_from(t, k, 0);
    lemma_key_index_from(t.push((k, v)), k, 0);
    assert(t.push((k, v))[t.len() as int].0 == k);
    if key_index(t.push((k, v)), k) != Some(t.len() as int) {
        let j = key_index(t.push((k, v)), k).unwrap();
        assert(t.push((k, v))[j] == t[j]);
    }
}

proof fn lemma_key_index_found(t: Seq<(Seq<char>, TomlData)>, k: Seq<char>)
    ensures
        key_index(t, k) matches Some(i) ==> 0 <= i < t.len() && t[i].0 == k,
{
    lemma_key_index_from(t, k, 0);
}

/// Adds the entry `(k, v)` at the end.
fn push_entry(t: &mut Vec<(String, TomlValue)>, k: String, v: TomlValue)
    ensures
        toml_entries_view(final(t)@) == toml_entries_view(old(t)@).push((k@, toml_view(v))),
{
    t.push((k, v));
    assert(final(t)@.drop_last() =~= old(t)@);
}

/// Adds the value `v` at the end.
fn push_value(a: &mut Vec<TomlValue>, v: TomlValue)
    ensures
        toml_values_view(final(a)@) == toml_values_view(old(a)@).push(toml_view(v)),
{
    a.push(v);
    assert(final(a)@.drop_last() =~= old(a)@);
}

proof fn lemma_entries_view_update(t: Seq<(String, TomlValue)>, i: int, e: (String, TomlValue))
    requires
        0 <= i < t.len(),
    ensures
        toml_entries_view(t.update(i, e)) == toml_entries_view(t).update(i, (e.0@, toml_view(e.1))),
{
    lemma_entries_view(t);
    lemma_entries_view(t.update(i, e));
    assert(toml_entries_view(t.update(i, e)) =~= toml_entries_view(t).update(i, (e.0@, toml_view(e.1))));
}

/// Sets the value under `k`: in place when the key is there, else at the end.
fn set_entry_of(t: &mut Vec<(String, TomlValue)>, k: &str, v: TomlValue)
    ensures
        toml_entries_view(final(t)@) == set_entry(toml_entries_view(old(t)@), k@, toml_view(v)),
{
    proof {
        lemma_entries_view(t@);
    }
    match find_key(t, k) {
        Some(i) => {
            let ghost old_t = t@;
            let (key, _old) = t.remove(i);
            t.insert(i, (key, v));
            proof {
                assert(t@ =~= old_t.update(i as int, (old_t[i as int].0, v)));
                lemma_entries_view_update(old_t, i as int, (old_t[i as int].0, v));
            }
        },
        None => {
            push_entry(t, k.to_string(), v);
        },
    }
}

/// Sets the value under `k` of a table or inline table; `None` for any other value.
fn index_write_of(item: TomlValue, k: &str, v: TomlValue) -> (r: Option<TomlValue>)
    ensures
        match r {
            Some(x) => index_write(toml_view(item), k@, toml_view(v)) == Some(toml_view(x)),
            None => index_write(toml_view(item), k@, toml_view(v)) is None,
        },
{
    match item {
        TomlValue::Table(implicit, t) => {
            let mut t = t;
            set_entry_of(&mut t, k, v);
            Some(TomlValue::Table(implicit, t))
        },
        TomlValue::InlineTable(t) => {
            let mut t = t;
            set_entry_of(&mut t, k, v);
            Some(TomlValue::InlineTable(t))
        },
        _ => None,
    }
}

/// A number as it is written.
fn number_value(n: &ConfigNumber) -> (r: TomlValue)
    ensures
        toml_view(r) == number_toml(number_view(*n)),
{
    match n {
        ConfigNumber::Integer(i) => TomlValue::Integer(*i),
        ConfigNumber::Float(s) => TomlValue::Float(s.clone()),
    }
}

/// A keyboard binding as it is written.
fn keyboard_entry_value(c: &KeyboardBindingConfig) -> (r: TomlValue)
    ensures
        toml_view(r) == keyboard_entry_toml(keyboard_view(*c)),
{
    let mut t: Vec<(String, TomlValue)> = Vec::new();
    push_entry(&mut t, "key".to_string(), TomlValue::Str(c.key.clone()));
    push_entry(&mut t, "multiplier".to_string(), number_value(&c.multiplier));
    push_entry(&mut t, "axis_dir".to_string(), TomlValue::Str(axis_dir_to_name(c.axis_dir)));
    push_entry(&mut t, "axis".to_string(), TomlValue::Str(axis_to_name(c.axis)));
    push_entry(&mut t, "button_behavior".to_string(), TomlValue::Str(behavior_to_name(c.behavior)));
    assert(toml_entries_view(t@) =~= match keyboard_entry_toml(keyboard_view(*c)) {
        TomlData::InlineTable(e) => e,
        _ => Seq::empty(),
    });
    TomlValue::InlineTable(t)
}

/// A mouse button binding as it is written.
fn mouse_entry_value(b: &MouseButtonBinding) -> (r: TomlValue)
    ensures
        toml_view(r) == mouse_entry_toml(*b),
{
    let mut t: Vec<(String, TomlValue)> = Vec::new();
    push_entry(&mut t, "button".to_string(), TomlValue::Str(mouse_button_to_name(b.button)));
    push_entry(&mut t, "axis_dir".to_string(), TomlValue::Str(axis_dir_to_name(b.axis_dir)));
    push_entry(&mut t, "axis".to_string(), TomlValue::Str(axis_to_name(b.axis)));
    push_entry(&mut t, "button_behavior".to_string(), TomlValue::Str(behavior_to_name(b.behavior)));
    assert(toml_entries_view(t@) =~= match mouse_entry_toml(*b) {
        TomlData::InlineTable(e) => e,
        _ => Seq::empty(),
    });
    TomlValue::InlineTable(t)
}

/// A gamepad binding as it is written.
fn gamepad_entry_value(b: &GamepadBinding) -> (r: TomlValue)
    ensures
        toml_view(r) == gamepad_entry_toml(*b),
{
    let mut t: Vec<(String, TomlValue)> = Vec::new();
    push_entry(&mut t, "key".to_string(), TomlValue::Str(gamepad_source_to_name(b.source)));
    push_entry(&mut t, "axis_dir".to_string(), TomlValue::Str(axis_dir_to_name(b.axis_dir)));
    push_entry(&mut t, "axis".to_string(), TomlValue::Str(axis_to_name(b.axis)));
    push_entry(
        &mut t,
        "button_behavior".to_string(),
        TomlValue::Str(behavior_to_name(b.button_behavior)),
    );
    assert(toml_entries_view(t@) =~= match gamepad_entry_toml(*b) {
        TomlData::InlineTable(e) => e,
        _ => Seq::empty(),
    });
    TomlValue::InlineTable(t)
}

/// A gamepad haptics binding as it is written.
fn haptic_entry_value(h: &GamepadHapticType) -> (r: TomlValue)
    ensures
        toml_view(r) == haptic_entry_toml(*h),
{
    let mut t: Vec<(String, TomlValue)> = Vec::new();
    push_entry(&mut t, "haptic_type".to_string(), TomlValue::Str(haptic_to_name(*h)));
    assert(toml_entries_view(t@) =~= seq![("haptic_type"@, TomlData::Str(haptic_name(*h)))]);
    TomlValue::InlineTable(t)
}

/// The array of the entries as they are written.
fn keyboard_array(v: &Vec<KeyboardBindingConfig>) -> (r: TomlValue)
    ensures
        toml_view(r) == TomlData::Array(keyboard_configs_view(v@).map_values(|x: KeyboardConfigData| keyboard_entry_toml(x))),
{
    let mut a: Vec<TomlValue> = Vec::new();
    let mut i: usize = 0;
    while i < v.len()
        invariant
            i <= v@.len(),
            toml_values_view(a@) == keyboard_configs_view(v@).take(i as int).map_values(|x: KeyboardConfigData| keyboard_entry_toml(x)),
        decreases v@.len() - i,
    {
        push_value(&mut a, keyboard_entry_value(&v[i]));
        i = i + 1;
        assert(toml_values_view(a@) =~= keyboard_configs_view(v@).take(i as int).map_values(|x: KeyboardConfigData| keyboard_entry_toml(x)));
    }
    assert(keyboard_configs_view(v@).take(v@.len() as int) =~= keyboard_configs_view(v@));
    TomlValue::Array(a)
}

/// The array of the entries as they are written.
fn mouse_array(v: &Vec<MouseButtonBinding>) -> (r: TomlValue)
    ensures
        toml_view(r) == TomlData::Array(v@.map_values(|x: MouseButtonBinding| mouse_entry_toml(x))),
{
    let mut a: Vec<TomlValue> = Vec::new();
    let mut i: usize = 0;
    while i < v.len()
        invariant
            i <= v@.len(),
            toml_values_view(a@) == v@.take(i as int).map_values(|x: MouseButtonBinding| mouse_entry_toml(x)),
        decreases v@.len() - i,
    {
        push_value(&mut a, mouse_entry_value(&v[i]));
        i = i + 1;
        assert(toml_values_view(a@) =~= v@.take(i as int).map_values(|x: MouseButtonBinding| mouse_entry_toml(x)));
    }
    assert(v@.take(v@.len() as int) =~= v@);
    TomlValue::Array(a)
}

/// The array of the entries as they are written.
fn gamepad_array(v: &Vec<GamepadBinding>) -> (r: TomlValue)
    ensures
        toml_view(r) == TomlData::Array(v@.map_values(|x: GamepadBinding| gamepad_entry_toml(x))),
{
    let mut a: Vec<TomlValue> = Vec::new();
    let mut i: usize = 0;
    while i < v.len()
        invariant
            i <= v@.len(),
            toml_values_view(a@) == v@.take(i as int).map_values(|x: GamepadBinding| gamepad_entry_toml(x)),
        decreases v@.len() - i,
    {
        push_value(&mut a, gamepad_entry_value(&v[i]));
        i = i + 1;
        assert(toml_values_view(a@) =~= v@.take(i as int).map_values(|x: GamepadBinding| gamepad_entry_toml(x)));
    }
    assert(v@.take(v@.len() as int) =~= v@);
    TomlValue::Array(a)
}

/// The array of the entries as they are written.
fn haptic_array(v: &Vec<GamepadHapticType>) -> (r: TomlValue)
    ensures
        toml_view(r) == TomlData::Array(v@.map_values(|x: GamepadHapticType| haptic_entry_toml(x))),
{
    let mut a: Vec<TomlValue> = Vec::new();
    let mut i: usize = 0;
    while i < v.len()
        invariant
            i <= v@.len(),
            toml_values_view(a@) == v@.take(i as int).map_values(|x: GamepadHapticType| haptic_entry_toml(x)),
        decreases v@.len() - i,
    {
        push_value(&mut a, haptic_entry_value(&v[i]));
        i = i + 1;
        assert(toml_values_view(a@) =~= v@.take(i as int).map_values(|x: GamepadHapticType| haptic_entry_toml(x)));
    }
    assert(v@.take(v@.len() as int) =~= v@);
    TomlValue::Array(a)
}


/// The paths of one profile as they are written.
fn strings_array(v: &Vec<String>) -> (r: TomlValue)
    ensures
        toml_view(r) == TomlData::Array(v@.map_values(|b: String| b@).map_values(|b: Seq<char>| TomlData::Str(b))),
{
    let mut a: Vec<TomlValue> = Vec::new();
    let mut i: usize = 0;
    while i < v.len()
        invariant
            i <= v@.len(),
            toml_values_view(a@) == v@.take(i as int).map_values(|b: String| b@).map_values(
                |b: Seq<char>| TomlData::Str(b),
            ),
        decreases v@.len() - i,
    {
        push_value(&mut a, TomlValue::Str(v[i].clone()));
        i = i + 1;
        assert(toml_values_view(a@) =~= v@.take(i as int).map_values(|b: String| b@).map_values(
            |b: Seq<char>| TomlData::Str(b),
        ));
    }
    assert(v@.take(v@.len() as int) =~= v@);
    TomlValue::Array(a)
}

/// OpenXR bindings as they are written.
fn oxr_value(p: &Vec<(String, Vec<String>)>) -> (r: TomlValue)
    ensures
        toml_view(r) == oxr_toml(oxr_config_view(p@)),
{
    let mut t: Vec<(String, TomlValue)> = Vec::new();
    let mut i: usize = 0;
    while i < p.len()
        invariant
            i <= p@.len(),
            toml_entries_view(t@) == oxr_config_view(p@.take(i as int)).map_values(
                |e: (Seq<char>, Seq<Seq<char>>)|
                    (e.0, TomlData::Array(e.1.map_values(|b: Seq<char>| TomlData::Str(b)))),
            ),
        decreases p@.len() - i,
    {
        push_entry(&mut t, p[i].0.clone(), strings_array(&p[i].1));
        i = i + 1;
        assert(toml_entries_view(t@) =~= oxr_config_view(p@.take(i as int)).map_values(
            |e: (Seq<char>, Seq<Seq<char>>)|
                (e.0, TomlData::Array(e.1.map_values(|b: Seq<char>| TomlData::Str(b)))),
        ));
    }
    assert(p@.take(p@.len() as int) =~= p@);
    TomlValue::Table(false, t)
}

/// The motion sensitivity as it is written.
fn sensitivity_value(n: &ConfigNumber) -> (r: TomlValue)
    ensures
        toml_view(r) == TomlData::InlineTable(seq![("sensitivity"@, number_toml(number_view(*n)))]),
{
    let mut t: Vec<(String, TomlValue)> = Vec::new();
    push_entry(&mut t, "sensitivity".to_string(), number_value(n));
    assert(toml_entries_view(t@) =~= seq![("sensitivity"@, number_toml(number_view(*n)))]);
    TomlValue::InlineTable(t)
}

/// Writes the mouse bindings of an action into the value of its table.
fn write_mouse_of(x: TomlValue, mouse: &Option<(Option<ConfigNumber>, Vec<MouseButtonBinding>)>) -> (r:
    Option<TomlValue>)
    ensures
        match r {
            Some(y) => write_mouse(Some(toml_view(x)), *mouse) == Some(toml_view(y)),
            None => write_mouse(Some(toml_view(x)), *mouse) is None,
        },
{
    match mouse {
        None => Some(x),
        Some((motion, buttons)) => {
            let with_motion = match motion {
                None => x,
                Some(n) => match x {
                    TomlValue::Table(implicit, t) => {
                        let mut t = t;
                        set_entry_of(&mut t, "mouse_movement", sensitivity_value(n));
                        TomlValue::Table(implicit, t)
                    },
                    _ => {
                        return None;
                    },
                },
            };
            if buttons.len() > 0 {
                index_write_of(with_motion, "mouse_button", mouse_array(buttons))
            } else {
                Some(with_motion)
            }
        },
    }
}

/// Writes the bindings of an action into the value of its table, or `None` where that
/// value cannot hold them.
fn write_action_of(item: TomlValue, b: &ActionBindingsSave) -> (r: Option<TomlValue>)
    ensures
        match r {
            Some(y) => write_action(toml_view(item), *b) == Some(toml_view(y)),
            None => write_action(toml_view(item), *b) is None,
        },
{
    let ghost v = toml_view(item);
    let x = match &b.keyboard {
        Some(k) => match index_write_of(item, "keyboard", keyboard_array(k)) {
            Some(y) => y,
            None => {
                return None;
            },
        },
        None => item,
    };
    let x = match write_mouse_of(x, &b.mouse) {
        Some(y) => y,
        None => {
            return None;
        },
    };
    let x = match &b.gamepad {
        Some(g) => match index_write_of(x, "gamepad", gamepad_array(g)) {
            Some(y) => y,
            None => {
                return None;
            },
        },
        None => x,
    };
    let x = match &b.gamepad_haptics {
        Some(h) => match index_write_of(x, "gamepad_haptics", haptic_array(h)) {
            Some(y) => y,
            None => {
                return None;
            },
        },
        None => x,
    };
    match &b.openxr {
        Some(p) => index_write_of(x, "openxr", oxr_value(p)),
        None => Some(x),
    }
}

/// Writes the bindings of one action into a document, or `None` where the document
/// cannot hold them.
fn save_action_of(doc: Vec<(String, TomlValue)>, a: &ActionSave) -> (r: Option<
    Vec<(String, TomlValue)>,
>)
    ensures
        match r {
            Some(d) => save_action(toml_entries_view(doc@), *a) == Some(toml_entries_view(d@)),
            None => save_action(toml_entries_view(doc@), *a) is None,
        },
{
    let ghost d0 = toml_entries_view(doc@);
    let ghost empty = Seq::<(Seq<char>, TomlData)>::empty();
    let mut doc = doc;
    let i = match find_key(&doc, a.set.as_str()) {
        Some(i) => i,
        None => {
            proof {
                lemma_key_index_push(d0, a.set@, TomlData::Table(true, empty));
            }
            let fresh: Vec<(String, TomlValue)> = Vec::new();
            assert(toml_entries_view(fresh@) =~= empty);
            push_entry(&mut doc, a.set.clone(), TomlValue::Table(true, fresh));
            doc.len() - 1
        },
    };
    let ghost d1 = toml_entries_view(doc@);
    proof {
        lemma_entries_view(doc@);
        lemma_key_index_found(d1, a.set@);
    }
    assert(key_index(d1, a.set@) == Some(i as int));
    let ghost doc1 = doc@;
    let (set_key, set_item) = doc.remove(i);
    assert(doc1[i as int] == (set_key, set_item));
    let (implicit, st) = match set_item {
        TomlValue::Table(implicit, st) => (implicit, st),
        _ => {
            return None;
        },
    };
    let mut st = st;
    let ghost s0 = toml_entries_view(st@);
    let j = match find_key(&st, a.action.as_str()) {
        Some(j) => j,
        None => {
            proof {
                lemma_key_index_push(s0, a.action@, TomlData::Table(false, empty));
            }
            let fresh: Vec<(String, TomlValue)> = Vec::new();
            assert(toml_entries_view(fresh@) =~= empty);
            push_entry(&mut st, a.action.clone(), TomlValue::Table(false, fresh));
            st.len() - 1
        },
    };
    let ghost s1 = toml_entries_view(st@);
    proof {
        lemma_entries_view(st@);
        lemma_key_index_found(s1, a.action@);
    }
    assert(key_index(s1, a.action@) == Some(j as int));
    let ghost st1 = st@;
    let (act_key, act) = st.remove(j);
    assert(st1[j as int] == (act_key, act));
    let written = match write_action_of(act, &a.bindings) {
        Some(w) => w,
        None => {
            return None;
        },
    };
    let ghost wv = toml_view(written);
    st.insert(j, (act_key, written));
    proof {
        assert(st@ =~= st1.update(j as int, (st1[j as int].0, written)));
        lemma_entries_view_update(st1, j as int, (st1[j as int].0, written));
    }
    let ghost new_set = TomlValue::Table(implicit, st);
    doc.insert(i, (set_key, TomlValue::Table(implicit, st)));
    proof {
        assert(doc@ =~= doc1.update(i as int, (doc1[i as int].0, new_set)));
        lemma_entries_view_update(doc1, i as int, (doc1[i as int].0, new_set));
    }
    Some(doc)
}


proof fn lemma_save_all_none(doc: Seq<(Seq<char>, TomlData)>, a: Seq<ActionSave>, i: int)
    requires
        0 <= i <= a.len(),
        save_all(doc, a.take(i)) is None,
    ensures
        save_all(doc, a) is None,
    decreases a.len(),
{
    if i == a.len() {
        assert(a.take(i) =~= a);
    } else {
        assert(a.drop_last().take(i) =~= a.take(i));
        lemma_save_all_none(doc, a.drop_last(), i);
    }
}

/// Writes the bindings of the actions into the document, in order, or `None` where the
/// document cannot hold them.
fn serialize_checked(base: Vec<(String, TomlValue)>, actions: &Vec<ActionSave>) -> (r: Option<
    Vec<(String, TomlValue)>,
>)
    ensures
        match r {
            Some(d) => serialize_spec(toml_entries_view(base@), actions@) == Some(toml_entries_view(d@)),
            None => serialize_spec(toml_entries_view(base@), actions@) is None,
        },
{
    let ghost b0 = toml_entries_view(base@);
    let mut doc = base;
    match find_key(&doc, "version") {
        Some(_) => {},
        None => {
            push_entry(&mut doc, "version".to_string(), TomlValue::Integer(1));
        },
    }
    let ghost start = toml_entries_view(doc@);
    assert(start == (if key_index(b0, "version"@) is None {
        b0.push(("version"@, TomlData::Integer(1)))
    } else {
        b0
    }));
    let mut i: usize = 0;
    while i < actions.len()
        invariant
            i <= actions@.len(),
            save_all(start, actions@.take(i as int)) == Some(toml_entries_view(doc@)),
            serialize_spec(toml_entries_view(base@), actions@) == save_all(start, actions@),
        decreases actions@.len() - i,
    {
        proof {
            assert(actions@.take(i + 1).drop_last() =~= actions@.take(i as int));
            assert(actions@.take(i + 1).last() == actions@[i as int]);
        }
        match save_action_of(doc, &actions[i]) {
            Some(d) => {
                doc = d;
            },
            None => {
                proof {
                    let t = actions@.take(i + 1);
                    assert(t.last() == actions@[i as int]);
                    assert(save_all(start, t) is None);
                    lemma_save_all_none(start, actions@, i + 1);
                }
                return None;
            },
        }
        i = i + 1;
    }
    assert(actions@.take(actions@.len() as int) =~= actions@);
    Some(doc)
}

/// The document `base` with `version = 1` added at the end when it has none, and the
/// bindings of `actions` written into it in order. Inputs whose document cannot hold the
/// bindings (a set's entry that is not a table, an action's entry that has no keys, or
/// that must take a mouse motion binding and is not a table) are left out.
pub fn serialize_bindings(base: Vec<(String, TomlValue)>, actions: &Vec<ActionSave>) -> (r: Vec<
    (String, TomlValue),
>)
    requires
        serialize_spec(toml_entries_view(base@), actions@) is Some,
    ensures
        serialize_spec(toml_entries_view(base@), actions@) == Some(toml_entries_view(r@)),
{
    match serialize_checked(base, actions) {
        Some(d) => d,
        None => {
            assert(false);
            Vec::new()
        },
    }
}

/// Why bindings are not written.
#[derive(Clone, Copy, Debug, PartialEq, Eq, Structural)]
pub enum SaveError {
    /// The base text is not a TOML document.
    NotToml,
    /// The base document cannot hold the bindings (see `serialize_bindings`).
    Unsupported,
}

/// The bindings file made from the base text `base` with the bindings of `actions`
/// written into it: the text is read with `toml_edit`, the bindings are written as
/// `serialize_spec` says, and the document is printed with `toml_edit`.
pub fn save_bindings(base: &str, actions: &Vec<ActionSave>) -> (r: Result<String, SaveError>)
    ensures
        match toml_parse(base@) {
            None => r == Err::<String, SaveError>(SaveError::NotToml),
            Some(doc) => match serialize_spec(doc, actions@) {
                None => r == Err::<String, SaveError>(SaveError::Unsupported),
                Some(d) => r matches Ok(s) && s@ == toml_print(d),
            },
        },
{
    match parse_toml(base) {
        None => Err(SaveError::NotToml),
        Some(doc) => match serialize_checked(doc, actions) {
            None => Err(SaveError::Unsupported),
            Some(d) => Ok(print_toml(&d)),
        },
    }
}


/// A gamepad haptics binding as it is written reads back as the same binding.
pub proof fn lemma_haptic_entry_round_trip(h: GamepadHapticType)
    ensures
        haptic_entry(haptic_entry_toml(h)) == Some(h),
{
    reveal_strlit("haptic_type");
    crate::binding_names::lemma_haptic_name_round_trip(h);
    let t = match haptic_entry_toml(h) { TomlData::InlineTable(t) => t, _ => Seq::empty() };
    assert(lookup(t, "haptic_type"@) == Some(t[0].1)) by { reveal_with_fuel(key_index_from, 2); }
}

/// A gamepad binding as it is written reads back as the same binding.
pub proof fn lemma_gamepad_entry_round_trip(b: GamepadBinding)
    ensures
        gamepad_entry(gamepad_entry_toml(b)) == Some(b),
{
    reveal_strlit("key");
    reveal_strlit("axis_dir");
    reveal_strlit("axis");
    reveal_strlit("button_behavior");
    assert("axis_dir"@.len() != "key"@.len());
    assert("axis"@.len() != "key"@.len());
    assert("axis"@.len() != "axis_dir"@.len());
    assert("button_behavior"@.len() != "key"@.len());
    assert("button_behavior"@.len() != "axis_dir"@.len());
    assert("button_behavior"@.len() != "axis"@.len());
    crate::binding_names::lemma_gamepad_source_name_round_trip(b.source);
    crate::binding_names::lemma_axis_dir_name_round_trip(b.axis_dir);
    crate::binding_names::lemma_axis_name_round_trip(b.axis);
    crate::binding_names::lemma_behavior_name_round_trip(b.button_behavior);
    let t = match gamepad_entry_toml(b) { TomlData::InlineTable(t) => t, _ => Seq::empty() };
    assert(lookup(t, "key"@) == Some(t[0].1)) by { reveal_with_fuel(key_index_from, 5); }
    assert(lookup(t, "axis_dir"@) == Some(t[1].1)) by { reveal_with_fuel(key_index_from, 5); }
    assert(lookup(t, "axis"@) == Some(t[2].1)) by { reveal_with_fuel(key_index_from, 5); }
    assert(lookup(t, "button_behavior"@) == Some(t[3].1)) by { reveal_with_fuel(key_index_from, 5); }
}

/// A mouse button binding as it is written reads back as the same binding.
pub proof fn lemma_mouse_entry_round_trip(b: MouseButtonBinding)
    ensures
        mouse_entry(mouse_entry_toml(b)) == Some(b),
{
    reveal_strlit("button");
    reveal_strlit("axis_dir");
    reveal_strlit("axis");
    reveal_strlit("button_behavior");
    assert("axis_dir"@.len() != "button"@.len());
    assert("axis"@.len() != "button"@.len());
    assert("axis"@.len() != "axis_dir"@.len());
    assert("button_behavior"@.len() != "button"@.len());
    assert("button_behavior"@.len() != "axis_dir"@.len());
    assert("button_behavior"@.len() != "axis"@.len());
    crate::binding_names::lemma_mouse_button_name_round_trip(b.button);
    crate::binding_names::lemma_axis_dir_name_round_trip(b.axis_dir);
    crate::binding_names::lemma_axis_name_round_trip(b.axis);
    crate::binding_names::lemma_behavior_name_round_trip(b.behavior);
    let t = match mouse_entry_toml(b) { TomlData::InlineTable(t) => t, _ => Seq::empty() };
    assert(lookup(t, "button"@) == Some(t[0].1)) by { reveal_with_fuel(key_index_from, 5); }
    assert(lookup(t, "axis_dir"@) == Some(t[1].1)) by { reveal_with_fuel(key_index_from, 5); }
    assert(lookup(t, "axis"@) == Some(t[2].1)) by { reveal_with_fuel(key_index_from, 5); }
    assert(lookup(t, "button_behavior"@) == Some(t[3].1)) by { reveal_with_fuel(key_index_from, 5); }
}

/// A keyboard binding whose key names a key, as it is written, reads back as the same
/// binding.
pub proof fn lemma_keyboard_entry_round_trip(c: KeyboardConfigData)
    requires
        key_code_named(c.key),
    ensures
        keyboard_entry(keyboard_entry_toml(c)) == Some(c),
{
    reveal_strlit("key");
    reveal_strlit("multiplier");
    reveal_strlit("axis_dir");
    reveal_strlit("axis");
    reveal_strlit("button_behavior");
    assert("multiplier"@.len() != "key"@.len());
    assert("axis_dir"@.len() != "key"@.len());
    assert("axis_dir"@.len() != "multiplier"@.len());
    assert("axis"@.len() != "key"@.len());
    assert("axis"@.len() != "multiplier"@.len());
    assert("axis"@.len() != "axis_dir"@.len());
    assert("button_behavior"@.len() != "key"@.len());
    assert("button_behavior"@.len() != "multiplier"@.len());
    assert("button_behavior"@.len() != "axis_dir"@.len());
    assert("button_behavior"@.len() != "axis"@.len());
    crate::binding_names::lemma_axis_dir_name_round_trip(c.axis_dir);
    crate::binding_names::lemma_axis_name_round_trip(c.axis);
    crate::binding_names::lemma_behavior_name_round_trip(c.behavior);
    let t = match keyboard_entry_toml(c) { TomlData::InlineTable(t) => t, _ => Seq::empty() };
    assert(lookup(t, "key"@) == Some(t[0].1)) by { reveal_with_fuel(key_index_from, 6); }
    assert(lookup(t, "multiplier"@) == Some(t[1].1)) by { reveal_with_fuel(key_index_from, 6); }
    assert(lookup(t, "axis_dir"@) == Some(t[2].1)) by { reveal_with_fuel(key_index_from, 6); }
    assert(lookup(t, "axis"@) == Some(t[3].1)) by { reveal_with_fuel(key_index_from, 6); }
    assert(lookup(t, "button_behavior"@) == Some(t[4].1)) by { reveal_with_fuel(key_index_from, 6); }
}


proof fn lemma_key_index_same_keys(
    t: Seq<(Seq<char>, TomlData)>,
    u: Seq<(Seq<char>, TomlData)>,
    k: Seq<char>,
    i: int,
)
    requires
        t.len() == u.len(),
        forall|j: int| 0 <= j < t.len() ==> #[trigger] t[j].0 == u[j].0,
    ensures
        key_index_from(t, k, i) == key_index_from(u, k, i),
    decreases t.len() - i,
{
    if 0 <= i < t.len() && t[i].0 != k {
        lemma_key_index_same_keys(t, u, k, i + 1);
    }
}

proof fn lemma_key_index_push_other(
    t: Seq<(Seq<char>, TomlData)>,
    e: (Seq<char>, TomlData),
    k: Seq<char>,
    i: int,
)
    requires
        e.0 != k,
        0 <= i,
    ensures
        key_index_from(t.push(e), k, i) == key_index_from(t, k, i),
    decreases t.len() + 1 - i,
{
    if i < t.len() {
        assert(t.push(e)[i] == t[i]);
        if t[i].0 != k {
            lemma_key_index_push_other(t, e, k, i + 1);
        }
    } else if i == t.len() {
        assert(t.push(e)[i] == e);
        assert(key_index_from(t.push(e), k, i + 1) is None);
    }
}

/// Setting the value under a key leaves what the other keys hold, and the key then holds
/// the value set.
pub proof fn lemma_set_entry_lookup(
    t: Seq<(Seq<char>, TomlData)>,
    k: Seq<char>,
    v: TomlData,
    k2: Seq<char>,
)
    ensures
        lookup(set_entry(t, k, v), k2) == (if k2 == k {
            Some(v)
        } else {
            lookup(t, k2)
        }),
{
    let t2 = set_entry(t, k, v);
    lemma_key_index_from(t, k, 0);
    lemma_key_index_from(t, k2, 0);
    match key_index(t, k) {
        Some(i) => {
            assert forall|j: int| 0 <= j < t.len() implies #[trigger] t[j].0 == t2[j].0 by {}
            lemma_key_index_same_keys(t, t2, k2, 0);
        },
        None => {
            if k2 == k {
                lemma_key_index_push(t, k, v);
            } else {
                lemma_key_index_push_other(t, (k, v), k2, 0);
                if key_index(t, k2) is Some {
                    let j = key_index(t, k2).unwrap();
                    assert(t2[j] == t[j]);
                }
            }
        },
    }
}

proof fn lemma_keyboard_entries_round_trip(cs: Seq<KeyboardConfigData>)
    requires
        forall|i: int| 0 <= i < cs.len() ==> key_code_named(#[trigger] cs[i].key),
    ensures
        keyboard_entries(cs.map_values(|c: KeyboardConfigData| keyboard_entry_toml(c))) == cs,
    decreases cs.len(),
{
    if cs.len() > 0 {
        let m = cs.map_values(|c: KeyboardConfigData| keyboard_entry_toml(c));
        assert(m.drop_last() =~= cs.drop_last().map_values(|c: KeyboardConfigData| keyboard_entry_toml(c)));
        lemma_keyboard_entries_round_trip(cs.drop_last());
        lemma_keyboard_entry_round_trip(cs.last());
        assert(cs =~= cs.drop_last().push(cs.last()));
    }
}

proof fn lemma_mouse_entries_round_trip(cs: Seq<MouseButtonBinding>)
    ensures
        mouse_entries(cs.map_values(|c: MouseButtonBinding| mouse_entry_toml(c))) == cs,
    decreases cs.len(),
{
    if cs.len() > 0 {
        let m = cs.map_values(|c: MouseButtonBinding| mouse_entry_toml(c));
        assert(m.drop_last() =~= cs.drop_last().map_values(|c: MouseButtonBinding| mouse_entry_toml(c)));
        lemma_mouse_entries_round_trip(cs.drop_last());
        lemma_mouse_entry_round_trip(cs.last());
        assert(cs =~= cs.drop_last().push(cs.last()));
    }
}

proof fn lemma_gamepad_entries_round_trip(cs: Seq<GamepadBinding>)
    ensures
        gamepad_entries(cs.map_values(|c: GamepadBinding| gamepad_entry_toml(c))) == cs,
    decreases cs.len(),
{
    if cs.len() > 0 {
        let m = cs.map_values(|c: GamepadBinding| gamepad_entry_toml(c));
        assert(m.drop_last() =~= cs.drop_last().map_values(|c: GamepadBinding| gamepad_entry_toml(c)));
        lemma_gamepad_entries_round_trip(cs.drop_last());
        lemma_gamepad_entry_round_trip(cs.last());
        assert(cs =~= cs.drop_last().push(cs.last()));
    }
}

proof fn lemma_haptic_entries_round_trip(cs: Seq<GamepadHapticType>)
    ensures
        haptic_entries(cs.map_values(|c: GamepadHapticType| haptic_entry_toml(c))) == cs,
    decreases cs.len(),
{
    if cs.len() > 0 {
        let m = cs.map_values(|c: GamepadHapticType| haptic_entry_toml(c));
        assert(m.drop_last() =~= cs.drop_last().map_values(|c: GamepadHapticType| haptic_entry_toml(c)));
        lemma_haptic_entries_round_trip(cs.drop_last());
        lemma_haptic_entry_round_trip(cs.last());
        assert(cs =~= cs.drop_last().push(cs.last()));
    }
}

proof fn lemma_string_entries_round_trip(cs: Seq<Seq<char>>)
    ensures
        string_entries(cs.map_values(|b: Seq<char>| TomlData::Str(b))) == cs,
    decreases cs.len(),
{
    if cs.len() > 0 {
        let m = cs.map_values(|b: Seq<char>| TomlData::Str(b));
        assert(m.drop_last() =~= cs.drop_last().map_values(|b: Seq<char>| TomlData::Str(b)));
        lemma_string_entries_round_trip(cs.drop_last());
        assert(cs =~= cs.drop_last().push(cs.last()));
    }
}

proof fn lemma_oxr_entries_round_trip(p: Seq<(Seq<char>, Seq<Seq<char>>)>)
    ensures
        oxr_entries(
            p.map_values(
                |e: (Seq<char>, Seq<Seq<char>>)|
                    (e.0, TomlData::Array(e.1.map_values(|b: Seq<char>| TomlData::Str(b)))),
            ),
        ) == p,
    decreases p.len(),
{
    if p.len() > 0 {
        let m = p.map_values(
            |e: (Seq<char>, Seq<Seq<char>>)|
                (e.0, TomlData::Array(e.1.map_values(|b: Seq<char>| TomlData::Str(b)))),
        );
        assert(m.drop_last() =~= p.drop_last().map_values(
            |e: (Seq<char>, Seq<Seq<char>>)|
                (e.0, TomlData::Array(e.1.map_values(|b: Seq<char>| TomlData::Str(b)))),
        ));
        lemma_oxr_entries_round_trip(p.drop_last());
        lemma_string_entries_round_trip(p.last().1);
        assert(p =~= p.drop_last().push(p.last()));
    }
}

/// What reading back gives for bindings written into an action's table that held none:
/// each kind that was written reads as written, each kind that was not reads as none.
pub open spec fn saved_config(b: ActionBindingsSave) -> ActionConfigData {
    ActionConfigData {
        keyboard: match b.keyboard {
            Some(k) => keyboard_configs_view(k@),
            None => Seq::empty(),
        },
        mouse_motion: match b.mouse {
            Some((Some(n), _)) => Some(number_view(n)),
            _ => None,
        },
        mouse_buttons: match b.mouse {
            Some((_, buttons)) => buttons@,
            None => Seq::empty(),
        },
        gamepad: match b.gamepad {
            Some(g) => g@,
            None => Seq::empty(),
        },
        gamepad_haptics: match b.gamepad_haptics {
            Some(h) => h@,
            None => Seq::empty(),
        },
        openxr: match b.openxr {
            Some(p) => oxr_config_view(p@),
            None => Seq::empty(),
        },
    }
}

/// Whether every keyboard binding to write has a key that names a key.
pub open spec fn keys_known(b: ActionBindingsSave) -> bool {
    b.keyboard matches Some(k) ==> forall|i: int|
        0 <= i < k@.len() ==> key_code_named(#[trigger] k@[i].key@)
}

/// Sets the value under `k` when there is a value to set.
spec fn set_entry_opt(t: Seq<(Seq<char>, TomlData)>, k: Seq<char>, v: Option<TomlData>) -> Seq<
    (Seq<char>, TomlData),
> {
    match v {
        Some(x) => set_entry(t, k, x),
        None => t,
    }
}

proof fn lemma_set_entry_opt_lookup(
    t: Seq<(Seq<char>, TomlData)>,
    k: Seq<char>,
    v: Option<TomlData>,
    k2: Seq<char>,
)
    ensures
        lookup(set_entry_opt(t, k, v), k2) == (if k2 == k && v is Some {
            v
        } else {
            lookup(t, k2)
        }),
{
    if let Some(x) = v {
        lemma_set_entry_lookup(t, k, x, k2);
    }
}

/// The keys under which an action's bindings are written.
pub open spec fn binding_keys() -> Seq<Seq<char>> {
    seq!["keyboard"@, "mouse_movement"@, "mouse_button"@, "gamepad"@, "gamepad_haptics"@, "openxr"@]
}

/// Bindings written into an action's table that holds none of them read back as
/// `saved_config`: each kind written as written, each kind not written as none.
pub proof fn lemma_action_bindings_round_trip(
    implicit: bool,
    t: Seq<(Seq<char>, TomlData)>,
    b: ActionBindingsSave,
)
    requires
        keys_known(b),
        forall|i: int| 0 <= i < binding_keys().len() ==> lookup(t, #[trigger] binding_keys()[i]) is None,
    ensures
        write_action(TomlData::Table(implicit, t), b) matches Some(TomlData::Table(i2, t2)) && i2
            == implicit && action_config(t2) == saved_config(b),
{
    reveal_strlit("keyboard");
    reveal_strlit("mouse_movement");
    reveal_strlit("mouse_button");
    reveal_strlit("gamepad");
    reveal_strlit("gamepad_haptics");
    reveal_strlit("openxr");
    reveal_strlit("sensitivity");
    assert("mouse_movement"@.len() != "keyboard"@.len());
    assert("mouse_button"@[6] != "keyboard"@[6]);
    assert("mouse_button"@.len() != "mouse_movement"@.len());
    assert("gamepad"@.len() != "keyboard"@.len());
    assert("gamepad"@.len() != "mouse_movement"@.len());
    assert("gamepad"@.len() != "mouse_button"@.len());
    assert("gamepad_haptics"@.len() != "keyboard"@.len());
    assert("gamepad_haptics"@.len() != "mouse_movement"@.len());
    assert("gamepad_haptics"@.len() != "mouse_button"@.len());
    assert("gamepad_haptics"@.len() != "gamepad"@.len());
    assert("openxr"@.len() != "keyboard"@.len());
    assert("openxr"@.len() != "mouse_movement"@.len());
    assert("openxr"@.len() != "mouse_button"@.len());
    assert("openxr"@.len() != "gamepad"@.len());
    assert("openxr"@.len() != "gamepad_haptics"@.len());
    let keys = binding_keys();
    assert(keys[0] == "keyboard"@);
    assert(keys[1] == "mouse_movement"@);
    assert(keys[2] == "mouse_button"@);
    assert(keys[3] == "gamepad"@);
    assert(keys[4] == "gamepad_haptics"@);
    assert(keys[5] == "openxr"@);
    let kv: Option<TomlData> = match b.keyboard {
        Some(k) => Some(
            TomlData::Array(keyboard_configs_view(k@).map_values(|c: KeyboardConfigData| keyboard_entry_toml(c))),
        ),
        None => None,
    };
    let mv: Option<TomlData> = match b.mouse {
        Some((Some(n), _)) => Some(
            TomlData::InlineTable(seq![("sensitivity"@, number_toml(number_view(n)))]),
        ),
        _ => None,
    };
    let bv: Option<TomlData> = match b.mouse {
        Some((_, buttons)) => if buttons@.len() > 0 {
            Some(TomlData::Array(buttons@.map_values(|x: MouseButtonBinding| mouse_entry_toml(x))))
        } else {
            None
        },
        None => None,
    };
    let gv: Option<TomlData> = match b.gamepad {
        Some(g) => Some(TomlData::Array(g@.map_values(|x: GamepadBinding| gamepad_entry_toml(x)))),
        None => None,
    };
    let hv: Option<TomlData> = match b.gamepad_haptics {
        Some(h) => Some(
            TomlData::Array(h@.map_values(|x: GamepadHapticType| haptic_entry_toml(x))),
        ),
        None => None,
    };
    let ov: Option<TomlData> = match b.openxr {
        Some(p) => Some(oxr_toml(oxr_config_view(p@))),
        None => None,
    };
    let t1 = set_entry_opt(t, "keyboard"@, kv);
    let t2 = set_entry_opt(t1, "mouse_movement"@, mv);
    let t3 = set_entry_opt(t2, "mouse_button"@, bv);
    let t4 = set_entry_opt(t3, "gamepad"@, gv);
    let t5 = set_entry_opt(t4, "gamepad_haptics"@, hv);
    let t6 = set_entry_opt(t5, "openxr"@, ov);
    assert(write_opt(Some(TomlData::Table(implicit, t)), "keyboard"@, kv) == Some(
        TomlData::Table(implicit, t1),
    ));
    assert(write_mouse(Some(TomlData::Table(implicit, t1)), b.mouse) == Some(
        TomlData::Table(implicit, t3),
    ));
    assert(write_action(TomlData::Table(implicit, t), b) == Some(TomlData::Table(implicit, t6)));
    let vals = seq![kv, mv, bv, gv, hv, ov];
    assert forall|i: int| 0 <= i < keys.len() implies lookup(t6, #[trigger] keys[i]) == vals[i] by {
        let key = keys[i];
        assert(lookup(t, key) is None);
        lemma_set_entry_opt_lookup(t, "keyboard"@, kv, key);
        lemma_set_entry_opt_lookup(t1, "mouse_movement"@, mv, key);
        lemma_set_entry_opt_lookup(t2, "mouse_button"@, bv, key);
        lemma_set_entry_opt_lookup(t3, "gamepad"@, gv, key);
        lemma_set_entry_opt_lookup(t4, "gamepad_haptics"@, hv, key);
        lemma_set_entry_opt_lookup(t5, "openxr"@, ov, key);
    }
    assert(lookup(t6, keys[0]) == kv);
    assert(lookup(t6, keys[1]) == mv);
    assert(lookup(t6, keys[2]) == bv);
    assert(lookup(t6, keys[3]) == gv);
    assert(lookup(t6, keys[4]) == hv);
    assert(lookup(t6, keys[5]) == ov);
    if let Some(k) = b.keyboard {
        let cs = keyboard_configs_view(k@);
        assert forall|i: int| 0 <= i < cs.len() implies key_code_named(#[trigger] cs[i].key) by {
            assert(cs[i].key == k@[i].key@);
        }
        lemma_keyboard_entries_round_trip(cs);
    }
    if let Some((motion, buttons)) = b.mouse {
        if let Some(n) = motion {
            let m = seq![("sensitivity"@, number_toml(number_view(n)))];
            assert(lookup(m, "sensitivity"@) == Some(number_toml(number_view(n)))) by {
                reveal_with_fuel(key_index_from, 2);
            }
        }
        if buttons@.len() > 0 {
            lemma_mouse_entries_round_trip(buttons@);
        } else {
            assert(buttons@ =~= Seq::<MouseButtonBinding>::empty());
        }
    }
    if let Some(g) = b.gamepad {
        lemma_gamepad_entries_round_trip(g@);
    }
    if let Some(h) = b.gamepad_haptics {
        lemma_haptic_entries_round_trip(h@);
    }
    if let Some(p) = b.openxr {
        lemma_oxr_entries_round_trip(oxr_config_view(p@));
    }
}

/// The table an action's bindings make when written into a table of their own.
pub open spec fn fresh_written(b: ActionBindingsSave) -> TomlData {
    write_action(TomlData::Table(false, Seq::empty()), b).unwrap()
}

/// The id of the action named `action` of the set named `set`, when `sets` knows both
/// (the first set and the first action of those names).
pub open spec fn action_id(sets: Seq<SetActions>, set: Seq<char>, action: Seq<char>) -> Option<u64> {
    match set_index_from(sets, set, 0) {
        Some(si) => match action_index_from(sets[si].actions@, action, 0) {
            Some(j) => Some(sets[si].actions@[j].1),
            None => None,
        },
        None => None,
    }
}

/// No two of the actions to write have the same set and the same name.
pub open spec fn distinct_actions(acts: Seq<ActionSave>) -> bool {
    forall|i: int, j: int|
        0 <= i < acts.len() && 0 <= j < acts.len() && i != j ==> !same_action(acts[i], acts[j])
}

/// Whether two actions to write have the same set and the same name.
pub open spec fn same_action(a: ActionSave, b: ActionSave) -> bool {
    a.set@ == b.set@ && a.action@ == b.action@
}

/// The entries of a table value; none for any other value.
spec fn table_entries(item: TomlData) -> Seq<(Seq<char>, TomlData)> {
    match item {
        TomlData::Table(_, t) => t,
        _ => Seq::empty(),
    }
}

/// What one entry of a set's table gives when read.
spec fn entry_read(actions: Seq<(String, u64)>, e: (Seq<char>, TomlData)) -> Option<
    (u64, ActionConfigData),
> {
    match (e.1, action_index_from(actions, e.0, 0)) {
        (TomlData::Table(_, bt), Some(j)) => Some((actions[j].1, action_config(bt))),
        _ => None,
    }
}

/// What one entry of a document gives when read.
spec fn doc_entry_read(sets: Seq<SetActions>, e: (Seq<char>, TomlData)) -> Seq<
    (u64, ActionConfigData),
> {
    if e.0 == "version"@ {
        Seq::empty()
    } else {
        match (set_index_from(sets, e.0, 0), e.1) {
            (Some(si), TomlData::Table(_, t)) => set_bindings(sets[si].actions@, t),
            _ => Seq::empty(),
        }
    }
}

proof fn lemma_set_bindings_members(actions: Seq<(String, u64)>, t: Seq<(Seq<char>, TomlData)>)
    ensures
        forall|k: int|
            0 <= k < set_bindings(actions, t).len() ==> exists|y: int|
                0 <= y < t.len() && entry_read(actions, t[y]) == Some(
                    #[trigger] set_bindings(actions, t)[k],
                ),
        forall|y: int|
            0 <= y < t.len() && (#[trigger] entry_read(actions, t[y])) is Some ==> set_bindings(
                actions,
                t,
            ).contains(entry_read(actions, t[y]).unwrap()),
    decreases t.len(),
{
    if t.len() > 0 {
        let rest = set_bindings(actions, t.drop_last());
        lemma_set_bindings_members(actions, t.drop_last());
        let sb = set_bindings(actions, t);
        assert(sb == match entry_read(actions, t.last()) {
            Some(v) => rest.push(v),
            None => rest,
        });
        assert forall|k: int| 0 <= k < sb.len() implies exists|y: int|
            0 <= y < t.len() && entry_read(actions, t[y]) == Some(#[trigger] sb[k]) by {
            if k < rest.len() {
                assert(sb[k] == rest[k]);
                let y = choose|y: int|
                    0 <= y < t.drop_last().len() && entry_read(actions, t.drop_last()[y]) == Some(
                        #[trigger] rest[k],
                    );
                assert(t[y] == t.drop_last()[y]);
            } else {
                assert(entry_read(actions, t[t.len() - 1]) == Some(sb[k]));
            }
        }
        assert forall|y: int|
            0 <= y < t.len() && (#[trigger] entry_read(actions, t[y])) is Some implies sb.contains(
                entry_read(actions, t[y]).unwrap(),
            ) by {
            let v = entry_read(actions, t[y]).unwrap();
            if y < t.len() - 1 {
                assert(t[y] == t.drop_last()[y]);
                assert(entry_read(actions, t.drop_last()[y]) is Some);
                let k = choose|k: int| 0 <= k < rest.len() && rest[k] == v;
                assert(sb[k] == v);
            } else {
                assert(sb[sb.len() - 1] == v);
            }
        }
    }
}

proof fn lemma_doc_bindings_members(doc: Seq<(Seq<char>, TomlData)>, sets: Seq<SetActions>)
    ensures
        forall|k: int|
            0 <= k < doc_bindings(doc, sets).len() ==> exists|x: int|
                0 <= x < doc.len() && doc_entry_read(sets, doc[x]).contains(
                    #[trigger] doc_bindings(doc, sets)[k],
                ),
        forall|x: int, v: (u64, ActionConfigData)|
            0 <= x < doc.len() && #[trigger] doc_entry_read(sets, doc[x]).contains(v) ==> doc_bindings(
                doc,
                sets,
            ).contains(v),
    decreases doc.len(),
{
    if doc.len() > 0 {
        let rest = doc_bindings(doc.drop_last(), sets);
        lemma_doc_bindings_members(doc.drop_last(), sets);
        let db = doc_bindings(doc, sets);
        let last = doc_entry_read(sets, doc.last());
        assert(db =~= rest + last);
        assert forall|k: int| 0 <= k < db.len() implies exists|x: int|
            0 <= x < doc.len() && doc_entry_read(sets, doc[x]).contains(#[trigger] db[k]) by {
            if k < rest.len() {
                assert(db[k] == rest[k]);
                let x = choose|x: int|
                    0 <= x < doc.drop_last().len() && doc_entry_read(sets, doc.drop_last()[x]).contains(
                        #[trigger] rest[k],
                    );
                assert(doc[x] == doc.drop_last()[x]);
            } else {
                assert(db[k] == last[k - rest.len()]);
                assert(doc[doc.len() - 1] == doc.last());
            }
        }
        assert forall|x: int, v: (u64, ActionConfigData)|
            0 <= x < doc.len() && #[trigger] doc_entry_read(sets, doc[x]).contains(v) implies db.contains(
                v,
            ) by {
            if x < doc.len() - 1 {
                assert(doc[x] == doc.drop_last()[x]);
                assert(doc_entry_read(sets, doc.drop_last()[x]).contains(v));
                let k = choose|k: int| 0 <= k < rest.len() && rest[k] == v;
                assert(db[k] == v);
            } else {
                assert(doc[x] == doc.last());
                let k = choose|k: int| 0 <= k < last.len() && last[k] == v;
                assert(db[rest.len() + k] == v);
            }
        }
    }
}

/// The entry `y` of the table that is the value of the entry `x` of `d`.
spec fn entry_at(d: Seq<(Seq<char>, TomlData)>, x: int, y: int) -> (Seq<char>, TomlData) {
    table_entries(d[x].1)[y]
}

/// The entry `y` of the table of entry `x` of `d` is the table of the action `acts[i]`, as
/// writing it into a table of its own made it.
spec fn written_at(d: Seq<(Seq<char>, TomlData)>, acts: Seq<ActionSave>, x: int, y: int, i: int) -> bool {
    &&& acts[i].set@ == d[x].0
    &&& acts[i].action@ == entry_at(d, x, y).0
    &&& entry_at(d, x, y).1 == fresh_written(acts[i].bindings)
}

/// The entry `y` of the table of entry `x` of `d` is named after the action `a`, in a table
/// named after its set.
spec fn holds_at(d: Seq<(Seq<char>, TomlData)>, x: int, y: int, a: ActionSave) -> bool {
    d[x].0 == a.set@ && entry_at(d, x, y).0 == a.action@
}

/// Some action of `acts` is the one whose table is entry `y` of the table of entry `x`.
spec fn has_writer(d: Seq<(Seq<char>, TomlData)>, acts: Seq<ActionSave>, x: int, y: int) -> bool {
    exists|i: int| 0 <= i < acts.len() && #[trigger] written_at(d, acts, x, y, i)
}

/// What a document written from a base with no entries holds once the actions `acts` are
/// written: `version = 1` first, then one table per set, whose entries are the tables of
/// the actions written; every action written has its table.
spec fn written_doc(d: Seq<(Seq<char>, TomlData)>, acts: Seq<ActionSave>) -> bool {
    &&& d.len() >= 1
    &&& d[0] == ("version"@, TomlData::Integer(1))
    &&& forall|x: int| 1 <= x < d.len() ==> (#[trigger] d[x]).0 != "version"@ && d[x].1 is Table
    &&& forall|x: int, y: int|
        1 <= x < d.len() && 0 <= y < table_entries(d[x].1).len() ==> #[trigger] has_writer(
            d,
            acts,
            x,
            y,
        )
    &&& forall|i: int| 0 <= i < acts.len() ==> #[trigger] is_held(d, acts[i])
}

/// Some entry of some set table of `d` is named after the action `a` in its set.
spec fn is_held(d: Seq<(Seq<char>, TomlData)>, a: ActionSave) -> bool {
    exists|x: int, y: int|
        1 <= x < d.len() && 0 <= y < table_entries(d[x].1).len() && #[trigger] holds_at(d, x, y, a)
}

proof fn lemma_fresh_written(b: ActionBindingsSave)
    requires
        keys_known(b),
    ensures
        write_action(TomlData::Table(false, Seq::empty()), b) is Some,
        fresh_written(b) matches TomlData::Table(_, t) && action_config(t) == saved_config(b),
{
    let empty = Seq::<(Seq<char>, TomlData)>::empty();
    assert forall|i: int| 0 <= i < binding_keys().len() implies lookup(empty, #[trigger] binding_keys()[i]) is None by {
        assert(key_index_from(empty, binding_keys()[i], 0) is None);
    }
    lemma_action_bindings_round_trip(false, empty, b);
}

/// Writing one more action, not written before, keeps `written_doc`.
proof fn lemma_save_step(d: Seq<(Seq<char>, TomlData)>, acts: Seq<ActionSave>, a: ActionSave)
    requires
        written_doc(d, acts),
        a.set@ != "version"@,
        keys_known(a.bindings),
        forall|i: int| 0 <= i < acts.len() ==> !same_action(#[trigger] acts[i], a),
    ensures
        save_action(d, a) matches Some(d2) && written_doc(d2, acts.push(a)),
{
    let empty = Seq::<(Seq<char>, TomlData)>::empty();
    lemma_fresh_written(a.bindings);
    let w = fresh_written(a.bindings);
    let acts2 = acts.push(a);
    lemma_key_index_from(d, a.set@, 0);
    let (xs, old_st, implicit) = match key_index(d, a.set@) {
        Some(x) => (x, table_entries(d[x].1), match d[x].1 {
            TomlData::Table(imp, _) => imp,
            _ => true,
        }),
        None => (d.len() as int, empty, true),
    };
    if key_index(d, a.set@) is Some {
        assert(xs != 0);
        assert(d[xs].1 is Table);
    }
    // The action has no table yet in its set's table.
    lemma_key_index_from(old_st, a.action@, 0);
    if key_index(old_st, a.action@) is Some {
        let j = key_index(old_st, a.action@).unwrap();
        assert(entry_at(d, xs, j) == old_st[j]);
        assert(has_writer(d, acts, xs, j));
        let i = choose|i: int| 0 <= i < acts.len() && #[trigger] written_at(d, acts, xs, j, i);
        assert(same_action(acts[i], a));
        assert(false);
    }
    let st1 = old_st.push((a.action@, TomlData::Table(false, empty)));
    lemma_key_index_push(old_st, a.action@, TomlData::Table(false, empty));
    let new_st = old_st.push((a.action@, w));
    assert(set_entry(st1, a.action@, w) =~= new_st);
    let d2 = match key_index(d, a.set@) {
        Some(x) => d.update(x, (a.set@, TomlData::Table(implicit, new_st))),
        None => d.push((a.set@, TomlData::Table(true, new_st))),
    };
    if key_index(d, a.set@) is None {
        let doc1 = d.push((a.set@, TomlData::Table(true, empty)));
        lemma_key_index_push(d, a.set@, TomlData::Table(true, empty));
        assert(set_entry(doc1, a.set@, TomlData::Table(true, new_st)) =~= d2);
    } else {
        assert(set_entry(d, a.set@, TomlData::Table(implicit, new_st)) =~= d2);
    }
    assert(save_action(d, a) == Some(d2));
    assert(d2[xs] == (a.set@, TomlData::Table(implicit, new_st)));
    assert(table_entries(d2[xs].1) == new_st);
    assert forall|x: int| 0 <= x < d.len() && x != xs implies #[trigger] d2[x] == d[x] by {}
    assert(d2[0] == d[0]);
    assert forall|x: int| 1 <= x < d2.len() implies (#[trigger] d2[x]).0 != "version"@ && d2[x].1 is Table by {
        if x != xs {
            assert(d2[x] == d[x]);
        }
    }
    assert forall|x: int, y: int|
        1 <= x < d2.len() && 0 <= y < table_entries(d2[x].1).len() implies #[trigger] has_writer(
            d2,
            acts2,
            x,
            y,
        ) by {
        if x != xs {
            assert(d2[x] == d[x]);
            assert(entry_at(d2, x, y) == entry_at(d, x, y));
            assert(has_writer(d, acts, x, y));
            let i = choose|i: int| 0 <= i < acts.len() && #[trigger] written_at(d, acts, x, y, i);
            assert(acts2[i] == acts[i]);
            assert(written_at(d2, acts2, x, y, i));
        } else if y < old_st.len() {
            assert(entry_at(d2, x, y) == old_st[y]);
            assert(entry_at(d, x, y) == old_st[y]);
            assert(has_writer(d, acts, x, y));
            let i = choose|i: int| 0 <= i < acts.len() && #[trigger] written_at(d, acts, x, y, i);
            assert(acts2[i] == acts[i]);
            assert(written_at(d2, acts2, x, y, i));
        } else {
            assert(entry_at(d2, x, y) == (a.action@, w));
            assert(acts2[acts.len() as int] == a);
            assert(written_at(d2, acts2, x, y, acts.len() as int));
        }
    }
    assert forall|i: int| 0 <= i < acts2.len() implies #[trigger] is_held(d2, acts2[i]) by {
        if i < acts.len() {
            assert(acts2[i] == acts[i]);
            assert(is_held(d, acts[i]));
            let (x, y) = choose|x: int, y: int|
                1 <= x < d.len() && 0 <= y < table_entries(d[x].1).len() && #[trigger] holds_at(
                    d,
                    x,
                    y,
                    acts[i],
                );
            if x != xs {
                assert(d2[x] == d[x]);
                assert(entry_at(d2, x, y) == entry_at(d, x, y));
            } else {
                assert(entry_at(d2, x, y) == old_st[y]);
            }
            assert(holds_at(d2, x, y, acts2[i]));
        } else {
            assert(acts2[i] == a);
            assert(entry_at(d2, xs, old_st.len() as int) == (a.action@, w));
            assert(holds_at(d2, xs, old_st.len() as int, acts2[i]));
        }
    }
}

/// Writing actions, none written twice, into a document holding only `version = 1` keeps
/// `written_doc`.
proof fn lemma_save_all_written(acts: Seq<ActionSave>)
    requires
        distinct_actions(acts),
        forall|i: int| 0 <= i < acts.len() ==> (#[trigger] acts[i]).set@ != "version"@,
        forall|i: int| 0 <= i < acts.len() ==> keys_known(#[trigger] acts[i].bindings),
    ensures
        save_all(seq![("version"@, TomlData::Integer(1))], acts) matches Some(d) && written_doc(d, acts),
    decreases acts.len(),
{
    if acts.len() == 0 {
        let d = seq![("version"@, TomlData::Integer(1))];
        assert(written_doc(d, acts));
    } else {
        let prev = acts.drop_last();
        assert forall|i: int, j: int|
            0 <= i < prev.len() && 0 <= j < prev.len() && i != j implies !same_action(prev[i], prev[j]) by {
            assert(prev[i] == acts[i]);
            assert(prev[j] == acts[j]);
        }
        assert forall|i: int| 0 <= i < prev.len() implies (#[trigger] prev[i]).set@ != "version"@ by {
            assert(prev[i] == acts[i]);
        }
        assert forall|i: int| 0 <= i < prev.len() implies keys_known(#[trigger] prev[i].bindings) by {
            assert(prev[i] == acts[i]);
        }
        lemma_save_all_written(prev);
        let d = save_all(seq![("version"@, TomlData::Integer(1))], prev).unwrap();
        let a = acts.last();
        assert(a == acts[acts.len() - 1]);
        assert forall|i: int| 0 <= i < prev.len() implies !same_action(#[trigger] prev[i], a) by {
            assert(prev[i] == acts[i]);
        }
        lemma_save_step(d, prev, a);
        assert(prev.push(a) =~= acts);
    }
}

/// Bindings written into a document with no entries read back as written: the document
/// written has `version = 1`, so reading it succeeds; every action written whose set and
/// name `sets` knows is read under its id with `saved_config` of its bindings (each kind
/// written as written, each kind not written as none); and whatever is read is that of
/// some action written. Left out are: two actions with the same set and name, a set named
/// `version`, and a keyboard binding whose key names no key.
pub proof fn lemma_written_bindings_read_back(acts: Seq<ActionSave>, sets: Seq<SetActions>)
    requires
        distinct_actions(acts),
        forall|i: int| 0 <= i < acts.len() ==> (#[trigger] acts[i]).set@ != "version"@,
        forall|i: int| 0 <= i < acts.len() ==> keys_known(#[trigger] acts[i].bindings),
    ensures
        serialize_spec(Seq::empty(), acts) matches Some(d) && deserialize_spec(d, sets) matches Ok(r)
            && (forall|i: int|
            0 <= i < acts.len() && action_id(sets, acts[i].set@, acts[i].action@) is Some ==> r.contains(
                (
                    action_id(sets, acts[i].set@, acts[i].action@).unwrap(),
                    saved_config(#[trigger] acts[i].bindings),
                ),
            )) && (forall|k: int|
            0 <= k < r.len() ==> exists|i: int|
                0 <= i < acts.len() && action_id(sets, acts[i].set@, acts[i].action@) == Some(
                    (#[trigger] r[k]).0,
                ) && r[k].1 == saved_config(acts[i].bindings)),
{
    let empty = Seq::<(Seq<char>, TomlData)>::empty();
    reveal_strlit("version");
    assert(key_index_from(empty, "version"@, 0) is None);
    assert(empty.push(("version"@, TomlData::Integer(1))) =~= seq![("version"@, TomlData::Integer(1))]);
    lemma_save_all_written(acts);
    let d = save_all(seq![("version"@, TomlData::Integer(1))], acts).unwrap();
    assert(serialize_spec(empty, acts) == Some(d));
    assert(key_index_from(d, "version"@, 0) == Some(0int));
    assert(lookup(d, "version"@) == Some(TomlData::Integer(1)));
    let r = doc_bindings(d, sets);
    assert(deserialize_spec(d, sets) == Ok::<Seq<(u64, ActionConfigData)>, DeserializeError>(r));
    lemma_doc_bindings_members(d, sets);
    assert forall|i: int|
        0 <= i < acts.len() && action_id(sets, acts[i].set@, acts[i].action@) is Some implies r.contains(
        (
            action_id(sets, acts[i].set@, acts[i].action@).unwrap(),
            saved_config(#[trigger] acts[i].bindings),
        ),
    ) by {
        let a = acts[i];
        assert(is_held(d, a));
        let (x, y) = choose|x: int, y: int|
            1 <= x < d.len() && 0 <= y < table_entries(d[x].1).len() && #[trigger] holds_at(d, x, y, a);
        assert(has_writer(d, acts, x, y));
        let i2 = choose|i2: int| 0 <= i2 < acts.len() && #[trigger] written_at(d, acts, x, y, i2);
        if i2 != i {
            assert(same_action(acts[i2], acts[i]));
            assert(false);
        }
        let si = set_index_from(sets, a.set@, 0).unwrap();
        let st = table_entries(d[x].1);
        assert(d[x].1 == TomlData::Table(d[x].1->Table_0, st));
        lemma_fresh_written(a.bindings);
        assert(entry_at(d, x, y) == st[y]);
        let v = (action_id(sets, a.set@, a.action@).unwrap(), saved_config(a.bindings));
        assert(entry_read(sets[si].actions@, st[y]) == Some(v));
        lemma_set_bindings_members(sets[si].actions@, st);
        assert(doc_entry_read(sets, d[x]) == set_bindings(sets[si].actions@, st));
        assert(doc_entry_read(sets, d[x]).contains(v));
    }
    assert forall|k: int| 0 <= k < r.len() implies exists|i: int|
        0 <= i < acts.len() && action_id(sets, acts[i].set@, acts[i].action@) == Some(
            (#[trigger] r[k]).0,
        ) && r[k].1 == saved_config(acts[i].bindings) by {
        let x = choose|x: int| 0 <= x < d.len() && doc_entry_read(sets, d[x]).contains(#[trigger] r[k]);
        assert(x != 0);
        let si = set_index_from(sets, d[x].0, 0).unwrap();
        let st = table_entries(d[x].1);
        assert(doc_entry_read(sets, d[x]) == set_bindings(sets[si].actions@, st));
        lemma_set_bindings_members(sets[si].actions@, st);
        let kk = choose|kk: int| 0 <= kk < set_bindings(sets[si].actions@, st).len()
            && set_bindings(sets[si].actions@, st)[kk] == r[k];
        let y = choose|y: int|
            0 <= y < st.len() && entry_read(sets[si].actions@, st[y]) == Some(
                #[trigger] set_bindings(sets[si].actions@, st)[kk],
            );
        assert(entry_at(d, x, y) == st[y]);
        assert(x >= 1);
        assert(has_writer(d, acts, x, y));
        let i = choose|i: int| 0 <= i < acts.len() && #[trigger] written_at(d, acts, x, y, i);
        lemma_fresh_written(acts[i].bindings);
        assert(action_id(sets, acts[i].set@, acts[i].action@) == Some(r[k].0));
        assert(r[k].1 == saved_config(acts[i].bindings));
    }
}

/// Looking an action up by name from index `i` finds the first action at or after `i`
/// whose name is exactly `name`, and finds nothing when no action from `i` on has that name.
pub proof fn lemma_action_lookup_finds_name(actions: Seq<(String, u64)>, name: Seq<char>, i: int)
    requires
        0 <= i,
    ensures
        match action_index_from(actions, name, i) {
            Some(j) => i <= j < actions.len() && actions[j].0@ == name && forall|m: int|
                i <= m < j ==> (#[trigger] actions[m]).0@ != name,
            None => forall|m: int| i <= m < actions.len() ==> (#[trigger] actions[m]).0@ != name,
        },
    decreases actions.len() - i,
{
    if i < actions.len() {
        lemma_action_lookup_finds_name(actions, name, i + 1);
    }
}

/// Looking a set up by name from index `i` finds the first set at or after `i` whose name
/// is exactly `name`, and finds nothing when no set from `i` on has that name.
pub proof fn lemma_set_lookup_finds_name(sets: Seq<SetActions>, name: Seq<char>, i: int)
    requires
        0 <= i,
    ensures
        match set_index_from(sets, name, i) {
            Some(j) => i <= j < sets.len() && sets[j].name@ == name && forall|m: int|
                i <= m < j ==> (#[trigger] sets[m]).name@ != name,
            None => forall|m: int| i <= m < sets.len() ==> (#[trigger] sets[m]).name@ != name,
        },
    decreases sets.len() - i,
{
    if i < sets.len() {
        lemma_set_lookup_finds_name(sets, name, i + 1);
    }
}

/// The id `id` belongs to an action named exactly `action` of a set named exactly `set`.
pub open spec fn id_of_named_action(sets: Seq<SetActions>, set: Seq<char>, action: Seq<char>, id: u64) -> bool {
    exists|si: int, j: int|
        #![trigger sets[si].actions@[j]]
        0 <= si < sets.len() && 0 <= j < sets[si].actions@.len() && sets[si].name@ == set
            && sets[si].actions@[j].0@ == action && sets[si].actions@[j].1 == id
}

/// The read pair `v` comes from the entry `y` of the table that is entry `x` of `doc`:
/// that entry is a table, `v` holds its bindings, and `v`'s id is that of an action named
/// exactly as the entry, in a set named exactly as the entry `x`.
pub open spec fn read_from(
    doc: Seq<(Seq<char>, TomlData)>,
    sets: Seq<SetActions>,
    x: int,
    y: int,
    v: (u64, ActionConfigData),
) -> bool {
    &&& 0 <= x < doc.len()
    &&& doc[x].0 != "version"@
    &&& doc[x].1 matches TomlData::Table(_, st) && 0 <= y < st.len() && (st[y].1 matches TomlData::Table(
        _,
        bt,
    ) && v.1 == action_config(bt) && id_of_named_action(sets, doc[x].0, st[y].0, v.0))
}

/// Every pair a document is read into (here the one at index `k`) comes from a table
/// named after an action, inside a table named after its set: its id is the id of the action
/// with exactly that name, in the set with exactly that name, and it holds that table's
/// bindings.
pub proof fn lemma_read_bindings_belong_to_named_actions(doc: Seq<(Seq<char>, TomlData)>, sets: Seq<SetActions>, k: int)
    requires
        0 <= k < doc_bindings(doc, sets).len(),
    ensures
        exists|x: int, y: int| #[trigger] read_from(doc, sets, x, y, doc_bindings(doc, sets)[k]),
{
    let r = doc_bindings(doc, sets);
    lemma_doc_bindings_members(doc, sets);
    let x = choose|x: int| 0 <= x < doc.len() && doc_entry_read(sets, doc[x]).contains(#[trigger] r[k]);
    let name = doc[x].0;
    assert(name != "version"@);
    lemma_set_lookup_finds_name(sets, name, 0);
    let si = set_index_from(sets, name, 0).unwrap();
    let st = table_entries(doc[x].1);
    let actions = sets[si].actions@;
    assert(doc_entry_read(sets, doc[x]) == set_bindings(actions, st));
    lemma_set_bindings_members(actions, st);
    let kk = choose|kk: int| 0 <= kk < set_bindings(actions, st).len()
        && set_bindings(actions, st)[kk] == r[k];
    let y = choose|y: int|
        0 <= y < st.len() && entry_read(actions, st[y]) == Some(
            #[trigger] set_bindings(actions, st)[kk],
        );
    lemma_action_lookup_finds_name(actions, st[y].0, 0);
    let j = action_index_from(actions, st[y].0, 0).unwrap();
    assert(0 <= j < sets[si].actions@.len() && sets[si].actions@[j].0@ == st[y].0);
    assert(id_of_named_action(sets, name, st[y].0, r[k].0));
    assert(read_from(doc, sets, x, y, r[k]));
}

/// The value of an action's table before its bindings are written: the action's entry in
/// its set's table, or a new empty table when there is none.
pub open spec fn action_item_before(doc: Seq<(Seq<char>, TomlData)>, a: ActionSave) -> TomlData {
    match lookup(doc, a.set@) {
        Some(TomlData::Table(_, st)) => match lookup(st, a.action@) {
            Some(item) => item,
            None => TomlData::Table(false, Seq::empty()),
        },
        _ => TomlData::Table(false, Seq::empty()),
    }
}

/// After an action's bindings are written into a document, the document's entry for the
/// action's set is a table whose entry for the action is the action's table as it was
/// before, with the bindings written into it.
pub proof fn lemma_save_action_places_bindings(doc: Seq<(Seq<char>, TomlData)>, a: ActionSave)
    requires
        save_action(doc, a) is Some,
    ensures
        lookup(save_action(doc, a).unwrap(), a.set@) matches Some(TomlData::Table(_, st)) && lookup(
            st,
            a.action@,
        ) == write_action(action_item_before(doc, a), a.bindings),
{
    let empty = Seq::<(Seq<char>, TomlData)>::empty();
    lemma_key_index_from(doc, a.set@, 0);
    let (doc1, set_item) = match key_index(doc, a.set@) {
        Some(i) => (doc, doc[i].1),
        None => (doc.push((a.set@, TomlData::Table(true, empty))), TomlData::Table(true, empty)),
    };
    if key_index(doc, a.set@) is None {
        lemma_key_index_push(doc, a.set@, TomlData::Table(true, empty));
    }
    match set_item {
        TomlData::Table(implicit, st) => {
            lemma_key_index_from(st, a.action@, 0);
            let (st1, act) = match key_index(st, a.action@) {
                Some(j) => (st, st[j].1),
                None => (
                    st.push((a.action@, TomlData::Table(false, empty))),
                    TomlData::Table(false, empty),
                ),
            };
            assert(act == action_item_before(doc, a));
            let written = write_action(act, a.bindings).unwrap();
            lemma_set_entry_lookup(st1, a.action@, written, a.action@);
            lemma_set_entry_lookup(
                doc1,
                a.set@,
                TomlData::Table(implicit, set_entry(st1, a.action@, written)),
                a.set@,
            );
        },
        _ => {},
    }
}

} // verus!
