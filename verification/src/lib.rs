//! Input actions bound to keyboard, mouse, gamepad and OpenXR inputs: the bindings, the
//! subaction paths that filter them, the priorities between action sets, and the rules by
//! which binding values are combined into action values.

pub mod bevy_collections;
pub mod binding_modification;
pub mod binding_names;
pub mod gamepad;
pub mod impl_helpers;
pub mod keyboard;
pub mod mouse;
pub mod persistent_bindings;
pub mod openxr;
pub mod priorities;
pub mod rebinding;
pub mod subaction_paths;
pub mod text;
pub mod toml;

use crate::subaction_paths::SubactionPathMap;
use vstd::prelude::*;

verus! {

/// The stages of one frame of input handling, in the order in which they run.
#[derive(Clone, Copy, Debug, PartialEq, Eq, Structural, Hash)]
pub enum SchminputSet {
    HandleNewSubactionPaths,
    ClearValues,
    CalculateBindingCollisions,
    SyncInputActions,
    SyncOutputActions,
}

/// An action: belongs to the action set `set` (an entity id) and has an id and a name
/// shown to users.
#[derive(Clone, Debug)]
pub struct Action {
    pub set: u64,
    pub localized_name: String,
    pub name: String,
}

impl Action {
    /// An action with the id `id` and the shown name `name` in the set `set`.
    pub fn new(id: &str, name: &str, set: u64) -> (r: Action)
        ensures
            r.name@ == id@,
            r.localized_name@ == name@,
            r.set == set,
    {
        Action { name: id.to_string(), localized_name: name.to_string(), set }
    }
}

/// A group of actions that is enabled or disabled as a whole and has a priority.
#[derive(Clone, Debug)]
pub struct ActionSet {
    pub name: String,
    pub localized_name: String,
    pub enabled: bool,
    pub priority: u32,
    /// when true the action set will not block input for other sets
    /// and other sets won't block input for this action set
    pub transparent: bool,
}

impl ActionSet {
    /// An enabled, not transparent action set.
    pub fn new(name: &str, localized_name: &str, priority: u32) -> (r: ActionSet)
        ensures
            r.name@ == name@,
            r.localized_name@ == localized_name@,
            r.enabled,
            r.priority == priority,
            !r.transparent,
    {
        ActionSet {
            name: name.to_string(),
            localized_name: localized_name.to_string(),
            enabled: true,
            priority,
            transparent: false,
        }
    }

    /// when called the action set will not block input for other sets
    /// and other sets won't block input for this action set
    pub fn transparent(self) -> (r: ActionSet)
        ensures
            r.transparent,
            r.name == self.name,
            r.localized_name == self.localized_name,
            r.enabled == self.enabled,
            r.priority == self.priority,
    {
        let mut s = self;
        s.transparent = true;
        s
    }
}

/// The boolean value of an action: its value for any path and its value per subaction path.
#[derive(Clone, Debug)]
pub struct BoolActionValue(pub SubactionPathMap<bool>);

impl BoolActionValue {
    /// `false` for any path and no value for single paths.
    pub fn new() -> (r: BoolActionValue)
        ensures
            r.0.paths@ == Map::<u64, bool>::empty(),
            r.0.any == false,
    {
        BoolActionValue(SubactionPathMap::new())
    }
}

impl Default for BoolActionValue {
    fn default() -> (r: BoolActionValue)
        ensures
            r.0.paths@ == Map::<u64, bool>::empty(),
            r.0.any == false,
    {
        BoolActionValue::new()
    }
}

/// Which component of a two dimensional value a binding writes to.
/// +X = Right, +Y = Up
#[derive(Clone, Copy, Debug, PartialEq, Eq, Structural, Hash)]
pub enum InputAxis {
    X,
    Y,
}

impl Default for InputAxis {
    fn default() -> (r: InputAxis)
        ensures
            r == InputAxis::Y,
    {
        InputAxis::Y
    }
}

/// The text shown for an axis.
pub open spec fn input_axis_text(axis: InputAxis) -> Seq<char> {
    match axis {
        InputAxis::X => "X Axis"@,
        InputAxis::Y => "Y Axis"@,
    }
}

impl InputAxis {
    /// The text shown for the axis.
    pub fn to_display_string(&self) -> (r: String)
        ensures
            r@ == input_axis_text(*self),
    {
        match self {
            InputAxis::X => "X Axis".to_string(),
            InputAxis::Y => "Y Axis".to_string(),
        }
    }
}

/// The sign with which a binding's value is written.
#[derive(Clone, Copy, Debug, PartialEq, Eq, Structural, Hash)]
pub enum InputAxisDirection {
    Positive,
    Negative,
}

impl Default for InputAxisDirection {
    fn default() -> (r: InputAxisDirection)
        ensures
            r == InputAxisDirection::Positive,
    {
        InputAxisDirection::Positive
    }
}

/// The text shown for a direction.
pub open spec fn input_axis_direction_text(dir: InputAxisDirection) -> Seq<char> {
    match dir {
        InputAxisDirection::Positive => "+"@,
        InputAxisDirection::Negative => "-"@,
    }
}

impl InputAxisDirection {
    /// The text shown for the direction.
    pub fn to_display_string(&self) -> (r: String)
        ensures
            r@ == input_axis_direction_text(*self),
    {
        match self {
            InputAxisDirection::Positive => "+".to_string(),
            InputAxisDirection::Negative => "-".to_string(),
        }
    }
}

/// What is known of a button in one frame.
#[derive(Clone, Copy, Debug, PartialEq, Eq, Structural)]
pub struct ButtonState {
    pub just_pressed: bool,
    pub pressed: bool,
    pub just_released: bool,
}

/// When a button counts as active.
#[derive(Clone, Copy, Debug, PartialEq, Eq, Structural, Hash)]
pub enum ButtonInputBeheavior {
    JustPressed,
    Pressed,
    JustReleased,
}

impl Default for ButtonInputBeheavior {
    fn default() -> (r: ButtonInputBeheavior)
        ensures
            r == ButtonInputBeheavior::Pressed,
    {
        ButtonInputBeheavior::Pressed
    }
}

/// Whether a button in state `state` counts as active under `behavior`.
pub open spec fn button_active(behavior: ButtonInputBeheavior, state: ButtonState) -> bool {
    match behavior {
        ButtonInputBeheavior::JustPressed => state.just_pressed,
        ButtonInputBeheavior::Pressed => state.pressed,
        ButtonInputBeheavior::JustReleased => state.just_released,
    }
}

/// The text shown for a behavior.
pub open spec fn button_behavior_text(behavior: ButtonInputBeheavior) -> Seq<char> {
    match behavior {
        ButtonInputBeheavior::JustPressed => "On Press"@,
        ButtonInputBeheavior::Pressed => "Pressed"@,
        ButtonInputBeheavior::JustReleased => "On Release"@,
    }
}

impl ButtonInputBeheavior {
    /// Whether a button in state `state` counts as active.
    pub fn apply(&self, state: ButtonState) -> (r: bool)
        ensures
            r == button_active(*self, state),
    {
        match self {
            ButtonInputBeheavior::JustPressed => state.just_pressed,
            ButtonInputBeheavior::Pressed => state.pressed,
            ButtonInputBeheavior::JustReleased => state.just_released,
        }
    }

    /// The text shown for the behavior.
    pub fn to_display_string(&self) -> (r: String)
        ensures
            r@ == button_behavior_text(*self),
    {
        match self {
            ButtonInputBeheavior::JustPressed => "On Press".to_string(),
            ButtonInputBeheavior::Pressed => "Pressed".to_string(),
            ButtonInputBeheavior::JustReleased => "On Release".to_string(),
        }
    }
}

} // verus!
