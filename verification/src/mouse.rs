//! Mouse bindings and subaction paths.
use crate::text::{chars_of, eq_str, starts_with, strip_prefix};
use crate::{ButtonInputBeheavior, InputAxis, InputAxisDirection};
use vstd::prelude::*;

verus! {

/// The part of the mouse a subaction path selects.
#[derive(Clone, Copy, Debug, PartialEq, Eq, Structural, Hash)]
pub enum MouseSubactionPath {
    DeltaMotion,
    Button,
    All,
}

/// What a subaction path string stands for as a mouse path: `None` unless it starts with
/// `/mouse` and continues with nothing or `/*` (all), `/motion` or `/button`.
pub open spec fn mouse_path_spec(s: Seq<char>) -> Option<MouseSubactionPath> {
    if !starts_with(s, "/mouse"@) {
        None
    } else {
        let sub = s.skip("/mouse"@.len() as int);
        if sub.len() == 0 || sub == "/*"@ {
            Some(MouseSubactionPath::All)
        } else if sub == "/motion"@ {
            Some(MouseSubactionPath::DeltaMotion)
        } else if sub == "/button"@ {
            Some(MouseSubactionPath::Button)
        } else {
            None
        }
    }
}

/// What the subaction path string `path` stands for as a mouse path, if anything.
pub fn parse_mouse_subaction_path(path: &str) -> (r: Option<MouseSubactionPath>)
    ensures
        r == mouse_path_spec(path@),
{
    let v = chars_of(path);
    let sub = match strip_prefix(&v, "/mouse") {
        Some(sub) => sub,
        None => {
            return None;
        },
    };
    if sub.len() == 0 || eq_str(&sub, "/*") {
        Some(MouseSubactionPath::All)
    } else if eq_str(&sub, "/motion") {
        Some(MouseSubactionPath::DeltaMotion)
    } else if eq_str(&sub, "/button") {
        Some(MouseSubactionPath::Button)
    } else {
        None
    }
}

/// A mouse button.
#[derive(Clone, Copy, Debug, PartialEq, Eq, Structural, Hash)]
pub enum MouseButton {
    Left,
    Right,
    Middle,
    Back,
    Forward,
    Other(u16),
}

/// The kind of mouse motion a binding reads.
#[derive(Clone, Copy, Debug, PartialEq, Eq, Structural, Hash)]
pub enum MouseMotionType {
    DeltaMotion,
}

impl Default for MouseMotionType {
    fn default() -> (r: MouseMotionType)
        ensures
            r == MouseMotionType::DeltaMotion,
    {
        MouseMotionType::DeltaMotion
    }
}

/// The kind of a mouse binding: a button binding or a motion binding.
#[derive(Clone, Copy, Debug, PartialEq, Eq, Structural, Hash)]
pub enum MouseBindingKind {
    Button,
    Motion(MouseMotionType),
}

/// Whether a mouse subaction path selects a binding of the given kind: the motion path
/// selects delta motion bindings, the button path button bindings, the path for all of the
/// mouse every binding.
pub open spec fn mouse_path_selects(binding: MouseBindingKind, path: MouseSubactionPath) -> bool {
    match (binding, path) {
        (MouseBindingKind::Motion(MouseMotionType::DeltaMotion), MouseSubactionPath::DeltaMotion) => true,
        (MouseBindingKind::Button, MouseSubactionPath::Button) => true,
        (_, MouseSubactionPath::All) => true,
        _ => false,
    }
}

impl MouseSubactionPath {
    /// Whether this path selects a binding of the kind `binding`.
    pub fn selects(&self, binding: MouseBindingKind) -> (r: bool)
        ensures
            r == mouse_path_selects(binding, *self),
    {
        match (binding, self) {
            (MouseBindingKind::Motion(MouseMotionType::DeltaMotion), MouseSubactionPath::DeltaMotion) => true,
            (MouseBindingKind::Button, MouseSubactionPath::Button) => true,
            (_, MouseSubactionPath::All) => true,
            _ => false,
        }
    }
}

/// A binding of an action to a mouse button.
#[derive(Clone, Copy, Debug, PartialEq, Eq, Structural, Hash)]
pub struct MouseButtonBinding {
    pub axis: InputAxis,
    pub axis_dir: InputAxisDirection,
    pub button: MouseButton,
    pub behavior: ButtonInputBeheavior,
}

/// A binding to `button` with the default axis (Y), direction (positive) and behavior
/// (pressed).
pub open spec fn default_mouse_button_binding(button: MouseButton) -> MouseButtonBinding {
    MouseButtonBinding {
        axis: InputAxis::Y,
        axis_dir: InputAxisDirection::Positive,
        button,
        behavior: ButtonInputBeheavior::Pressed,
    }
}

impl MouseButtonBinding {
    /// A binding to `button` with the default axis (Y), direction (positive) and behavior
    /// (pressed).
    pub fn new(button: MouseButton) -> (r: MouseButtonBinding)
        ensures
            r == default_mouse_button_binding(button),
    {
        MouseButtonBinding {
            axis: InputAxis::default(),
            axis_dir: InputAxisDirection::default(),
            button,
            behavior: ButtonInputBeheavior::default(),
        }
    }

    /// The binding, writing to the X axis.
    pub fn x_axis(self) -> (r: MouseButtonBinding)
        ensures
            r == (MouseButtonBinding { axis: InputAxis::X, ..self }),
    {
        MouseButtonBinding { axis: InputAxis::X, ..self }
    }

    /// The binding, writing to the Y axis.
    pub fn y_axis(self) -> (r: MouseButtonBinding)
        ensures
            r == (MouseButtonBinding { axis: InputAxis::Y, ..self }),
    {
        MouseButtonBinding { axis: InputAxis::Y, ..self }
    }

    /// The binding, writing with a positive sign.
    pub fn positive_axis_dir(self) -> (r: MouseButtonBinding)
        ensures
            r == (MouseButtonBinding { axis_dir: InputAxisDirection::Positive, ..self }),
    {
        MouseButtonBinding { axis_dir: InputAxisDirection::Positive, ..self }
    }

    /// The binding, writing with a negative sign.
    pub fn negative_axis_dir(self) -> (r: MouseButtonBinding)
        ensures
            r == (MouseButtonBinding { axis_dir: InputAxisDirection::Negative, ..self }),
    {
        MouseButtonBinding { axis_dir: InputAxisDirection::Negative, ..self }
    }

    /// The binding, active on the frame its button is pressed.
    pub fn just_pressed(self) -> (r: MouseButtonBinding)
        ensures
            r == (MouseButtonBinding { behavior: ButtonInputBeheavior::JustPressed, ..self }),
    {
        MouseButtonBinding { behavior: ButtonInputBeheavior::JustPressed, ..self }
    }

    /// The binding, active on the frame its button is released.
    pub fn just_released(self) -> (r: MouseButtonBinding)
        ensures
            r == (MouseButtonBinding { behavior: ButtonInputBeheavior::JustReleased, ..self }),
    {
        MouseButtonBinding { behavior: ButtonInputBeheavior::JustReleased, ..self }
    }
}

} // verus!
