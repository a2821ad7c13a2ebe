//! Gamepad bindings: the sources a binding reads, the subaction paths that select gamepads
//! and groups of sources, haptic outputs, and which inputs a frame evaluates.
use crate::binding_modification::{
    combine_modifications, combined_modifications, ModificationFlags, PathModification,
};
use crate::impl_helpers::{is_selection, select_matching};
use crate::text::{chars_of, eq_str, split_once, split_once_spec, starts_with, strip_prefix};
use crate::{ButtonInputBeheavior, InputAxis, InputAxisDirection};
use vstd::prelude::*;

verus! {

/// A gamepad axis.
#[derive(Clone, Copy, Debug, PartialEq, Eq, Structural, Hash)]
pub enum GamepadAxis {
    LeftStickX,
    LeftStickY,
    LeftZ,
    RightStickX,
    RightStickY,
    RightZ,
    Other(u8),
}

/// A gamepad button. `LeftTrigger2`/`RightTrigger2` are the primary triggers,
/// `LeftTrigger`/`RightTrigger` the secondary ones (bumpers).
#[derive(Clone, Copy, Debug, PartialEq, Eq, Structural, Hash)]
pub enum GamepadButton {
    South,
    East,
    North,
    West,
    C,
    Z,
    LeftTrigger,
    LeftTrigger2,
    RightTrigger,
    RightTrigger2,
    Select,
    Start,
    Mode,
    LeftThumb,
    RightThumb,
    DPadUp,
    DPadDown,
    DPadLeft,
    DPadRight,
    Other(u8),
}

/// A gamepad input: an axis or a button.
#[derive(Clone, Copy, Debug, PartialEq, Eq, Structural, Hash)]
pub enum GamepadInput {
    Axis(GamepadAxis),
    Button(GamepadButton),
}

/// The source a gamepad binding reads: one axis or one button.
#[derive(Clone, Copy, Debug, PartialEq, Eq, Structural, Hash)]
pub enum GamepadBindingSource {
    /// The horizontal value of the left stick.
    LeftStickX,
    /// The vertical value of the left stick.
    LeftStickY,
    /// The horizontal value of the right stick.
    RightStickX,
    /// The vertical value of the right stick.
    RightStickY,
    /// The bottom action button of the action pad (i.e. PS: Cross, Xbox: A).
    South,
    /// The right action button of the action pad (i.e. PS: Circle, Xbox: B).
    East,
    /// The upper action button of the action pad (i.e. PS: Triangle, Xbox: Y).
    North,
    /// The left action button of the action pad (i.e. PS: Square, Xbox: X).
    West,
    /// The primary left trigger.
    LeftTrigger,
    /// The secondary left trigger.
    LeftSecondaryTrigger,
    /// The primary right trigger.
    RightTrigger,
    /// The secondary right trigger.
    RightSecondaryTrigger,
    /// The left thumb stick button.
    LeftStickClick,
    /// The right thumb stick button.
    RightStickClick,
    /// The up button of the D-Pad.
    DPadUp,
    /// The down button of the D-Pad.
    DPadDown,
    /// The left button of the D-Pad.
    DPadLeft,
    /// The right button of the D-Pad.
    DPadRight,
    /// The select button.
    Select,
    /// The start button.
    Start,
    /// The mode button.
    Mode,
    /// The value of the left `Z` button.
    LeftZ,
    /// The value of the right `Z` button.
    RightZ,
    /// The C button.
    C,
    /// The Z button.
    Z,
    /// Non-standard support for other axis types (i.e. HOTAS sliders, potentiometers, etc).
    OtherAxis(u8),
    /// Miscellaneous buttons, considered non-standard (i.e. Extra buttons on a flight stick that do not have a gamepad equivalent).
    OtherButton(u8),
}

/// The axis a source reads, if it reads an axis.
pub open spec fn source_axis(source: GamepadBindingSource) -> Option<GamepadAxis> {
    match source {
        GamepadBindingSource::LeftStickX => Some(GamepadAxis::LeftStickX),
        GamepadBindingSource::LeftStickY => Some(GamepadAxis::LeftStickY),
        GamepadBindingSource::RightStickX => Some(GamepadAxis::RightStickX),
        GamepadBindingSource::RightStickY => Some(GamepadAxis::RightStickY),
        GamepadBindingSource::LeftZ => Some(GamepadAxis::LeftZ),
        GamepadBindingSource::RightZ => Some(GamepadAxis::RightZ),
        GamepadBindingSource::OtherAxis(v) => Some(GamepadAxis::Other(v)),
        _ => None,
    }
}

/// The source that reads an axis.
pub open spec fn axis_source(axis: GamepadAxis) -> GamepadBindingSource {
    match axis {
        GamepadAxis::LeftStickX => GamepadBindingSource::LeftStickX,
        GamepadAxis::LeftStickY => GamepadBindingSource::LeftStickY,
        GamepadAxis::RightStickX => GamepadBindingSource::RightStickX,
        GamepadAxis::RightStickY => GamepadBindingSource::RightStickY,
        GamepadAxis::LeftZ => GamepadBindingSource::LeftZ,
        GamepadAxis::RightZ => GamepadBindingSource::RightZ,
        GamepadAxis::Other(v) => GamepadBindingSource::OtherAxis(v),
    }
}

/// The button a source reads, if it reads a button. The primary triggers are the
/// `*Trigger2` buttons, the secondary triggers the `*Trigger` buttons.
pub open spec fn source_button(source: GamepadBindingSource) -> Option<GamepadButton> {
    match source {
        GamepadBindingSource::South => Some(GamepadButton::South),
        GamepadBindingSource::East => Some(GamepadButton::East),
        GamepadBindingSource::North => Some(GamepadButton::North),
        GamepadBindingSource::West => Some(GamepadButton::West),
        GamepadBindingSource::LeftTrigger => Some(GamepadButton::LeftTrigger2),
        GamepadBindingSource::LeftSecondaryTrigger => Some(GamepadButton::LeftTrigger),
        GamepadBindingSource::RightTrigger => Some(GamepadButton::RightTrigger2),
        GamepadBindingSource::RightSecondaryTrigger => Some(GamepadButton::RightTrigger),
        GamepadBindingSource::LeftStickClick => Some(GamepadButton::LeftThumb),
        GamepadBindingSource::RightStickClick => Some(GamepadButton::RightThumb),
        GamepadBindingSource::DPadUp => Some(GamepadButton::DPadUp),
        GamepadBindingSource::DPadDown => Some(GamepadButton::DPadDown),
        GamepadBindingSource::DPadLeft => Some(GamepadButton::DPadLeft),
        GamepadBindingSource::DPadRight => Some(GamepadButton::DPadRight),
        GamepadBindingSource::Select => Some(GamepadButton::Select),
        GamepadBindingSource::Start => Some(GamepadButton::Start),
        GamepadBindingSource::Mode => Some(GamepadButton::Mode),
        GamepadBindingSource::C => Some(GamepadButton::C),
        GamepadBindingSource::Z => Some(GamepadButton::Z),
        GamepadBindingSource::OtherButton(v) => Some(GamepadButton::Other(v)),
        _ => None,
    }
}

/// The source that reads a button.
pub open spec fn button_source(button: GamepadButton) -> GamepadBindingSource {
    match button {
        GamepadButton::South => GamepadBindingSource::South,
        GamepadButton::East => GamepadBindingSource::East,
        GamepadButton::North => GamepadBindingSource::North,
        GamepadButton::West => GamepadBindingSource::West,
        GamepadButton::LeftTrigger2 => GamepadBindingSource::LeftTrigger,
        GamepadButton::LeftTrigger => GamepadBindingSource::LeftSecondaryTrigger,
        GamepadButton::RightTrigger2 => GamepadBindingSource::RightTrigger,
        GamepadButton::RightTrigger => GamepadBindingSource::RightSecondaryTrigger,
        GamepadButton::LeftThumb => GamepadBindingSource::LeftStickClick,
        GamepadButton::RightThumb => GamepadBindingSource::RightStickClick,
        GamepadButton::DPadUp => GamepadBindingSource::DPadUp,
        GamepadButton::DPadDown => GamepadBindingSource::DPadDown,
        GamepadButton::DPadLeft => GamepadBindingSource::DPadLeft,
        GamepadButton::DPadRight => GamepadBindingSource::DPadRight,
        GamepadButton::Select => GamepadBindingSource::Select,
        GamepadButton::Start => GamepadBindingSource::Start,
        GamepadButton::Mode => GamepadBindingSource::Mode,
        GamepadButton::C => GamepadBindingSource::C,
        GamepadButton::Z => GamepadBindingSource::Z,
        GamepadButton::Other(v) => GamepadBindingSource::OtherButton(v),
    }
}

/// The input a source reads.
pub open spec fn source_input(source: GamepadBindingSource) -> GamepadInput {
    match source_axis(source) {
        Some(axis) => GamepadInput::Axis(axis),
        None => GamepadInput::Button(source_button(source).unwrap()),
    }
}

/// The decimal digit `d` (`0 <= d < 10`) as a character.
pub open spec fn digit_char(d: nat) -> char {
    if d == 0 { '0' } else if d == 1 { '1' } else if d == 2 { '2' } else if d == 3 { '3' }
    else if d == 4 { '4' } else if d == 5 { '5' } else if d == 6 { '6' } else if d == 7 { '7' }
    else if d == 8 { '8' } else { '9' }
}

/// The decimal notation of `n`, without leading zeros.
pub open spec fn decimal_text(n: nat) -> Seq<char>
    decreases n,
{
    if n < 10 {
        seq![digit_char(n)]
    } else {
        decimal_text(n / 10) + seq![digit_char(n % 10)]
    }
}

/// The text shown for a source.
pub open spec fn source_text(source: GamepadBindingSource) -> Seq<char> {
    match source {
        GamepadBindingSource::LeftTrigger => "Left Trigger"@,
        GamepadBindingSource::RightTrigger => "Right Trigger"@,
        GamepadBindingSource::LeftStickX => "Left Stick X"@,
        GamepadBindingSource::LeftStickY => "Left Stick Y"@,
        GamepadBindingSource::RightStickX => "Right Stick X"@,
        GamepadBindingSource::RightStickY => "Right Stick Y"@,
        GamepadBindingSource::OtherAxis(axis) => "Axis "@ + decimal_text(axis as nat),
        GamepadBindingSource::OtherButton(button) => "Button "@ + decimal_text(button as nat),
        GamepadBindingSource::South => "South"@,
        GamepadBindingSource::East => "East"@,
        GamepadBindingSource::North => "North"@,
        GamepadBindingSource::West => "West"@,
        GamepadBindingSource::LeftSecondaryTrigger => "Left Secondary Trigger"@,
        GamepadBindingSource::RightSecondaryTrigger => "Right Secondary Trigger"@,
        GamepadBindingSource::LeftStickClick => "Left Stick Click"@,
        GamepadBindingSource::RightStickClick => "Right Stick Click"@,
        GamepadBindingSource::DPadUp => "Dpad Up"@,
        GamepadBindingSource::DPadDown => "Dpad Down"@,
        GamepadBindingSource::DPadLeft => "Dpad Left"@,
        GamepadBindingSource::DPadRight => "Dpad Right"@,
        GamepadBindingSource::Select => "Select"@,
        GamepadBindingSource::Start => "Start"@,
        GamepadBindingSource::Mode => "Mode"@,
        GamepadBindingSource::LeftZ => "Left Z Axis"@,
        GamepadBindingSource::RightZ => "Right Z Axis"@,
        GamepadBindingSource::C => "C Button"@,
        GamepadBindingSource::Z => "Z Button"@,
    }
}

/// The text of one decimal digit.
fn digit_str(d: u8) -> (r: &'static str)
    requires
        d < 10,
    ensures
        r@ == seq![digit_char(d as nat)],
{
    proof {
        reveal_strlit("0");
        reveal_strlit("1");
        reveal_strlit("2");
        reveal_strlit("3");
        reveal_strlit("4");
        reveal_strlit("5");
        reveal_strlit("6");
        reveal_strlit("7");
        reveal_strlit("8");
        reveal_strlit("9");
    }
    match d {
        0 => "0",
        1 => "1",
        2 => "2",
        3 => "3",
        4 => "4",
        5 => "5",
        6 => "6",
        7 => "7",
        8 => "8",
        _ => "9",
    }
}

/// `prefix` followed by the decimal notation of `n`.
fn with_decimal(prefix: &str, n: u8) -> (r: String)
    ensures
        r@ == prefix@ + decimal_text(n as nat),
{
    let mut s = prefix.to_string();
    if n >= 100 {
        s.append(digit_str(n / 100));
    }
    if n >= 10 {
        s.append(digit_str((n / 10) % 10));
    }
    s.append(digit_str(n % 10));
    proof {
        let m = n as nat;
        reveal_with_fuel(decimal_text, 3);
        if m >= 100 {
            assert(m / 10 >= 10);
            assert((m / 10) / 10 == m / 100);
            assert(decimal_text(m) =~= seq![digit_char(m / 100)] + seq![digit_char((m / 10) % 10)]
                + seq![digit_char(m % 10)]);
        } else if m >= 10 {
            assert(decimal_text(m) =~= seq![digit_char((m / 10) % 10)] + seq![digit_char(m % 10)]);
        }
        assert(s@ =~= prefix@ + decimal_text(m));
    }
    s
}

impl GamepadBindingSource {
    /// The axis this source reads, if it reads an axis.
    pub fn as_axis_type(&self) -> (r: Option<GamepadAxis>)
        ensures
            r == source_axis(*self),
    {
        match self {
            GamepadBindingSource::LeftStickX => Some(GamepadAxis::LeftStickX),
            GamepadBindingSource::LeftStickY => Some(GamepadAxis::LeftStickY),
            GamepadBindingSource::RightStickX => Some(GamepadAxis::RightStickX),
            GamepadBindingSource::RightStickY => Some(GamepadAxis::RightStickY),
            GamepadBindingSource::LeftZ => Some(GamepadAxis::LeftZ),
            GamepadBindingSource::RightZ => Some(GamepadAxis::RightZ),
            GamepadBindingSource::OtherAxis(v) => Some(GamepadAxis::Other(*v)),
            _ => None,
        }
    }

    /// The source that reads `axis`.
    pub fn from_axis_type(axis: &GamepadAxis) -> (r: GamepadBindingSource)
        ensures
            r == axis_source(*axis),
    {
        match axis {
            GamepadAxis::LeftStickX => GamepadBindingSource::LeftStickX,
            GamepadAxis::LeftStickY => GamepadBindingSource::LeftStickY,
            GamepadAxis::RightStickX => GamepadBindingSource::RightStickX,
            GamepadAxis::RightStickY => GamepadBindingSource::RightStickY,
            GamepadAxis::LeftZ => GamepadBindingSource::LeftZ,
            GamepadAxis::RightZ => GamepadBindingSource::RightZ,
            GamepadAxis::Other(v) => GamepadBindingSource::OtherAxis(*v),
        }
    }

    /// The button this source reads, if it reads a button.
    pub fn as_button_type(&self) -> (r: Option<GamepadButton>)
        ensures
            r == source_button(*self),
    {
        match self {
            GamepadBindingSource::South => Some(GamepadButton::South),
            GamepadBindingSource::East => Some(GamepadButton::East),
            GamepadBindingSource::North => Some(GamepadButton::North),
            GamepadBindingSource::West => Some(GamepadButton::West),
            GamepadBindingSource::LeftTrigger => Some(GamepadButton::LeftTrigger2),
            GamepadBindingSource::LeftSecondaryTrigger => Some(GamepadButton::LeftTrigger),
            GamepadBindingSource::RightTrigger => Some(GamepadButton::RightTrigger2),
            GamepadBindingSource::RightSecondaryTrigger => Some(GamepadButton::RightTrigger),
            GamepadBindingSource::LeftStickClick => Some(GamepadButton::LeftThumb),
            GamepadBindingSource::RightStickClick => Some(GamepadButton::RightThumb),
            GamepadBindingSource::DPadUp => Some(GamepadButton::DPadUp),
            GamepadBindingSource::DPadDown => Some(GamepadButton::DPadDown),
            GamepadBindingSource::DPadLeft => Some(GamepadButton::DPadLeft),
            GamepadBindingSource::DPadRight => Some(GamepadButton::DPadRight),
            GamepadBindingSource::Select => Some(GamepadButton::Select),
            GamepadBindingSource::Start => Some(GamepadButton::Start),
            GamepadBindingSource::Mode => Some(GamepadButton::Mode),
            GamepadBindingSource::C => Some(GamepadButton::C),
            GamepadBindingSource::Z => Some(GamepadButton::Z),
            GamepadBindingSource::OtherButton(v) => Some(GamepadButton::Other(*v)),
            _ => None,
        }
    }

    /// The source that reads `button`.
    pub fn from_button_type(button: &GamepadButton) -> (r: GamepadBindingSource)
        ensures
            r == button_source(*button),
    {
        match button {
            GamepadButton::South => GamepadBindingSource::South,
            GamepadButton::East => GamepadBindingSource::East,
            GamepadButton::North => GamepadBindingSource::North,
            GamepadButton::West => GamepadBindingSource::West,
            GamepadButton::LeftTrigger2 => GamepadBindingSource::LeftTrigger,
            GamepadButton::LeftTrigger => GamepadBindingSource::LeftSecondaryTrigger,
            GamepadButton::RightTrigger2 => GamepadBindingSource::RightTrigger,
            GamepadButton::RightTrigger => GamepadBindingSource::RightSecondaryTrigger,
            GamepadButton::LeftThumb => GamepadBindingSource::LeftStickClick,
            GamepadButton::RightThumb => GamepadBindingSource::RightStickClick,
            GamepadButton::DPadUp => GamepadBindingSource::DPadUp,
            GamepadButton::DPadDown => GamepadBindingSource::DPadDown,
            GamepadButton::DPadLeft => GamepadBindingSource::DPadLeft,
            GamepadButton::DPadRight => GamepadBindingSource::DPadRight,
            GamepadButton::Select => GamepadBindingSource::Select,
            GamepadButton::Start => GamepadBindingSource::Start,
            GamepadButton::Mode => GamepadBindingSource::Mode,
            GamepadButton::C => GamepadBindingSource::C,
            GamepadButton::Z => GamepadBindingSource::Z,
            GamepadButton::Other(v) => GamepadBindingSource::OtherButton(*v),
        }
    }

    /// The input this source reads.
    pub fn to_gamepad_input(&self) -> (r: GamepadInput)
        ensures
            r == source_input(*self),
    {
        proof {
            lemma_source_is_axis_or_button(*self);
        }
        match (self.as_axis_type(), self.as_button_type()) {
            (Some(v), _) => GamepadInput::Axis(v),
            (None, Some(v)) => GamepadInput::Button(v),
            (None, None) => GamepadInput::Axis(GamepadAxis::Other(0)),
        }
    }

    /// The text shown for the source.
    pub fn to_display_string(&self) -> (r: String)
        ensures
            r@ == source_text(*self),
    {
        match self {
            GamepadBindingSource::LeftTrigger => "Left Trigger".to_string(),
            GamepadBindingSource::RightTrigger => "Right Trigger".to_string(),
            GamepadBindingSource::LeftStickX => "Left Stick X".to_string(),
            GamepadBindingSource::LeftStickY => "Left Stick Y".to_string(),
            GamepadBindingSource::RightStickX => "Right Stick X".to_string(),
            GamepadBindingSource::RightStickY => "Right Stick Y".to_string(),
            GamepadBindingSource::OtherAxis(axis) => with_decimal("Axis ", *axis),
            GamepadBindingSource::OtherButton(button) => with_decimal("Button ", *button),
            GamepadBindingSource::South => "South".to_string(),
            GamepadBindingSource::East => "East".to_string(),
            GamepadBindingSource::North => "North".to_string(),
            GamepadBindingSource::West => "West".to_string(),
            GamepadBindingSource::LeftSecondaryTrigger => "Left Secondary Trigger".to_string(),
            GamepadBindingSource::RightSecondaryTrigger => "Right Secondary Trigger".to_string(),
            GamepadBindingSource::LeftStickClick => "Left Stick Click".to_string(),
            GamepadBindingSource::RightStickClick => "Right Stick Click".to_string(),
            GamepadBindingSource::DPadUp => "Dpad Up".to_string(),
            GamepadBindingSource::DPadDown => "Dpad Down".to_string(),
            GamepadBindingSource::DPadLeft => "Dpad Left".to_string(),
            GamepadBindingSource::DPadRight => "Dpad Right".to_string(),
            GamepadBindingSource::Select => "Select".to_string(),
            GamepadBindingSource::Start => "Start".to_string(),
            GamepadBindingSource::Mode => "Mode".to_string(),
            GamepadBindingSource::LeftZ => "Left Z Axis".to_string(),
            GamepadBindingSource::RightZ => "Right Z Axis".to_string(),
            GamepadBindingSource::C => "C Button".to_string(),
            GamepadBindingSource::Z => "Z Button".to_string(),
        }
    }
}

impl From<GamepadBindingSource> for GamepadInput {
    fn from(value: GamepadBindingSource) -> (r: GamepadInput) {
        value.to_gamepad_input()
    }
}

impl vstd::std_specs::convert::FromSpecImpl<GamepadBindingSource> for GamepadInput {
    open spec fn obeys_from_spec() -> bool {
        true
    }

    open spec fn from_spec(v: GamepadBindingSource) -> GamepadInput {
        source_input(v)
    }
}

/// Every source reads exactly one input: an axis or a button, never both and never none.
pub proof fn lemma_source_is_axis_or_button(source: GamepadBindingSource)
    ensures
        source_axis(source) is Some <==> source_button(source) is None,
{
}

/// Reading an axis back into a source gives the source that read it, and a source made
/// from an axis reads that axis.
pub proof fn lemma_axis_round_trip(source: GamepadBindingSource, axis: GamepadAxis)
    ensures
        source_axis(source) == Some(axis) ==> axis_source(axis) == source,
        source_axis(axis_source(axis)) == Some(axis),
{
}

/// Reading a button back into a source gives the source that read it, and a source made
/// from a button reads that button.
pub proof fn lemma_button_round_trip(source: GamepadBindingSource, button: GamepadButton)
    ensures
        source_button(source) == Some(button) ==> button_source(button) == source,
        source_button(button_source(button)) == Some(button),
{
}

/// Appends one character to a string with std's `String::push`. The contract claims what
/// std documents of it: the text of `s` afterwards is its text before with `c` added at
/// the end.
#[verifier::external_body]
fn push_char(s: &mut String, c: char)
    ensures
        final(s)@ == old(s)@.push(c),
{
    s.push(c);
}

/// The string made of the characters of `v`.
pub(crate) fn string_from_chars(v: &Vec<char>) -> (r: String)
    ensures
        r@ == v@,
{
    let mut s = String::new();
    let mut i: usize = 0;
    while i < v.len()
        invariant
            i <= v@.len(),
            s@ == v@.take(i as int),
        decreases v@.len() - i,
    {
        push_char(&mut s, v[i]);
        i = i + 1;
        assert(s@ =~= v@.take(i as int));
    }
    assert(s@ =~= v@);
    s
}

/// The group of sources a gamepad subaction path selects.
#[derive(Clone, Copy, Debug, PartialEq, Eq, Structural, Hash)]
pub enum GamepadPathTarget {
    Thumbstick,
    Trigger,
    SecondaryTrigger,
    Buttons,
    Dpad,
}

/// The side of the gamepad a subaction path is restricted to.
#[derive(Clone, Copy, Debug, PartialEq, Eq, Structural, Hash)]
pub enum GamepadPathTargetSide {
    Left,
    Right,
}

/// Which gamepads a subaction path selects: all of them, or the one whose
/// [`GamepadIdentifier`] is the given text.
#[derive(Clone, Debug, PartialEq, Eq)]
pub enum GamepadPathSelector {
    All,
    Gamepad(String),
}

/// A [`GamepadPathSelector`] with the identifier as a sequence of characters.
pub enum GamepadPathSelectorView {
    All,
    Gamepad(Seq<char>),
}

impl View for GamepadPathSelector {
    type V = GamepadPathSelectorView;

    open spec fn view(&self) -> GamepadPathSelectorView {
        match self {
            GamepadPathSelector::All => GamepadPathSelectorView::All,
            GamepadPathSelector::Gamepad(id) => GamepadPathSelectorView::Gamepad(id@),
        }
    }
}

/// Identifies a gamepad, so that a subaction path such as `/gamepad/<id>` can select it.
#[derive(Clone, Debug)]
pub struct GamepadIdentifier(pub String);

/// What a `/gamepad` subaction path stands for.
#[derive(Clone, Debug)]
pub struct GamepadSubactionPath {
    pub selector: GamepadPathSelector,
    pub target: Option<GamepadPathTarget>,
    pub side: Option<GamepadPathTargetSide>,
}

/// The group and side that the part of a path after the gamepad selector names; an
/// empty or unknown part names none. The form for both secondary triggers with a star is
/// spelt `secondray_trigger/*`, and `secondary_trigger/*` names no group.
pub open spec fn gamepad_path_target_spec(p: Seq<char>) -> (
    Option<GamepadPathTarget>,
    Option<GamepadPathTargetSide>,
) {
    if p == "thumbstick"@ || p == "thumbstick/*"@ {
        (Some(GamepadPathTarget::Thumbstick), None)
    } else if p == "thumbstick/left"@ {
        (Some(GamepadPathTarget::Thumbstick), Some(GamepadPathTargetSide::Left))
    } else if p == "thumbstick/right"@ {
        (Some(GamepadPathTarget::Thumbstick), Some(GamepadPathTargetSide::Right))
    } else if p == "dpad"@ {
        (Some(GamepadPathTarget::Dpad), None)
    } else if p == "buttons"@ {
        (Some(GamepadPathTarget::Buttons), None)
    } else if p == "trigger"@ || p == "trigger/*"@ {
        (Some(GamepadPathTarget::Trigger), None)
    } else if p == "trigger/left"@ {
        (Some(GamepadPathTarget::Trigger), Some(GamepadPathTargetSide::Left))
    } else if p == "trigger/right"@ {
        (Some(GamepadPathTarget::Trigger), Some(GamepadPathTargetSide::Right))
    } else if p == "secondary_trigger"@ || p == "secondray_trigger/*"@ {
        (Some(GamepadPathTarget::SecondaryTrigger), None)
    } else if p == "secondary_trigger/left"@ {
        (Some(GamepadPathTarget::SecondaryTrigger), Some(GamepadPathTargetSide::Left))
    } else if p == "secondary_trigger/right"@ {
        (Some(GamepadPathTarget::SecondaryTrigger), Some(GamepadPathTargetSide::Right))
    } else {
        (None, None)
    }
}

/// What a subaction path string stands for as a gamepad path: `None` when it does not
/// start with `/gamepad`. After `/gamepad/`, the text up to the next `/` selects the
/// gamepad (`*` or nothing for all of them); only when all gamepads are selected is the
/// rest read as a group of sources: a path naming one gamepad selects all of that
/// gamepad's sources, whatever follows its identifier.
pub open spec fn gamepad_path_spec(s: Seq<char>) -> Option<
    (GamepadPathSelectorView, Option<GamepadPathTarget>, Option<GamepadPathTargetSide>),
> {
    if !starts_with(s, "/gamepad"@) {
        None
    } else {
        let rest = s.skip("/gamepad"@.len() as int);
        if !starts_with(rest, "/"@) {
            Some((GamepadPathSelectorView::All, None, None))
        } else {
            let stripped = rest.skip(1);
            let (index, path) = match split_once_spec(stripped, '/') {
                Some(parts) => parts,
                None => (stripped, Seq::<char>::empty()),
            };
            if index == "*"@ || index.len() == 0 {
                let (target, side) = gamepad_path_target_spec(path);
                Some((GamepadPathSelectorView::All, target, side))
            } else {
                Some((GamepadPathSelectorView::Gamepad(index), None, None))
            }
        }
    }
}

/// Reads the group and side named by the part of a path after the gamepad selector.
fn parse_gamepad_path_target(p: &Vec<char>) -> (r: (
    Option<GamepadPathTarget>,
    Option<GamepadPathTargetSide>,
))
    ensures
        r == gamepad_path_target_spec(p@),
{
    if eq_str(p, "thumbstick") || eq_str(p, "thumbstick/*") {
        (Some(GamepadPathTarget::Thumbstick), None)
    } else if eq_str(p, "thumbstick/left") {
        (Some(GamepadPathTarget::Thumbstick), Some(GamepadPathTargetSide::Left))
    } else if eq_str(p, "thumbstick/right") {
        (Some(GamepadPathTarget::Thumbstick), Some(GamepadPathTargetSide::Right))
    } else if eq_str(p, "dpad") {
        (Some(GamepadPathTarget::Dpad), None)
    } else if eq_str(p, "buttons") {
        (Some(GamepadPathTarget::Buttons), None)
    } else if eq_str(p, "trigger") || eq_str(p, "trigger/*") {
        (Some(GamepadPathTarget::Trigger), None)
    } else if eq_str(p, "trigger/left") {
        (Some(GamepadPathTarget::Trigger), Some(GamepadPathTargetSide::Left))
    } else if eq_str(p, "trigger/right") {
        (Some(GamepadPathTarget::Trigger), Some(GamepadPathTargetSide::Right))
    } else if eq_str(p, "secondary_trigger") || eq_str(p, "secondray_trigger/*") {
        (Some(GamepadPathTarget::SecondaryTrigger), None)
    } else if eq_str(p, "secondary_trigger/left") {
        (Some(GamepadPathTarget::SecondaryTrigger), Some(GamepadPathTargetSide::Left))
    } else if eq_str(p, "secondary_trigger/right") {
        (Some(GamepadPathTarget::SecondaryTrigger), Some(GamepadPathTargetSide::Right))
    } else {
        (None, None)
    }
}

/// What the subaction path string `path` stands for as a gamepad path, or `None` when it
/// is not one.
pub fn parse_gamepad_subaction_path(path: &str) -> (r: Option<GamepadSubactionPath>)
    ensures
        match (r, gamepad_path_spec(path@)) {
            (None, None) => true,
            (Some(p), Some((selector, target, side))) => p.selector@ == selector && p.target
                == target && p.side == side,
            _ => false,
        },
{
    proof {
        reveal_strlit("/");
    }
    let v = chars_of(path);
    let rest = match strip_prefix(&v, "/gamepad") {
        Some(rest) => rest,
        None => {
            return None;
        },
    };
    let stripped = match strip_prefix(&rest, "/") {
        Some(stripped) => stripped,
        None => {
            return Some(
                GamepadSubactionPath { selector: GamepadPathSelector::All, target: None, side: None },
            );
        },
    };
    let (index, target_path) = match split_once(&stripped, '/') {
        Some(parts) => parts,
        None => (stripped, Vec::new()),
    };
    if eq_str(&index, "*") || index.len() == 0 {
        let (target, side) = parse_gamepad_path_target(&target_path);
        Some(GamepadSubactionPath { selector: GamepadPathSelector::All, target, side })
    } else {
        Some(
            GamepadSubactionPath {
                selector: GamepadPathSelector::Gamepad(string_from_chars(&index)),
                target: None,
                side: None,
            },
        )
    }
}

/// The group of a source and the side it is on (`None` for groups without sides), or
/// `None` for sources in no group.
pub open spec fn source_group(source: GamepadBindingSource) -> Option<
    (GamepadPathTarget, Option<GamepadPathTargetSide>),
> {
    match source {
        GamepadBindingSource::LeftStickX
        | GamepadBindingSource::LeftStickY
        | GamepadBindingSource::LeftStickClick => Some(
            (GamepadPathTarget::Thumbstick, Some(GamepadPathTargetSide::Left)),
        ),
        GamepadBindingSource::RightStickX
        | GamepadBindingSource::RightStickY
        | GamepadBindingSource::RightStickClick => Some(
            (GamepadPathTarget::Thumbstick, Some(GamepadPathTargetSide::Right)),
        ),
        GamepadBindingSource::LeftTrigger => Some(
            (GamepadPathTarget::Trigger, Some(GamepadPathTargetSide::Left)),
        ),
        GamepadBindingSource::RightTrigger => Some(
            (GamepadPathTarget::Trigger, Some(GamepadPathTargetSide::Right)),
        ),
        GamepadBindingSource::LeftSecondaryTrigger => Some(
            (GamepadPathTarget::SecondaryTrigger, Some(GamepadPathTargetSide::Left)),
        ),
        GamepadBindingSource::RightSecondaryTrigger => Some(
            (GamepadPathTarget::SecondaryTrigger, Some(GamepadPathTargetSide::Right)),
        ),
        GamepadBindingSource::South
        | GamepadBindingSource::East
        | GamepadBindingSource::North
        | GamepadBindingSource::West => Some((GamepadPathTarget::Buttons, None)),
        GamepadBindingSource::DPadUp
        | GamepadBindingSource::DPadDown
        | GamepadBindingSource::DPadLeft
        | GamepadBindingSource::DPadRight => Some((GamepadPathTarget::Dpad, None)),
        _ => None,
    }
}

/// A source belongs to the group `target`, and, when a side is given and the group has
/// sides, to that side.
pub open spec fn target_matches(
    target: GamepadPathTarget,
    side: Option<GamepadPathTargetSide>,
    source: GamepadBindingSource,
) -> bool {
    match source_group(source) {
        Some((group, source_side)) => group == target && (side is None || source_side is None
            || source_side == side),
        None => false,
    }
}

impl GamepadPathTarget {
    /// Whether `source` belongs to this group (on the side `side`, if given).
    pub fn matches(&self, source: &GamepadBindingSource, side: Option<&GamepadPathTargetSide>) -> (r:
        bool)
        ensures
            r == target_matches(
                *self,
                match side {
                    Some(s) => Some(*s),
                    None => None,
                },
                *source,
            ),
    {
        match (self, side, source) {
            (GamepadPathTarget::Thumbstick, None, GamepadBindingSource::LeftStickX) => true,
            (GamepadPathTarget::Thumbstick, None, GamepadBindingSource::LeftStickY) => true,
            (GamepadPathTarget::Thumbstick, None, GamepadBindingSource::RightStickX) => true,
            (GamepadPathTarget::Thumbstick, None, GamepadBindingSource::RightStickY) => true,
            (
                GamepadPathTarget::Thumbstick,
                Some(GamepadPathTargetSide::Left),
                GamepadBindingSource::LeftStickX,
            ) => true,
            (
                GamepadPathTarget::Thumbstick,
                Some(GamepadPathTargetSide::Left),
                GamepadBindingSource::LeftStickY,
            ) => true,
            (
                GamepadPathTarget::Thumbstick,
                Some(GamepadPathTargetSide::Right),
                GamepadBindingSource::RightStickX,
            ) => true,
            (
                GamepadPathTarget::Thumbstick,
                Some(GamepadPathTargetSide::Right),
                GamepadBindingSource::RightStickY,
            ) => true,
            (GamepadPathTarget::Trigger, None, GamepadBindingSource::LeftTrigger) => true,
            (GamepadPathTarget::Trigger, None, GamepadBindingSource::RightTrigger) => true,
            (
                GamepadPathTarget::Trigger,
                Some(GamepadPathTargetSide::Left),
                GamepadBindingSource::LeftTrigger,
            ) => true,
            (
                GamepadPathTarget::Trigger,
                Some(GamepadPathTargetSide::Right),
                GamepadBindingSource::RightTrigger,
            ) => true,
            (
                GamepadPathTarget::SecondaryTrigger,
                None,
                GamepadBindingSource::LeftSecondaryTrigger,
            ) => true,
            (
                GamepadPathTarget::SecondaryTrigger,
                None,
                GamepadBindingSource::RightSecondaryTrigger,
            ) => true,
            (
                GamepadPathTarget::SecondaryTrigger,
                Some(GamepadPathTargetSide::Left),
                GamepadBindingSource::LeftSecondaryTrigger,
            ) => true,
            (
                GamepadPathTarget::SecondaryTrigger,
                Some(GamepadPathTargetSide::Right),
                GamepadBindingSource::RightSecondaryTrigger,
            ) => true,
            (GamepadPathTarget::Thumbstick, None, GamepadBindingSource::LeftStickClick) => true,
            (GamepadPathTarget::Thumbstick, None, GamepadBindingSource::RightStickClick) => true,
            (
                GamepadPathTarget::Thumbstick,
                Some(GamepadPathTargetSide::Left),
                GamepadBindingSource::LeftStickClick,
            ) => true,
            (
                GamepadPathTarget::Thumbstick,
                Some(GamepadPathTargetSide::Right),
                GamepadBindingSource::RightStickClick,
            ) => true,
            (GamepadPathTarget::Buttons, None, GamepadBindingSource::South) => true,
            (GamepadPathTarget::Buttons, None, GamepadBindingSource::East) => true,
            (GamepadPathTarget::Buttons, None, GamepadBindingSource::North) => true,
            (GamepadPathTarget::Buttons, None, GamepadBindingSource::West) => true,
            (GamepadPathTarget::Buttons, Some(_), GamepadBindingSource::South) => true,
            (GamepadPathTarget::Buttons, Some(_), GamepadBindingSource::East) => true,
            (GamepadPathTarget::Buttons, Some(_), GamepadBindingSource::North) => true,
            (GamepadPathTarget::Buttons, Some(_), GamepadBindingSource::West) => true,
            (GamepadPathTarget::Dpad, None, GamepadBindingSource::DPadUp) => true,
            (GamepadPathTarget::Dpad, None, GamepadBindingSource::DPadDown) => true,
            (GamepadPathTarget::Dpad, None, GamepadBindingSource::DPadLeft) => true,
            (GamepadPathTarget::Dpad, None, GamepadBindingSource::DPadRight) => true,
            (GamepadPathTarget::Dpad, Some(_), GamepadBindingSource::DPadUp) => true,
            (GamepadPathTarget::Dpad, Some(_), GamepadBindingSource::DPadDown) => true,
            (GamepadPathTarget::Dpad, Some(_), GamepadBindingSource::DPadLeft) => true,
            (GamepadPathTarget::Dpad, Some(_), GamepadBindingSource::DPadRight) => true,
            _ => false,
        }
    }
}

/// A path restricted to a side selects no source that the same path without the side
/// does not select: adding a side only narrows a path.
pub proof fn lemma_side_narrows_target(
    target: GamepadPathTarget,
    side: GamepadPathTargetSide,
    source: GamepadBindingSource,
)
    ensures
        target_matches(target, Some(side), source) ==> target_matches(target, None, source),
{
}

/// For the face buttons and the d-pad a side makes no difference.
pub proof fn lemma_side_ignored_without_sides(
    target: GamepadPathTarget,
    side: GamepadPathTargetSide,
    source: GamepadBindingSource,
)
    requires
        target == GamepadPathTarget::Buttons || target == GamepadPathTarget::Dpad,
    ensures
        target_matches(target, Some(side), source) == target_matches(target, None, source),
{
}

/// The left and the right side of a group have no source in common.
pub proof fn lemma_sides_disjoint(target: GamepadPathTarget, source: GamepadBindingSource)
    requires
        target != GamepadPathTarget::Buttons && target != GamepadPathTarget::Dpad,
    ensures
        !(target_matches(target, Some(GamepadPathTargetSide::Left), source) && target_matches(
            target,
            Some(GamepadPathTargetSide::Right),
            source,
        )),
{
}

/// A gamepad motor that haptic feedback drives.
#[derive(Clone, Copy, Debug, PartialEq, Eq, Structural, Hash)]
pub enum GamepadHapticType {
    Weak,
    Strong,
}

impl GamepadHapticType {
    /// The text shown for the motor.
    pub fn to_display_string(&self) -> (r: String)
        ensures
            r@ == (match *self {
                GamepadHapticType::Weak => "Weak"@,
                GamepadHapticType::Strong => "Strong"@,
            }),
    {
        match self {
            GamepadHapticType::Weak => "Weak".to_string(),
            GamepadHapticType::Strong => "Strong".to_string(),
        }
    }
}

/// The motors a haptic action drives, in order.
#[derive(Clone, Debug)]
pub struct GamepadHapticOutputBindings {
    pub bindings: Vec<GamepadHapticType>,
}

impl GamepadHapticOutputBindings {
    /// No motors.
    pub fn new() -> (r: GamepadHapticOutputBindings)
        ensures
            r.bindings@ == Seq::<GamepadHapticType>::empty(),
    {
        GamepadHapticOutputBindings { bindings: Vec::new() }
    }

    /// Adds the weak motor.
    pub fn weak(self) -> (r: GamepadHapticOutputBindings)
        ensures
            r.bindings@ == self.bindings@.push(GamepadHapticType::Weak),
    {
        let mut s = self;
        s.bindings.push(GamepadHapticType::Weak);
        s
    }

    /// Adds the strong motor.
    pub fn strong(self) -> (r: GamepadHapticOutputBindings)
        ensures
            r.bindings@ == self.bindings@.push(GamepadHapticType::Strong),
    {
        let mut s = self;
        s.bindings.push(GamepadHapticType::Strong);
        s
    }
}

impl Default for GamepadHapticOutputBindings {
    fn default() -> (r: GamepadHapticOutputBindings)
        ensures
            r.bindings@ == Seq::<GamepadHapticType>::empty(),
    {
        GamepadHapticOutputBindings::new()
    }
}

/// A binding of an action to one gamepad source.
#[derive(Clone, Copy, Debug, PartialEq, Eq, Structural, Hash)]
pub struct GamepadBinding {
    pub source: GamepadBindingSource,
    pub button_behavior: ButtonInputBeheavior,
    pub axis: InputAxis,
    pub axis_dir: InputAxisDirection,
}

/// A binding to `source` with the default behavior (pressed), axis (Y) and direction
/// (positive).
pub open spec fn default_gamepad_binding(source: GamepadBindingSource) -> GamepadBinding {
    GamepadBinding {
        source,
        button_behavior: ButtonInputBeheavior::Pressed,
        axis: InputAxis::Y,
        axis_dir: InputAxisDirection::Positive,
    }
}

impl GamepadBinding {
    /// A binding to `source` with the default behavior (pressed), axis (Y) and direction
    /// (positive).
    pub fn new(source: GamepadBindingSource) -> (r: GamepadBinding)
        ensures
            r == default_gamepad_binding(source),
    {
        GamepadBinding {
            source,
            button_behavior: ButtonInputBeheavior::default(),
            axis: InputAxis::default(),
            axis_dir: InputAxisDirection::default(),
        }
    }

    /// The binding, active on the frame its button is pressed.
    pub fn button_just_pressed(self) -> (r: GamepadBinding)
        ensures
            r == (GamepadBinding { button_behavior: ButtonInputBeheavior::JustPressed, ..self }),
    {
        GamepadBinding { button_behavior: ButtonInputBeheavior::JustPressed, ..self }
    }

    /// The binding, active while its button is held.
    pub fn button_pressed(self) -> (r: GamepadBinding)
        ensures
            r == (GamepadBinding { button_behavior: ButtonInputBeheavior::Pressed, ..self }),
    {
        GamepadBinding { button_behavior: ButtonInputBeheavior::Pressed, ..self }
    }

    /// The binding, active on the frame its button is released.
    pub fn button_just_released(self) -> (r: GamepadBinding)
        ensures
            r == (GamepadBinding { button_behavior: ButtonInputBeheavior::JustReleased, ..self }),
    {
        GamepadBinding { button_behavior: ButtonInputBeheavior::JustReleased, ..self }
    }

    /// The binding, writing to the X axis.
    pub fn x_axis(self) -> (r: GamepadBinding)
        ensures
            r == (GamepadBinding { axis: InputAxis::X, ..self }),
    {
        GamepadBinding { axis: InputAxis::X, ..self }
    }

    /// The binding, writing to the Y axis.
    pub fn y_axis(self) -> (r: GamepadBinding)
        ensures
            r == (GamepadBinding { axis: InputAxis::Y, ..self }),
    {
        GamepadBinding { axis: InputAxis::Y, ..self }
    }

    /// The binding, writing with a positive sign.
    pub fn positive(self) -> (r: GamepadBinding)
        ensures
            r == (GamepadBinding { axis_dir: InputAxisDirection::Positive, ..self }),
    {
        GamepadBinding { axis_dir: InputAxisDirection::Positive, ..self }
    }

    /// The binding, writing with a negative sign.
    pub fn negative(self) -> (r: GamepadBinding)
        ensures
            r == (GamepadBinding { axis_dir: InputAxisDirection::Negative, ..self }),
    {
        GamepadBinding { axis_dir: InputAxisDirection::Negative, ..self }
    }
}

/// The gamepad bindings of an action, in order.
#[derive(Clone, Debug)]
pub struct GamepadBindings {
    pub bindings: Vec<GamepadBinding>,
}

impl GamepadBindings {
    /// No bindings.
    pub fn new() -> (r: GamepadBindings)
        ensures
            r.bindings@ == Seq::<GamepadBinding>::empty(),
    {
        GamepadBindings { bindings: Vec::new() }
    }

    /// Adds `binding` at the end.
    pub fn add_binding(self, binding: GamepadBinding) -> (r: GamepadBindings)
        ensures
            r.bindings@ == self.bindings@.push(binding),
    {
        let mut s = self;
        s.bindings.push(binding);
        s
    }
}

impl Default for GamepadBindings {
    fn default() -> (r: GamepadBindings)
        ensures
            r.bindings@ == Seq::<GamepadBinding>::empty(),
    {
        GamepadBindings::new()
    }
}

/// Whether the identifier `identifier` (if any) is the text `id`.
pub open spec fn identifier_is(identifier: Option<GamepadIdentifier>, id: Seq<char>) -> bool {
    match identifier {
        Some(i) => i.0@ == id,
        None => false,
    }
}

/// The index of the first gamepad at or after `from` whose identifier is `id`.
pub open spec fn first_gamepad_with(
    identifiers: Seq<Option<GamepadIdentifier>>,
    id: Seq<char>,
    from: int,
) -> Option<int>
    decreases identifiers.len() - from,
{
    if from < 0 || from >= identifiers.len() {
        None
    } else if identifier_is(identifiers[from], id) {
        Some(from)
    } else {
        first_gamepad_with(identifiers, id, from + 1)
    }
}

/// The gamepads a selector picks, by index into `identifiers`: all of them, or the first
/// one whose identifier is the selector's text (none if there is no such gamepad).
pub open spec fn selected_gamepads(
    selector: GamepadPathSelectorView,
    identifiers: Seq<Option<GamepadIdentifier>>,
) -> Seq<usize> {
    match selector {
        GamepadPathSelectorView::All => Seq::new(identifiers.len(), |i: int| i as usize),
        GamepadPathSelectorView::Gamepad(id) => match first_gamepad_with(identifiers, id, 0) {
            Some(i) => seq![i as usize],
            None => Seq::empty(),
        },
    }
}

/// The gamepads `selector` picks among gamepads with the identifiers `identifiers`.
pub fn select_gamepads(
    selector: &GamepadPathSelector,
    identifiers: &Vec<Option<GamepadIdentifier>>,
) -> (r: Vec<usize>)
    ensures
        r@ == selected_gamepads(selector@, identifiers@),
{
    match selector {
        GamepadPathSelector::All => {
            let mut r: Vec<usize> = Vec::new();
            let mut i: usize = 0;
            while i < identifiers.len()
                invariant
                    i <= identifiers@.len(),
                    r@ == Seq::new(i as nat, |k: int| k as usize),
                decreases identifiers@.len() - i,
            {
                r.push(i);
                i = i + 1;
                assert(r@ =~= Seq::new(i as nat, |k: int| k as usize));
            }
            r
        },
        GamepadPathSelector::Gamepad(id) => {
            let mut i: usize = 0;
            while i < identifiers.len()
                invariant
                    i <= identifiers@.len(),
                    selector@ == GamepadPathSelectorView::Gamepad(id@),
                    first_gamepad_with(identifiers@, id@, 0) == first_gamepad_with(
                        identifiers@,
                        id@,
                        i as int,
                    ),
                decreases identifiers@.len() - i,
            {
                let found = match &identifiers[i] {
                    Some(identifier) => identifier.0 == *id,
                    None => false,
                };
                if found {
                    let mut r: Vec<usize> = Vec::new();
                    r.push(i);
                    assert(r@ =~= seq![i]);
                    return r;
                }
                i = i + 1;
            }
            Vec::new()
        },
    }
}

/// A selector naming a gamepad picks at most one gamepad, and the one it picks carries
/// that identifier; the selector for all gamepads picks each of them once, in order.
pub proof fn lemma_selected_gamepads(
    selector: GamepadPathSelectorView,
    identifiers: Seq<Option<GamepadIdentifier>>,
)
    requires
        identifiers.len() <= usize::MAX,
    ensures
        match selector {
            GamepadPathSelectorView::All => {
                &&& selected_gamepads(selector, identifiers).len() == identifiers.len()
                &&& forall|k: int|
                    0 <= k < identifiers.len() ==> #[trigger] selected_gamepads(selector, identifiers)[k]
                        == k as usize
            },
            GamepadPathSelectorView::Gamepad(id) => {
                &&& selected_gamepads(selector, identifiers).len() <= 1
                &&& forall|k: int|
                    0 <= k < selected_gamepads(selector, identifiers).len() ==> {
                        let g = #[trigger] selected_gamepads(selector, identifiers)[k] as int;
                        0 <= g < identifiers.len() && identifier_is(identifiers[g], id)
                            && forall|j: int| 0 <= j < g ==> !identifier_is(identifiers[j], id)
                    }
            },
        },
{
    if let GamepadPathSelectorView::Gamepad(id) = selector {
        lemma_first_gamepad_with(identifiers, id, 0);
    }
}

proof fn lemma_first_gamepad_with(identifiers: Seq<Option<GamepadIdentifier>>, id: Seq<char>, from: int)
    requires
        0 <= from,
    ensures
        first_gamepad_with(identifiers, id, from) matches Some(g) ==> from <= g < identifiers.len()
            && identifier_is(identifiers[g], id) && forall|j: int| from <= j < g ==> !identifier_is(
            identifiers[j],
            id,
        ),
    decreases identifiers.len() - from,
{
    if from < identifiers.len() && !identifier_is(identifiers[from], id) {
        lemma_first_gamepad_with(identifiers, id, from + 1);
    }
}

/// Whether a requested path with the given group and side selects a binding reading
/// `source`: every binding when the path names no group.
pub open spec fn path_selects_source(
    target: Option<GamepadPathTarget>,
    side: Option<GamepadPathTargetSide>,
    source: GamepadBindingSource,
) -> bool {
    match target {
        Some(t) => target_matches(t, side, source),
        None => true,
    }
}

/// Whether a per-path modification whose path has the data `path` applies to a binding
/// reading `source`: only a path that names a group containing the source does.
pub open spec fn modification_applies(
    path: Option<GamepadSubactionPath>,
    source: GamepadBindingSource,
) -> bool {
    match path {
        Some(p) => match p.target {
            Some(t) => target_matches(t, p.side, source),
            None => false,
        },
        None => false,
    }
}

/// The per-path modifications of an action as seen from a binding reading `source`.
pub open spec fn modifications_for_source(
    per_path: Seq<(Option<GamepadSubactionPath>, Option<ModificationFlags>)>,
    source: GamepadBindingSource,
) -> Seq<PathModification> {
    Seq::new(
        per_path.len(),
        |k: int| PathModification { applies: modification_applies(per_path[k].0, source), flags: per_path[k].1 },
    )
}

/// For a requested path: the bindings it selects (by index) and the gamepads it reads
/// them from.
#[derive(Clone, Debug)]
pub struct GamepadPathPlan {
    pub bindings: Vec<usize>,
    pub gamepads: Vec<usize>,
}

/// What a gamepad action reads in one frame: the modifications in effect for each
/// binding, and for each requested path whose path data exists, its bindings and
/// gamepads. For the value for any path every binding is read from every gamepad.
#[derive(Clone, Debug)]
pub struct GamepadSyncPlan {
    pub modifications: Vec<ModificationFlags>,
    pub paths: Vec<Option<GamepadPathPlan>>,
}

/// The plan for one gamepad action. `set_enabled` tells whether the action's set exists
/// and is enabled; `per_path` holds the action's per-path modifications as the path data
/// of their path (if it exists) and the markers of their modification entity (if it
/// exists); `requested` the path data of the requested paths; `identifiers` the
/// identifiers of the connected gamepads.
pub fn plan_gamepad_sync(
    set_enabled: bool,
    all_paths: Option<ModificationFlags>,
    bindings: &Vec<GamepadBinding>,
    per_path: &Vec<(Option<GamepadSubactionPath>, Option<ModificationFlags>)>,
    requested: &Vec<Option<GamepadSubactionPath>>,
    identifiers: &Vec<Option<GamepadIdentifier>>,
) -> (r: Option<GamepadSyncPlan>)
    ensures
        r is None <==> !set_enabled,
        r matches Some(plan) ==> {
            &&& plan.modifications@.len() == bindings@.len()
            &&& forall|i: int|
                0 <= i < bindings@.len() ==> #[trigger] plan.modifications@[i]
                    == combined_modifications(
                    all_paths,
                    modifications_for_source(per_path@, bindings@[i].source),
                )
            &&& plan.paths@.len() == requested@.len()
            &&& forall|j: int|
                0 <= j < requested@.len() ==> match (#[trigger] plan.paths@[j], requested@[j]) {
                    (None, None) => true,
                    (Some(path_plan), Some(p)) => {
                        &&& is_selection(
                            path_plan.bindings@,
                            Seq::new(
                                bindings@.len(),
                                |i: int| path_selects_source(p.target, p.side, bindings@[i].source),
                            ),
                        )
                        &&& path_plan.gamepads@ == selected_gamepads(p.selector@, identifiers@)
                    },
                    _ => false,
                }
        },
{
    if !set_enabled {
        return None;
    }
    let mut modifications: Vec<ModificationFlags> = Vec::new();
    let mut i: usize = 0;
    while i < bindings.len()
        invariant
            i <= bindings@.len(),
            modifications@.len() == i,
            forall|k: int|
                0 <= k < i ==> #[trigger] modifications@[k] == combined_modifications(
                    all_paths,
                    modifications_for_source(per_path@, bindings@[k].source),
                ),
        decreases bindings@.len() - i,
    {
        let source = bindings[i].source;
        let mut entries: Vec<PathModification> = Vec::new();
        let mut k: usize = 0;
        while k < per_path.len()
            invariant
                k <= per_path@.len(),
                entries@ == modifications_for_source(per_path@, source).take(k as int),
            decreases per_path@.len() - k,
        {
            let applies = match &per_path[k].0 {
                Some(p) => match p.target {
                    Some(t) => t.matches(&source, p.side.as_ref()),
                    None => false,
                },
                None => false,
            };
            entries.push(PathModification { applies, flags: per_path[k].1 });
            k = k + 1;
            assert(entries@ =~= modifications_for_source(per_path@, source).take(k as int));
        }
        assert(entries@ =~= modifications_for_source(per_path@, source));
        modifications.push(combine_modifications(all_paths, &entries));
        i = i + 1;
    }
    let mut paths: Vec<Option<GamepadPathPlan>> = Vec::new();
    let mut j: usize = 0;
    while j < requested.len()
        invariant
            j <= requested@.len(),
            paths@.len() == j,
            forall|q: int|
                0 <= q < j ==> match (#[trigger] paths@[q], requested@[q]) {
                    (None, None) => true,
                    (Some(path_plan), Some(p)) => {
                        &&& is_selection(
                            path_plan.bindings@,
                            Seq::new(
                                bindings@.len(),
                                |i: int| path_selects_source(p.target, p.side, bindings@[i].source),
                            ),
                        )
                        &&& path_plan.gamepads@ == selected_gamepads(p.selector@, identifiers@)
                    },
                    _ => false,
                },
        decreases requested@.len() - j,
    {
        match &requested[j] {
            Some(p) => {
                let mut matches: Vec<bool> = Vec::new();
                let mut b: usize = 0;
                while b < bindings.len()
                    invariant
                        b <= bindings@.len(),
                        matches@ == Seq::new(
                            b as nat,
                            |i: int| path_selects_source(p.target, p.side, bindings@[i].source),
                        ),
                    decreases bindings@.len() - b,
                {
                    let selected = match p.target {
                        Some(t) => t.matches(&bindings[b].source, p.side.as_ref()),
                        None => true,
                    };
                    matches.push(selected);
                    b = b + 1;
                    assert(matches@ =~= Seq::new(
                        b as nat,
                        |i: int| path_selects_source(p.target, p.side, bindings@[i].source),
                    ));
                }
                let selected = select_matching(&matches);
                let gamepads = select_gamepads(&p.selector, identifiers);
                paths.push(Some(GamepadPathPlan { bindings: selected, gamepads }));
            },
            None => paths.push(None),
        }
        j = j + 1;
    }
    Some(GamepadSyncPlan { modifications, paths })
}


/// One rumble request to send: the feedback at index `feedback` of the action's list for
/// any path (`path` is `None`) or of the list for its requested path number `path`, on
/// the motor `motor` of the gamepad at index `gamepad`.
#[derive(Clone, Copy, Debug, PartialEq, Eq, Structural)]
pub struct HapticSend {
    pub path: Option<usize>,
    pub feedback: usize,
    pub motor: GamepadHapticType,
    pub gamepad: usize,
}

/// Each of the `count` feedbacks of a list, in order, on one motor of one gamepad.
pub open spec fn feedback_sends(path: Option<usize>, count: nat, motor: GamepadHapticType, gamepad: usize) -> Seq<
    HapticSend,
> {
    Seq::new(count, |e: int| HapticSend { path, feedback: e as usize, motor, gamepad })
}

/// The sends of one list of `count` feedbacks on one motor of one gamepad are exactly the
/// feedbacks `0, 1, ..., count - 1` in that order, each marked with the list's path, the
/// motor and the gamepad; for a subaction path's list as for the list for any path.
pub proof fn lemma_feedback_sends_in_list_order(
    path: Option<usize>,
    count: nat,
    motor: GamepadHapticType,
    gamepad: usize,
)
    requires
        count <= usize::MAX + 1,
    ensures
        feedback_sends(path, count, motor, gamepad).len() == count,
        forall|e: int|
            0 <= e < count ==> #[trigger] feedback_sends(path, count, motor, gamepad)[e]
                == (HapticSend { path, feedback: e as usize, motor, gamepad }),
        forall|e: int|
            0 <= e < count ==> #[trigger] feedback_sends(path, count, motor, gamepad)[e].feedback
                == e,
{
}

/// For each gamepad of `gamepads`, in order, each feedback of a list on one motor.
pub open spec fn gamepads_sends(path: Option<usize>, count: nat, motor: GamepadHapticType, gamepads: Seq<usize>) -> Seq<
    HapticSend,
>
    decreases gamepads.len(),
{
    if gamepads.len() == 0 {
        Seq::empty()
    } else {
        gamepads_sends(path, count, motor, gamepads.drop_last()) + feedback_sends(
            path,
            count,
            motor,
            gamepads.last(),
        )
    }
}

/// For each motor of `motors`, in order, each feedback of a list on each gamepad of
/// `gamepads`.
pub open spec fn motors_sends(
    path: Option<usize>,
    count: nat,
    motors: Seq<GamepadHapticType>,
    gamepads: Seq<usize>,
) -> Seq<HapticSend>
    decreases motors.len(),
{
    if motors.len() == 0 {
        Seq::empty()
    } else {
        motors_sends(path, count, motors.drop_last(), gamepads) + gamepads_sends(
            path,
            count,
            motors.last(),
            gamepads,
        )
    }
}

/// The requests for the requested paths up to `paths.len()`: a path whose selector is
/// known sends its feedbacks to the gamepads the selector picks; a path without a selector
/// sends nothing.
pub open spec fn paths_sends(
    paths: Seq<Option<(GamepadPathSelector, usize)>>,
    motors: Seq<GamepadHapticType>,
    identifiers: Seq<Option<GamepadIdentifier>>,
) -> Seq<HapticSend>
    decreases paths.len(),
{
    if paths.len() == 0 {
        Seq::empty()
    } else {
        let rest = paths_sends(paths.drop_last(), motors, identifiers);
        match paths.last() {
            Some((selector, count)) => rest + motors_sends(
                Some((paths.len() - 1) as usize),
                count as nat,
                motors,
                selected_gamepads(selector@, identifiers),
            ),
            None => rest,
        }
    }
}

/// The rumble requests of a haptic action: none when its set is not enabled; else its
/// feedbacks for any path to every gamepad, then those of each requested path to the
/// gamepads the path selects, each for every motor of the action.
pub open spec fn haptics_plan(
    set_enabled: bool,
    motors: Seq<GamepadHapticType>,
    any_count: nat,
    paths: Seq<Option<(GamepadPathSelector, usize)>>,
    identifiers: Seq<Option<GamepadIdentifier>>,
) -> Seq<HapticSend> {
    if !set_enabled {
        Seq::empty()
    } else {
        motors_sends(None, any_count, motors, Seq::new(identifiers.len(), |i: int| i as usize))
            + paths_sends(paths, motors, identifiers)
    }
}

fn push_feedback_sends(
    out: &mut Vec<HapticSend>,
    path: Option<usize>,
    count: usize,
    motor: GamepadHapticType,
    gamepad: usize,
)
    ensures
        final(out)@ == old(out)@ + feedback_sends(path, count as nat, motor, gamepad),
{
    let ghost start = out@;
    let mut e: usize = 0;
    while e < count
        invariant
            e <= count,
            out@ == start + feedback_sends(path, e as nat, motor, gamepad),
        decreases count - e,
    {
        out.push(HapticSend { path, feedback: e, motor, gamepad });
        e = e + 1;
        assert(out@ =~= start + feedback_sends(path, e as nat, motor, gamepad));
    }
}

fn push_gamepads_sends(
    out: &mut Vec<HapticSend>,
    path: Option<usize>,
    count: usize,
    motor: GamepadHapticType,
    gamepads: &Vec<usize>,
)
    ensures
        final(out)@ == old(out)@ + gamepads_sends(path, count as nat, motor, gamepads@),
{
    let ghost start = out@;
    let mut g: usize = 0;
    while g < gamepads.len()
        invariant
            g <= gamepads@.len(),
            out@ == start + gamepads_sends(path, count as nat, motor, gamepads@.take(g as int)),
        decreases gamepads@.len() - g,
    {
        proof {
            assert(gamepads@.take(g + 1).drop_last() =~= gamepads@.take(g as int));
        }
        push_feedback_sends(out, path, count, motor, gamepads[g]);
        g = g + 1;
        assert(out@ =~= start + gamepads_sends(path, count as nat, motor, gamepads@.take(g as int)));
    }
    assert(gamepads@.take(gamepads@.len() as int) =~= gamepads@);
}

fn push_motors_sends(
    out: &mut Vec<HapticSend>,
    path: Option<usize>,
    count: usize,
    motors: &Vec<GamepadHapticType>,
    gamepads: &Vec<usize>,
)
    ensures
        final(out)@ == old(out)@ + motors_sends(path, count as nat, motors@, gamepads@),
{
    let ghost start = out@;
    let mut b: usize = 0;
    while b < motors.len()
        invariant
            b <= motors@.len(),
            out@ == start + motors_sends(path, count as nat, motors@.take(b as int), gamepads@),
        decreases motors@.len() - b,
    {
        proof {
            assert(motors@.take(b + 1).drop_last() =~= motors@.take(b as int));
        }
        push_gamepads_sends(out, path, count, motors[b], gamepads);
        b = b + 1;
        assert(out@ =~= start + motors_sends(path, count as nat, motors@.take(b as int), gamepads@));
    }
    assert(motors@.take(motors@.len() as int) =~= motors@);
}

/// The rumble requests of a haptic action, in the order in which they are sent.
/// `set_enabled` tells whether the action's set exists and is enabled; `motors` are the
/// action's haptic bindings; `any_count` is the number of its feedbacks for any path;
/// `paths[j]` is, for its requested path number `j`, the path's selector (if the path
/// has gamepad path data) and the number of the path's feedbacks; `identifiers` are the
/// identifiers of the connected gamepads.
pub fn plan_haptics(
    set_enabled: bool,
    motors: &Vec<GamepadHapticType>,
    any_count: usize,
    paths: &Vec<Option<(GamepadPathSelector, usize)>>,
    identifiers: &Vec<Option<GamepadIdentifier>>,
) -> (r: Vec<HapticSend>)
    ensures
        r@ == haptics_plan(set_enabled, motors@, any_count as nat, paths@, identifiers@),
{
    let mut out: Vec<HapticSend> = Vec::new();
    if !set_enabled {
        return out;
    }
    let mut all: Vec<usize> = Vec::new();
    let mut g: usize = 0;
    while g < identifiers.len()
        invariant
            g <= identifiers@.len(),
            all@ == Seq::new(g as nat, |i: int| i as usize),
        decreases identifiers@.len() - g,
    {
        all.push(g);
        g = g + 1;
        assert(all@ =~= Seq::new(g as nat, |i: int| i as usize));
    }
    push_motors_sends(&mut out, None, any_count, motors, &all);
    let ghost start = out@;
    let mut j: usize = 0;
    while j < paths.len()
        invariant
            j <= paths@.len(),
            out@ == start + paths_sends(paths@.take(j as int), motors@, identifiers@),
        decreases paths@.len() - j,
    {
        proof {
            assert(paths@.take(j + 1).drop_last() =~= paths@.take(j as int));
            assert(paths@.take(j + 1).last() == paths@[j as int]);
        }
        match &paths[j] {
            Some((selector, count)) => {
                let gamepads = select_gamepads(selector, identifiers);
                push_motors_sends(&mut out, Some(j), *count, motors, &gamepads);
            },
            None => {},
        }
        j = j + 1;
        assert(out@ =~= start + paths_sends(paths@.take(j as int), motors@, identifiers@));
    }
    assert(paths@.take(paths@.len() as int) =~= paths@);
    out
}

} // verus!
