//! The names under which binding settings are written in a bindings file, and reading
//! them back. Each setting is written as the name of its variant; numbered inputs as a
//! prefix followed by the number in decimal (`Other:5`, `OtherAxis:2`, `OtherButton:7`).
use crate::gamepad::{
    axis_source, button_source, decimal_text, digit_char, source_axis, source_button, source_group,
    string_from_chars, target_matches, GamepadAxis, GamepadBindingSource, GamepadButton,
    GamepadPathTarget, GamepadPathTargetSide,
};
use crate::mouse::MouseButton;
use crate::text::{chars_of, eq_str, starts_with, strip_prefix};
use crate::{ButtonInputBeheavior, InputAxis, InputAxisDirection};
use crate::gamepad::GamepadHapticType;
use vstd::prelude::*;

verus! {

/// The value of a string of decimal digits.
pub open spec fn digits_value(s: Seq<char>) -> int
    decreases s.len(),
{
    if s.len() == 0 {
        0
    } else {
        digits_value(s.drop_last()) * 10 + (s.last() as int - '0' as int)
    }
}

/// Whether `c` is a decimal digit.
pub open spec fn is_digit(c: char) -> bool {
    '0' <= c && c <= '9'
}

/// The number at most `max` whose decimal notation is `d`, if there is one.
pub open spec fn number_of(d: Seq<char>, max: nat) -> Option<nat> {
    if exists|n: nat| n <= max && decimal_text(n) == d {
        Some(choose|n: nat| n <= max && decimal_text(n) == d)
    } else {
        None
    }
}

proof fn lemma_digit_char(d: nat)
    requires
        d < 10,
    ensures
        is_digit(digit_char(d)),
        digit_char(d) as int - '0' as int == d,
{
}

/// The decimal notation of a number is made of digits, reads back as the number, and is
/// at most five characters long for numbers below 100000.
pub proof fn lemma_decimal_text(n: nat)
    ensures
        digits_value(decimal_text(n)) == n,
        decimal_text(n).len() >= 1,
        forall|i: int| 0 <= i < decimal_text(n).len() ==> is_digit(#[trigger] decimal_text(n)[i]),
        n < 10 ==> decimal_text(n).len() == 1,
        n < 100 ==> decimal_text(n).len() <= 2,
        n < 1000 ==> decimal_text(n).len() <= 3,
        n < 10000 ==> decimal_text(n).len() <= 4,
        n < 100000 ==> decimal_text(n).len() <= 5,
    decreases n,
{
    if n < 10 {
        lemma_digit_char(n);
        assert(decimal_text(n) =~= seq![digit_char(n)]);
        assert(decimal_text(n).drop_last() =~= Seq::<char>::empty());
        assert(digits_value(Seq::<char>::empty()) == 0);
        assert(digits_value(decimal_text(n)) == digits_value(decimal_text(n).drop_last()) * 10 + (
        decimal_text(n).last() as int - '0' as int));
    } else {
        let q = n / 10;
        let r = n % 10;
        lemma_decimal_text(q);
        lemma_digit_char(r);
        let t = decimal_text(n);
        assert(t == decimal_text(q) + seq![digit_char(r)]);
        assert(t.drop_last() =~= decimal_text(q));
        assert(t.last() == digit_char(r));
        assert(digits_value(t) == digits_value(t.drop_last()) * 10 + (t.last() as int - '0' as int));
        assert(q * 10 + r == n) by (nonlinear_arith)
            requires
                q == n / 10,
                r == n % 10,
        ;
        assert forall|i: int| 0 <= i < t.len() implies is_digit(#[trigger] t[i]) by {
            if i < t.len() - 1 {
                assert(t[i] == decimal_text(q)[i]);
            }
        }
    }
}

/// Different numbers have different decimal notations.
pub proof fn lemma_decimal_text_injective(a: nat, b: nat)
    ensures
        decimal_text(a) == decimal_text(b) ==> a == b,
{
    lemma_decimal_text(a);
    lemma_decimal_text(b);
}

/// The number whose decimal notation `d` is, if it is at most `max`.
pub proof fn lemma_number_of_decimal(n: nat, max: nat)
    requires
        n <= max,
    ensures
        number_of(decimal_text(n), max) == Some(n),
{
    let m = choose|m: nat| m <= max && decimal_text(m) == decimal_text(n);
    lemma_decimal_text_injective(m, n);
}

fn digit_char_of(d: u32) -> (c: char)
    requires
        d < 10,
    ensures
        c == digit_char(d as nat),
{
    match d {
        0 => '0',
        1 => '1',
        2 => '2',
        3 => '3',
        4 => '4',
        5 => '5',
        6 => '6',
        7 => '7',
        8 => '8',
        _ => '9',
    }
}

/// Appends the decimal notation of `n` to `out`.
fn push_decimal(out: &mut Vec<char>, n: u32)
    ensures
        final(out)@ == old(out)@ + decimal_text(n as nat),
    decreases n,
{
    if n >= 10 {
        push_decimal(out, n / 10);
    }
    out.push(digit_char_of(n % 10));
    proof {
        if n < 10 {
            assert(decimal_text(n as nat) == seq![digit_char(n as nat)]);
        }
        assert(final(out)@ =~= old(out)@ + decimal_text(n as nat)) by {
            if n >= 10 {
                assert(decimal_text(n as nat) == decimal_text((n / 10) as nat) + seq![
                    digit_char((n % 10) as nat),
                ]);
            }
        }
    }
}

/// The number at most `max` written in decimal by `v`, if there is one.
fn parse_decimal(v: &Vec<char>, max: u32) -> (r: Option<u32>)
    requires
        max < 100000,
    ensures
        match number_of(v@, max as nat) {
            Some(n) => r == Some(n as u32),
            None => r is None,
        },
{
    proof {
        if number_of(v@, max as nat) is Some {
            let n = choose|n: nat| n <= max && decimal_text(n) == v@;
            lemma_decimal_text(n);
        }
    }
    if v.len() == 0 || v.len() > 5 {
        return None;
    }
    let mut value: u32 = 0;
    let mut i: usize = 0;
    while i < v.len()
        invariant
            i <= v@.len() <= 5,
            value == digits_value(v@.take(i as int)),
            value < 100000,
            value < pow10(i as nat),
            forall|j: int| 0 <= j < i ==> is_digit(v@[j]),
        decreases v@.len() - i,
    {
        let c = v[i];
        if !('0' <= c && c <= '9') {
            proof {
                if number_of(v@, max as nat) is Some {
                    let n = choose|n: nat| n <= max && decimal_text(n) == v@;
                    lemma_decimal_text(n);
                    assert(is_digit(decimal_text(n)[i as int]));
                }
            }
            return None;
        }
        let d: u32 = (c as u32) - ('0' as u32);
        proof {
            assert(v@.take(i + 1).drop_last() =~= v@.take(i as int));
            assert(value * 10 + d < pow10((i + 1) as nat)) by (nonlinear_arith)
                requires
                    value < pow10(i as nat),
                    d < 10,
                    pow10((i + 1) as nat) == pow10(i as nat) * 10,
            ;
            assert(pow10((i + 1) as nat) <= 100000) by {
                lemma_pow10_bound((i + 1) as nat);
            }
        }
        value = value * 10 + d;
        i = i + 1;
    }
    assert(v@.take(i as int) =~= v@);
    if value > max {
        return None;
    }
    let mut text: Vec<char> = Vec::new();
    push_decimal(&mut text, value);
    assert(text@ =~= decimal_text(value as nat));
    if eq_chars(&text, v) {
        proof {
            lemma_number_of_decimal(value as nat, max as nat);
        }
        Some(value)
    } else {
        proof {
            if number_of(v@, max as nat) is Some {
                let n = choose|n: nat| n <= max && decimal_text(n) == v@;
                lemma_decimal_text(n);
            }
        }
        None
    }
}

/// Ten to the power `k`.
pub open spec fn pow10(k: nat) -> nat
    decreases k,
{
    if k == 0 {
        1
    } else {
        pow10((k - 1) as nat) * 10
    }
}

proof fn lemma_pow10_bound(k: nat)
    requires
        k <= 5,
    ensures
        pow10(k) <= 100000,
{
    reveal_with_fuel(pow10, 6);
}

/// Whether two character vectors are equal.
fn eq_chars(a: &Vec<char>, b: &Vec<char>) -> (r: bool)
    ensures
        r == (a@ == b@),
{
    if a.len() != b.len() {
        return false;
    }
    let mut i: usize = 0;
    while i < a.len()
        invariant
            a@.len() == b@.len(),
            i <= a@.len(),
            forall|j: int| 0 <= j < i ==> a@[j] == b@[j],
        decreases a@.len() - i,
    {
        if a[i] != b[i] {
            return false;
        }
        i = i + 1;
    }
    assert(a@ =~= b@);
    true
}


/// The name under which a `InputAxis` is written.
pub open spec fn axis_name(v: InputAxis) -> Seq<char> {
    match v {
        InputAxis::X => "X"@,
        InputAxis::Y => "Y"@,
    }
}

/// The `InputAxis` written under the name `s`, if any.
pub open spec fn axis_named(s: Seq<char>) -> Option<InputAxis> {
    if s == "X"@ {
        Some(InputAxis::X)
    } else if s == "Y"@ {
        Some(InputAxis::Y)
    } else {
        None
    }
}

/// The name under which `v` is written.
pub fn axis_to_name(v: InputAxis) -> (r: String)
    ensures
        r@ == axis_name(v),
{
    match v {
        InputAxis::X => "X".to_string(),
        InputAxis::Y => "Y".to_string(),
    }
}

/// The `InputAxis` written under the name `s`, if any.
pub fn axis_from_name(s: &Vec<char>) -> (r: Option<InputAxis>)
    ensures
        r == axis_named(s@),
{
    if eq_str(s, "X") {
        Some(InputAxis::X)
    } else if eq_str(s, "Y") {
        Some(InputAxis::Y)
    } else {
        None
    }
}

/// Reading a written name gives back what was written.
pub proof fn lemma_axis_name_round_trip(v: InputAxis)
    ensures
        axis_named(axis_name(v)) == Some(v),
{
    reveal_strlit("X");
    reveal_strlit("Y");
    assert("Y"@[0] != "X"@[0]);
}

/// The name under which a `InputAxisDirection` is written.
pub open spec fn axis_dir_name(v: InputAxisDirection) -> Seq<char> {
    match v {
        InputAxisDirection::Positive => "Positive"@,
        InputAxisDirection::Negative => "Negative"@,
    }
}

/// The `InputAxisDirection` written under the name `s`, if any.
pub open spec fn axis_dir_named(s: Seq<char>) -> Option<InputAxisDirection> {
    if s == "Positive"@ {
        Some(InputAxisDirection::Positive)
    } else if s == "Negative"@ {
        Some(InputAxisDirection::Negative)
    } else {
        None
    }
}

/// The name under which `v` is written.
pub fn axis_dir_to_name(v: InputAxisDirection) -> (r: String)
    ensures
        r@ == axis_dir_name(v),
{
    match v {
        InputAxisDirection::Positive => "Positive".to_string(),
        InputAxisDirection::Negative => "Negative".to_string(),
    }
}

/// The `InputAxisDirection` written under the name `s`, if any.
pub fn axis_dir_from_name(s: &Vec<char>) -> (r: Option<InputAxisDirection>)
    ensures
        r == axis_dir_named(s@),
{
    if eq_str(s, "Positive") {
        Some(InputAxisDirection::Positive)
    } else if eq_str(s, "Negative") {
        Some(InputAxisDirection::Negative)
    } else {
        None
    }
}

/// Reading a written name gives back what was written.
pub proof fn lemma_axis_dir_name_round_trip(v: InputAxisDirection)
    ensures
        axis_dir_named(axis_dir_name(v)) == Some(v),
{
    reveal_strlit("Positive");
    reveal_strlit("Negative");
    assert("Negative"@[0] != "Positive"@[0]);
}

/// The name under which a `ButtonInputBeheavior` is written.
pub open spec fn behavior_name(v: ButtonInputBeheavior) -> Seq<char> {
    match v {
        ButtonInputBeheavior::JustPressed => "JustPressed"@,
        ButtonInputBeheavior::Pressed => "Pressed"@,
        ButtonInputBeheavior::JustReleased => "JustReleased"@,
    }
}

/// The `ButtonInputBeheavior` written under the name `s`, if any.
pub open spec fn behavior_named(s: Seq<char>) -> Option<ButtonInputBeheavior> {
    if s == "JustPressed"@ {
        Some(ButtonInputBeheavior::JustPressed)
    } else if s == "Pressed"@ {
        Some(ButtonInputBeheavior::Pressed)
    } else if s == "JustReleased"@ {
        Some(ButtonInputBeheavior::JustReleased)
    } else {
        None
    }
}

/// The name under which `v` is written.
pub fn behavior_to_name(v: ButtonInputBeheavior) -> (r: String)
    ensures
        r@ == behavior_name(v),
{
    match v {
        ButtonInputBeheavior::JustPressed => "JustPressed".to_string(),
        ButtonInputBeheavior::Pressed => "Pressed".to_string(),
        ButtonInputBeheavior::JustReleased => "JustReleased".to_string(),
    }
}

/// The `ButtonInputBeheavior` written under the name `s`, if any.
pub fn behavior_from_name(s: &Vec<char>) -> (r: Option<ButtonInputBeheavior>)
    ensures
        r == behavior_named(s@),
{
    if eq_str(s, "JustPressed") {
        Some(ButtonInputBeheavior::JustPressed)
    } else if eq_str(s, "Pressed") {
        Some(ButtonInputBeheavior::Pressed)
    } else if eq_str(s, "JustReleased") {
        Some(ButtonInputBeheavior::JustReleased)
    } else {
        None
    }
}

/// Reading a written name gives back what was written.
pub proof fn lemma_behavior_name_round_trip(v: ButtonInputBeheavior)
    ensures
        behavior_named(behavior_name(v)) == Some(v),
{
    reveal_strlit("JustPressed");
    reveal_strlit("Pressed");
    reveal_strlit("JustReleased");
    assert("Pressed"@.len() != "JustPressed"@.len());
    assert("JustReleased"@.len() != "JustPressed"@.len());
    assert("JustReleased"@.len() != "Pressed"@.len());
}

/// The name under which a `GamepadHapticType` is written.
pub open spec fn haptic_name(v: GamepadHapticType) -> Seq<char> {
    match v {
        GamepadHapticType::Weak => "Weak"@,
        GamepadHapticType::Strong => "Strong"@,
    }
}

/// The `GamepadHapticType` written under the name `s`, if any.
pub open spec fn haptic_named(s: Seq<char>) -> Option<GamepadHapticType> {
    if s == "Weak"@ {
        Some(GamepadHapticType::Weak)
    } else if s == "Strong"@ {
        Some(GamepadHapticType::Strong)
    } else {
        None
    }
}

/// The name under which `v` is written.
pub fn haptic_to_name(v: GamepadHapticType) -> (r: String)
    ensures
        r@ == haptic_name(v),
{
    match v {
        GamepadHapticType::Weak => "Weak".to_string(),
        GamepadHapticType::Strong => "Strong".to_string(),
    }
}

/// The `GamepadHapticType` written under the name `s`, if any.
pub fn haptic_from_name(s: &Vec<char>) -> (r: Option<GamepadHapticType>)
    ensures
        r == haptic_named(s@),
{
    if eq_str(s, "Weak") {
        Some(GamepadHapticType::Weak)
    } else if eq_str(s, "Strong") {
        Some(GamepadHapticType::Strong)
    } else {
        None
    }
}

/// Reading a written name gives back what was written.
pub proof fn lemma_haptic_name_round_trip(v: GamepadHapticType)
    ensures
        haptic_named(haptic_name(v)) == Some(v),
{
    reveal_strlit("Weak");
    reveal_strlit("Strong");
    assert("Strong"@.len() != "Weak"@.len());
}


/// `prefix` followed by the decimal notation of `n`.
fn numbered(prefix: &str, n: u32) -> (r: String)
    ensures
        r@ == prefix@ + decimal_text(n as nat),
{
    let mut v = chars_of(prefix);
    push_decimal(&mut v, n);
    string_from_chars(&v)
}

/// The name under which a `MouseButton` is written.
pub open spec fn mouse_button_name(v: MouseButton) -> Seq<char> {
    match v {
        MouseButton::Left => "Left"@,
        MouseButton::Right => "Right"@,
        MouseButton::Middle => "Middle"@,
        MouseButton::Back => "Back"@,
        MouseButton::Forward => "Forward"@,
        MouseButton::Other(n) => "Other:"@ + decimal_text(n as nat),
    }
}

/// The `MouseButton` written under the name `s`, if any.
pub open spec fn mouse_button_named(s: Seq<char>) -> Option<MouseButton> {
    if s == "Left"@ {
        Some(MouseButton::Left)
    } else if s == "Right"@ {
        Some(MouseButton::Right)
    } else if s == "Middle"@ {
        Some(MouseButton::Middle)
    } else if s == "Back"@ {
        Some(MouseButton::Back)
    } else if s == "Forward"@ {
        Some(MouseButton::Forward)
    } else if starts_with(s, "Other:"@) {
        match number_of(s.skip("Other:"@.len() as int), 65535) {
            Some(n) => Some(MouseButton::Other(n as u16)),
            None => None,
        }
    } else {
        None
    }
}

/// The name under which `v` is written.
pub fn mouse_button_to_name(v: MouseButton) -> (r: String)
    ensures
        r@ == mouse_button_name(v),
{
    match v {
        MouseButton::Left => "Left".to_string(),
        MouseButton::Right => "Right".to_string(),
        MouseButton::Middle => "Middle".to_string(),
        MouseButton::Back => "Back".to_string(),
        MouseButton::Forward => "Forward".to_string(),
        MouseButton::Other(n) => numbered("Other:", n as u32),
    }
}

/// The `MouseButton` written under the name `s`, if any.
pub fn mouse_button_from_name(s: &Vec<char>) -> (r: Option<MouseButton>)
    ensures
        r == mouse_button_named(s@),
{
    if eq_str(s, "Left") {
        return Some(MouseButton::Left);
    }
    if eq_str(s, "Right") {
        return Some(MouseButton::Right);
    }
    if eq_str(s, "Middle") {
        return Some(MouseButton::Middle);
    }
    if eq_str(s, "Back") {
        return Some(MouseButton::Back);
    }
    if eq_str(s, "Forward") {
        return Some(MouseButton::Forward);
    }
    if let Some(rest) = strip_prefix(s, "Other:") {
        return match parse_decimal(&rest, 65535) {
            Some(n) => Some(MouseButton::Other(n as u16)),
            None => None,
        };
    }
    None
}

/// The name under which a `GamepadBindingSource` is written.
pub open spec fn gamepad_source_name(v: GamepadBindingSource) -> Seq<char> {
    match v {
        GamepadBindingSource::LeftStickX => "LeftStickX"@,
        GamepadBindingSource::LeftStickY => "LeftStickY"@,
        GamepadBindingSource::RightStickX => "RightStickX"@,
        GamepadBindingSource::RightStickY => "RightStickY"@,
        GamepadBindingSource::South => "South"@,
        GamepadBindingSource::East => "East"@,
        GamepadBindingSource::North => "North"@,
        GamepadBindingSource::West => "West"@,
        GamepadBindingSource::LeftTrigger => "LeftTrigger"@,
        GamepadBindingSource::LeftSecondaryTrigger => "LeftSecondaryTrigger"@,
        GamepadBindingSource::RightTrigger => "RightTrigger"@,
        GamepadBindingSource::RightSecondaryTrigger => "RightSecondaryTrigger"@,
        GamepadBindingSource::LeftStickClick => "LeftStickClick"@,
        GamepadBindingSource::RightStickClick => "RightStickClick"@,
        GamepadBindingSource::DPadUp => "DPadUp"@,
        GamepadBindingSource::DPadDown => "DPadDown"@,
        GamepadBindingSource::DPadLeft => "DPadLeft"@,
        GamepadBindingSource::DPadRight => "DPadRight"@,
        GamepadBindingSource::Select => "Select"@,
        GamepadBindingSource::Start => "Start"@,
        GamepadBindingSource::Mode => "Mode"@,
        GamepadBindingSource::LeftZ => "LeftZ"@,
        GamepadBindingSource::RightZ => "RightZ"@,
        GamepadBindingSource::C => "C"@,
        GamepadBindingSource::Z => "Z"@,
        GamepadBindingSource::OtherAxis(n) => "OtherAxis:"@ + decimal_text(n as nat),
        GamepadBindingSource::OtherButton(n) => "OtherButton:"@ + decimal_text(n as nat),
    }
}

/// The `GamepadBindingSource` written under the name `s`, if any.
pub open spec fn gamepad_source_named(s: Seq<char>) -> Option<GamepadBindingSource> {
    if s == "LeftStickX"@ {
        Some(GamepadBindingSource::LeftStickX)
    } else if s == "LeftStickY"@ {
        Some(GamepadBindingSource::LeftStickY)
    } else if s == "RightStickX"@ {
        Some(GamepadBindingSource::RightStickX)
    } else if s == "RightStickY"@ {
        Some(GamepadBindingSource::RightStickY)
    } else if s == "South"@ {
        Some(GamepadBindingSource::South)
    } else if s == "East"@ {
        Some(GamepadBindingSource::East)
    } else if s == "North"@ {
        Some(GamepadBindingSource::North)
    } else if s == "West"@ {
        Some(GamepadBindingSource::West)
    } else if s == "LeftTrigger"@ {
        Some(GamepadBindingSource::LeftTrigger)
    } else if s == "LeftSecondaryTrigger"@ {
        Some(GamepadBindingSource::LeftSecondaryTrigger)
    } else if s == "RightTrigger"@ {
        Some(GamepadBindingSource::RightTrigger)
    } else if s == "RightSecondaryTrigger"@ {
        Some(GamepadBindingSource::RightSecondaryTrigger)
    } else if s == "LeftStickClick"@ {
        Some(GamepadBindingSource::LeftStickClick)
    } else if s == "RightStickClick"@ {
        Some(GamepadBindingSource::RightStickClick)
    } else if s == "DPadUp"@ {
        Some(GamepadBindingSource::DPadUp)
    } else if s == "DPadDown"@ {
        Some(GamepadBindingSource::DPadDown)
    } else if s == "DPadLeft"@ {
        Some(GamepadBindingSource::DPadLeft)
    } else if s == "DPadRight"@ {
        Some(GamepadBindingSource::DPadRight)
    } else if s == "Select"@ {
        Some(GamepadBindingSource::Select)
    } else if s == "Start"@ {
        Some(GamepadBindingSource::Start)
    } else if s == "Mode"@ {
        Some(GamepadBindingSource::Mode)
    } else if s == "LeftZ"@ {
        Some(GamepadBindingSource::LeftZ)
    } else if s == "RightZ"@ {
        Some(GamepadBindingSource::RightZ)
    } else if s == "C"@ {
        Some(GamepadBindingSource::C)
    } else if s == "Z"@ {
        Some(GamepadBindingSource::Z)
    } else if starts_with(s, "OtherAxis:"@) {
        match number_of(s.skip("OtherAxis:"@.len() as int), 255) {
            Some(n) => Some(GamepadBindingSource::OtherAxis(n as u8)),
            None => None,
        }
    } else if starts_with(s, "OtherButton:"@) {
        match number_of(s.skip("OtherButton:"@.len() as int), 255) {
            Some(n) => Some(GamepadBindingSource::OtherButton(n as u8)),
            None => None,
        }
    } else {
        None
    }
}

/// The name under which `v` is written.
pub fn gamepad_source_to_name(v: GamepadBindingSource) -> (r: String)
    ensures
        r@ == gamepad_source_name(v),
{
    match v {
        GamepadBindingSource::LeftStickX => "LeftStickX".to_string(),
        GamepadBindingSource::LeftStickY => "LeftStickY".to_string(),
        GamepadBindingSource::RightStickX => "RightStickX".to_string(),
        GamepadBindingSource::RightStickY => "RightStickY".to_string(),
        GamepadBindingSource::South => "South".to_string(),
        GamepadBindingSource::East => "East".to_string(),
        GamepadBindingSource::North => "North".to_string(),
        GamepadBindingSource::West => "West".to_string(),
        GamepadBindingSource::LeftTrigger => "LeftTrigger".to_string(),
        GamepadBindingSource::LeftSecondaryTrigger => "LeftSecondaryTrigger".to_string(),
        GamepadBindingSource::RightTrigger => "RightTrigger".to_string(),
        GamepadBindingSource::RightSecondaryTrigger => "RightSecondaryTrigger".to_string(),
        GamepadBindingSource::LeftStickClick => "LeftStickClick".to_string(),
        GamepadBindingSource::RightStickClick => "RightStickClick".to_string(),
        GamepadBindingSource::DPadUp => "DPadUp".to_string(),
        GamepadBindingSource::DPadDown => "DPadDown".to_string(),
        GamepadBindingSource::DPadLeft => "DPadLeft".to_string(),
        GamepadBindingSource::DPadRight => "DPadRight".to_string(),
        GamepadBindingSource::Select => "Select".to_string(),
        GamepadBindingSource::Start => "Start".to_string(),
        GamepadBindingSource::Mode => "Mode".to_string(),
        GamepadBindingSource::LeftZ => "LeftZ".to_string(),
        GamepadBindingSource::RightZ => "RightZ".to_string(),
        GamepadBindingSource::C => "C".to_string(),
        GamepadBindingSource::Z => "Z".to_string(),
        GamepadBindingSource::OtherAxis(n) => numbered("OtherAxis:", n as u32),
        GamepadBindingSource::OtherButton(n) => numbered("OtherButton:", n as u32),
    }
}

/// The `GamepadBindingSource` written under the name `s`, if any.
pub fn gamepad_source_from_name(s: &Vec<char>) -> (r: Option<GamepadBindingSource>)
    ensures
        r == gamepad_source_named(s@),
{
    if eq_str(s, "LeftStickX") {
        return Some(GamepadBindingSource::LeftStickX);
    }
    if eq_str(s, "LeftStickY") {
        return Some(GamepadBindingSource::LeftStickY);
    }
    if eq_str(s, "RightStickX") {
        return Some(GamepadBindingSource::RightStickX);
    }
    if eq_str(s, "RightStickY") {
        return Some(GamepadBindingSource::RightStickY);
    }
    if eq_str(s, "South") {
        return Some(GamepadBindingSource::South);
    }
    if eq_str(s, "East") {
        return Some(GamepadBindingSource::East);
    }
    if eq_str(s, "North") {
        return Some(GamepadBindingSource::North);
    }
    if eq_str(s, "West") {
        return Some(GamepadBindingSource::West);
    }
    if eq_str(s, "LeftTrigger") {
        return Some(GamepadBindingSource::LeftTrigger);
    }
    if eq_str(s, "LeftSecondaryTrigger") {
        return Some(GamepadBindingSource::LeftSecondaryTrigger);
    }
    if eq_str(s, "RightTrigger") {
        return Some(GamepadBindingSource::RightTrigger);
    }
    if eq_str(s, "RightSecondaryTrigger") {
        return Some(GamepadBindingSource::RightSecondaryTrigger);
    }
    if eq_str(s, "LeftStickClick") {
        return Some(GamepadBindingSource::LeftStickClick);
    }
    if eq_str(s, "RightStickClick") {
        return Some(GamepadBindingSource::RightStickClick);
    }
    if eq_str(s, "DPadUp") {
        return Some(GamepadBindingSource::DPadUp);
    }
    if eq_str(s, "DPadDown") {
        return Some(GamepadBindingSource::DPadDown);
    }
    if eq_str(s, "DPadLeft") {
        return Some(GamepadBindingSource::DPadLeft);
    }
    if eq_str(s, "DPadRight") {
        return Some(GamepadBindingSource::DPadRight);
    }
    if eq_str(s, "Select") {
        return Some(GamepadBindingSource::Select);
    }
    if eq_str(s, "Start") {
        return Some(GamepadBindingSource::Start);
    }
    if eq_str(s, "Mode") {
        return Some(GamepadBindingSource::Mode);
    }
    if eq_str(s, "LeftZ") {
        return Some(GamepadBindingSource::LeftZ);
    }
    if eq_str(s, "RightZ") {
        return Some(GamepadBindingSource::RightZ);
    }
    if eq_str(s, "C") {
        return Some(GamepadBindingSource::C);
    }
    if eq_str(s, "Z") {
        return Some(GamepadBindingSource::Z);
    }
    if let Some(rest) = strip_prefix(s, "OtherAxis:") {
        return match parse_decimal(&rest, 255) {
            Some(n) => Some(GamepadBindingSource::OtherAxis(n as u8)),
            None => None,
        };
    }
    if let Some(rest) = strip_prefix(s, "OtherButton:") {
        return match parse_decimal(&rest, 255) {
            Some(n) => Some(GamepadBindingSource::OtherButton(n as u8)),
            None => None,
        };
    }
    None
}


/// Reading a written name gives back what was written.
pub proof fn lemma_mouse_button_name_round_trip(v: MouseButton)
    ensures
        mouse_button_named(mouse_button_name(v)) == Some(v),
{
    reveal_strlit("Left");
    reveal_strlit("Right");
    reveal_strlit("Middle");
    reveal_strlit("Back");
    reveal_strlit("Forward");
    reveal_strlit("Other:");
    match v {
        MouseButton::Left => {
        },
        MouseButton::Right => {
            assert("Right"@.len() != "Left"@.len());
        },
        MouseButton::Middle => {
            assert("Middle"@.len() != "Left"@.len());
            assert("Middle"@.len() != "Right"@.len());
        },
        MouseButton::Back => {
            assert("Back"@[0] != "Left"@[0]);
            assert("Back"@.len() != "Right"@.len());
            assert("Back"@.len() != "Middle"@.len());
        },
        MouseButton::Forward => {
            assert("Forward"@.len() != "Left"@.len());
            assert("Forward"@.len() != "Right"@.len());
            assert("Forward"@.len() != "Middle"@.len());
            assert("Forward"@.len() != "Back"@.len());
        },
        MouseButton::Other(n) => {
            let name = "Other:"@ + decimal_text(n as nat);
            lemma_decimal_text(n as nat);
            assert(name[0] == "Other:"@[0]);
            assert("Left"@[0] != "Other:"@[0]);
            assert("Right"@[0] != "Other:"@[0]);
            assert("Middle"@[0] != "Other:"@[0]);
            assert("Back"@[0] != "Other:"@[0]);
            assert("Forward"@[0] != "Other:"@[0]);
            assert(name.take("Other:"@.len() as int) =~= "Other:"@);
            assert(name.skip("Other:"@.len() as int) =~= decimal_text(n as nat));
            lemma_number_of_decimal(n as nat, 65535);
        },
    }
}

/// Reading a written name gives back what was written.
pub proof fn lemma_gamepad_source_name_round_trip(v: GamepadBindingSource)
    ensures
        gamepad_source_named(gamepad_source_name(v)) == Some(v),
{
    reveal_strlit("LeftStickX");
    reveal_strlit("LeftStickY");
    reveal_strlit("RightStickX");
    reveal_strlit("RightStickY");
    reveal_strlit("South");
    reveal_strlit("East");
    reveal_strlit("North");
    reveal_strlit("West");
    reveal_strlit("LeftTrigger");
    reveal_strlit("LeftSecondaryTrigger");
    reveal_strlit("RightTrigger");
    reveal_strlit("RightSecondaryTrigger");
    reveal_strlit("LeftStickClick");
    reveal_strlit("RightStickClick");
    reveal_strlit("DPadUp");
    reveal_strlit("DPadDown");
    reveal_strlit("DPadLeft");
    reveal_strlit("DPadRight");
    reveal_strlit("Select");
    reveal_strlit("Start");
    reveal_strlit("Mode");
    reveal_strlit("LeftZ");
    reveal_strlit("RightZ");
    reveal_strlit("C");
    reveal_strlit("Z");
    reveal_strlit("OtherAxis:");
    reveal_strlit("OtherButton:");
    match v {
        GamepadBindingSource::LeftStickX => {
        },
        GamepadBindingSource::LeftStickY => {
            assert("LeftStickY"@[9] != "LeftStickX"@[9]);
        },
        GamepadBindingSource::RightStickX => {
            assert("RightStickX"@.len() != "LeftStickX"@.len());
            assert("RightStickX"@.len() != "LeftStickY"@.len());
        },
        GamepadBindingSource::RightStickY => {
            assert("RightStickY"@.len() != "LeftStickX"@.len());
            assert("RightStickY"@.len() != "LeftStickY"@.len());
            assert("RightStickY"@[10] != "RightStickX"@[10]);
        },
        GamepadBindingSource::South => {
            assert("South"@.len() != "LeftStickX"@.len());
            assert("South"@.len() != "LeftStickY"@.len());
            assert("South"@.len() != "RightStickX"@.len());
            assert("South"@.len() != "RightStickY"@.len());
        },
        GamepadBindingSource::East => {
            assert("East"@.len() != "LeftStickX"@.len());
            assert("East"@.len() != "LeftStickY"@.len());
            assert("East"@.len() != "RightStickX"@.len());
            assert("East"@.len() != "RightStickY"@.len());
            assert("East"@.len() != "South"@.len());
        },
        GamepadBindingSource::North => {
            assert("North"@.len() != "LeftStickX"@.len());
            assert("North"@.len() != "LeftStickY"@.len());
            assert("North"@.len() != "RightStickX"@.len());
            assert("North"@.len() != "RightStickY"@.len());
            assert("North"@[0] != "South"@[0]);
            assert("North"@.len() != "East"@.len());
        },
        GamepadBindingSource::West => {
            assert("West"@.len() != "LeftStickX"@.len());
            assert("West"@.len() != "LeftStickY"@.len());
            assert("West"@.len() != "RightStickX"@.len());
            assert("West"@.len() != "RightStickY"@.len());
            assert("West"@.len() != "South"@.len());
            assert("West"@[0] != "East"@[0]);
            assert("West"@.len() != "North"@.len());
        },
        GamepadBindingSource::LeftTrigger => {
            assert("LeftTrigger"@.len() != "LeftStickX"@.len());
            assert("LeftTrigger"@.len() != "LeftStickY"@.len());
            assert("LeftTrigger"@[0] != "RightStickX"@[0]);
            assert("LeftTrigger"@[0] != "RightStickY"@[0]);
            assert("LeftTrigger"@.len() != "South"@.len());
            assert("LeftTrigger"@.len() != "East"@.len());
            assert("LeftTrigger"@.len() != "North"@.len());
            assert("LeftTrigger"@.len() != "West"@.len());
        },
        GamepadBindingSource::LeftSecondaryTrigger => {
            assert("LeftSecondaryTrigger"@.len() != "LeftStickX"@.len());
            assert("LeftSecondaryTrigger"@.len() != "LeftStickY"@.len());
            assert("LeftSecondaryTrigger"@.len() != "RightStickX"@.len());
            assert("LeftSecondaryTrigger"@.len() != "RightStickY"@.len());
            assert("LeftSecondaryTrigger"@.len() != "South"@.len());
            assert("LeftSecondaryTrigger"@.len() != "East"@.len());
            assert("LeftSecondaryTrigger"@.len() != "North"@.len());
            assert("LeftSecondaryTrigger"@.len() != "West"@.len());
            assert("LeftSecondaryTrigger"@.len() != "LeftTrigger"@.len());
        },
        GamepadBindingSource::RightTrigger => {
            assert("RightTrigger"@.len() != "LeftStickX"@.len());
            assert("RightTrigger"@.len() != "LeftStickY"@.len());
            assert("RightTrigger"@.len() != "RightStickX"@.len());
            assert("RightTrigger"@.len() != "RightStickY"@.len());
            assert("RightTrigger"@.len() != "South"@.len());
            assert("RightTrigger"@.len() != "East"@.len());
            assert("RightTrigger"@.len() != "North"@.len());
            assert("RightTrigger"@.len() != "West"@.len());
            assert("RightTrigger"@.len() != "LeftTrigger"@.len());
            assert("RightTrigger"@.len() != "LeftSecondaryTrigger"@.len());
        },
        GamepadBindingSource::RightSecondaryTrigger => {
            assert("RightSecondaryTrigger"@.len() != "LeftStickX"@.len());
            assert("RightSecondaryTrigger"@.len() != "LeftStickY"@.len());
            assert("RightSecondaryTrigger"@.len() != "RightStickX"@.len());
            assert("RightSecondaryTrigger"@.len() != "RightStickY"@.len());
            assert("RightSecondaryTrigger"@.len() != "South"@.len());
            assert("RightSecondaryTrigger"@.len() != "East"@.len());
            assert("RightSecondaryTrigger"@.len() != "North"@.len());
            assert("RightSecondaryTrigger"@.len() != "West"@.len());
            assert("RightSecondaryTrigger"@.len() != "LeftTrigger"@.len());
            assert("RightSecondaryTrigger"@.len() != "LeftSecondaryTrigger"@.len());
            assert("RightSecondaryTrigger"@.len() != "RightTrigger"@.len());
        },
        GamepadBindingSource::LeftStickClick => {
            assert("LeftStickClick"@.len() != "LeftStickX"@.len());
            assert("LeftStickClick"@.len() != "LeftStickY"@.len());
            assert("LeftStickClick"@.len() != "RightStickX"@.len());
            assert("LeftStickClick"@.len() != "RightStickY"@.len());
            assert("LeftStickClick"@.len() != "South"@.len());
            assert("LeftStickClick"@.len() != "East"@.len());
            assert("LeftStickClick"@.len() != "North"@.len());
            assert("LeftStickClick"@.len() != "West"@.len());
            assert("LeftStickClick"@.len() != "LeftTrigger"@.len());
            assert("LeftStickClick"@.len() != "LeftSecondaryTrigger"@.len());
            assert("LeftStickClick"@.len() != "RightTrigger"@.len());
            assert("LeftStickClick"@.len() != "RightSecondaryTrigger"@.len());
        },
        GamepadBindingSource::RightStickClick => {
            assert("RightStickClick"@.len() != "LeftStickX"@.len());
            assert("RightStickClick"@.len() != "LeftStickY"@.len());
            assert("RightStickClick"@.len() != "RightStickX"@.len());
            assert("RightStickClick"@.len() != "RightStickY"@.len());
            assert("RightStickClick"@.len() != "South"@.len());
            assert("RightStickClick"@.len() != "East"@.len());
            assert("RightStickClick"@.len() != "North"@.len());
            assert("RightStickClick"@.len() != "West"@.len());
            assert("RightStickClick"@.len() != "LeftTrigger"@.len());
            assert("RightStickClick"@.len() != "LeftSecondaryTrigger"@.len());
            assert("RightStickClick"@.len() != "RightTrigger"@.len());
            assert("RightStickClick"@.len() != "RightSecondaryTrigger"@.len());
            assert("RightStickClick"@.len() != "LeftStickClick"@.len());
        },
        GamepadBindingSource::DPadUp => {
            assert("DPadUp"@.len() != "LeftStickX"@.len());
            assert("DPadUp"@.len() != "LeftStickY"@.len());
            assert("DPadUp"@.len() != "RightStickX"@.len());
            assert("DPadUp"@.len() != "RightStickY"@.len());
            assert("DPadUp"@.len() != "South"@.len());
            assert("DPadUp"@.len() != "East"@.len());
            assert("DPadUp"@.len() != "North"@.len());
            assert("DPadUp"@.len() != "West"@.len());
            assert("DPadUp"@.len() != "LeftTrigger"@.len());
            assert("DPadUp"@.len() != "LeftSecondaryTrigger"@.len());
            assert("DPadUp"@.len() != "RightTrigger"@.len());
            assert("DPadUp"@.len() != "RightSecondaryTrigger"@.len());
            assert("DPadUp"@.len() != "LeftStickClick"@.len());
            assert("DPadUp"@.len() != "RightStickClick"@.len());
        },
        GamepadBindingSource::DPadDown => {
            assert("DPadDown"@.len() != "LeftStickX"@.len());
            assert("DPadDown"@.len() != "LeftStickY"@.len());
            assert("DPadDown"@.len() != "RightStickX"@.len());
            assert("DPadDown"@.len() != "RightStickY"@.len());
            assert("DPadDown"@.len() != "South"@.len());
            assert("DPadDown"@.len() != "East"@.len());
            assert("DPadDown"@.len() != "North"@.len());
            assert("DPadDown"@.len() != "West"@.len());
            assert("DPadDown"@.len() != "LeftTrigger"@.len());
            assert("DPadDown"@.len() != "LeftSecondaryTrigger"@.len());
            assert("DPadDown"@.len() != "RightTrigger"@.len());
            assert("DPadDown"@.len() != "RightSecondaryTrigger"@.len());
            assert("DPadDown"@.len() != "LeftStickClick"@.len());
            assert("DPadDown"@.len() != "RightStickClick"@.len());
            assert("DPadDown"@.len() != "DPadUp"@.len());
        },
        GamepadBindingSource::DPadLeft => {
            assert("DPadLeft"@.len() != "LeftStickX"@.len());
            assert("DPadLeft"@.len() != "LeftStickY"@.len());
            assert("DPadLeft"@.len() != "RightStickX"@.len());
            assert("DPadLeft"@.len() != "RightStickY"@.len());
            assert("DPadLeft"@.len() != "South"@.len());
            assert("DPadLeft"@.len() != "East"@.len());
            assert("DPadLeft"@.len() != "North"@.len());
            assert("DPadLeft"@.len() != "West"@.len());
            assert("DPadLeft"@.len() != "LeftTrigger"@.len());
            assert("DPadLeft"@.len() != "LeftSecondaryTrigger"@.len());
            assert("DPadLeft"@.len() != "RightTrigger"@.len());
            assert("DPadLeft"@.len() != "RightSecondaryTrigger"@.len());
            assert("DPadLeft"@.len() != "LeftStickClick"@.len());
            assert("DPadLeft"@.len() != "RightStickClick"@.len());
            assert("DPadLeft"@.len() != "DPadUp"@.len());
            assert("DPadLeft"@[4] != "DPadDown"@[4]);
        },
        GamepadBindingSource::DPadRight => {
            assert("DPadRight"@.len() != "LeftStickX"@.len());
            assert("DPadRight"@.len() != "LeftStickY"@.len());
            assert("DPadRight"@.len() != "RightStickX"@.len());
            assert("DPadRight"@.len() != "RightStickY"@.len());
            assert("DPadRight"@.len() != "South"@.len());
            assert("DPadRight"@.len() != "East"@.len());
            assert("DPadRight"@.len() != "North"@.len());
            assert("DPadRight"@.len() != "West"@.len());
            assert("DPadRight"@.len() != "LeftTrigger"@.len());
            assert("DPadRight"@.len() != "LeftSecondaryTrigger"@.len());
            assert("DPadRight"@.len() != "RightTrigger"@.len());
            assert("DPadRight"@.len() != "RightSecondaryTrigger"@.len());
            assert("DPadRight"@.len() != "LeftStickClick"@.len());
            assert("DPadRight"@.len() != "RightStickClick"@.len());
            assert("DPadRight"@.len() != "DPadUp"@.len());
            assert("DPadRight"@.len() != "DPadDown"@.len());
            assert("DPadRight"@.len() != "DPadLeft"@.len());
        },
        GamepadBindingSource::Select => {
            assert("Select"@.len() != "LeftStickX"@.len());
            assert("Select"@.len() != "LeftStickY"@.len());
            assert("Select"@.len() != "RightStickX"@.len());
            assert("Select"@.len() != "RightStickY"@.len());
            assert("Select"@.len() != "South"@.len());
            assert("Select"@.len() != "East"@.len());
            assert("Select"@.len() != "North"@.len());
            assert("Select"@.len() != "West"@.len());
            assert("Select"@.len() != "LeftTrigger"@.len());
            assert("Select"@.len() != "LeftSecondaryTrigger"@.len());
            assert("Select"@.len() != "RightTrigger"@.len());
            assert("Select"@.len() != "RightSecondaryTrigger"@.len());
            assert("Select"@.len() != "LeftStickClick"@.len());
            assert("Select"@.len() != "RightStickClick"@.len());
            assert("Select"@[0] != "DPadUp"@[0]);
            assert("Select"@.len() != "DPadDown"@.len());
            assert("Select"@.len() != "DPadLeft"@.len());
            assert("Select"@.len() != "DPadRight"@.len());
        },
        GamepadBindingSource::Start => {
            assert("Start"@.len() != "LeftStickX"@.len());
            assert("Start"@.len() != "LeftStickY"@.len());
            assert("Start"@.len() != "RightStickX"@.len());
            assert("Start"@.len() != "RightStickY"@.len());
            assert("Start"@[1] != "South"@[1]);
            assert("Start"@.len() != "East"@.len());
            assert("Start"@[0] != "North"@[0]);
            assert("Start"@.len() != "West"@.len());
            assert("Start"@.len() != "LeftTrigger"@.len());
            assert("Start"@.len() != "LeftSecondaryTrigger"@.len());
            assert("Start"@.len() != "RightTrigger"@.len());
            assert("Start"@.len() != "RightSecondaryTrigger"@.len());
            assert("Start"@.len() != "LeftStickClick"@.len());
            assert("Start"@.len() != "RightStickClick"@.len());
            assert("Start"@.len() != "DPadUp"@.len());
            assert("Start"@.len() != "DPadDown"@.len());
            assert("Start"@.len() != "DPadLeft"@.len());
            assert("Start"@.len() != "DPadRight"@.len());
            assert("Start"@.len() != "Select"@.len());
        },
        GamepadBindingSource::Mode => {
            assert("Mode"@.len() != "LeftStickX"@.len());
            assert("Mode"@.len() != "LeftStickY"@.len());
            assert("Mode"@.len() != "RightStickX"@.len());
            assert("Mode"@.len() != "RightStickY"@.len());
            assert("Mode"@.len() != "South"@.len());
            assert("Mode"@[0] != "East"@[0]);
            assert("Mode"@.len() != "North"@.len());
            assert("Mode"@[0] != "West"@[0]);
            assert("Mode"@.len() != "LeftTrigger"@.len());
            assert("Mode"@.len() != "LeftSecondaryTrigger"@.len());
            assert("Mode"@.len() != "RightTrigger"@.len());
            assert("Mode"@.len() != "RightSecondaryTrigger"@.len());
            assert("Mode"@.len() != "LeftStickClick"@.len());
            assert("Mode"@.len() != "RightStickClick"@.len());
            assert("Mode"@.len() != "DPadUp"@.len());
            assert("Mode"@.len() != "DPadDown"@.len());
            assert("Mode"@.len() != "DPadLeft"@.len());
            assert("Mode"@.len() != "DPadRight"@.len());
            assert("Mode"@.len() != "Select"@.len());
            assert("Mode"@.len() != "Start"@.len());
        },
        GamepadBindingSource::LeftZ => {
            assert("LeftZ"@.len() != "LeftStickX"@.len());
            assert("LeftZ"@.len() != "LeftStickY"@.len());
            assert("LeftZ"@.len() != "RightStickX"@.len());
            assert("LeftZ"@.len() != "RightStickY"@.len());
            assert("LeftZ"@[0] != "South"@[0]);
            assert("LeftZ"@.len() != "East"@.len());
            assert("LeftZ"@[0] != "North"@[0]);
            assert("LeftZ"@.len() != "West"@.len());
            assert("LeftZ"@.len() != "LeftTrigger"@.len());
            assert("LeftZ"@.len() != "LeftSecondaryTrigger"@.len());
            assert("LeftZ"@.len() != "RightTrigger"@.len());
            assert("LeftZ"@.len() != "RightSecondaryTrigger"@.len());
            assert("LeftZ"@.len() != "LeftStickClick"@.len());
            assert("LeftZ"@.len() != "RightStickClick"@.len());
            assert("LeftZ"@.len() != "DPadUp"@.len());
            assert("LeftZ"@.len() != "DPadDown"@.len());
            assert("LeftZ"@.len() != "DPadLeft"@.len());
            assert("LeftZ"@.len() != "DPadRight"@.len());
            assert("LeftZ"@.len() != "Select"@.len());
            assert("LeftZ"@[0] != "Start"@[0]);
            assert("LeftZ"@.len() != "Mode"@.len());
        },
        GamepadBindingSource::RightZ => {
            assert("RightZ"@.len() != "LeftStickX"@.len());
            assert("RightZ"@.len() != "LeftStickY"@.len());
            assert("RightZ"@.len() != "RightStickX"@.len());
            assert("RightZ"@.len() != "RightStickY"@.len());
            assert("RightZ"@.len() != "South"@.len());
            assert("RightZ"@.len() != "East"@.len());
            assert("RightZ"@.len() != "North"@.len());
            assert("RightZ"@.len() != "West"@.len());
            assert("RightZ"@.len() != "LeftTrigger"@.len());
            assert("RightZ"@.len() != "LeftSecondaryTrigger"@.len());
            assert("RightZ"@.len() != "RightTrigger"@.len());
            assert("RightZ"@.len() != "RightSecondaryTrigger"@.len());
            assert("RightZ"@.len() != "LeftStickClick"@.len());
            assert("RightZ"@.len() != "RightStickClick"@.len());
            assert("RightZ"@[0] != "DPadUp"@[0]);
            assert("RightZ"@.len() != "DPadDown"@.len());
            assert("RightZ"@.len() != "DPadLeft"@.len());
            assert("RightZ"@.len() != "DPadRight"@.len());
            assert("RightZ"@[0] != "Select"@[0]);
            assert("RightZ"@.len() != "Start"@.len());
            assert("RightZ"@.len() != "Mode"@.len());
            assert("RightZ"@.len() != "LeftZ"@.len());
        },
        GamepadBindingSource::C => {
            assert("C"@.len() != "LeftStickX"@.len());
            assert("C"@.len() != "LeftStickY"@.len());
            assert("C"@.len() != "RightStickX"@.len());
            assert("C"@.len() != "RightStickY"@.len());
            assert("C"@.len() != "South"@.len());
            assert("C"@.len() != "East"@.len());
            assert("C"@.len() != "North"@.len());
            assert("C"@.len() != "West"@.len());
            assert("C"@.len() != "LeftTrigger"@.len());
            assert("C"@.len() != "LeftSecondaryTrigger"@.len());
            assert("C"@.len() != "RightTrigger"@.len());
            assert("C"@.len() != "RightSecondaryTrigger"@.len());
            assert("C"@.len() != "LeftStickClick"@.len());
            assert("C"@.len() != "RightStickClick"@.len());
            assert("C"@.len() != "DPadUp"@.len());
            assert("C"@.len() != "DPadDown"@.len());
            assert("C"@.len() != "DPadLeft"@.len());
            assert("C"@.len() != "DPadRight"@.len());
            assert("C"@.len() != "Select"@.len());
            assert("C"@.len() != "Start"@.len());
            assert("C"@.len() != "Mode"@.len());
            assert("C"@.len() != "LeftZ"@.len());
            assert("C"@.len() != "RightZ"@.len());
        },
        GamepadBindingSource::Z => {
            assert("Z"@.len() != "LeftStickX"@.len());
            assert("Z"@.len() != "LeftStickY"@.len());
            assert("Z"@.len() != "RightStickX"@.len());
            assert("Z"@.len() != "RightStickY"@.len());
            assert("Z"@.len() != "South"@.len());
            assert("Z"@.len() != "East"@.len());
            assert("Z"@.len() != "North"@.len());
            assert("Z"@.len() != "West"@.len());
            assert("Z"@.len() != "LeftTrigger"@.len());
            assert("Z"@.len() != "LeftSecondaryTrigger"@.len());
            assert("Z"@.len() != "RightTrigger"@.len());
            assert("Z"@.len() != "RightSecondaryTrigger"@.len());
            assert("Z"@.len() != "LeftStickClick"@.len());
            assert("Z"@.len() != "RightStickClick"@.len());
            assert("Z"@.len() != "DPadUp"@.len());
            assert("Z"@.len() != "DPadDown"@.len());
            assert("Z"@.len() != "DPadLeft"@.len());
            assert("Z"@.len() != "DPadRight"@.len());
            assert("Z"@.len() != "Select"@.len());
            assert("Z"@.len() != "Start"@.len());
            assert("Z"@.len() != "Mode"@.len());
            assert("Z"@.len() != "LeftZ"@.len());
            assert("Z"@.len() != "RightZ"@.len());
            assert("Z"@[0] != "C"@[0]);
        },
        GamepadBindingSource::OtherAxis(n) => {
            let name = "OtherAxis:"@ + decimal_text(n as nat);
            lemma_decimal_text(n as nat);
            assert(name[0] == "OtherAxis:"@[0]);
            assert("LeftStickX"@[0] != "OtherAxis:"@[0]);
            assert("LeftStickY"@[0] != "OtherAxis:"@[0]);
            assert("RightStickX"@[0] != "OtherAxis:"@[0]);
            assert("RightStickY"@[0] != "OtherAxis:"@[0]);
            assert("South"@[0] != "OtherAxis:"@[0]);
            assert("East"@[0] != "OtherAxis:"@[0]);
            assert("North"@[0] != "OtherAxis:"@[0]);
            assert("West"@[0] != "OtherAxis:"@[0]);
            assert("LeftTrigger"@[0] != "OtherAxis:"@[0]);
            assert("LeftSecondaryTrigger"@[0] != "OtherAxis:"@[0]);
            assert("RightTrigger"@[0] != "OtherAxis:"@[0]);
            assert("RightSecondaryTrigger"@[0] != "OtherAxis:"@[0]);
            assert("LeftStickClick"@[0] != "OtherAxis:"@[0]);
            assert("RightStickClick"@[0] != "OtherAxis:"@[0]);
            assert("DPadUp"@[0] != "OtherAxis:"@[0]);
            assert("DPadDown"@[0] != "OtherAxis:"@[0]);
            assert("DPadLeft"@[0] != "OtherAxis:"@[0]);
            assert("DPadRight"@[0] != "OtherAxis:"@[0]);
            assert("Select"@[0] != "OtherAxis:"@[0]);
            assert("Start"@[0] != "OtherAxis:"@[0]);
            assert("Mode"@[0] != "OtherAxis:"@[0]);
            assert("LeftZ"@[0] != "OtherAxis:"@[0]);
            assert("RightZ"@[0] != "OtherAxis:"@[0]);
            assert("C"@[0] != "OtherAxis:"@[0]);
            assert("Z"@[0] != "OtherAxis:"@[0]);
            assert(name.take("OtherAxis:"@.len() as int) =~= "OtherAxis:"@);
            assert(name.skip("OtherAxis:"@.len() as int) =~= decimal_text(n as nat));
            lemma_number_of_decimal(n as nat, 255);
        },
        GamepadBindingSource::OtherButton(n) => {
            let name = "OtherButton:"@ + decimal_text(n as nat);
            lemma_decimal_text(n as nat);
            assert(name[0] == "OtherButton:"@[0]);
            assert("LeftStickX"@[0] != "OtherButton:"@[0]);
            assert("LeftStickY"@[0] != "OtherButton:"@[0]);
            assert("RightStickX"@[0] != "OtherButton:"@[0]);
            assert("RightStickY"@[0] != "OtherButton:"@[0]);
            assert("South"@[0] != "OtherButton:"@[0]);
            assert("East"@[0] != "OtherButton:"@[0]);
            assert("North"@[0] != "OtherButton:"@[0]);
            assert("West"@[0] != "OtherButton:"@[0]);
            assert("LeftTrigger"@[0] != "OtherButton:"@[0]);
            assert("LeftSecondaryTrigger"@[0] != "OtherButton:"@[0]);
            assert("RightTrigger"@[0] != "OtherButton:"@[0]);
            assert("RightSecondaryTrigger"@[0] != "OtherButton:"@[0]);
            assert("LeftStickClick"@[0] != "OtherButton:"@[0]);
            assert("RightStickClick"@[0] != "OtherButton:"@[0]);
            assert("DPadUp"@[0] != "OtherButton:"@[0]);
            assert("DPadDown"@[0] != "OtherButton:"@[0]);
            assert("DPadLeft"@[0] != "OtherButton:"@[0]);
            assert("DPadRight"@[0] != "OtherButton:"@[0]);
            assert("Select"@[0] != "OtherButton:"@[0]);
            assert("Start"@[0] != "OtherButton:"@[0]);
            assert("Mode"@[0] != "OtherButton:"@[0]);
            assert("LeftZ"@[0] != "OtherButton:"@[0]);
            assert("RightZ"@[0] != "OtherButton:"@[0]);
            assert("C"@[0] != "OtherButton:"@[0]);
            assert("Z"@[0] != "OtherButton:"@[0]);
            assert(name[5] == "OtherButton:"@[5]);
            assert("OtherAxis:"@[5] != "OtherButton:"@[5]);
            assert(!starts_with(name, "OtherAxis:"@)) by { if starts_with(name, "OtherAxis:"@) { assert(name.take("OtherAxis:"@.len() as int)[5] == name[5]); } }
            assert(name.take("OtherButton:"@.len() as int) =~= "OtherButton:"@);
            assert(name.skip("OtherButton:"@.len() as int) =~= decimal_text(n as nat));
            lemma_number_of_decimal(n as nat, 255);
        },
    }
}

/// The word that names a side of the gamepad.
pub open spec fn side_word(side: GamepadPathTargetSide) -> Seq<char> {
    match side {
        GamepadPathTargetSide::Left => "Left"@,
        GamepadPathTargetSide::Right => "Right"@,
    }
}

/// A source on a side of the gamepad is on the side its name begins with: the sources
/// named `Left...` are on the left, those named `Right...` on the right. So a subaction path
/// restricted to a side selects, of a group with sides, exactly the sources whose name
/// begins with that side.
pub proof fn lemma_source_side_follows_name(source: GamepadBindingSource)
    ensures
        source_group(source) matches Some((_, Some(side))) ==> starts_with(
            gamepad_source_name(source),
            side_word(side),
        ),
        source_group(source) matches Some((_, Some(side))) ==> !starts_with(
            gamepad_source_name(source),
            side_word(
                match side {
                    GamepadPathTargetSide::Left => GamepadPathTargetSide::Right,
                    GamepadPathTargetSide::Right => GamepadPathTargetSide::Left,
                },
            ),
        ),
        forall|target: GamepadPathTarget, side: GamepadPathTargetSide|
            #[trigger] target_matches(target, Some(side), source) && (source_group(source) matches Some(
                (_, s),
            ) && s is Some) ==> starts_with(gamepad_source_name(source), side_word(side)),
{
    reveal_strlit("Left");
    reveal_strlit("Right");
    match source {
        GamepadBindingSource::LeftStickX => {
            reveal_strlit("LeftStickX");
            assert("LeftStickX"@.take(4) =~= "Left"@);
            assert("LeftStickX"@.take(5)[0] != "Right"@[0]);
        },
        GamepadBindingSource::LeftStickY => {
            reveal_strlit("LeftStickY");
            assert("LeftStickY"@.take(4) =~= "Left"@);
            assert("LeftStickY"@.take(5)[0] != "Right"@[0]);
        },
        GamepadBindingSource::LeftStickClick => {
            reveal_strlit("LeftStickClick");
            assert("LeftStickClick"@.take(4) =~= "Left"@);
            assert("LeftStickClick"@.take(5)[0] != "Right"@[0]);
        },
        GamepadBindingSource::RightStickX => {
            reveal_strlit("RightStickX");
            assert("RightStickX"@.take(5) =~= "Right"@);
            assert("RightStickX"@.take(4)[0] != "Left"@[0]);
        },
        GamepadBindingSource::RightStickY => {
            reveal_strlit("RightStickY");
            assert("RightStickY"@.take(5) =~= "Right"@);
            assert("RightStickY"@.take(4)[0] != "Left"@[0]);
        },
        GamepadBindingSource::RightStickClick => {
            reveal_strlit("RightStickClick");
            assert("RightStickClick"@.take(5) =~= "Right"@);
            assert("RightStickClick"@.take(4)[0] != "Left"@[0]);
        },
        GamepadBindingSource::LeftTrigger => {
            reveal_strlit("LeftTrigger");
            assert("LeftTrigger"@.take(4) =~= "Left"@);
            assert("LeftTrigger"@.take(5)[0] != "Right"@[0]);
        },
        GamepadBindingSource::RightTrigger => {
            reveal_strlit("RightTrigger");
            assert("RightTrigger"@.take(5) =~= "Right"@);
            assert("RightTrigger"@.take(4)[0] != "Left"@[0]);
        },
        GamepadBindingSource::LeftSecondaryTrigger => {
            reveal_strlit("LeftSecondaryTrigger");
            assert("LeftSecondaryTrigger"@.take(4) =~= "Left"@);
            assert("LeftSecondaryTrigger"@.take(5)[0] != "Right"@[0]);
        },
        GamepadBindingSource::RightSecondaryTrigger => {
            reveal_strlit("RightSecondaryTrigger");
            assert("RightSecondaryTrigger"@.take(5) =~= "Right"@);
            assert("RightSecondaryTrigger"@.take(4)[0] != "Left"@[0]);
        },
        _ => {},
    }
}

/// The name of a gamepad button: the name of Bevy's `GamepadButton` variant; a numbered
/// button is `Other:` followed by its number.
pub open spec fn gamepad_button_name(b: GamepadButton) -> Seq<char> {
    match b {
        GamepadButton::South => "South"@,
        GamepadButton::East => "East"@,
        GamepadButton::North => "North"@,
        GamepadButton::West => "West"@,
        GamepadButton::C => "C"@,
        GamepadButton::Z => "Z"@,
        GamepadButton::LeftTrigger => "LeftTrigger"@,
        GamepadButton::LeftTrigger2 => "LeftTrigger2"@,
        GamepadButton::RightTrigger => "RightTrigger"@,
        GamepadButton::RightTrigger2 => "RightTrigger2"@,
        GamepadButton::Select => "Select"@,
        GamepadButton::Start => "Start"@,
        GamepadButton::Mode => "Mode"@,
        GamepadButton::LeftThumb => "LeftThumb"@,
        GamepadButton::RightThumb => "RightThumb"@,
        GamepadButton::DPadUp => "DPadUp"@,
        GamepadButton::DPadDown => "DPadDown"@,
        GamepadButton::DPadLeft => "DPadLeft"@,
        GamepadButton::DPadRight => "DPadRight"@,
        GamepadButton::Other(n) => "Other:"@ + decimal_text(n as nat),
    }
}

/// A source reads the button of its own name: `North` reads `North`, `DPadLeft` reads
/// `DPadLeft`, and so on. The exceptions follow the names too: a primary trigger reads the
/// button of its name followed by `2` (`LeftTrigger` reads `LeftTrigger2`), a secondary
/// trigger reads the `Trigger` button of its side (`LeftSecondaryTrigger` reads
/// `LeftTrigger`), a stick click reads the `Thumb` button of its side, and `OtherButton(n)`
/// reads `Other(n)`. Each button is read by the source it is turned into.
pub proof fn lemma_source_reads_button_of_its_name(source: GamepadBindingSource, button: GamepadButton)
    ensures
        source_button(source) matches Some(b) ==> match (source_group(source), source) {
            (Some((GamepadPathTarget::Trigger, Some(_))), _) => gamepad_button_name(b)
                == gamepad_source_name(source) + "2"@,
            (Some((GamepadPathTarget::SecondaryTrigger, Some(side))), _) => gamepad_button_name(b)
                == side_word(side) + "Trigger"@,
            (Some((GamepadPathTarget::Thumbstick, Some(side))), _) => gamepad_button_name(b)
                == side_word(side) + "Thumb"@,
            (_, GamepadBindingSource::OtherButton(n)) => gamepad_button_name(b) == "Other:"@
                + decimal_text(n as nat),
            _ => gamepad_button_name(b) == gamepad_source_name(source),
        },
        source_button(button_source(button)) == Some(button),
{
    reveal_strlit("Left");
    reveal_strlit("Right");
    match source {
        GamepadBindingSource::LeftTrigger => {
            reveal_strlit("LeftTrigger");
            reveal_strlit("LeftTrigger2");
            reveal_strlit("2");
            assert("LeftTrigger2"@ =~= "LeftTrigger"@ + "2"@);
        },
        GamepadBindingSource::RightTrigger => {
            reveal_strlit("RightTrigger");
            reveal_strlit("RightTrigger2");
            reveal_strlit("2");
            assert("RightTrigger2"@ =~= "RightTrigger"@ + "2"@);
        },
        GamepadBindingSource::LeftSecondaryTrigger => {
            reveal_strlit("LeftTrigger");
            reveal_strlit("Trigger");
            assert("LeftTrigger"@ =~= "Left"@ + "Trigger"@);
        },
        GamepadBindingSource::RightSecondaryTrigger => {
            reveal_strlit("RightTrigger");
            reveal_strlit("Trigger");
            assert("RightTrigger"@ =~= "Right"@ + "Trigger"@);
        },
        GamepadBindingSource::LeftStickClick => {
            reveal_strlit("LeftThumb");
            reveal_strlit("Thumb");
            assert("LeftThumb"@ =~= "Left"@ + "Thumb"@);
        },
        GamepadBindingSource::RightStickClick => {
            reveal_strlit("RightThumb");
            reveal_strlit("Thumb");
            assert("RightThumb"@ =~= "Right"@ + "Thumb"@);
        },
        _ => {},
    }
}

/// The name of a gamepad axis: the name of Bevy's `GamepadAxis` variant; a numbered axis
/// is `Other:` followed by its number.
pub open spec fn gamepad_axis_name(a: GamepadAxis) -> Seq<char> {
    match a {
        GamepadAxis::LeftStickX => "LeftStickX"@,
        GamepadAxis::LeftStickY => "LeftStickY"@,
        GamepadAxis::RightStickX => "RightStickX"@,
        GamepadAxis::RightStickY => "RightStickY"@,
        GamepadAxis::LeftZ => "LeftZ"@,
        GamepadAxis::RightZ => "RightZ"@,
        GamepadAxis::Other(n) => "Other:"@ + decimal_text(n as nat),
    }
}

/// A source reads the axis of its own name (`LeftStickX` reads `LeftStickX`, and so on),
/// and `OtherAxis(n)` reads `Other(n)`. Each axis is read by the source it is turned into.
pub proof fn lemma_source_reads_axis_of_its_name(source: GamepadBindingSource, axis: GamepadAxis)
    ensures
        source_axis(source) matches Some(a) ==> match source {
            GamepadBindingSource::OtherAxis(n) => gamepad_axis_name(a) == "Other:"@ + decimal_text(
                n as nat,
            ),
            _ => gamepad_axis_name(a) == gamepad_source_name(source),
        },
        source_axis(axis_source(axis)) == Some(axis),
{
}

} // verus!
