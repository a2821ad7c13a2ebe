//! Keyboard subaction paths.
use crate::text::{chars_of, starts_with, strip_prefix};
use bevy::input::keyboard::KeyCode;
use bevy::reflect::{Typed, VariantInfo};
use vstd::prelude::*;

verus! {

/// Marks a subaction path that selects the keyboard bindings of an action.
#[derive(Clone, Copy, Debug, PartialEq, Eq, Structural, Default)]
pub struct KeyboardSubactionPath;

/// Whether the subaction path string `path` selects the keyboard: it starts with
/// `/keyboard`.
pub fn is_keyboard_subaction_path(path: &str) -> (r: bool)
    ensures
        r == starts_with(path@, "/keyboard"@),
{
    let v = chars_of(path);
    strip_prefix(&v, "/keyboard").is_some()
}

/// Whether `name` is the name of a key: of a variant without fields of Bevy's `KeyCode`.
pub uninterp spec fn key_code_named(name: Seq<char>) -> bool;

/// Whether `name` names a variant without fields of Bevy's `KeyCode`, as the enum's
/// reflection information lists it (`Typed::type_info`, `TypeInfo::as_enum`,
/// `EnumInfo::variant`). That list is fixed when the crate is built, so the answer is a
/// function of the name alone, named `key_code_named`.
#[verifier::external_body]
pub(crate) fn is_key_code_name(name: &str) -> (r: bool)
    ensures
        r == key_code_named(name@),
{
    match KeyCode::type_info().as_enum() {
        Ok(info) => match info.variant(name) {
            Some(VariantInfo::Unit(_)) => true,
            _ => false,
        },
        Err(_) => false,
    }
}

} // verus!
