//! The keys that can bracket a recording, and the names a configuration
//! may give them.

use vstd::prelude::*;
use crate::text::{str_equal, to_upper, uppercase};

verus! {

/// A key that can serve as the trigger key.
#[derive(Debug, Clone, Copy, PartialEq, Eq, Structural)]
pub enum HotKey {
    F1,
    F2,
    F3,
    F4,
    F5,
    F6,
    F7,
    F8,
    F9,
    F10,
    F11,
    F12,
    Alt,
    MetaLeft,
    ControlLeft,
    ShiftLeft,
    Tab,
    Space,
    Escape,
    CapsLock,
}

/// The key that an upper-case name stands for, if it stands for one.
pub open spec fn key_named(upper: Seq<char>) -> Option<HotKey> {
    if upper == "F1"@ {
        Some(HotKey::F1)
    } else if upper == "F2"@ {
        Some(HotKey::F2)
    } else if upper == "F3"@ {
        Some(HotKey::F3)
    } else if upper == "F4"@ {
        Some(HotKey::F4)
    } else if upper == "F5"@ {
        Some(HotKey::F5)
    } else if upper == "F6"@ {
        Some(HotKey::F6)
    } else if upper == "F7"@ {
        Some(HotKey::F7)
    } else if upper == "F8"@ {
        Some(HotKey::F8)
    } else if upper == "F9"@ {
        Some(HotKey::F9)
    } else if upper == "F10"@ {
        Some(HotKey::F10)
    } else if upper == "F11"@ {
        Some(HotKey::F11)
    } else if upper == "F12"@ {
        Some(HotKey::F12)
    } else if upper == "ALT"@ || upper == "OPTION"@ {
        Some(HotKey::Alt)
    } else if upper == "WIN"@ || upper == "WINDOWS"@ || upper == "CMD"@ || upper == "META"@ {
        Some(HotKey::MetaLeft)
    } else if upper == "CTRL"@ || upper == "CONTROL"@ {
        Some(HotKey::ControlLeft)
    } else if upper == "TAB"@ {
        Some(HotKey::Tab)
    } else if upper == "SPACE"@ {
        Some(HotKey::Space)
    } else if upper == "ESC"@ || upper == "ESCAPE"@ {
        Some(HotKey::Escape)
    } else if upper == "SHIFT"@ {
        Some(HotKey::ShiftLeft)
    } else if upper == "CAPS"@ || upper == "CAPSLOCK"@ {
        Some(HotKey::CapsLock)
    } else {
        None
    }
}

/// Looks an upper-case key name up in the closed table of trigger keys.
pub fn key_for_name(upper: &str) -> (key: Option<HotKey>)
    ensures
        key == key_named(upper@),
{
    if str_equal(upper, "F1") {
        Some(HotKey::F1)
    } else if str_equal(upper, "F2") {
        Some(HotKey::F2)
    } else if str_equal(upper, "F3") {
        Some(HotKey::F3)
    } else if str_equal(upper, "F4") {
        Some(HotKey::F4)
    } else if str_equal(upper, "F5") {
        Some(HotKey::F5)
    } else if str_equal(upper, "F6") {
        Some(HotKey::F6)
    } else if str_equal(upper, "F7") {
        Some(HotKey::F7)
    } else if str_equal(upper, "F8") {
        Some(HotKey::F8)
    } else if str_equal(upper, "F9") {
        Some(HotKey::F9)
    } else if str_equal(upper, "F10") {
        Some(HotKey::F10)
    } else if str_equal(upper, "F11") {
        Some(HotKey::F11)
    } else if str_equal(upper, "F12") {
        Some(HotKey::F12)
    } else if str_equal(upper, "ALT") || str_equal(upper, "OPTION") {
        Some(HotKey::Alt)
    } else if str_equal(upper, "WIN") || str_equal(upper, "WINDOWS") || str_equal(upper, "CMD")
        || str_equal(upper, "META") {
        Some(HotKey::MetaLeft)
    } else if str_equal(upper, "CTRL") || str_equal(upper, "CONTROL") {
        Some(HotKey::ControlLeft)
    } else if str_equal(upper, "TAB") {
        Some(HotKey::Tab)
    } else if str_equal(upper, "SPACE") {
        Some(HotKey::Space)
    } else if str_equal(upper, "ESC") || str_equal(upper, "ESCAPE") {
        Some(HotKey::Escape)
    } else if str_equal(upper, "SHIFT") {
        Some(HotKey::ShiftLeft)
    } else if str_equal(upper, "CAPS") || str_equal(upper, "CAPSLOCK") {
        Some(HotKey::CapsLock)
    } else {
        None
    }
}

/// Resolves a configured key name, whatever its letter case: the name is
/// put into upper case and looked up in the table.
pub fn parse_hotkey(hotkey_str: &str) -> (key: Option<HotKey>)
    ensures
        key == key_named(uppercase(hotkey_str@)),
{
    let upper = to_upper(hotkey_str);
    key_for_name(upper.as_str())
}

} // verus!
