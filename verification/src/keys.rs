//! Keysym translation: what the engine sees of a key event.
use vstd::prelude::*;
use vstd::string::*;
use crate::engine::{Key, KeyInput, ModifierKey, Modifiers};

verus! {

/// Modifier keysyms: Shift_L..Hyper_R, ISO_Lock..ISO_Level5_Lock,
/// Mode_switch and Num_Lock.
pub open spec fn is_modifier_keysym(sym: u32) -> bool {
    (0xffe1 <= sym && sym <= 0xffee) || (0xfe01 <= sym && sym <= 0xfe13) || sym == 0xff7e
        || sym == 0xff7f
}

/// Unicode control characters (general category Cc).
pub open spec fn is_control_char(c: char) -> bool {
    (c as u32) <= 0x1f || (0x7f <= (c as u32) && (c as u32) <= 0x9f)
}

/// The key for a keysym; a keysym with no special meaning becomes the one
/// printable character it produces, or `Other`.
pub open spec fn key_of(sym: u32, text: Seq<char>) -> Key {
    if sym == 0xff08 {
        Key::Backspace
    } else if sym == 0xff1b {
        Key::Escape
    } else if sym == 0x20 {
        Key::Space
    } else if sym == 0xff0d || sym == 0xff8d {
        Key::Enter
    } else if sym == 0xff09 {
        Key::Tab
    } else if sym == 0xff52 {
        Key::Up
    } else if sym == 0xff54 {
        Key::Down
    } else if sym == 0xff51 {
        Key::Left
    } else if sym == 0xff53 {
        Key::Right
    } else if sym == 0xff55 {
        Key::PageUp
    } else if sym == 0xff56 {
        Key::PageDown
    } else if sym == 0xffe1 {
        Key::Modifier(ModifierKey::ShiftL)
    } else if sym == 0xffe2 {
        Key::Modifier(ModifierKey::ShiftR)
    } else if sym == 0xffe3 {
        Key::Modifier(ModifierKey::ControlL)
    } else if sym == 0xffe4 {
        Key::Modifier(ModifierKey::ControlR)
    } else if sym == 0xffe9 {
        Key::Modifier(ModifierKey::AltL)
    } else if sym == 0xffea {
        Key::Modifier(ModifierKey::AltR)
    } else if sym == 0xffeb {
        Key::Modifier(ModifierKey::SuperL)
    } else if sym == 0xffec {
        Key::Modifier(ModifierKey::SuperR)
    } else if is_modifier_keysym(sym) {
        Key::Modifier(ModifierKey::Other)
    } else if text.len() == 1 && !is_control_char(text[0]) {
        Key::Char(text[0])
    } else {
        Key::Other
    }
}

/// Whether a keysym is a modifier key (xkeysym's `is_modifier_key`).
pub fn is_modifier_key(sym: u32) -> (b: bool)
    ensures
        b == is_modifier_keysym(sym),
{
    (0xffe1 <= sym && sym <= 0xffee) || (0xfe01 <= sym && sym <= 0xfe13) || sym == 0xff7e
        || sym == 0xff7f
}

/// Whether a keysym is Shift_L or Shift_R.
pub fn is_shift(sym: u32) -> (b: bool)
    ensures
        b == (sym == 0xffe1 || sym == 0xffe2),
{
    sym == 0xffe1 || sym == 0xffe2
}

fn is_control(c: char) -> (b: bool)
    ensures
        b == is_control_char(c),
{
    let u = c as u32;
    u <= 0x1f || (0x7f <= u && u <= 0x9f)
}

/// The engine's view of a key event: its keysym, the active modifiers, and
/// the text the keymap produces for it.
pub fn translate(sym: u32, modifiers: Modifiers, text: &str) -> (k: KeyInput)
    ensures
        k.key == key_of(sym, text@),
        k.modifiers == modifiers,
        sym == 0xff1b ==> k.key == Key::Escape,
        sym == 0xff08 ==> k.key == Key::Backspace,
        sym == 0x20 ==> k.key == Key::Space,
        sym == 0xff0d || sym == 0xff8d ==> k.key == Key::Enter,
        sym == 0xff09 ==> k.key == Key::Tab,
        sym == 0xff52 ==> k.key == Key::Up,
        sym == 0xff54 ==> k.key == Key::Down,
        sym == 0xff51 ==> k.key == Key::Left,
        sym == 0xff53 ==> k.key == Key::Right,
        sym == 0xff55 ==> k.key == Key::PageUp,
        sym == 0xff56 ==> k.key == Key::PageDown,
{
    let key = if sym == 0xff08 {
        Key::Backspace
    } else if sym == 0xff1b {
        Key::Escape
    } else if sym == 0x20 {
        Key::Space
    } else if sym == 0xff0d || sym == 0xff8d {
        Key::Enter
    } else if sym == 0xff09 {
        Key::Tab
    } else if sym == 0xff52 {
        Key::Up
    } else if sym == 0xff54 {
        Key::Down
    } else if sym == 0xff51 {
        Key::Left
    } else if sym == 0xff53 {
        Key::Right
    } else if sym == 0xff55 {
        Key::PageUp
    } else if sym == 0xff56 {
        Key::PageDown
    } else if sym == 0xffe1 {
        Key::Modifier(ModifierKey::ShiftL)
    } else if sym == 0xffe2 {
        Key::Modifier(ModifierKey::ShiftR)
    } else if sym == 0xffe3 {
        Key::Modifier(ModifierKey::ControlL)
    } else if sym == 0xffe4 {
        Key::Modifier(ModifierKey::ControlR)
    } else if sym == 0xffe9 {
        Key::Modifier(ModifierKey::AltL)
    } else if sym == 0xffea {
        Key::Modifier(ModifierKey::AltR)
    } else if sym == 0xffeb {
        Key::Modifier(ModifierKey::SuperL)
    } else if sym == 0xffec {
        Key::Modifier(ModifierKey::SuperR)
    } else if is_modifier_key(sym) {
        Key::Modifier(ModifierKey::Other)
    } else {
        let n = text.unicode_len();
        if n == 1 {
            let c = text.get_char(0);
            if !is_control(c) {
                Key::Char(c)
            } else {
                Key::Other
            }
        } else {
            Key::Other
        }
    };
    KeyInput { key, modifiers }
}


/// Each named keysym becomes its own key, whatever text the keymap
/// produces: BackSpace, Escape, space, Return and KP_Enter, Tab, the four
/// arrows, Prior and Next, and the Shift, Control, Alt and Super keys; the
/// other modifier keysyms become an unnamed modifier key. Any other keysym
/// becomes the single printable character it produces, or `Other`.
pub proof fn law_named_keysyms(t: Seq<char>, sym: u32, c: char)
    ensures
        key_of(0xff08, t) == Key::Backspace,
        key_of(0xff1b, t) == Key::Escape,
        key_of(0x20, t) == Key::Space,
        key_of(0xff0d, t) == Key::Enter,
        key_of(0xff8d, t) == Key::Enter,
        key_of(0xff09, t) == Key::Tab,
        key_of(0xff52, t) == Key::Up,
        key_of(0xff54, t) == Key::Down,
        key_of(0xff51, t) == Key::Left,
        key_of(0xff53, t) == Key::Right,
        key_of(0xff55, t) == Key::PageUp,
        key_of(0xff56, t) == Key::PageDown,
        key_of(0xffe1, t) == Key::Modifier(ModifierKey::ShiftL),
        key_of(0xffe2, t) == Key::Modifier(ModifierKey::ShiftR),
        key_of(0xffe3, t) == Key::Modifier(ModifierKey::ControlL),
        key_of(0xffe4, t) == Key::Modifier(ModifierKey::ControlR),
        key_of(0xffe9, t) == Key::Modifier(ModifierKey::AltL),
        key_of(0xffea, t) == Key::Modifier(ModifierKey::AltR),
        key_of(0xffeb, t) == Key::Modifier(ModifierKey::SuperL),
        key_of(0xffec, t) == Key::Modifier(ModifierKey::SuperR),
        key_of(0xffe5, t) == Key::Modifier(ModifierKey::Other),
        key_of(0xff7f, t) == Key::Modifier(ModifierKey::Other),
        ({
            let named = sym == 0xff08 || sym == 0xff1b || sym == 0x20 || sym == 0xff0d || sym == 0xff8d
                || sym == 0xff09 || (0xff51 <= sym && sym <= 0xff56) || (0xffe1 <= sym && sym <= 0xffee)
                || (0xfe01 <= sym && sym <= 0xfe13) || sym == 0xff7e || sym == 0xff7f;
            &&& !named && (c as u32) >= 0x20 && !((c as u32) >= 0x7f && (c as u32) <= 0x9f) ==> key_of(sym, seq![c])
                == Key::Char(c)
            &&& !named && t.len() != 1 ==> key_of(sym, t) == Key::Other
            &&& !named && ((c as u32) < 0x20 || ((c as u32) >= 0x7f && (c as u32) <= 0x9f)) ==> key_of(sym, seq![c])
                == Key::Other
        }),
{
}

} // verus!
