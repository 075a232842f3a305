use cosmic_ext_ime::engine::{Key, ModifierKey, Modifiers};
use cosmic_ext_ime::keys::{is_modifier_key, is_shift, translate};
use cosmic_ext_ime::text::{chars_of, decimal, string_from_chars};

#[test]
fn keysyms_translate() {
    let m = Modifiers { shift: true, ..Modifiers::default() };
    assert_eq!(translate(0xff08, m, "").key, Key::Backspace);
    assert_eq!(translate(0xff08, m, "").modifiers, m);
    assert_eq!(translate(0xff8d, m, "\r").key, Key::Enter);
    assert_eq!(translate(0x20, m, " ").key, Key::Space);
    assert_eq!(translate(0xffe1, m, "").key, Key::Modifier(ModifierKey::ShiftL));
    assert_eq!(translate(0xffed, m, "").key, Key::Modifier(ModifierKey::Other));
    assert_eq!(translate(0x61, m, "a").key, Key::Char('a'));
    assert_eq!(translate(0x41, m, "A").key, Key::Char('A'));
    assert_eq!(translate(0xffff, m, "\u{7f}").key, Key::Other);
    assert_eq!(translate(0x1234, m, "ab").key, Key::Other);
}

#[test]
fn modifier_keysyms() {
    assert!(is_modifier_key(0xff7f));
    assert!(is_modifier_key(0xfe03));
    assert!(!is_modifier_key(0xff0d));
    assert!(is_shift(0xffe2));
    assert!(!is_shift(0xffe3));
}

#[test]
fn modifiers_any() {
    assert!(!Modifiers::default().any());
    assert!(Modifiers { logo: true, ..Modifiers::default() }.any());
    assert!(!Modifiers { shift: true, ..Modifiers::default() }.has_command());
}

#[test]
fn decimal_and_chars() {
    assert_eq!(decimal(0), "0");
    assert_eq!(decimal(7), "7");
    assert_eq!(decimal(10), "10");
    assert_eq!(decimal(1234567890), "1234567890");
    assert_eq!(chars_of("日月"), vec!['日', '月']);
    assert_eq!(string_from_chars(&vec!['倉', '頡']), "倉頡");
}
