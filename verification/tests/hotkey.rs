use autoclicker::hotkey::{parse_code, parse_hotkey, HotkeyBinding, KeyCode, Modifiers};

fn mods(control: bool, alt: bool, shift: bool, meta: bool) -> Modifiers {
    Modifiers { control, alt, shift, meta }
}

#[test]
fn ctrl_shift_f2_parses() {
    // "ctrl shift F2" gives modifiers {control, shift} and key F2.
    let b = parse_hotkey(b"ctrl shift F2");
    assert_eq!(
        b,
        Some(HotkeyBinding { modifiers: mods(true, false, true, false), key: KeyCode::F2 })
    );
}

#[test]
fn lone_modifier_is_rejected() {
    // "alt" alone has no key token and resolves to no binding.
    assert_eq!(parse_hotkey(b"alt"), None);
}

#[test]
fn default_bindings_parse() {
    assert_eq!(
        parse_hotkey(b"Alt T"),
        Some(HotkeyBinding { modifiers: mods(false, true, false, false), key: KeyCode::KeyT })
    );
    assert_eq!(
        parse_hotkey(b"Alt Q"),
        Some(HotkeyBinding { modifiers: mods(false, true, false, false), key: KeyCode::KeyQ })
    );
}

#[test]
fn every_letter_resolves() {
    // The whitelist admits all 26 letters.
    for b in b'a'..=b'z' {
        assert!(parse_code(&[b]).is_some());
        assert!(parse_hotkey(&[b'c', b't', b'r', b'l', b' ', b]).is_some());
    }
}

#[test]
fn modifiers_are_case_insensitive() {
    assert_eq!(
        parse_hotkey(b"CTRL x"),
        Some(HotkeyBinding { modifiers: mods(true, false, false, false), key: KeyCode::KeyX })
    );
}

#[test]
fn meta_synonyms_all_set_meta() {
    for s in [&b"meta a"[..], &b"cmd a"[..], &b"super a"[..], &b"CMD a"[..]] {
        assert_eq!(
            parse_hotkey(s),
            Some(HotkeyBinding { modifiers: mods(false, false, false, true), key: KeyCode::KeyA })
        );
    }
}

#[test]
fn bare_key_parses_without_modifiers() {
    assert_eq!(
        parse_hotkey(b"space"),
        Some(HotkeyBinding { modifiers: mods(false, false, false, false), key: KeyCode::Space })
    );
}

#[test]
fn two_key_tokens_are_rejected() {
    assert_eq!(parse_hotkey(b"a b"), None);
    assert_eq!(parse_hotkey(b"ctrl a b"), None);
}

#[test]
fn unknown_key_is_rejected() {
    // F8 is past the supported function-key range, and "enter" is not in
    // the whitelist.
    assert_eq!(parse_hotkey(b"f8"), None);
    assert_eq!(parse_hotkey(b"ctrl enter"), None);
}

#[test]
fn empty_string_is_rejected() {
    assert_eq!(parse_hotkey(b""), None);
    assert_eq!(parse_hotkey(b"   "), None);
}

#[test]
fn extra_whitespace_is_ignored() {
    assert_eq!(
        parse_hotkey(b"  ctrl \t  t  "),
        Some(HotkeyBinding { modifiers: mods(true, false, false, false), key: KeyCode::KeyT })
    );
}

#[test]
fn key_codes_resolve_case_insensitively() {
    assert_eq!(parse_code(b"a"), Some(KeyCode::KeyA));
    assert_eq!(parse_code(b"w"), Some(KeyCode::KeyW));
    assert_eq!(parse_code(b"Z"), Some(KeyCode::KeyZ));
    assert_eq!(parse_code(b"f1"), Some(KeyCode::F1));
    assert_eq!(parse_code(b"F7"), Some(KeyCode::F7));
    assert_eq!(parse_code(b"esc"), Some(KeyCode::Escape));
    assert_eq!(parse_code(b"Escape"), Some(KeyCode::Escape));
    assert_eq!(parse_code(b"SPACE"), Some(KeyCode::Space));
}

#[test]
fn key_codes_outside_whitelist_resolve_to_nothing() {
    assert_eq!(parse_code(b"F9"), None);
    assert_eq!(parse_code(b""), None);
    assert_eq!(parse_code(b"enter"), None);
}
