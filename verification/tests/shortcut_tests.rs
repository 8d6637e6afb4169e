use simple_translate::shortcut::{parse_shortcut, string_to_code, Binding, KeyCode, ParseError};

fn ok(spec: &str) -> Binding {
    parse_shortcut(spec).expect("expected the specification to parse")
}

#[test]
fn parses_ctrl_shift_q() {
    let b = ok("Ctrl+Shift+Q");
    assert!(b.mods.ctrl);
    assert!(b.mods.shift);
    assert!(!b.mods.alt);
    assert!(!b.mods.meta);
    assert_eq!(b.key, KeyCode::Q);
}

#[test]
fn rejects_two_keys() {
    assert_eq!(parse_shortcut("Q+W"), Err(ParseError::MultipleKeys));
}

#[test]
fn rejects_modifiers_only() {
    assert_eq!(parse_shortcut("Ctrl+Shift"), Err(ParseError::NoKey));
}

#[test]
fn rejects_empty_specification() {
    assert_eq!(parse_shortcut(""), Err(ParseError::UnknownKey));
}

#[test]
fn rejects_unrecognized_key() {
    assert_eq!(parse_shortcut("Ctrl+@"), Err(ParseError::UnknownKey));
}

#[test]
fn key_alone_parses_without_modifiers() {
    let b = ok("F10");
    assert!(!b.mods.ctrl && !b.mods.shift && !b.mods.alt && !b.mods.meta);
    assert_eq!(b.key, KeyCode::F10);
}

#[test]
fn tokens_are_trimmed() {
    let b = ok("  Ctrl +  Q ");
    assert!(b.mods.ctrl);
    assert_eq!(b.key, KeyCode::Q);
}

#[test]
fn key_token_is_case_insensitive() {
    assert_eq!(ok("Ctrl+q").key, KeyCode::Q);
    assert_eq!(ok("f12").key, KeyCode::F12);
}

#[test]
fn modifier_names_are_case_sensitive() {
    assert_eq!(parse_shortcut("ctrl+Q"), Err(ParseError::UnknownKey));
}

#[test]
fn control_and_win_are_aliases() {
    let b = ok("Control+Win+3");
    assert!(b.mods.ctrl);
    assert!(b.mods.meta);
    assert_eq!(b.key, KeyCode::D3);
}

#[test]
fn repeated_modifiers_are_harmless() {
    let b = ok("Ctrl+Control+Ctrl+A");
    assert!(b.mods.ctrl);
    assert!(!b.mods.shift);
    assert_eq!(b.key, KeyCode::A);
}

#[test]
fn trailing_separator_is_an_unknown_key() {
    assert_eq!(parse_shortcut("Ctrl+"), Err(ParseError::UnknownKey));
}

#[test]
fn second_key_after_a_key_is_rejected_before_lookup() {
    // The second non-modifier token is rejected as a duplicate even though
    // it is not a recognized key either.
    assert_eq!(parse_shortcut("Q+@@"), Err(ParseError::MultipleKeys));
}

#[test]
fn letter_f_is_a_key_not_a_function_key() {
    assert_eq!(ok("Ctrl+F").key, KeyCode::F);
    assert_eq!(ok("Ctrl+F1").key, KeyCode::F1);
}

#[test]
fn string_to_code_folds_case_but_does_not_trim() {
    assert_eq!(string_to_code("f11"), Ok(KeyCode::F11));
    assert_eq!(string_to_code("z"), Ok(KeyCode::Z));
    assert_eq!(string_to_code(" z "), Err(ParseError::UnknownKey));
    assert_eq!(string_to_code("0"), Ok(KeyCode::D0));
    assert_eq!(string_to_code("@"), Err(ParseError::UnknownKey));
}

#[test]
fn unicode_whitespace_is_trimmed_from_tokens() {
    let b = parse_shortcut("\u{00A0}Ctrl\u{00A0}+\u{2003}Q").expect("expected a parse");
    assert!(b.mods.ctrl);
    assert_eq!(b.key, KeyCode::Q);
}
