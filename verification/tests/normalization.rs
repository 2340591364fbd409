use galaxy::shortcuts::{normalize_shortcut, translate_key_symbols};

#[test]
fn test_normalize_is_idempotent() {
    let inputs = [
        "Control+Shift+ENTER",
        "shift+control+Enter",
        "Alt+Win+Cmd+Super+Meta+Control+Shift+X",
        "Control+KeyK",
        "SPACE",
        "Control+",
        "weird+Control+x",
        "Control + Alt + Delete",
    ];
    for s in inputs {
        let once = normalize_shortcut(s);
        let twice = normalize_shortcut(&once);
        assert_eq!(once, twice, "not idempotent on {s}");
    }
}

#[test]
fn test_normalize_modifier_order_and_case() {
    assert_eq!(
        normalize_shortcut("shift+control+Enter"),
        normalize_shortcut("Control+Shift+ENTER")
    );
    assert_eq!(normalize_shortcut("shift+control+Enter"), "shift+control+enter");
    assert_eq!(
        normalize_shortcut("Win+Alt+Shift+F1"),
        normalize_shortcut("shift+alt+win+f1")
    );
}

#[test]
fn test_normalize_canonical_modifier_sequence() {
    assert_eq!(
        normalize_shortcut("win+cmd+super+meta+alt+control+shift+a"),
        "shift+control+alt+meta+super+cmd+win+a"
    );
}

#[test]
fn test_normalize_single_token_lowercases() {
    assert_eq!(normalize_shortcut("ENTER"), "enter");
    assert_eq!(normalize_shortcut("KeyK"), "keyk");
}

#[test]
fn test_normalize_strips_key_prefix() {
    assert_eq!(normalize_shortcut("Control+KeyK"), "control+k");
    assert_eq!(normalize_shortcut("Control+Keyboard"), "control+board");
}

#[test]
fn test_normalize_trims_modifier_spaces() {
    assert_eq!(normalize_shortcut("Control + Alt +Delete"), "control+alt+delete");
    // the key token itself is not trimmed, only modifiers are
    assert_eq!(normalize_shortcut("Control + Alt + Delete"), "control+alt+ delete");
}

#[test]
fn test_normalize_keeps_unknown_modifiers_in_order() {
    assert_eq!(normalize_shortcut("hyper+shift+x"), "shift+hyper+x");
    assert_eq!(normalize_shortcut("b+a+shift+x"), "shift+b+a+x");
}

#[test]
fn test_normalize_arrow_keys() {
    assert_eq!(
        normalize_shortcut("Shift+Control+Alt+ArrowLeft"),
        "shift+control+alt+arrowleft"
    );
}

#[test]
fn test_translate_key_symbols_punctuation() {
    assert_eq!(translate_key_symbols("Control+,"), "Control+Comma");
    assert_eq!(translate_key_symbols("Control+="), "Control+Equal");
    assert_eq!(translate_key_symbols("Alt+["), "Alt+BracketLeft");
    assert_eq!(translate_key_symbols("Alt+]"), "Alt+BracketRight");
    assert_eq!(translate_key_symbols("Alt+;"), "Alt+Semicolon");
    assert_eq!(translate_key_symbols("Alt+'"), "Alt+Quote");
    assert_eq!(translate_key_symbols("Alt+."), "Alt+Period");
    assert_eq!(translate_key_symbols("Alt+/"), "Alt+Slash");
    assert_eq!(translate_key_symbols("Alt+\\"), "Alt+Backslash");
    assert_eq!(translate_key_symbols("Alt+`"), "Alt+Backquote");
    assert_eq!(translate_key_symbols("Alt+-"), "Alt+Minus");
}

#[test]
fn test_translate_key_symbols_leaves_plain_text() {
    assert_eq!(translate_key_symbols("Control+Alt+Enter"), "Control+Alt+Enter");
}

#[test]
fn test_punctuation_and_named_key_normalize_identically() {
    let a = normalize_shortcut(&translate_key_symbols("Control+,"));
    let b = normalize_shortcut(&translate_key_symbols("Control+Comma"));
    assert_eq!(a, b);
    assert_eq!(a, "control+comma");
}
