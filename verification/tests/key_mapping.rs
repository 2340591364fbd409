use galaxy::key_mapping::{translate_key_name, translate_shortcut};

#[test]
fn test_symbol_key_translation() {
    assert_eq!(translate_key_name("BracketLeft"), "[");
    assert_eq!(translate_key_name("BracketRight"), "]");
    assert_eq!(translate_key_name("Semicolon"), ";");
    assert_eq!(translate_key_name("Quote"), "'");
    assert_eq!(translate_key_name("Comma"), ",");
    assert_eq!(translate_key_name("Period"), ".");
    assert_eq!(translate_key_name("Slash"), "/");
    assert_eq!(translate_key_name("Backquote"), "`");
    assert_eq!(translate_key_name("Minus"), "-");
    assert_eq!(translate_key_name("Equal"), "=");
}

#[test]
fn test_shortcut_translation() {
    assert_eq!(translate_shortcut("Control+Alt+BracketLeft"), "control+alt+[");
    assert_eq!(translate_shortcut("Shift+Control+Semicolon"), "shift+control+;");
    assert_eq!(translate_shortcut("Alt+Quote"), "alt+'");
    assert_eq!(translate_shortcut("Control+Comma"), "control+,");
    assert_eq!(translate_shortcut("Shift+Period"), "shift+.");
}

#[test]
fn test_number_key_translation() {
    assert_eq!(translate_key_name("Digit1"), "1");
    assert_eq!(translate_key_name("Digit9"), "9");
    assert_eq!(translate_key_name("Digit0"), "0");
}

#[test]
fn test_function_key_translation() {
    assert_eq!(translate_key_name("F1"), "F1");
    assert_eq!(translate_key_name("F12"), "F12");
}

#[test]
fn test_arrow_key_translation() {
    assert_eq!(translate_key_name("ArrowLeft"), "ArrowLeft");
    assert_eq!(translate_key_name("ArrowRight"), "ArrowRight");
}

#[test]
fn test_unknown_key_passthrough() {
    assert_eq!(translate_key_name("UnknownKey"), "UnknownKey");
    assert_eq!(translate_shortcut("Control+UnknownKey"), "control+UnknownKey");
}

#[test]
fn test_special_character_translation() {
    assert_eq!(translate_key_name("Exclamation"), "!");
    assert_eq!(translate_key_name("At"), "@");
    assert_eq!(translate_key_name("Plus"), "+");
    assert_eq!(translate_key_name("DoubleQuote"), "\"");
    assert_eq!(translate_key_name("Backtick"), "`");
    assert_eq!(translate_key_name("Backslash"), "\\");
}

#[test]
fn test_single_key_shortcut_translation() {
    assert_eq!(translate_shortcut("BracketLeft"), "[");
    assert_eq!(translate_shortcut("F5"), "F5");
}
