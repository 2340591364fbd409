//! Translation of frontend key names and shortcut strings into the
//! values used when registering with the OS hotkey facility.

use vstd::prelude::*;
use crate::text::{
    chars_of, eq_str, join_char, join_with, lower, split_char, split_on, string_of, to_lower,
    views_of,
};

verus! {

/// The registration value for a frontend key name: named symbol, digit and
/// punctuation keys map to their literal character; every other name is
/// passed through unchanged.
pub open spec fn key_name_value(s: Seq<char>) -> Seq<char> {
    if s == "BracketLeft"@ {
        "["@
    } else if s == "BracketRight"@ {
        "]"@
    } else if s == "Backslash"@ {
        "\\"@
    } else if s == "Semicolon"@ {
        ";"@
    } else if s == "Quote"@ {
        "'"@
    } else if s == "Comma"@ {
        ","@
    } else if s == "Period"@ {
        "."@
    } else if s == "Slash"@ {
        "/"@
    } else if s == "Backquote"@ {
        "`"@
    } else if s == "Minus"@ {
        "-"@
    } else if s == "Equal"@ {
        "="@
    } else if s == "Digit0"@ {
        "0"@
    } else if s == "Digit1"@ {
        "1"@
    } else if s == "Digit2"@ {
        "2"@
    } else if s == "Digit3"@ {
        "3"@
    } else if s == "Digit4"@ {
        "4"@
    } else if s == "Digit5"@ {
        "5"@
    } else if s == "Digit6"@ {
        "6"@
    } else if s == "Digit7"@ {
        "7"@
    } else if s == "Digit8"@ {
        "8"@
    } else if s == "Digit9"@ {
        "9"@
    } else if s == "Exclamation"@ {
        "!"@
    } else if s == "At"@ {
        "@"@
    } else if s == "Hash"@ {
        "#"@
    } else if s == "Dollar"@ {
        "$"@
    } else if s == "Percent"@ {
        "%"@
    } else if s == "Caret"@ {
        "^"@
    } else if s == "Ampersand"@ {
        "&"@
    } else if s == "Asterisk"@ {
        "*"@
    } else if s == "LeftParen"@ {
        "("@
    } else if s == "RightParen"@ {
        ")"@
    } else if s == "Underscore"@ {
        "_"@
    } else if s == "Plus"@ {
        "+"@
    } else if s == "LeftCurlyBracket"@ {
        "{"@
    } else if s == "RightCurlyBracket"@ {
        "}"@
    } else if s == "Pipe"@ {
        "|"@
    } else if s == "Colon"@ {
        ":"@
    } else if s == "DoubleQuote"@ {
        "\""@
    } else if s == "LeftAngleBracket"@ {
        "<"@
    } else if s == "RightAngleBracket"@ {
        ">"@
    } else if s == "Question"@ {
        "?"@
    } else if s == "Tilde"@ {
        "~"@
    } else if s == "Backtick"@ {
        "`"@
    } else {
        s
    }
}

fn key_name_chars(v: &Vec<char>) -> (r: Vec<char>)
    ensures
        r@ == key_name_value(v@),
{
    if eq_str(v, "BracketLeft") {
        return chars_of("[");
    }
    if eq_str(v, "BracketRight") {
        return chars_of("]");
    }
    if eq_str(v, "Backslash") {
        return chars_of("\\");
    }
    if eq_str(v, "Semicolon") {
        return chars_of(";");
    }
    if eq_str(v, "Quote") {
        return chars_of("'");
    }
    if eq_str(v, "Comma") {
        return chars_of(",");
    }
    if eq_str(v, "Period") {
        return chars_of(".");
    }
    if eq_str(v, "Slash") {
        return chars_of("/");
    }
    if eq_str(v, "Backquote") {
        return chars_of("`");
    }
    if eq_str(v, "Minus") {
        return chars_of("-");
    }
    if eq_str(v, "Equal") {
        return chars_of("=");
    }
    if eq_str(v, "Digit0") {
        return chars_of("0");
    }
    if eq_str(v, "Digit1") {
        return chars_of("1");
    }
    if eq_str(v, "Digit2") {
        return chars_of("2");
    }
    if eq_str(v, "Digit3") {
        return chars_of("3");
    }
    if eq_str(v, "Digit4") {
        return chars_of("4");
    }
    if eq_str(v, "Digit5") {
        return chars_of("5");
    }
    if eq_str(v, "Digit6") {
        return chars_of("6");
    }
    if eq_str(v, "Digit7") {
        return chars_of("7");
    }
    if eq_str(v, "Digit8") {
        return chars_of("8");
    }
    if eq_str(v, "Digit9") {
        return chars_of("9");
    }
    if eq_str(v, "Exclamation") {
        return chars_of("!");
    }
    if eq_str(v, "At") {
        return chars_of("@");
    }
    if eq_str(v, "Hash") {
        return chars_of("#");
    }
    if eq_str(v, "Dollar") {
        return chars_of("$");
    }
    if eq_str(v, "Percent") {
        return chars_of("%");
    }
    if eq_str(v, "Caret") {
        return chars_of("^");
    }
    if eq_str(v, "Ampersand") {
        return chars_of("&");
    }
    if eq_str(v, "Asterisk") {
        return chars_of("*");
    }
    if eq_str(v, "LeftParen") {
        return chars_of("(");
    }
    if eq_str(v, "RightParen") {
        return chars_of(")");
    }
    if eq_str(v, "Underscore") {
        return chars_of("_");
    }
    if eq_str(v, "Plus") {
        return chars_of("+");
    }
    if eq_str(v, "LeftCurlyBracket") {
        return chars_of("{");
    }
    if eq_str(v, "RightCurlyBracket") {
        return chars_of("}");
    }
    if eq_str(v, "Pipe") {
        return chars_of("|");
    }
    if eq_str(v, "Colon") {
        return chars_of(":");
    }
    if eq_str(v, "DoubleQuote") {
        return chars_of("\"");
    }
    if eq_str(v, "LeftAngleBracket") {
        return chars_of("<");
    }
    if eq_str(v, "RightAngleBracket") {
        return chars_of(">");
    }
    if eq_str(v, "Question") {
        return chars_of("?");
    }
    if eq_str(v, "Tilde") {
        return chars_of("~");
    }
    if eq_str(v, "Backtick") {
        return chars_of("`");
    }
    let mut out: Vec<char> = Vec::new();
    let mut i: usize = 0;
    while i < v.len()
        invariant
            0 <= i <= v@.len(),
            out@ == v@.subrange(0, i as int),
        decreases v@.len() - i,
    {
        out.push(v[i]);
        i = i + 1;
        proof {
            assert(out@ =~= v@.subrange(0, i as int));
        }
    }
    proof {
        assert(out@ =~= v@);
    }
    out
}

/// Translates a frontend key name to its registration value.
pub fn translate_key_name(key_name: &str) -> (r: String)
    ensures
        r@ == key_name_value(key_name@),
{
    let v = chars_of(key_name);
    let out = key_name_chars(&v);
    string_of(&out)
}

/// A whole shortcut string translated to registration form: modifiers
/// lower-cased, the trailing key token translated by [`key_name_value`].
/// A string without a separator is treated as a bare key name.
pub open spec fn shortcut_translation(s: Seq<char>) -> Seq<char> {
    let parts = split_char(s, '+');
    if parts.len() <= 1 {
        key_name_value(s)
    } else {
        let mods = parts.drop_last().map_values(|m: Seq<char>| lower(m));
        join_char(mods.push(key_name_value(parts.last())), '+')
    }
}

/// Translates a complete shortcut string from frontend format to
/// registration format.
pub fn translate_shortcut(shortcut: &str) -> (r: String)
    ensures
        r@ == shortcut_translation(shortcut@),
{
    let v = chars_of(shortcut);
    let parts = split_on(&v, '+');
    let n = parts.len();
    if n <= 1 {
        return translate_key_name(shortcut);
    }
    let mut out_parts: Vec<Vec<char>> = Vec::new();
    let mut i: usize = 0;
    proof {
        assert(views_of(out_parts@) =~= Seq::<Seq<char>>::empty());
        assert(views_of(parts@).drop_last().map_values(|m: Seq<char>| lower(m)).take(0)
            =~= Seq::<Seq<char>>::empty());
    }
    while i < n - 1
        invariant
            0 <= i <= n - 1,
            n == parts@.len(),
            n == views_of(parts@).len(),
            views_of(parts@) == split_char(v@, '+'),
            views_of(out_parts@) == views_of(parts@).drop_last().map_values(
                |m: Seq<char>| lower(m),
            ).take(i as int),
        decreases n - 1 - i,
    {
        let m = to_lower(&parts[i]);
        let ghost prev = out_parts@;
        out_parts.push(m);
        proof {
            let mods = views_of(parts@).drop_last().map_values(|m: Seq<char>| lower(m));
            assert(views_of(out_parts@) =~= views_of(prev).push(m@));
            assert(mods[i as int] == lower(views_of(parts@)[i as int]));
            assert(views_of(out_parts@) =~= mods.take(i + 1));
        }
        i = i + 1;
    }
    let key = key_name_chars(&parts[n - 1]);
    let ghost prev = out_parts@;
    out_parts.push(key);
    proof {
        let vs = views_of(parts@);
        let mods = vs.drop_last().map_values(|m: Seq<char>| lower(m));
        assert(views_of(out_parts@) =~= views_of(prev).push(key@));
        assert(mods.take(n - 1) =~= mods);
        assert(vs[n - 1] == vs.last());
        assert(views_of(out_parts@) =~= mods.push(key_name_value(vs.last())));
    }
    let joined = join_with(&out_parts, '+');
    string_of(&joined)
}

} // verus!
