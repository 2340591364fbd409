//! Shortcut canonicalization and the binding registry: normalization of
//! key-combination strings, the update protocol for a live binding, and
//! the bulk-registration plan run at startup.

use vstd::prelude::*;
use crate::text::{
    append_chars, chars_of, eq_chars, eq_str, has_prefix, has_prefix_str, join_char, join_with,
    lower, split_char, split_on, string_of, subvec, to_lower, trim, trim_spaces, views_of,
};

verus! {

// ------------------------------------------------------------- symbols

/// The system name of a punctuation key character; any other character
/// stands for itself.
pub open spec fn symbol_expansion(c: char) -> Seq<char> {
    if c == '=' {
        "Equal"@
    } else if c == '-' {
        "Minus"@
    } else if c == '[' {
        "BracketLeft"@
    } else if c == ']' {
        "BracketRight"@
    } else if c == ';' {
        "Semicolon"@
    } else if c == '\'' {
        "Quote"@
    } else if c == ',' {
        "Comma"@
    } else if c == '.' {
        "Period"@
    } else if c == '/' {
        "Slash"@
    } else if c == '\\' {
        "Backslash"@
    } else if c == '`' {
        "Backquote"@
    } else {
        seq![c]
    }
}

/// Each character replaced by its symbol expansion, in order.
pub open spec fn symbols_translated(s: Seq<char>) -> Seq<char>
    decreases s.len(),
{
    if s.len() == 0 {
        Seq::empty()
    } else {
        symbol_expansion(s[0]) + symbols_translated(s.drop_first())
    }
}

pub proof fn lemma_symbols_snoc(s: Seq<char>, c: char)
    ensures
        symbols_translated(s.push(c)) == symbols_translated(s) + symbol_expansion(c),
    decreases s.len(),
{
    if s.len() == 0 {
        let p = s.push(c);
        assert(p[0] == c);
        assert(p.drop_first() =~= Seq::<char>::empty());
        assert(symbols_translated(Seq::<char>::empty()) =~= Seq::<char>::empty());
        assert(symbols_translated(p) == symbol_expansion(c) + symbols_translated(
            Seq::<char>::empty(),
        ));
        assert(symbols_translated(p) =~= symbol_expansion(c));
        assert(symbols_translated(s) + symbol_expansion(c) =~= symbol_expansion(c));
    } else {
        assert(s.push(c)[0] == s[0]);
        assert(s.push(c).drop_first() =~= s.drop_first().push(c));
        lemma_symbols_snoc(s.drop_first(), c);
        assert(symbols_translated(s.push(c)) =~= symbols_translated(s) + symbol_expansion(c));
    }
}

fn symbol_chars(c: char) -> (r: Vec<char>)
    ensures
        r@ == symbol_expansion(c),
{
    if c == '=' {
        chars_of("Equal")
    } else if c == '-' {
        chars_of("Minus")
    } else if c == '[' {
        chars_of("BracketLeft")
    } else if c == ']' {
        chars_of("BracketRight")
    } else if c == ';' {
        chars_of("Semicolon")
    } else if c == '\'' {
        chars_of("Quote")
    } else if c == ',' {
        chars_of("Comma")
    } else if c == '.' {
        chars_of("Period")
    } else if c == '/' {
        chars_of("Slash")
    } else if c == '\\' {
        chars_of("Backslash")
    } else if c == '`' {
        chars_of("Backquote")
    } else {
        let mut v: Vec<char> = Vec::new();
        v.push(c);
        proof {
            assert(v@ =~= seq![c]);
        }
        v
    }
}

/// Translates literal punctuation in a shortcut string to the named OS
/// key identifiers, so that `Control+,` and `Control+Comma` compare equal
/// after normalization.
pub fn translate_key_symbols(shortcut: &str) -> (r: String)
    ensures
        r@ == symbols_translated(shortcut@),
{
    let v = chars_of(shortcut);
    let mut out: Vec<char> = Vec::new();
    let mut i: usize = 0;
    proof {
        assert(v@.take(0) =~= Seq::<char>::empty());
    }
    while i < v.len()
        invariant
            0 <= i <= v@.len(),
            out@ == symbols_translated(v@.take(i as int)),
        decreases v@.len() - i,
    {
        let e = symbol_chars(v[i]);
        append_chars(&mut out, &e);
        proof {
            lemma_symbols_snoc(v@.take(i as int), v@[i as int]);
            assert(v@.take(i as int).push(v@[i as int]) =~= v@.take(i + 1));
        }
        i = i + 1;
    }
    proof {
        assert(v@.take(v@.len() as int) =~= v@);
    }
    string_of(&out)
}

// ------------------------------------------------------------- reorder

/// The canonical modifier order: shift, control, alt, meta, super, cmd,
/// win.
pub open spec fn canonical_modifiers() -> Seq<Seq<char>> {
    seq!["shift"@, "control"@, "alt"@, "meta"@, "super"@, "cmd"@, "win"@]
}

/// For each canonical modifier in order, its first occurrence (if any) is
/// moved to the front; whatever modifiers remain keep their original
/// relative order behind them.
pub open spec fn reorder_rec(canon: Seq<Seq<char>>, mods: Seq<Seq<char>>) -> Seq<Seq<char>>
    decreases canon.len(),
{
    if canon.len() == 0 {
        mods
    } else {
        let c = canon[0];
        if mods.contains(c) {
            seq![c] + reorder_rec(canon.drop_first(), mods.remove_value(c))
        } else {
            reorder_rec(canon.drop_first(), mods)
        }
    }
}

pub open spec fn reorder_mods(mods: Seq<Seq<char>>) -> Seq<Seq<char>> {
    reorder_rec(canonical_modifiers(), mods)
}

proof fn lemma_views_remove(s: Seq<Vec<char>>, i: int)
    requires
        0 <= i < s.len(),
    ensures
        views_of(s.remove(i)) == views_of(s).remove(i),
{
    s.remove_ensures(i);
    views_of(s).remove_ensures(i);
    assert(views_of(s.remove(i)) =~= views_of(s).remove(i));
}

/// Remove the first element of `rest` equal to `canon` (if any) and move
/// it to the end of `ordered`.
fn pick_modifier(ordered: &mut Vec<Vec<char>>, rest: &mut Vec<Vec<char>>, canon: &Vec<char>)
    ensures
        views_of(old(rest)@).contains(canon@) ==> {
            &&& views_of(final(ordered)@) == views_of(old(ordered)@).push(canon@)
            &&& views_of(final(rest)@) == views_of(old(rest)@).remove_value(canon@)
        },
        !views_of(old(rest)@).contains(canon@) ==> {
            &&& final(ordered)@ == old(ordered)@
            &&& final(rest)@ == old(rest)@
        },
{
    let n = rest.len();
    let mut j: usize = 0;
    while j < n
        invariant
            0 <= j <= n,
            n == rest@.len(),
            rest@ == old(rest)@,
            ordered@ == old(ordered)@,
            forall|k: int| 0 <= k < j ==> views_of(rest@)[k] != canon@,
        decreases n - j,
    {
        if eq_chars(&rest[j], canon) {
            let elem = rest.remove(j);
            ordered.push(elem);
            proof {
                let vs = views_of(old(rest)@);
                vs.index_of_first_ensures(canon@);
                assert(vs[j as int] == canon@);
                assert(vs.contains(canon@));
                let fi = vs.index_of_first(canon@)->Some_0;
                assert(vs[fi] == canon@);
                assert(fi == j);
                lemma_views_remove(old(rest)@, j as int);
                assert(views_of(ordered@) =~= views_of(old(ordered)@).push(canon@));
            }
            return ;
        }
        j = j + 1;
    }
    proof {
        let vs = views_of(old(rest)@);
        if vs.contains(canon@) {
            let k = choose|k: int| 0 <= k < vs.len() && vs[k] == canon@;
            assert(vs[k] != canon@);
            assert(false);
        }
    }
}

/// Reorders modifier tokens into the canonical sequence; non-canonical
/// modifiers follow in their original relative order.
fn reorder_modifiers(mods: Vec<Vec<char>>) -> (r: Vec<Vec<char>>)
    ensures
        views_of(r@) == reorder_mods(views_of(mods@)),
{
    let ghost mods0 = views_of(mods@);
    let mut canon_names: Vec<Vec<char>> = Vec::new();
    canon_names.push(chars_of("shift"));
    canon_names.push(chars_of("control"));
    canon_names.push(chars_of("alt"));
    canon_names.push(chars_of("meta"));
    canon_names.push(chars_of("super"));
    canon_names.push(chars_of("cmd"));
    canon_names.push(chars_of("win"));
    proof {
        assert(views_of(canon_names@) =~= canonical_modifiers());
    }
    let mut ordered: Vec<Vec<char>> = Vec::new();
    let mut rest = mods;
    let mut k: usize = 0;
    proof {
        assert(canonical_modifiers().skip(0) =~= canonical_modifiers());
        assert(views_of(ordered@) + reorder_rec(canonical_modifiers().skip(0), views_of(rest@))
            =~= reorder_mods(mods0));
    }
    while k < 7
        invariant
            0 <= k <= 7,
            canon_names@.len() == 7,
            views_of(canon_names@) == canonical_modifiers(),
            views_of(ordered@) + reorder_rec(canonical_modifiers().skip(k as int), views_of(rest@))
                == reorder_mods(mods0),
        decreases 7 - k,
    {
        let ghost ck = canonical_modifiers().skip(k as int);
        proof {
            assert(ck[0] == canonical_modifiers()[k as int]);
            assert(ck.drop_first() =~= canonical_modifiers().skip(k + 1));
        }
        let ghost before_ordered = views_of(ordered@);
        let ghost before_rest = views_of(rest@);
        let cn = &canon_names[k];
        pick_modifier(&mut ordered, &mut rest, cn);
        proof {
            if before_rest.contains(ck[0]) {
                assert(views_of(ordered@) =~= before_ordered.push(ck[0]));
                assert(before_ordered.push(ck[0]) + reorder_rec(
                    canonical_modifiers().skip(k + 1),
                    before_rest.remove_value(ck[0]),
                ) =~= before_ordered + (seq![ck[0]] + reorder_rec(
                    canonical_modifiers().skip(k + 1),
                    before_rest.remove_value(ck[0]),
                )));
            }
        }
        k = k + 1;
    }
    proof {
        assert(canonical_modifiers().skip(7) =~= Seq::<Seq<char>>::empty());
        assert(reorder_rec(Seq::empty(), views_of(rest@)) == views_of(rest@));
    }
    let mut out = ordered;
    let mut i: usize = 0;
    let ghost rest_views = views_of(rest@);
    let ghost out0 = views_of(out@);
    while i < rest.len()
        invariant
            0 <= i <= rest@.len(),
            views_of(rest@) == rest_views,
            views_of(out@) == out0 + rest_views.take(i as int),
        decreases rest@.len() - i,
    {
        let ghost prev = views_of(out@);
        let elem = rest[i].clone();
        proof {
            assert(elem@ == rest@[i as int]@);
        }
        out.push(elem);
        proof {
            assert(views_of(out@) =~= prev.push(rest_views[i as int]));
            assert(prev.push(rest_views[i as int]) =~= out0 + rest_views.take(i + 1));
        }
        i = i + 1;
    }
    proof {
        assert(rest_views.take(rest_views.len() as int) =~= rest_views);
        assert(views_of(out@) =~= reorder_mods(mods0));
    }
    out
}

// ------------------------------------------------------------- normalize

/// The canonical form of a key-combination string: a string without a
/// separator is lower-cased whole; otherwise the trailing token is the
/// key (lower-cased, a literal `key` prefix stripped) and the preceding
/// tokens are modifiers (trimmed, lower-cased, reordered canonically),
/// joined with `+`.
/// The canonical key token: lower-cased, with a literal `key` prefix
/// stripped (so a token naming "the letter key K" collapses to `k`).
pub open spec fn normal_key(k: Seq<char>) -> Seq<char> {
    let key = lower(k);
    if has_prefix(key, "key"@) {
        key.skip(3)
    } else {
        key
    }
}

/// The canonical modifier tokens: each trimmed and lower-cased, then
/// reordered into the canonical sequence.
pub open spec fn normal_mods(parts: Seq<Seq<char>>) -> Seq<Seq<char>> {
    parts.drop_last().map_values(|m: Seq<char>| lower(trim(m)))
}

pub open spec fn normalized(s: Seq<char>) -> Seq<char> {
    let parts = split_char(s, '+');
    if parts.len() <= 1 {
        lower(s)
    } else {
        join_char(reorder_mods(normal_mods(parts)), '+') + seq!['+'] + normal_key(parts.last())
    }
}

/// Stripping one `key` prefix from the key token settles it: the result
/// does not itself begin with `key`. Normalization strips the prefix only
/// once, so this is exactly when normalizing reaches a fixed point.
pub open spec fn key_prefix_stable(s: Seq<char>) -> bool {
    let parts = split_char(s, '+');
    parts.len() <= 1 || !has_prefix(normal_key(parts.last()), "key"@)
}

/// Normalizes a shortcut string for comparison: two shortcut strings mean
/// the same key combination exactly when their normalized forms are equal.
pub fn normalize_shortcut(shortcut: &str) -> (r: String)
    ensures
        r@ == normalized(shortcut@),
{
    let v = chars_of(shortcut);
    let parts = split_on(&v, '+');
    let n = parts.len();
    if n <= 1 {
        let low = to_lower(&v);
        return string_of(&low);
    }
    let key = to_lower(&parts[n - 1]);
    proof {
        assert(views_of(parts@)[n - 1] == views_of(parts@).last());
    }
    let key_n = if has_prefix_str(&key, "key") {
        proof {
            reveal_strlit("key");
        }
        let t = subvec(&key, 3, key.len());
        proof {
            assert(t@ =~= key@.skip(3));
        }
        t
    } else {
        key
    };
    let mut mods: Vec<Vec<char>> = Vec::new();
    let mut i: usize = 0;
    let ghost mods_spec = views_of(parts@).drop_last().map_values(|m: Seq<char>| lower(trim(m)));
    proof {
        assert(views_of(mods@) =~= mods_spec.take(0));
    }
    while i < n - 1
        invariant
            0 <= i <= n - 1,
            n == parts@.len(),
            views_of(parts@) == split_char(v@, '+'),
            mods_spec == views_of(parts@).drop_last().map_values(|m: Seq<char>| lower(trim(m))),
            mods_spec.len() == n - 1,
            views_of(mods@) == mods_spec.take(i as int),
        decreases n - 1 - i,
    {
        let t = trim_spaces(&parts[i]);
        let m = to_lower(&t);
        let ghost prev = views_of(mods@);
        mods.push(m);
        proof {
            assert(mods_spec[i as int] == lower(trim(views_of(parts@)[i as int])));
            assert(views_of(mods@) =~= prev.push(m@));
            assert(prev.push(m@) =~= mods_spec.take(i + 1));
        }
        i = i + 1;
    }
    proof {
        assert(mods_spec.take((n - 1) as int) =~= mods_spec);
    }
    let ordered = reorder_modifiers(mods);
    let mut out = join_with(&ordered, '+');
    out.push('+');
    append_chars(&mut out, &key_n);
    proof {
        assert(out@ =~= normalized(v@));
    }
    string_of(&out)
}


// ------------------------------------------------------------- registry

/// The error taxonomy of the shortcut registry.
#[derive(Debug, Clone, Copy, PartialEq, Eq, Structural)]
pub enum RegistryError {
    /// The combination string could not be parsed; nothing was changed.
    InvalidShortcutFormat,
    /// The OS refused the combination; the old binding is retained.
    RegistrationConflict,
    /// No binding has the given logical identifier.
    BindingNotFound,
    /// Not one binding could be registered at startup.
    NoShortcutsRegistered,
}

impl RegistryError {
    /// A short description, for surfacing to the caller.
    pub fn describe(&self) -> (r: &'static str)
        ensures
            r@ == match *self {
                RegistryError::InvalidShortcutFormat => "invalid shortcut format"@,
                RegistryError::RegistrationConflict => "failed to register shortcut"@,
                RegistryError::BindingNotFound => "shortcut not found"@,
                RegistryError::NoShortcutsRegistered => "failed to register any shortcuts"@,
            },
    {
        match *self {
            RegistryError::InvalidShortcutFormat => "invalid shortcut format",
            RegistryError::RegistrationConflict => "failed to register shortcut",
            RegistryError::BindingNotFound => "shortcut not found",
            RegistryError::NoShortcutsRegistered => "failed to register any shortcuts",
        }
    }
}

/// One named binding: a human-readable name and its key-combination
/// string.
#[derive(Debug, Clone)]
pub struct ShortcutConfig {
    pub name: String,
    pub default_shortcut: String,
}

impl Default for ShortcutConfig {
    fn default() -> (r: Self)
        ensures
            r.name@ == Seq::<char>::empty(),
            r.default_shortcut@ == Seq::<char>::empty(),
    {
        Self { name: String::new(), default_shortcut: String::new() }
    }
}

/// The full binding set: logical identifiers paired with their bindings,
/// in a fixed order so that registration is deterministic.
#[derive(Debug)]
pub struct ShortcutsConfig {
    pub shortcuts: Vec<(String, ShortcutConfig)>,
}

impl ShortcutsConfig {
    /// Identifiers are unique keys.
    pub open spec fn wf(self) -> bool {
        forall|i: int, j: int|
            0 <= i < j < self.shortcuts@.len() ==> self.shortcuts@[i].0@ != self.shortcuts@[j].0@
    }

    /// Some binding has this identifier.
    pub open spec fn has_id(self, id: Seq<char>) -> bool {
        exists|i: int| 0 <= i < self.shortcuts@.len() && self.shortcuts@[i].0@ == id
    }

    /// The index of the binding with this identifier.
    pub open spec fn index_of_id(self, id: Seq<char>) -> int {
        choose|i: int| 0 <= i < self.shortcuts@.len() && self.shortcuts@[i].0@ == id
    }

    /// The combination string currently bound to this identifier.
    pub open spec fn combo_of(self, id: Seq<char>) -> Seq<char> {
        self.shortcuts@[self.index_of_id(id)].1.default_shortcut@
    }

    /// The whole binding set, in registration order.
    pub fn get_all_shortcuts(&self) -> (r: &Vec<(String, ShortcutConfig)>)
        ensures
            r@ == self.shortcuts@,
    {
        &self.shortcuts
    }

    fn find_index(&self, id: &str) -> (r: Option<usize>)
        ensures
            match r {
                Some(i) => i < self.shortcuts@.len() && self.shortcuts@[i as int].0@ == id@,
                None => !self.has_id(id@),
            },
    {
        let mut i: usize = 0;
        while i < self.shortcuts.len()
            invariant
                0 <= i <= self.shortcuts@.len(),
                forall|k: int| 0 <= k < i ==> self.shortcuts@[k].0@ != id@,
            decreases self.shortcuts@.len() - i,
        {
            let vc = chars_of(self.shortcuts[i].0.as_str());
            if eq_str(&vc, id) {
                return Some(i);
            }
            i = i + 1;
        }
        None
    }
}

impl Default for ShortcutsConfig {
    /// The hard-coded default binding set used when no persisted
    /// configuration is available.
    fn default() -> (r: Self)
        ensures
            r.wf(),
            r.shortcuts@.len() == 4,
            r.shortcuts@[0].0@ == "moveMonitorLeft"@,
            r.shortcuts@[0].1.name@ == "Move to Left Monitor"@,
            r.shortcuts@[0].1.default_shortcut@ == "Shift+Control+Alt+ArrowLeft"@,
            r.shortcuts@[1].0@ == "moveMonitorRight"@,
            r.shortcuts@[1].1.name@ == "Move to Right Monitor"@,
            r.shortcuts@[1].1.default_shortcut@ == "Shift+Control+Alt+ArrowRight"@,
            r.shortcuts@[2].0@ == "maximizeWindow"@,
            r.shortcuts@[2].1.name@ == "Maximize Window"@,
            r.shortcuts@[2].1.default_shortcut@ == "Control+Alt+Enter"@,
            r.shortcuts@[3].0@ == "almostMaximizeWindow"@,
            r.shortcuts@[3].1.name@ == "Almost Maximize Window"@,
            r.shortcuts@[3].1.default_shortcut@ == "Shift+Control+Alt+Enter"@,
    {
        let mut shortcuts: Vec<(String, ShortcutConfig)> = Vec::new();
        shortcuts.push((
            String::from_str("moveMonitorLeft"),
            ShortcutConfig {
                name: String::from_str("Move to Left Monitor"),
                default_shortcut: String::from_str("Shift+Control+Alt+ArrowLeft"),
            },
        ));
        shortcuts.push((
            String::from_str("moveMonitorRight"),
            ShortcutConfig {
                name: String::from_str("Move to Right Monitor"),
                default_shortcut: String::from_str("Shift+Control+Alt+ArrowRight"),
            },
        ));
        shortcuts.push((
            String::from_str("maximizeWindow"),
            ShortcutConfig {
                name: String::from_str("Maximize Window"),
                default_shortcut: String::from_str("Control+Alt+Enter"),
            },
        ));
        shortcuts.push((
            String::from_str("almostMaximizeWindow"),
            ShortcutConfig {
                name: String::from_str("Almost Maximize Window"),
                default_shortcut: String::from_str("Shift+Control+Alt+Enter"),
            },
        ));
        proof {
            reveal_strlit("moveMonitorLeft");
            reveal_strlit("moveMonitorRight");
            reveal_strlit("maximizeWindow");
            reveal_strlit("almostMaximizeWindow");
            assert("moveMonitorLeft"@.len() == 15);
            assert("moveMonitorRight"@.len() == 16);
            assert("maximizeWindow"@.len() == 14);
            assert("almostMaximizeWindow"@.len() == 20);
            assert(shortcuts@.len() == 4);
            assert(shortcuts@[0].0@ == "moveMonitorLeft"@);
            assert(shortcuts@[1].0@ == "moveMonitorRight"@);
            assert(shortcuts@[2].0@ == "maximizeWindow"@);
            assert(shortcuts@[3].0@ == "almostMaximizeWindow"@);
        }
        Self { shortcuts }
    }
}

/// Owns the binding set for the application lifetime; every read and
/// every update goes through it.
pub struct ShortcutManager {
    pub shortcuts: ShortcutsConfig,
}

impl ShortcutManager {
    pub fn new(shortcuts: ShortcutsConfig) -> (r: Self)
        ensures
            r.shortcuts == shortcuts,
    {
        Self { shortcuts }
    }
}


// ------------------------------------------------------------- update

/// The OS-side outcome of attempting to register a new combination,
/// reported back to [`ShortcutManager::commit_update`].
#[derive(Debug, Clone, Copy, PartialEq, Eq, Structural)]
pub enum RegistrationOutcome {
    /// The translated combination could not be parsed.
    ParseFailed,
    /// Parsing succeeded but the OS refused the registration.
    Refused,
    /// The new combination is registered and live.
    Registered,
}

/// What the caller must do next for an update request. Only `Proceed`
/// asks for any OS interaction: `NoChange` and `NotFound` are final, with
/// no registration or unregistration call.
#[derive(Debug)]
pub enum UpdateStep {
    /// No binding has the identifier; the update fails.
    NotFound,
    /// The new combination normalizes equal to the current one; the
    /// update succeeds with nothing to do.
    NoChange,
    /// Register `to_register`; once that succeeds, unregister the old
    /// combination, trying `old_exact` first and `old_normalized` second,
    /// then commit.
    Proceed { to_register: String, old_exact: String, old_normalized: String },
}

impl ShortcutManager {
    /// Decides what an update of `shortcut_id` to `new_shortcut` must do.
    /// The decision mutates nothing.
    pub fn update_step(&self, shortcut_id: &str, new_shortcut: &str) -> (r: UpdateStep)
        requires
            self.shortcuts.wf(),
        ensures
            (r is NotFound) <==> !self.shortcuts.has_id(shortcut_id@),
            (r is NoChange) <==> (self.shortcuts.has_id(shortcut_id@) && normalized(
                symbols_translated(self.shortcuts.combo_of(shortcut_id@)),
            ) == normalized(symbols_translated(new_shortcut@))),
            r matches UpdateStep::Proceed { to_register, old_exact, old_normalized } ==> {
                &&& self.shortcuts.has_id(shortcut_id@)
                &&& normalized(symbols_translated(self.shortcuts.combo_of(shortcut_id@)))
                    != normalized(symbols_translated(new_shortcut@))
                &&& to_register@ == symbols_translated(new_shortcut@)
                &&& old_exact@ == self.shortcuts.combo_of(shortcut_id@)
                &&& old_normalized@ == normalized(self.shortcuts.combo_of(shortcut_id@))
            },
    {
        match self.shortcuts.find_index(shortcut_id) {
            None => UpdateStep::NotFound,
            Some(i) => {
                proof {
                    assert(self.shortcuts.has_id(shortcut_id@));
                    let w = self.shortcuts.index_of_id(shortcut_id@);
                    assert(self.shortcuts.shortcuts@[w].0@ == shortcut_id@);
                    assert(w == i);
                }
                let old_s = self.shortcuts.shortcuts[i].1.default_shortcut.clone();
                let t_old = translate_key_symbols(old_s.as_str());
                let n_old = normalize_shortcut(t_old.as_str());
                let t_new = translate_key_symbols(new_shortcut);
                let n_new = normalize_shortcut(t_new.as_str());
                if n_old == n_new {
                    UpdateStep::NoChange
                } else {
                    let old_norm = normalize_shortcut(old_s.as_str());
                    UpdateStep::Proceed {
                        to_register: t_new,
                        old_exact: old_s,
                        old_normalized: old_norm,
                    }
                }
            },
        }
    }

    /// Commits an update once the OS interaction is done. On a parse
    /// failure or a refused registration the binding set is untouched and
    /// the matching error is returned; only a confirmed registration
    /// commits the new combination.
    pub fn commit_update(
        &mut self,
        shortcut_id: &str,
        new_shortcut: &str,
        outcome: RegistrationOutcome,
    ) -> (r: Result<(), RegistryError>)
        requires
            old(self).shortcuts.wf(),
        ensures
            outcome is ParseFailed ==> *final(self) == *old(self) && r == Err::<
                (),
                RegistryError,
            >(RegistryError::InvalidShortcutFormat),
            outcome is Refused ==> *final(self) == *old(self) && r == Err::<
                (),
                RegistryError,
            >(RegistryError::RegistrationConflict),
            outcome is Registered && !old(self).shortcuts.has_id(shortcut_id@) ==> *final(self)
                == *old(self) && r == Err::<(), RegistryError>(RegistryError::BindingNotFound),
            outcome is Registered && old(self).shortcuts.has_id(shortcut_id@) ==> {
                let w = old(self).shortcuts.index_of_id(shortcut_id@);
                &&& r == Ok::<(), RegistryError>(())
                &&& final(self).shortcuts.wf()
                &&& final(self).shortcuts.shortcuts@.len() == old(self).shortcuts.shortcuts@.len()
                &&& forall|k: int|
                    0 <= k < old(self).shortcuts.shortcuts@.len() ==> {
                        &&& (#[trigger] final(self).shortcuts.shortcuts@[k]).0@ == old(
                            self,
                        ).shortcuts.shortcuts@[k].0@
                        &&& final(self).shortcuts.shortcuts@[k].1.name@ == old(
                            self,
                        ).shortcuts.shortcuts@[k].1.name@
                    }
                &&& forall|k: int|
                    0 <= k < old(self).shortcuts.shortcuts@.len() && k != w ==> (
                    #[trigger] final(self).shortcuts.shortcuts@[k]).1.default_shortcut@ == old(
                        self,
                    ).shortcuts.shortcuts@[k].1.default_shortcut@
                &&& final(self).shortcuts.shortcuts@[w].1.default_shortcut@ == new_shortcut@
                &&& final(self).shortcuts.combo_of(shortcut_id@) == new_shortcut@
            },
    {
        match outcome {
            RegistrationOutcome::ParseFailed => Err(RegistryError::InvalidShortcutFormat),
            RegistrationOutcome::Refused => Err(RegistryError::RegistrationConflict),
            RegistrationOutcome::Registered => {
                match self.shortcuts.find_index(shortcut_id) {
                    None => Err(RegistryError::BindingNotFound),
                    Some(i) => {
                        proof {
                            let w = old(self).shortcuts.index_of_id(shortcut_id@);
                            assert(old(self).shortcuts.shortcuts@[w].0@ == shortcut_id@);
                            assert(w == i);
                        }
                        let entry = self.shortcuts.shortcuts.remove(i);
                        let updated = ShortcutConfig {
                            name: entry.1.name,
                            default_shortcut: String::from_str(new_shortcut),
                        };
                        self.shortcuts.shortcuts.insert(i, (entry.0, updated));
                        proof {
                            let ov = old(self).shortcuts.shortcuts@;
                            let nv = self.shortcuts.shortcuts@;
                            assert(nv =~= ov.update(
                                i as int,
                                (ov[i as int].0, ShortcutConfig {
                                    name: ov[i as int].1.name,
                                    default_shortcut: nv[i as int].1.default_shortcut,
                                }),
                            ));
                            assert forall|k: int| 0 <= k < nv.len() implies (#[trigger] nv[k]).0@
                                == ov[k].0@ && nv[k].1.name@ == ov[k].1.name@ by {}
                            let w = old(self).shortcuts.index_of_id(shortcut_id@);
                            assert(self.shortcuts.shortcuts@[w].0@ == shortcut_id@);
                            assert(self.shortcuts.has_id(shortcut_id@));
                            let w2 = self.shortcuts.index_of_id(shortcut_id@);
                            assert(self.shortcuts.shortcuts@[w2].0@ == shortcut_id@);
                            assert(w2 == w);
                        }
                        Ok(())
                    },
                }
            },
        }
    }
}

// ------------------------------------------------------------- startup

/// One entry of the startup registration plan.
#[derive(Debug)]
pub struct PlanEntry {
    /// The logical identifier of the binding.
    pub id: String,
    /// Its human-readable name.
    pub name: String,
    /// The combination string as configured.
    pub shortcut: String,
    /// The combination with punctuation translated, as handed to the OS.
    pub translated: String,
    /// The normalized form used for duplicate detection.
    pub normal: String,
    /// An earlier entry has the same normalized combination; skip this
    /// one with a warning instead of registering it.
    pub duplicate: bool,
}

/// The normalized combination of each binding, in registration order.
pub open spec fn normalized_combos(bindings: Seq<(String, ShortcutConfig)>) -> Seq<Seq<char>> {
    bindings.map_values(
        |b: (String, ShortcutConfig)| normalized(symbols_translated(b.1.default_shortcut@)),
    )
}

/// An entry is a duplicate exactly when an earlier entry has the same
/// normalized combination: the first registrant wins.
pub open spec fn duplicate_of_earlier(normals: Seq<Seq<char>>, i: int) -> bool {
    exists|j: int| 0 <= j < i && normals[j] == normals[i]
}

/// The startup registration plan: every binding in order, each translated
/// and normalized, with later duplicates marked to be skipped.
pub fn registration_plan(config: &ShortcutsConfig) -> (r: Vec<PlanEntry>)
    ensures
        r@.len() == config.shortcuts@.len(),
        forall|i: int|
            0 <= i < r@.len() ==> {
                let b = config.shortcuts@[i];
                &&& (#[trigger] r@[i]).id@ == b.0@
                &&& r@[i].name@ == b.1.name@
                &&& r@[i].shortcut@ == b.1.default_shortcut@
                &&& r@[i].translated@ == symbols_translated(b.1.default_shortcut@)
                &&& r@[i].normal@ == normalized_combos(config.shortcuts@)[i]
                &&& r@[i].duplicate == duplicate_of_earlier(normalized_combos(config.shortcuts@), i)
            },
{
    let ghost normals = normalized_combos(config.shortcuts@);
    let mut r: Vec<PlanEntry> = Vec::new();
    let mut i: usize = 0;
    while i < config.shortcuts.len()
        invariant
            0 <= i <= config.shortcuts@.len(),
            normals == normalized_combos(config.shortcuts@),
            r@.len() == i,
            forall|k: int|
                0 <= k < i ==> {
                    let b = config.shortcuts@[k];
                    &&& (#[trigger] r@[k]).id@ == b.0@
                    &&& r@[k].name@ == b.1.name@
                    &&& r@[k].shortcut@ == b.1.default_shortcut@
                    &&& r@[k].translated@ == symbols_translated(b.1.default_shortcut@)
                    &&& r@[k].normal@ == normals[k]
                    &&& r@[k].duplicate == duplicate_of_earlier(normals, k)
                },
        decreases config.shortcuts@.len() - i,
    {
        let entry = &config.shortcuts[i];
        let translated = translate_key_symbols(entry.1.default_shortcut.as_str());
        let normal = normalize_shortcut(translated.as_str());
        proof {
            assert(normal@ == normals[i as int]);
        }
        let mut duplicate = false;
        let mut j: usize = 0;
        while j < i
            invariant
                0 <= j <= i < config.shortcuts@.len(),
                normals == normalized_combos(config.shortcuts@),
                r@.len() == i,
                normal@ == normals[i as int],
                forall|k: int| 0 <= k < i ==> (#[trigger] r@[k]).normal@ == normals[k],
                duplicate == exists|k: int| 0 <= k < j && normals[k] == normals[i as int],
            decreases i - j,
        {
            if !duplicate && r[j].normal == normal {
                duplicate = true;
            }
            proof {
                if r@[j as int].normal@ == normal@ {
                    assert(normals[j as int] == normals[i as int]);
                }
            }
            j = j + 1;
        }
        r.push(PlanEntry {
            id: entry.0.clone(),
            name: entry.1.name.clone(),
            shortcut: entry.1.default_shortcut.clone(),
            translated,
            normal,
            duplicate,
        });
        i = i + 1;
    }
    r
}

/// How many of the first `n` plan entries were attempted (not marked
/// duplicate) and succeeded.
pub open spec fn successes(plan: Seq<PlanEntry>, outcomes: Seq<bool>, n: int) -> int
    decreases n,
{
    if n <= 0 {
        0
    } else {
        successes(plan, outcomes, n - 1) + if !plan[n - 1].duplicate && outcomes[n - 1] {
            1int
        } else {
            0int
        }
    }
}

pub proof fn lemma_successes_bound(plan: Seq<PlanEntry>, outcomes: Seq<bool>, n: int)
    requires
        n >= 0,
    ensures
        0 <= successes(plan, outcomes, n) <= n,
    decreases n,
{
    if n > 0 {
        lemma_successes_bound(plan, outcomes, n - 1);
    }
}

/// Startup succeeds exactly when at least one binding registered; with
/// none, the whole startup step fails.
pub fn evaluate_registration(plan: &Vec<PlanEntry>, outcomes: &Vec<bool>) -> (r: Result<
    usize,
    RegistryError,
>)
    requires
        outcomes@.len() == plan@.len(),
    ensures
        ({
            let s = successes(plan@, outcomes@, plan@.len() as int);
            if s > 0 {
                r == Ok::<usize, RegistryError>(s as usize)
            } else {
                r == Err::<usize, RegistryError>(RegistryError::NoShortcutsRegistered)
            }
        }),
{
    let mut count: usize = 0;
    let mut i: usize = 0;
    proof {
        lemma_successes_bound(plan@, outcomes@, plan@.len() as int);
    }
    while i < plan.len()
        invariant
            0 <= i <= plan@.len(),
            outcomes@.len() == plan@.len(),
            count == successes(plan@, outcomes@, i as int),
            count <= i,
        decreases plan@.len() - i,
    {
        if !plan[i].duplicate && outcomes[i] {
            count = count + 1;
        }
        i = i + 1;
    }
    if count > 0 {
        Ok(count)
    } else {
        Err(RegistryError::NoShortcutsRegistered)
    }
}

/// Of any two bindings whose combinations normalize identically, the
/// later is marked a duplicate: at most one of them is registered.
pub proof fn lemma_duplicate_marked(normals: Seq<Seq<char>>, i: int, j: int)
    requires
        0 <= i < j < normals.len(),
        normals[i] == normals[j],
    ensures
        duplicate_of_earlier(normals, j),
{
}

/// For every binding, some binding with the same normalized combination
/// (possibly itself) is not marked a duplicate: each combination present
/// in the configuration is registered exactly once.
pub proof fn lemma_first_registrant_wins(normals: Seq<Seq<char>>, i: int)
    requires
        0 <= i < normals.len(),
    ensures
        exists|k: int|
            0 <= k <= i && normals[k] == normals[i] && !duplicate_of_earlier(normals, k),
    decreases i,
{
    if duplicate_of_earlier(normals, i) {
        let j = choose|j: int| 0 <= j < i && normals[j] == normals[i];
        lemma_first_registrant_wins(normals, j);
        let k = choose|k: int|
            0 <= k <= j && normals[k] == normals[j] && !duplicate_of_earlier(normals, k);
        assert(normals[k] == normals[i]);
    } else {
        assert(normals[i] == normals[i] && !duplicate_of_earlier(normals, i));
    }
}

} // verus!
