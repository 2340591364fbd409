//! Laws of shortcut canonicalization: normalizing is idempotent, and it
//! does not depend on the order or case of the modifier tokens.

use vstd::prelude::*;
use vstd::multiset::Multiset;
use vstd::seq_lib::group_seq_properties;
use crate::text::{
    find_first, has_prefix, is_space, join_char, lower, lower_char, split_char, trim, trim_end,
    trim_start, lemma_find_first, lemma_split_tokens_free, lemma_split_join, lemma_split_whole,
    lemma_split_nonempty, lemma_join_snoc, lemma_lower_idempotent, lemma_trim_fixed,
};
use crate::shortcuts::{
    canonical_modifiers, key_prefix_stable, normal_key, normal_mods, normalized, reorder_mods,
    reorder_rec,
};

verus! {

// --------------------------------------------------------- char algebra

proof fn lemma_lower_keeps_sep_free(s: Seq<char>)
    requires
        !s.contains('+'),
    ensures
        !lower(s).contains('+'),
{
    if lower(s).contains('+') {
        let i = choose|i: int| 0 <= i < lower(s).len() && lower(s)[i] == '+';
        assert(lower_char(s[i]) == '+');
        assert(s[i] == '+');
        assert(s.contains('+'));
    }
}

proof fn lemma_trim_start_subset(s: Seq<char>, c: char)
    requires
        !s.contains(c),
    ensures
        !trim_start(s).contains(c),
    decreases s.len(),
{
    if s.len() > 0 && is_space(s[0]) {
        let t = s.drop_first();
        if t.contains(c) {
            let i = choose|i: int| 0 <= i < t.len() && t[i] == c;
            assert(s[i + 1] == c);
        }
        lemma_trim_start_subset(t, c);
    }
}

proof fn lemma_trim_end_subset(s: Seq<char>, c: char)
    requires
        !s.contains(c),
    ensures
        !trim_end(s).contains(c),
    decreases s.len(),
{
    if s.len() > 0 && is_space(s.last()) {
        let t = s.drop_last();
        if t.contains(c) {
            let i = choose|i: int| 0 <= i < t.len() && t[i] == c;
            assert(s[i] == c);
        }
        lemma_trim_end_subset(t, c);
    }
}

proof fn lemma_trim_keeps_sep_free(s: Seq<char>, c: char)
    requires
        !s.contains(c),
    ensures
        !trim(s).contains(c),
{
    lemma_trim_start_subset(s, c);
    lemma_trim_end_subset(trim_start(s), c);
}

proof fn lemma_lower_drop_first(s: Seq<char>)
    requires
        s.len() > 0,
    ensures
        lower(s.drop_first()) == lower(s).drop_first(),
{
    assert(lower(s.drop_first()) =~= lower(s).drop_first());
}

proof fn lemma_lower_drop_last(s: Seq<char>)
    requires
        s.len() > 0,
    ensures
        lower(s.drop_last()) == lower(s).drop_last(),
{
    assert(lower(s.drop_last()) =~= lower(s).drop_last());
}

/// Trimming commutes with lower-casing: lower-casing moves no character
/// into or out of the whitespace class.
proof fn lemma_trim_start_lower(s: Seq<char>)
    ensures
        trim_start(lower(s)) == lower(trim_start(s)),
    decreases s.len(),
{
    if s.len() == 0 {
        assert(lower(s) =~= Seq::<char>::empty());
    } else {
        assert(lower(s)[0] == lower_char(s[0]));
        if is_space(s[0]) {
            lemma_lower_drop_first(s);
            lemma_trim_start_lower(s.drop_first());
        }
    }
}

proof fn lemma_trim_end_lower(s: Seq<char>)
    ensures
        trim_end(lower(s)) == lower(trim_end(s)),
    decreases s.len(),
{
    if s.len() == 0 {
        assert(lower(s) =~= Seq::<char>::empty());
    } else {
        assert(lower(s).last() == lower_char(s.last()));
        if is_space(s.last()) {
            lemma_lower_drop_last(s);
            lemma_trim_end_lower(s.drop_last());
        }
    }
}

proof fn lemma_trim_lower(s: Seq<char>)
    ensures
        trim(lower(s)) == lower(trim(s)),
{
    lemma_trim_start_lower(s);
    lemma_trim_end_lower(trim_start(s));
}

proof fn lemma_trim_start_head(s: Seq<char>)
    ensures
        trim_start(s).len() > 0 ==> !is_space(trim_start(s)[0]),
    decreases s.len(),
{
    if s.len() > 0 && is_space(s[0]) {
        lemma_trim_start_head(s.drop_first());
    }
}

proof fn lemma_trim_end_last(s: Seq<char>)
    ensures
        trim_end(s).len() > 0 ==> !is_space(trim_end(s).last()),
    decreases s.len(),
{
    if s.len() > 0 && is_space(s.last()) {
        lemma_trim_end_last(s.drop_last());
    }
}

proof fn lemma_trim_end_head(s: Seq<char>)
    ensures
        trim_end(s).len() > 0 ==> trim_end(s)[0] == s[0],
    decreases s.len(),
{
    if s.len() > 0 && is_space(s.last()) {
        lemma_trim_end_head(s.drop_last());
    }
}

/// Trimming is idempotent.
proof fn lemma_trim_idempotent(s: Seq<char>)
    ensures
        trim(trim(s)) == trim(s),
{
    let t = trim(s);
    lemma_trim_start_head(s);
    lemma_trim_end_head(trim_start(s));
    lemma_trim_end_last(trim_start(s));
    lemma_trim_fixed(t);
}

/// A canonical modifier token is already trimmed and lower-case.
proof fn lemma_mod_token_fixed(p: Seq<char>)
    ensures
        lower(trim(lower(trim(p)))) == lower(trim(p)),
{
    let m = lower(trim(p));
    lemma_trim_lower(trim(p));
    lemma_trim_idempotent(p);
    assert(trim(m) == lower(trim(trim(p))));
    assert(trim(m) == m);
    lemma_lower_idempotent(trim(p));
    assert(lower(m) == m);
}

// --------------------------------------------------------- reorder laws

proof fn lemma_seq_empty_multiset()
    ensures
        Seq::<Seq<char>>::empty().to_multiset() == Multiset::<Seq<char>>::empty(),
{
    broadcast use group_seq_properties;
    broadcast use vstd::multiset::group_multiset_axioms;

    Seq::<Seq<char>>::empty().to_multiset_ensures();
    assert(Seq::<Seq<char>>::empty().to_multiset() =~= Multiset::<Seq<char>>::empty());
}

proof fn lemma_multiset_cons(c: Seq<char>, r: Seq<Seq<char>>)
    ensures
        (seq![c] + r).to_multiset() == r.to_multiset().insert(c),
{
    broadcast use group_seq_properties;
    broadcast use vstd::multiset::group_multiset_axioms;

    vstd::seq_lib::lemma_multiset_commutative(seq![c], r);
    lemma_seq_empty_multiset();
    assert(seq![c] =~= Seq::<Seq<char>>::empty().push(c));
    assert(seq![c].to_multiset() =~= Multiset::<Seq<char>>::empty().insert(c));
    assert(Multiset::<Seq<char>>::empty().insert(c).add(r.to_multiset()) =~= r.to_multiset().insert(
        c,
    ));
}

proof fn lemma_remove_value_multiset(s: Seq<Seq<char>>, x: Seq<char>)
    requires
        s.contains(x),
    ensures
        s.remove_value(x).to_multiset() == s.to_multiset().remove(x),
        s.remove_value(x).len() == s.len() - 1,
{
    broadcast use group_seq_properties;

    s.index_of_first_ensures(x);
    s.to_multiset_ensures();
}

/// Reordering modifiers keeps exactly the same tokens, with multiplicity
/// (and therefore the same length).
proof fn lemma_reorder_rec_multiset(canon: Seq<Seq<char>>, mods: Seq<Seq<char>>)
    ensures
        reorder_rec(canon, mods).to_multiset() == mods.to_multiset(),
        reorder_rec(canon, mods).len() == mods.len(),
    decreases canon.len(),
{
    broadcast use group_seq_properties;
    broadcast use vstd::multiset::group_multiset_axioms;

    mods.to_multiset_ensures();
    reorder_rec(canon, mods).to_multiset_ensures();
    if canon.len() == 0 {
    } else {
        let c = canon[0];
        if mods.contains(c) {
            let rest = mods.remove_value(c);
            lemma_remove_value_multiset(mods, c);
            lemma_reorder_rec_multiset(canon.drop_first(), rest);
            let r = reorder_rec(canon.drop_first(), rest);
            assert(reorder_rec(canon, mods) == seq![c] + r);
            lemma_multiset_cons(c, r);
            assert(mods.to_multiset().count(c) > 0);
            assert(mods.to_multiset().remove(c).insert(c) =~= mods.to_multiset());
        } else {
            lemma_reorder_rec_multiset(canon.drop_first(), mods);
        }
    }
}


/// Reordering an already-reordered modifier list changes nothing.
proof fn lemma_reorder_rec_idempotent(canon: Seq<Seq<char>>, mods: Seq<Seq<char>>)
    ensures
        reorder_rec(canon, reorder_rec(canon, mods)) == reorder_rec(canon, mods),
    decreases canon.len(),
{
    broadcast use group_seq_properties;
    broadcast use vstd::multiset::group_multiset_axioms;

    if canon.len() == 0 {
    } else {
        let c = canon[0];
        let canon2 = canon.drop_first();
        if mods.contains(c) {
            let rest = mods.remove_value(c);
            let r = reorder_rec(canon2, rest);
            let out = seq![c] + r;
            assert(reorder_rec(canon, mods) == out);
            assert(out[0] == c);
            assert(out.contains(c));
            out.index_of_first_ensures(c);
            let fi = out.index_of_first(c)->Some_0;
            assert(fi == 0) by {
                if fi > 0 {
                    assert(out[0] != c);
                }
            }
            assert(out.remove_value(c) =~= r);
            lemma_reorder_rec_idempotent(canon2, rest);
            assert(reorder_rec(canon, out) == seq![c] + reorder_rec(canon2, r));
            assert(reorder_rec(canon2, r) == r);
        } else {
            let out = reorder_rec(canon2, mods);
            lemma_reorder_rec_multiset(canon2, mods);
            mods.to_multiset_ensures();
            out.to_multiset_ensures();
            assert(mods.to_multiset().count(c) == 0);
            assert(out.to_multiset().count(c) == 0);
            assert(!out.contains(c));
            lemma_reorder_rec_idempotent(canon2, mods);
            assert(reorder_rec(canon, out) == reorder_rec(canon2, out));
        }
    }
}

/// Two duplicate-free lists of canonical modifiers with the same tokens
/// reorder to the same canonical sequence, whatever their order.
proof fn lemma_reorder_rec_permutation(canon: Seq<Seq<char>>, m1: Seq<Seq<char>>, m2: Seq<Seq<char>>)
    requires
        m1.to_multiset() == m2.to_multiset(),
        forall|x: Seq<char>| m1.contains(x) ==> canon.contains(x),
        forall|x: Seq<char>| #[trigger] m1.to_multiset().count(x) <= 1,
    ensures
        reorder_rec(canon, m1) == reorder_rec(canon, m2),
    decreases canon.len(),
{
    broadcast use group_seq_properties;
    broadcast use vstd::multiset::group_multiset_axioms;

    m1.to_multiset_ensures();
    m2.to_multiset_ensures();
    if canon.len() == 0 {
        if m1.len() > 0 {
            assert(m1.contains(m1[0]));
            assert(canon.contains(m1[0]));
            assert(false);
        }
        assert(m2.len() == 0);
        assert(m1 =~= m2);
    } else {
        let c = canon[0];
        let canon2 = canon.drop_first();
        assert(m1.to_multiset().count(c) == m2.to_multiset().count(c));
        assert(m1.contains(c) <==> m1.to_multiset().count(c) > 0);
        assert(m2.contains(c) <==> m2.to_multiset().count(c) > 0);
        assert(m1.contains(c) <==> m2.contains(c));
        if m1.contains(c) {
            let r1 = m1.remove_value(c);
            let r2 = m2.remove_value(c);
            lemma_remove_value_multiset(m1, c);
            lemma_remove_value_multiset(m2, c);
            r1.to_multiset_ensures();
            assert forall|x: Seq<char>| r1.contains(x) implies canon2.contains(x) by {
                assert(r1.to_multiset().count(x) > 0);
                if x == c {
                    assert(m1.to_multiset().count(c) <= 1);
                    assert(r1.to_multiset().count(c) == m1.to_multiset().count(c) - 1);
                    assert(false);
                } else {
                    assert(m1.to_multiset().count(x) >= r1.to_multiset().count(x));
                    assert(m1.contains(x));
                    assert(canon.contains(x));
                    let i = choose|i: int| 0 <= i < canon.len() && canon[i] == x;
                    assert(i != 0);
                    assert(canon2[i - 1] == x);
                    assert(canon2.contains(x));
                }
            }
            assert forall|x: Seq<char>| #[trigger] r1.to_multiset().count(x) <= 1 by {
                assert(r1.to_multiset().count(x) <= m1.to_multiset().count(x));
            }
            lemma_reorder_rec_permutation(canon2, r1, r2);
        } else {
            assert forall|x: Seq<char>| m1.contains(x) implies canon2.contains(x) by {
                assert(canon.contains(x));
                if x == c {
                    assert(false);
                }
                let i = choose|i: int| 0 <= i < canon.len() && canon[i] == x;
                assert(i != 0);
                assert(canon2[i - 1] == x);
                assert(canon2.contains(x));
            }
            lemma_reorder_rec_permutation(canon2, m1, m2);
        }
    }
}


// --------------------------------------------------------- public laws

/// Normalization is idempotent: normalizing an already-normalized
/// combination string gives it back unchanged. The key token must be
/// settled by one pass — a multi-token combination whose key still
/// begins with `key` after the first strip (such as a doubled `KeyKeyA`)
/// loses one more prefix on each pass and is excluded.
pub proof fn lemma_normalized_idempotent(s: Seq<char>)
    requires
        key_prefix_stable(s),
    ensures
        normalized(normalized(s)) == normalized(s),
{
    broadcast use group_seq_properties;
    broadcast use vstd::multiset::group_multiset_axioms;

    let parts = split_char(s, '+');
    lemma_split_tokens_free(s, '+');
    if parts.len() <= 1 {
        lemma_find_first(s, '+');
        match find_first(s, '+') {
            Some(i) => {
                lemma_split_nonempty(s.skip(i + 1), '+');
                assert(false);
            },
            None => {},
        }
        assert(!s.contains('+'));
        lemma_lower_keeps_sep_free(s);
        let ls = lower(s);
        assert(forall|k: int| 0 <= k < ls.len() ==> ls[k] != '+');
        lemma_split_whole(ls, '+');
        assert(split_char(ls, '+').len() == 1);
        assert(normalized(ls) == lower(ls));
        lemma_lower_idempotent(s);
    } else {
        let mods = normal_mods(parts);
        let ordered = reorder_mods(mods);
        let key = lower(parts.last());
        let key_n = normal_key(parts.last());
        let out = join_char(ordered, '+') + seq!['+'] + key_n;
        assert(normalized(s) == out);
        // Every modifier token is free of the separator.
        assert forall|k: int| 0 <= k < mods.len() implies !(#[trigger] mods[k]).contains('+') by {
            let p = parts[k];
            assert(parts.contains(p));
            assert(!p.contains('+'));
            lemma_trim_keeps_sep_free(p, '+');
            lemma_lower_keeps_sep_free(trim(p));
            assert(mods[k] == lower(trim(p)));
        }
        // The reordered list holds the same tokens.
        lemma_reorder_rec_multiset(canonical_modifiers(), mods);
        mods.to_multiset_ensures();
        ordered.to_multiset_ensures();
        assert(ordered.len() == mods.len());
        assert(mods.len() == parts.len() - 1);
        assert forall|k: int| 0 <= k < ordered.len() implies mods.contains(
            #[trigger] ordered[k],
        ) by {
            assert(ordered.contains(ordered[k]));
            assert(ordered.to_multiset().count(ordered[k]) > 0);
            assert(mods.to_multiset().count(ordered[k]) > 0);
        }
        // The key token is free of the separator too.
        assert(parts.contains(parts.last()));
        assert(!parts.last().contains('+'));
        lemma_lower_keeps_sep_free(parts.last());
        reveal_strlit("key");
        assert(!key_n.contains('+')) by {
            if key_n.contains('+') {
                let i = choose|i: int| 0 <= i < key_n.len() && key_n[i] == '+';
                if has_prefix(key, "key"@) {
                    assert(key_n == key.skip(3));
                    assert(key.skip(3)[i] == key[3 + i]);
                    assert(key[3 + i] == '+');
                    assert(key.contains('+'));
                } else {
                    assert(key.contains('+'));
                }
            }
        }
        // The normalized string splits back into its tokens.
        let parts2 = ordered.push(key_n);
        lemma_join_snoc(ordered, key_n, '+');
        assert(out == join_char(parts2, '+'));
        assert forall|t: Seq<char>| parts2.contains(t) implies !t.contains('+') by {
            let i = choose|i: int| 0 <= i < parts2.len() && parts2[i] == t;
            if i < ordered.len() {
                assert(mods.contains(ordered[i]));
                let j = choose|j: int| 0 <= j < mods.len() && mods[j] == t;
            }
        }
        lemma_split_join(parts2, '+');
        assert(split_char(out, '+') == parts2);
        assert(parts2.len() >= 2);
        assert(parts2.last() == key_n);
        // The key token is already canonical.
        assert(lower(key_n) == key_n) by {
            lemma_lower_idempotent(parts.last());
            if has_prefix(key, "key"@) {
                assert(lower(key.skip(3)) =~= lower(key).skip(3));
            }
        }
        assert(normal_key(key_n) == key_n);
        // Each modifier token is already canonical.
        assert(parts2.drop_last() =~= ordered);
        assert forall|k: int| 0 <= k < ordered.len() implies lower(
            trim(#[trigger] ordered[k]),
        ) == ordered[k] by {
            let j = choose|j: int| 0 <= j < mods.len() && mods[j] == ordered[k];
            let p = parts[j];
            assert(mods[j] == lower(trim(p)));
            lemma_mod_token_fixed(p);
        }
        assert(normal_mods(parts2) =~= ordered);
        // Reordering is idempotent.
        lemma_reorder_rec_idempotent(canonical_modifiers(), mods);
        assert(reorder_mods(ordered) == ordered);
        assert(normalized(out) == join_char(ordered, '+') + seq!['+'] + key_n);
    }
}

/// Normalization is order- and case-insensitive on modifiers: two
/// multi-token combination strings with the same key token (up to case)
/// and the same canonical, non-repeated modifiers (up to case, spacing
/// and order) normalize identically.
pub proof fn lemma_normalized_modifier_order(s1: Seq<char>, s2: Seq<char>)
    requires
        split_char(s1, '+').len() > 1,
        split_char(s2, '+').len() > 1,
        lower(split_char(s1, '+').last()) == lower(split_char(s2, '+').last()),
        normal_mods(split_char(s1, '+')).to_multiset() == normal_mods(
            split_char(s2, '+'),
        ).to_multiset(),
        forall|x: Seq<char>|
            normal_mods(split_char(s1, '+')).contains(x) ==> canonical_modifiers().contains(x),
        forall|x: Seq<char>| #[trigger]
            normal_mods(split_char(s1, '+')).to_multiset().count(x) <= 1,
    ensures
        normalized(s1) == normalized(s2),
{
    let parts1 = split_char(s1, '+');
    let parts2 = split_char(s2, '+');
    lemma_reorder_rec_permutation(
        canonical_modifiers(),
        normal_mods(parts1),
        normal_mods(parts2),
    );
    assert(normal_key(parts1.last()) == normal_key(parts2.last()));
}

} // verus!
