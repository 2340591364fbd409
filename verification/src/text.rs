//! Character-sequence utilities: ASCII lower-casing, trimming, splitting
//! and joining, each with an exact specification over `Seq<char>`.

use vstd::prelude::*;
use vstd::string::*;

verus! {

// ---------------------------------------------------------------- case

/// ASCII lower-casing of one character; all other characters unchanged.
pub open spec fn lower_char(c: char) -> char {
    if 65 <= c as u32 <= 90 {
        (((c as u32) + 32) as u8) as char
    } else {
        c
    }
}

/// ASCII lower-casing of a character sequence.
pub open spec fn lower(s: Seq<char>) -> Seq<char> {
    s.map_values(|c: char| lower_char(c))
}

pub proof fn lemma_lower_idempotent(s: Seq<char>)
    ensures
        lower(lower(s)) == s.map_values(|c: char| lower_char(c)),
        lower(lower(s)) == lower(s),
{
    assert(lower(lower(s)) =~= lower(s));
}

// ---------------------------------------------------------------- spaces

/// ASCII whitespace, as trimmed from modifier tokens.
pub open spec fn is_space(c: char) -> bool {
    c == ' ' || c == '\t' || c == '\n' || c == '\r'
}

pub open spec fn trim_start(s: Seq<char>) -> Seq<char>
    decreases s.len(),
{
    if s.len() > 0 && is_space(s[0]) {
        trim_start(s.drop_first())
    } else {
        s
    }
}

pub open spec fn trim_end(s: Seq<char>) -> Seq<char>
    decreases s.len(),
{
    if s.len() > 0 && is_space(s.last()) {
        trim_end(s.drop_last())
    } else {
        s
    }
}

/// ASCII whitespace removed from both ends.
pub open spec fn trim(s: Seq<char>) -> Seq<char> {
    trim_end(trim_start(s))
}

proof fn lemma_trim_start_skip(s: Seq<char>, lo: int)
    requires
        0 <= lo <= s.len(),
        forall|k: int| 0 <= k < lo ==> is_space(s[k]),
        lo == s.len() || !is_space(s[lo]),
    ensures
        trim_start(s) == s.skip(lo),
    decreases lo,
{
    if lo == 0 {
        assert(s.skip(0) =~= s);
    } else {
        assert(is_space(s[0]));
        let t = s.drop_first();
        assert(forall|k: int| 0 <= k < lo - 1 ==> is_space(t[k]));
        lemma_trim_start_skip(t, lo - 1);
        assert(t.skip(lo - 1) =~= s.skip(lo));
    }
}

proof fn lemma_trim_end_take(s: Seq<char>, hi: int)
    requires
        0 <= hi <= s.len(),
        forall|k: int| hi <= k < s.len() ==> is_space(s[k]),
        hi == 0 || !is_space(s[hi - 1]),
    ensures
        trim_end(s) == s.take(hi),
    decreases s.len() - hi,
{
    if hi == s.len() {
        if s.len() > 0 && is_space(s.last()) {
            assert(!is_space(s[hi - 1]));
            assert(false);
        }
        assert(s.take(hi) =~= s);
    } else {
        assert(is_space(s.last()));
        let t = s.drop_last();
        assert(forall|k: int| hi <= k < t.len() ==> t[k] == s[k]);
        lemma_trim_end_take(t, hi);
        assert(t.take(hi) =~= s.take(hi));
    }
}

/// A sequence with no whitespace at either end is its own trim.
pub proof fn lemma_trim_fixed(s: Seq<char>)
    requires
        s.len() == 0 || (!is_space(s[0]) && !is_space(s.last())),
    ensures
        trim(s) == s,
{
    lemma_trim_start_skip(s, 0);
    assert(s.skip(0) =~= s);
    lemma_trim_end_take(s, s.len() as int);
    assert(s.take(s.len() as int) =~= s);
}

// ---------------------------------------------------------------- find

/// Index of the first occurrence of `x` in `s`, if any.
pub open spec fn find_first(s: Seq<char>, x: char) -> Option<int>
    decreases s.len(),
{
    if s.len() == 0 {
        None
    } else if s[0] == x {
        Some(0)
    } else {
        match find_first(s.drop_first(), x) {
            None => None,
            Some(j) => Some(j + 1),
        }
    }
}

pub proof fn lemma_find_first(s: Seq<char>, x: char)
    ensures
        match find_first(s, x) {
            Some(i) => {
                &&& 0 <= i < s.len()
                &&& s[i] == x
                &&& forall|k: int| 0 <= k < i ==> s[k] != x
            },
            None => forall|k: int| 0 <= k < s.len() ==> s[k] != x,
        },
    decreases s.len(),
{
    if s.len() > 0 && s[0] != x {
        let t = s.drop_first();
        lemma_find_first(t, x);
        assert(forall|k: int| 0 <= k < t.len() ==> t[k] == s[k + 1]);
        match find_first(t, x) {
            None => {
                assert forall|k: int| 1 <= k < s.len() implies s[k] != x by {
                    assert(t[k - 1] == s[k]);
                    assert(t[k - 1] != x);
                }
            },
            Some(j) => {
                assert(s[j + 1] == t[j]);
                assert forall|k: int| 1 <= k < j + 1 implies s[k] != x by {
                    assert(t[k - 1] == s[k]);
                    assert(t[k - 1] != x);
                }
            },
        }
    }
}

// ---------------------------------------------------------------- split

/// Splitting on a separator, as `str::split` does: the separators are
/// dropped, empty tokens are kept, and the result has one more token than
/// `s` has separators (so it is never empty).
pub open spec fn split_char(s: Seq<char>, sep: char) -> Seq<Seq<char>>
    decreases s.len(),
        via split_char_decreases
{
    match find_first(s, sep) {
        None => seq![s],
        Some(i) => seq![s.take(i)] + split_char(s.skip(i + 1), sep),
    }
}

#[via_fn]
proof fn split_char_decreases(s: Seq<char>, sep: char) {
    lemma_find_first(s, sep);
}

pub proof fn lemma_split_nonempty(s: Seq<char>, sep: char)
    ensures
        split_char(s, sep).len() >= 1,
    decreases s.len(),
{
    lemma_find_first(s, sep);
    match find_first(s, sep) {
        None => {},
        Some(i) => {
            lemma_split_nonempty(s.skip(i + 1), sep);
        },
    }
}

/// No token produced by `split_char` contains the separator.
pub proof fn lemma_split_tokens_free(s: Seq<char>, sep: char)
    ensures
        forall|t: Seq<char>|
            split_char(s, sep).contains(t) ==> !t.contains(sep),
    decreases s.len(),
{
    lemma_find_first(s, sep);
    match find_first(s, sep) {
        None => {
            assert forall|t: Seq<char>| split_char(s, sep).contains(t) implies !t.contains(sep) by {
                assert(t == s);
            }
        },
        Some(i) => {
            lemma_split_tokens_free(s.skip(i + 1), sep);
            assert forall|t: Seq<char>| split_char(s, sep).contains(t) implies !t.contains(sep) by {
                if t == s.take(i) {
                    assert(forall|k: int| 0 <= k < i ==> s[k] != sep);
                    if t.contains(sep) {
                        let k = choose|k: int| 0 <= k < t.len() && t[k] == sep;
                        assert(s[k] == sep);
                        assert(false);
                    }
                } else {
                    let j = choose|j: int|
                        0 <= j < split_char(s, sep).len() && split_char(s, sep)[j] == t;
                    assert(split_char(s.skip(i + 1), sep)[j - 1] == t);
                    assert(split_char(s.skip(i + 1), sep).contains(t));
                }
            }
        },
    }
}

/// If the first `j` characters are separator-free and `s[j]` is the
/// separator, the split starts with `s.take(j)`.
pub proof fn lemma_split_step(s: Seq<char>, sep: char, j: int)
    requires
        0 <= j < s.len(),
        s[j] == sep,
        forall|k: int| 0 <= k < j ==> s[k] != sep,
    ensures
        split_char(s, sep) == seq![s.take(j)] + split_char(s.skip(j + 1), sep),
{
    lemma_find_first(s, sep);
    match find_first(s, sep) {
        None => {
            assert(false);
        },
        Some(i) => {
            if i < j {
                assert(s[i] != sep);
                assert(false);
            }
            if j < i {
                assert(s[j] != sep);
                assert(false);
            }
        },
    }
}

/// A separator-free sequence splits to just itself.
pub proof fn lemma_split_whole(s: Seq<char>, sep: char)
    requires
        forall|k: int| 0 <= k < s.len() ==> s[k] != sep,
    ensures
        split_char(s, sep) == seq![s],
{
    lemma_find_first(s, sep);
    match find_first(s, sep) {
        None => {},
        Some(i) => {
            assert(s[i] != sep);
            assert(false);
        },
    }
}

// ---------------------------------------------------------------- join

/// Tokens joined with a separator between neighbours.
pub open spec fn join_char(parts: Seq<Seq<char>>, sep: char) -> Seq<char>
    decreases parts.len(),
{
    if parts.len() == 0 {
        Seq::empty()
    } else if parts.len() == 1 {
        parts[0]
    } else {
        parts[0] + seq![sep] + join_char(parts.drop_first(), sep)
    }
}

pub proof fn lemma_join_snoc(parts: Seq<Seq<char>>, last: Seq<char>, sep: char)
    requires
        parts.len() >= 1,
    ensures
        join_char(parts.push(last), sep) == join_char(parts, sep) + seq![sep] + last,
    decreases parts.len(),
{
    if parts.len() == 1 {
        assert(parts.push(last)[0] == parts[0]);
        assert(parts.push(last).drop_first() =~= seq![last]);
        assert(join_char(seq![last], sep) == last);
    } else {
        assert(parts.push(last).drop_first() =~= parts.drop_first().push(last));
        lemma_join_snoc(parts.drop_first(), last, sep);
    }
}

/// Splitting a join of separator-free tokens recovers the tokens.
pub proof fn lemma_split_join(parts: Seq<Seq<char>>, sep: char)
    requires
        parts.len() >= 1,
        forall|t: Seq<char>| parts.contains(t) ==> !t.contains(sep),
    ensures
        split_char(join_char(parts, sep), sep) == parts,
    decreases parts.len(),
{
    let s = join_char(parts, sep);
    if parts.len() == 1 {
        assert(parts.contains(parts[0]));
        assert(forall|k: int| 0 <= k < s.len() ==> s[k] != sep);
        lemma_split_whole(s, sep);
        assert(seq![s] =~= parts);
    } else {
        let p0 = parts[0];
        assert(parts.contains(p0));
        let rest = parts.drop_first();
        let j = p0.len() as int;
        assert(s == p0 + seq![sep] + join_char(rest, sep));
        assert(s[j] == sep);
        assert(forall|k: int| 0 <= k < j ==> s[k] == p0[k] && s[k] != sep);
        lemma_split_step(s, sep, j);
        assert(s.take(j) =~= p0);
        assert(s.skip(j + 1) =~= join_char(rest, sep));
        assert(forall|t: Seq<char>| rest.contains(t) ==> parts.contains(t) && !t.contains(sep));
        lemma_split_join(rest, sep);
        assert(seq![p0] + rest =~= parts);
    }
}

// ---------------------------------------------------------------- prefix

/// `p` is an initial segment of `s`.
pub open spec fn has_prefix(s: Seq<char>, p: Seq<char>) -> bool {
    p.len() <= s.len() && s.take(p.len() as int) == p
}

// ---------------------------------------------------------------- exec

/// The characters of a string slice, in order.
pub fn chars_of(s: &str) -> (r: Vec<char>)
    ensures
        r@ == s@,
{
    let n: usize = s.unicode_len();
    let mut v: Vec<char> = Vec::new();
    let mut i: usize = 0;
    while i < n
        invariant
            0 <= i <= n,
            n == s@.len(),
            v@ == s@.subrange(0, i as int),
        decreases n - i,
    {
        let c = s.get_char(i);
        v.push(c);
        i = i + 1;
        proof {
            assert(v@ =~= s@.subrange(0, i as int));
        }
    }
    proof {
        assert(v@ =~= s@);
    }
    v
}

/// Relies on `String`'s `FromIterator<char>` impl: collecting characters
/// yields the string of exactly those characters, in order.
#[verifier::external_body]
pub fn string_of(v: &Vec<char>) -> (r: String)
    ensures
        r@ == v@,
{
    v.iter().collect()
}

/// ASCII lower-casing of one character, executably.
pub fn lower_char_exec(c: char) -> (r: char)
    ensures
        r == lower_char(c),
{
    let u: u32 = c as u32;
    if 65 <= u && u <= 90 {
        ((u + 32) as u8) as char
    } else {
        c
    }
}

/// ASCII lower-casing of a character vector.
pub fn to_lower(v: &Vec<char>) -> (r: Vec<char>)
    ensures
        r@ == lower(v@),
{
    let mut out: Vec<char> = Vec::new();
    let mut i: usize = 0;
    while i < v.len()
        invariant
            0 <= i <= v@.len(),
            out@ == lower(v@.subrange(0, i as int)),
        decreases v@.len() - i,
    {
        out.push(lower_char_exec(v[i]));
        i = i + 1;
        proof {
            assert(out@ =~= lower(v@.subrange(0, i as int)));
        }
    }
    proof {
        assert(v@.subrange(0, v@.len() as int) =~= v@);
    }
    out
}

fn is_space_exec(c: char) -> (r: bool)
    ensures
        r == is_space(c),
{
    c == ' ' || c == '\t' || c == '\n' || c == '\r'
}

/// ASCII whitespace removed from both ends.
pub fn trim_spaces(v: &Vec<char>) -> (r: Vec<char>)
    ensures
        r@ == trim(v@),
{
    let n = v.len();
    let mut lo: usize = 0;
    while lo < n && is_space_exec(v[lo])
        invariant
            0 <= lo <= n,
            n == v@.len(),
            forall|k: int| 0 <= k < lo ==> is_space(v@[k]),
        decreases n - lo,
    {
        lo = lo + 1;
    }
    proof {
        lemma_trim_start_skip(v@, lo as int);
    }
    let mut hi: usize = n;
    while hi > lo && is_space_exec(v[hi - 1])
        invariant
            lo <= hi <= n,
            n == v@.len(),
            forall|k: int| hi <= k < n ==> is_space(v@[k]),
        decreases hi,
    {
        hi = hi - 1;
    }
    let ghost t = v@.skip(lo as int);
    proof {
        assert(forall|k: int| hi - lo <= k < t.len() ==> t[k] == v@[k + lo] && is_space(t[k]));
        if hi > lo {
            assert(t[hi - lo - 1] == v@[hi - 1]);
        }
        lemma_trim_end_take(t, hi - lo);
    }
    let mut out: Vec<char> = Vec::new();
    let mut i: usize = lo;
    while i < hi
        invariant
            lo <= i <= hi <= n,
            n == v@.len(),
            out@ == v@.subrange(lo as int, i as int),
        decreases hi - i,
    {
        out.push(v[i]);
        i = i + 1;
        proof {
            assert(out@ =~= v@.subrange(lo as int, i as int));
        }
    }
    proof {
        assert(t.take(hi - lo) =~= v@.subrange(lo as int, hi as int));
        assert(out@ == trim(v@));
    }
    out
}

/// Equality of a character vector and a string slice's characters.
pub fn eq_str(v: &Vec<char>, s: &str) -> (r: bool)
    ensures
        r == (v@ == s@),
{
    let n: usize = s.unicode_len();
    if v.len() != n {
        proof {
            if v@ == s@ {
                assert(v@.len() == s@.len());
            }
        }
        return false;
    }
    let mut i: usize = 0;
    while i < n
        invariant
            0 <= i <= n,
            n == s@.len(),
            n == v@.len(),
            forall|k: int| 0 <= k < i ==> v@[k] == s@[k],
        decreases n - i,
    {
        if v[i] != s.get_char(i) {
            return false;
        }
        i = i + 1;
    }
    proof {
        assert(v@ =~= s@);
    }
    true
}

/// Equality of two character vectors.
pub fn eq_chars(a: &Vec<char>, b: &Vec<char>) -> (r: bool)
    ensures
        r == (a@ == b@),
{
    if a.len() != b.len() {
        proof {
            if a@ == b@ {
                assert(a@.len() == b@.len());
            }
        }
        return false;
    }
    let mut i: usize = 0;
    while i < a.len()
        invariant
            0 <= i <= a@.len(),
            a@.len() == b@.len(),
            forall|k: int| 0 <= k < i ==> a@[k] == b@[k],
        decreases a@.len() - i,
    {
        if a[i] != b[i] {
            return false;
        }
        i = i + 1;
    }
    proof {
        assert(a@ =~= b@);
    }
    true
}

/// Does `v` start with the characters of `p`?
pub fn has_prefix_str(v: &Vec<char>, p: &str) -> (r: bool)
    ensures
        r == has_prefix(v@, p@),
{
    let n: usize = p.unicode_len();
    if v.len() < n {
        return false;
    }
    let mut i: usize = 0;
    while i < n
        invariant
            0 <= i <= n,
            n == p@.len(),
            n <= v@.len(),
            forall|k: int| 0 <= k < i ==> v@[k] == p@[k],
        decreases n - i,
    {
        if v[i] != p.get_char(i) {
            proof {
                assert(v@.take(n as int)[i as int] != p@[i as int]);
            }
            return false;
        }
        i = i + 1;
    }
    proof {
        assert(v@.take(n as int) =~= p@);
    }
    true
}

/// The elements of `v` from `from` (inclusive) to `to` (exclusive).
pub fn subvec(v: &Vec<char>, from: usize, to: usize) -> (r: Vec<char>)
    requires
        from <= to <= v@.len(),
    ensures
        r@ == v@.subrange(from as int, to as int),
{
    let mut out: Vec<char> = Vec::new();
    let mut i: usize = from;
    while i < to
        invariant
            from <= i <= to <= v@.len(),
            out@ == v@.subrange(from as int, i as int),
        decreases to - i,
    {
        out.push(v[i]);
        i = i + 1;
        proof {
            assert(out@ =~= v@.subrange(from as int, i as int));
        }
    }
    out
}

/// The character sequences held by a sequence of vectors.
pub open spec fn views_of(r: Seq<Vec<char>>) -> Seq<Seq<char>> {
    r.map_values(|t: Vec<char>| t@)
}

/// Append the characters of `src` to `dst`.
pub fn append_chars(dst: &mut Vec<char>, src: &Vec<char>)
    ensures
        final(dst)@ == old(dst)@ + src@,
{
    let mut j: usize = 0;
    while j < src.len()
        invariant
            0 <= j <= src@.len(),
            dst@ == old(dst)@ + src@.subrange(0, j as int),
        decreases src@.len() - j,
    {
        dst.push(src[j]);
        j = j + 1;
        proof {
            assert(dst@ =~= old(dst)@ + src@.subrange(0, j as int));
        }
    }
    proof {
        assert(dst@ =~= old(dst)@ + src@);
    }
}

/// Split on a separator character; tokens in order, separators dropped.
pub fn split_on(v: &Vec<char>, sep: char) -> (r: Vec<Vec<char>>)
    ensures
        views_of(r@) == split_char(v@, sep),
        r@.len() >= 1,
{
    let n = v.len();
    let mut out: Vec<Vec<char>> = Vec::new();
    let mut start: usize = 0;
    let mut i: usize = 0;
    proof {
        assert(views_of(out@) =~= Seq::<Seq<char>>::empty());
        assert(v@.skip(0) =~= v@);
    }
    while i < n
        invariant
            0 <= start <= i <= n,
            n == v@.len(),
            split_char(v@, sep) == views_of(out@) + split_char(v@.skip(start as int), sep),
            forall|k: int| start <= k < i ==> v@[k] != sep,
        decreases n - i,
    {
        if v[i] == sep {
            let tok = subvec(v, start, i);
            proof {
                let t = v@.skip(start as int);
                assert(t[i - start] == sep);
                assert(forall|k: int| 0 <= k < i - start ==> t[k] == v@[k + start] && t[k]
                    != sep);
                lemma_split_step(t, sep, i - start);
                assert(t.take(i - start) =~= tok@);
                assert(t.skip(i - start + 1) =~= v@.skip(i + 1));
            }
            let ghost prev = out@;
            out.push(tok);
            proof {
                assert(views_of(out@) =~= views_of(prev) + seq![tok@]);
                assert(views_of(prev) + (seq![tok@] + split_char(v@.skip(i + 1), sep)) =~= (
                views_of(prev) + seq![tok@]) + split_char(v@.skip(i + 1), sep));
            }
            start = i + 1;
        }
        i = i + 1;
    }
    let tok = subvec(v, start, n);
    proof {
        let t = v@.skip(start as int);
        assert(forall|k: int| 0 <= k < t.len() ==> t[k] == v@[k + start] && t[k] != sep);
        lemma_split_whole(t, sep);
        assert(t =~= tok@);
    }
    let ghost prev = out@;
    out.push(tok);
    proof {
        assert(views_of(out@) =~= views_of(prev) + seq![tok@]);
        assert(views_of(prev) + seq![tok@] =~= split_char(v@, sep));
    }
    out
}

/// Join tokens with a separator between neighbours.
pub fn join_with(parts: &Vec<Vec<char>>, sep: char) -> (r: Vec<char>)
    ensures
        r@ == join_char(views_of(parts@), sep),
{
    let mut out: Vec<char> = Vec::new();
    let n = parts.len();
    if n == 0 {
        return out;
    }
    append_chars(&mut out, &parts[0]);
    proof {
        assert(views_of(parts@).take(1) =~= seq![parts@[0]@]);
        assert(out@ =~= parts@[0]@);
    }
    let mut i: usize = 1;
    while i < n
        invariant
            1 <= i <= n,
            n == parts@.len(),
            out@ == join_char(views_of(parts@).take(i as int), sep),
        decreases n - i,
    {
        out.push(sep);
        append_chars(&mut out, &parts[i]);
        proof {
            let vs = views_of(parts@);
            lemma_join_snoc(vs.take(i as int), vs[i as int], sep);
            assert(vs.take(i as int).push(vs[i as int]) =~= vs.take(i + 1));
            assert(out@ =~= join_char(vs.take(i as int), sep) + seq![sep] + vs[i as int]);
        }
        i = i + 1;
    }
    proof {
        assert(views_of(parts@).take(n as int) =~= views_of(parts@));
    }
    out
}

} // verus!
