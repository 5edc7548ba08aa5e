//! Character-level text operations with exact specifications.

use vstd::prelude::*;
use vstd::utf8::{char_is_scalar, encode_scalar, encode_utf8};

verus! {

/// `s` starts with `pat` at position `i`.
pub open spec fn matches_at(s: Seq<char>, pat: Seq<char>, i: int) -> bool {
    0 <= i && i + pat.len() <= s.len() && s.subrange(i, i + pat.len()) =~= pat
}

/// Left-to-right, non-overlapping replacement of every occurrence of a
/// non-empty pattern, as `str::replace` performs it.
pub open spec fn replace_all(s: Seq<char>, pat: Seq<char>, rep: Seq<char>) -> Seq<char>
    recommends
        pat.len() > 0,
    decreases s.len(),
{
    if s.len() == 0 || pat.len() == 0 {
        s
    } else if matches_at(s, pat, 0) {
        rep + replace_all(s.skip(pat.len() as int), pat, rep)
    } else {
        seq![s[0]] + replace_all(s.skip(1), pat, rep)
    }
}

/// Appends one character (`String::push`): the text grows by `c`.
#[verifier::external_body]
fn push_char(s: &mut String, c: char)
    ensures
        final(s)@ == old(s)@.push(c),
{
    s.push(c)
}

/// The characters of `s`, in order.
pub fn chars_vec(s: &str) -> (v: Vec<char>)
    ensures
        v@ == s@,
{
    let mut v: Vec<char> = Vec::new();
    for c in it: s.chars()
        invariant
            v@ == it.seq().take(it.index() as int),
            it.seq() == s@,
    {
        v.push(c);
    }
    v
}

/// A string made of the characters of `v`.
pub fn from_chars(v: &[char]) -> (s: String)
    ensures
        s@ == v@,
{
    let mut s = String::new();
    let mut i: usize = 0;
    while i < v.len()
        invariant
            i <= v.len(),
            s@ == v@.take(i as int),
        decreases v.len() - i,
    {
        push_char(&mut s, v[i]);
        assert(v@.take(i as int + 1) =~= v@.take(i as int).push(v@[i as int]));
        i = i + 1;
    }
    assert(v@.take(v.len() as int) =~= v@);
    s
}


/// Whether `pat` occurs at position `i` of `s`.
pub fn matches_at_exec(s: &Vec<char>, pat: &Vec<char>, i: usize) -> (b: bool)
    ensures
        b == matches_at(s@, pat@, i as int),
{
    if pat.len() > s.len() || i > s.len() - pat.len() {
        return false;
    }
    let mut j: usize = 0;
    while j < pat.len()
        invariant
            i + pat.len() <= s.len(),
            j <= pat.len(),
            forall|k: int| 0 <= k < j ==> s@[i + k] == pat@[k],
        decreases pat.len() - j,
    {
        if s[i + j] != pat[j] {
            return false;
        }
        j = j + 1;
    }
    assert(s@.subrange(i as int, i + pat.len()) =~= pat@);
    true
}

/// Appends all of `extra` to `out`.
pub fn extend_chars(out: &mut Vec<char>, extra: &Vec<char>)
    ensures
        final(out)@ == old(out)@ + extra@,
{
    let mut k: usize = 0;
    while k < extra.len()
        invariant
            k <= extra.len(),
            out@ == old(out)@ + extra@.take(k as int),
        decreases extra.len() - k,
    {
        out.push(extra[k]);
        assert(extra@.take(k as int + 1) =~= extra@.take(k as int).push(extra@[k as int]));
        k = k + 1;
    }
    assert(extra@.take(extra.len() as int) =~= extra@);
}

proof fn lemma_replace_at_match(s: Seq<char>, pat: Seq<char>, rep: Seq<char>, i: int)
    requires
        pat.len() > 0,
        i < s.len(),
        matches_at(s, pat, i),
    ensures
        replace_all(s.skip(i), pat, rep) == rep + replace_all(s.skip(i + pat.len()), pat, rep),
{
    let t = s.skip(i);
    assert(t.subrange(0, pat.len() as int) =~= s.subrange(i, i + pat.len()));
    assert(t.skip(pat.len() as int) =~= s.skip(i + pat.len()));
}

proof fn lemma_replace_at_other(s: Seq<char>, pat: Seq<char>, rep: Seq<char>, i: int)
    requires
        pat.len() > 0,
        0 <= i < s.len(),
        !matches_at(s, pat, i),
    ensures
        replace_all(s.skip(i), pat, rep) == seq![s[i]] + replace_all(s.skip(i + 1), pat, rep),
{
    let t = s.skip(i);
    if matches_at(t, pat, 0) {
        assert(t.subrange(0, pat.len() as int) =~= s.subrange(i, i + pat.len()));
    }
    assert(t.skip(1) =~= s.skip(i + 1));
}

/// Replaces every occurrence of `pat` in `s` by `rep`.
pub fn replace_chars(s: &Vec<char>, pat: &Vec<char>, rep: &Vec<char>) -> (r: Vec<char>)
    requires
        pat.len() > 0,
    ensures
        r@ == replace_all(s@, pat@, rep@),
{
    let mut out: Vec<char> = Vec::new();
    let mut i: usize = 0;
    assert(s@.skip(0) =~= s@);
    assert(out@ + replace_all(s@, pat@, rep@) =~= replace_all(s@, pat@, rep@));
    while i < s.len()
        invariant
            pat.len() > 0,
            i <= s.len(),
            out@ + replace_all(s@.skip(i as int), pat@, rep@) == replace_all(s@, pat@, rep@),
        decreases s.len() - i,
    {
        let ghost before = out@;
        if matches_at_exec(s, pat, i) {
            proof {
                lemma_replace_at_match(s@, pat@, rep@, i as int);
            }
            extend_chars(&mut out, rep);
            let ghost rest = replace_all(s@.skip(i + pat@.len()), pat@, rep@);
            assert(before + (rep@ + rest) =~= before + rep@ + rest);
            i = i + pat.len();
        } else {
            proof {
                lemma_replace_at_other(s@, pat@, rep@, i as int);
            }
            out.push(s[i]);
            let ghost rest = replace_all(s@.skip(i + 1), pat@, rep@);
            assert(before + (seq![s@[i as int]] + rest) =~= before.push(s@[i as int]) + rest);
            i = i + 1;
        }
    }
    assert(s@.skip(i as int) =~= Seq::<char>::empty());
    assert(out@ + Seq::<char>::empty() =~= out@);
    out
}

/// `str::replace` with a non-empty pattern.
pub fn replace_str(s: &str, pat: &str, rep: &str) -> (r: String)
    requires
        pat@.len() > 0,
    ensures
        r@ == replace_all(s@, pat@, rep@),
{
    let sv = chars_vec(s);
    let pv = chars_vec(pat);
    let rv = chars_vec(rep);
    let out = replace_chars(&sv, &pv, &rv);
    from_chars(out.as_slice())
}


/// `pat` occurs somewhere in `s`.
pub open spec fn contains_seq(s: Seq<char>, pat: Seq<char>) -> bool {
    exists|i: int| matches_at(s, pat, i)
}

/// Whether `pat` occurs in `s`.
pub fn contains_chars(s: &Vec<char>, pat: &Vec<char>) -> (b: bool)
    ensures
        b == contains_seq(s@, pat@),
{
    let mut i: usize = 0;
    while i < s.len()
        invariant
            i <= s.len(),
            forall|k: int| 0 <= k < i ==> !matches_at(s@, pat@, k),
        decreases s.len() - i,
    {
        if matches_at_exec(s, pat, i) {
            return true;
        }
        i = i + 1;
    }
    if matches_at_exec(s, pat, s.len()) {
        return true;
    }
    assert forall|k: int| !matches_at(s@, pat@, k) by {
        if 0 <= k <= s.len() {
        } else {
        }
    }
    false
}

/// Whether `pat` occurs in `s`.
pub fn contains_str(s: &str, pat: &str) -> (b: bool)
    ensures
        b == contains_seq(s@, pat@),
{
    let sv = chars_vec(s);
    let pv = chars_vec(pat);
    contains_chars(&sv, &pv)
}

/// The characters `v[a..b]`.
pub fn sub_chars(v: &Vec<char>, a: usize, b: usize) -> (r: Vec<char>)
    requires
        a <= b <= v.len(),
    ensures
        r@ == v@.subrange(a as int, b as int),
{
    let mut r: Vec<char> = Vec::new();
    let mut i: usize = a;
    while i < b
        invariant
            a <= i <= b <= v.len(),
            r@ == v@.subrange(a as int, i as int),
        decreases b - i,
    {
        r.push(v[i]);
        assert(v@.subrange(a as int, i + 1) =~= v@.subrange(a as int, i as int).push(v@[i as int]));
        i = i + 1;
    }
    r
}

/// `char::is_whitespace`: the Unicode `White_Space` property.
pub open spec fn is_space(c: char) -> bool {
    let u = c as u32;
    (0x09 <= u <= 0x0d) || u == 0x20 || u == 0x85 || u == 0xa0 || u == 0x1680
        || (0x2000 <= u <= 0x200a) || u == 0x2028 || u == 0x2029 || u == 0x202f
        || u == 0x205f || u == 0x3000
}

/// Whether `c` is white space.
pub fn is_space_exec(c: char) -> (b: bool)
    ensures
        b == is_space(c),
{
    let u = c as u32;
    (0x09 <= u && u <= 0x0d) || u == 0x20 || u == 0x85 || u == 0xa0 || u == 0x1680
        || (0x2000 <= u && u <= 0x200a) || u == 0x2028 || u == 0x2029 || u == 0x202f
        || u == 0x205f || u == 0x3000
}

/// `s` without its leading white space.
pub open spec fn trim_start(s: Seq<char>) -> Seq<char>
    decreases s.len(),
{
    if s.len() > 0 && is_space(s[0]) {
        trim_start(s.skip(1))
    } else {
        s
    }
}

/// `s` without its trailing white space.
pub open spec fn trim_end(s: Seq<char>) -> Seq<char>
    decreases s.len(),
{
    if s.len() > 0 && is_space(s.last()) {
        trim_end(s.drop_last())
    } else {
        s
    }
}

/// `str::trim`.
pub open spec fn trim(s: Seq<char>) -> Seq<char> {
    trim_end(trim_start(s))
}

/// Index of the first character that is not white space.
fn first_non_space(v: &Vec<char>) -> (a: usize)
    ensures
        a <= v.len(),
        trim_start(v@) == v@.skip(a as int),
{
    let mut a: usize = 0;
    assert(v@.skip(0) =~= v@);
    while a < v.len() && is_space_exec(v[a])
        invariant
            a <= v.len(),
            trim_start(v@) == trim_start(v@.skip(a as int)),
        decreases v.len() - a,
    {
        assert(v@.skip(a as int).skip(1) =~= v@.skip(a + 1));
        a = a + 1;
    }
    a
}

/// One past the last character of `v[a..]` that is not white space.
fn end_non_space(v: &Vec<char>, a: usize) -> (b: usize)
    requires
        a <= v.len(),
    ensures
        a <= b <= v.len(),
        trim_end(v@.skip(a as int)) == v@.subrange(a as int, b as int),
{
    let mut b: usize = v.len();
    assert(v@.subrange(a as int, v.len() as int) =~= v@.skip(a as int));
    while b > a && is_space_exec(v[b - 1])
        invariant
            a <= b <= v.len(),
            trim_end(v@.skip(a as int)) == trim_end(v@.subrange(a as int, b as int)),
        decreases b - a,
    {
        assert(v@.subrange(a as int, b as int).drop_last() =~= v@.subrange(a as int, b - 1));
        b = b - 1;
    }
    b
}

/// `str::trim` on characters.
pub fn trim_chars(v: &Vec<char>) -> (r: Vec<char>)
    ensures
        r@ == trim(v@),
{
    let a = first_non_space(v);
    let b = end_non_space(v, a);
    sub_chars(v, a, b)
}

/// `str::trim_end` on characters.
pub fn trim_end_chars(v: &Vec<char>) -> (r: Vec<char>)
    ensures
        r@ == trim_end(v@),
{
    assert(v@.skip(0) =~= v@);
    let b = end_non_space(v, 0);
    sub_chars(v, 0, b)
}

/// `str::trim`.
pub fn trim_str(s: &str) -> (r: String)
    ensures
        r@ == trim(s@),
{
    let v = chars_vec(s);
    let t = trim_chars(&v);
    from_chars(t.as_slice())
}

/// `str::trim_end`.
pub fn trim_end_str(s: &str) -> (r: String)
    ensures
        r@ == trim_end(s@),
{
    let v = chars_vec(s);
    let t = trim_end_chars(&v);
    from_chars(t.as_slice())
}

/// Whether `s` begins with `pat`.
pub fn starts_with_str(s: &str, pat: &str) -> (b: bool)
    ensures
        b == matches_at(s@, pat@, 0),
{
    let sv = chars_vec(s);
    let pv = chars_vec(pat);
    matches_at_exec(&sv, &pv, 0)
}

/// Index of the first occurrence of `x` in `s`, if any.
pub open spec fn find_first<A>(s: Seq<A>, x: A) -> Option<int>
    decreases s.len(),
{
    if s.len() == 0 {
        None
    } else if s[0] == x {
        Some(0)
    } else {
        match find_first(s.skip(1), x) {
            Some(i) => Some(i + 1),
            None => None,
        }
    }
}

/// If `x` is first found at `i` after a prefix without it, `find_first` says so.
pub proof fn lemma_find_first_at<A>(s: Seq<A>, x: A, i: int)
    requires
        0 <= i < s.len(),
        s[i] == x,
        forall|k: int| 0 <= k < i ==> s[k] != x,
    ensures
        find_first(s, x) == Some(i),
    decreases i,
{
    if i > 0 {
        lemma_find_first_at(s.skip(1), x, i - 1);
    }
}

/// A sequence without `x` has no first occurrence of it.
pub proof fn lemma_find_first_none<A>(s: Seq<A>, x: A)
    requires
        forall|k: int| 0 <= k < s.len() ==> s[k] != x,
    ensures
        find_first(s, x) is None,
    decreases s.len(),
{
    if s.len() > 0 {
        lemma_find_first_none(s.skip(1), x);
    }
}

/// What `find_first` returns: the least index holding `x`.
pub proof fn lemma_find_first_props<A>(s: Seq<A>, x: A)
    ensures
        match find_first(s, x) {
            Some(i) => 0 <= i < s.len() && s[i] == x && forall|k: int| 0 <= k < i ==> s[k] != x,
            None => forall|k: int| 0 <= k < s.len() ==> s[k] != x,
        },
    decreases s.len(),
{
    if s.len() > 0 {
        lemma_find_first_props(s.skip(1), x);
        if s[0] != x {
            match find_first(s.skip(1), x) {
                Some(i) => {
                    assert forall|k: int| 0 <= k < i + 1 implies s[k] != x by {
                        if k > 0 {
                            assert(s[k] == s.skip(1)[k - 1]);
                        }
                    }
                },
                None => {
                    assert forall|k: int| 0 <= k < s.len() implies s[k] != x by {
                        if k > 0 {
                            assert(s[k] == s.skip(1)[k - 1]);
                        }
                    }
                },
            }
        }
    }
}

/// Whether two strings are equal.
pub fn str_eq(a: &str, b: &str) -> (r: bool)
    ensures
        r == (a@ == b@),
{
    let av = chars_vec(a);
    let bv = chars_vec(b);
    if av.len() != bv.len() {
        return false;
    }
    let mut i: usize = 0;
    while i < av.len()
        invariant
            av@ == a@,
            bv@ == b@,
            av.len() == bv.len(),
            i <= av.len(),
            forall|k: int| 0 <= k < i ==> av@[k] == bv@[k],
        decreases av.len() - i,
    {
        if av[i] != bv[i] {
            return false;
        }
        i = i + 1;
    }
    assert(av@ =~= bv@);
    true
}

/// `str::split_once` at the first occurrence of `c`.
pub open spec fn split_once_spec(s: Seq<char>, c: char) -> Option<(Seq<char>, Seq<char>)> {
    match find_first(s, c) {
        Some(i) => Some((s.take(i), s.skip(i + 1))),
        None => None,
    }
}

/// Splits `s` at the first occurrence of `c`.
pub fn split_once_char(s: &str, c: char) -> (r: Option<(String, String)>)
    ensures
        match split_once_spec(s@, c) {
            Some((a, b)) => r matches Some((x, y)) && x@ == a && y@ == b,
            None => r is None,
        },
{
    let v = chars_vec(s);
    let mut i: usize = 0;
    while i < v.len()
        invariant
            i <= v.len(),
            v@ == s@,
            forall|k: int| 0 <= k < i ==> v@[k] != c,
        decreases v.len() - i,
    {
        if v[i] == c {
            proof {
                lemma_find_first_at(v@, c, i as int);
            }
            let head = sub_chars(&v, 0, i);
            let tail = sub_chars(&v, i + 1, v.len());
            assert(head@ =~= v@.take(i as int));
            assert(tail@ =~= v@.skip(i + 1));
            return Some((from_chars(head.as_slice()), from_chars(tail.as_slice())));
        }
        i = i + 1;
    }
    proof {
        lemma_find_first_none(v@, c);
    }
    None
}

/// The decimal digit character for `d < 10`.
pub open spec fn digit(d: nat) -> char {
    ((d + 48) as u8) as char
}

/// Decimal representation of `n`, as `u64::to_string` gives it.
pub open spec fn decimal(n: nat) -> Seq<char>
    decreases n,
{
    if n < 10 {
        seq![digit(n)]
    } else {
        decimal(n / 10) + seq![digit(n % 10)]
    }
}

/// Decimal representation of `n`.
pub fn decimal_chars(n: u64) -> (r: Vec<char>)
    ensures
        r@ == decimal(n as nat),
    decreases n,
{
    let d: u8 = (n % 10) as u8;
    let ch: char = (d + 48u8) as char;
    if n < 10 {
        let mut r: Vec<char> = Vec::new();
        r.push(ch);
        assert(r@ =~= seq![digit(n as nat)]);
        r
    } else {
        let mut r = decimal_chars(n / 10);
        r.push(ch);
        r
    }
}

/// `n.to_string()`.
pub fn decimal_string(n: u64) -> (r: String)
    ensures
        r@ == decimal(n as nat),
{
    let v = decimal_chars(n);
    from_chars(v.as_slice())
}

/// The parts joined by `sep`, as `[String]::join` gives it.
pub open spec fn join(parts: Seq<Seq<char>>, sep: Seq<char>) -> Seq<char>
    decreases parts.len(),
{
    if parts.len() == 0 {
        Seq::empty()
    } else if parts.len() == 1 {
        parts[0]
    } else {
        parts[0] + sep + join(parts.skip(1), sep)
    }
}


proof fn lemma_join_push(parts: Seq<Seq<char>>, x: Seq<char>, sep: Seq<char>)
    requires
        parts.len() > 0,
    ensures
        join(parts.push(x), sep) == join(parts, sep) + sep + x,
    decreases parts.len(),
{
    if parts.len() == 1 {
        assert(parts.push(x).skip(1) =~= seq![x]);
        assert(join(parts.push(x).skip(1), sep) == x);
    } else {
        lemma_join_push(parts.skip(1), x, sep);
        assert(parts.push(x).skip(1) =~= parts.skip(1).push(x));
        assert(parts[0] + sep + (join(parts.skip(1), sep) + sep + x) =~= parts[0] + sep + join(
            parts.skip(1),
            sep,
        ) + sep + x);
    }
}

/// The views of a list of strings.
pub open spec fn views(parts: Seq<String>) -> Seq<Seq<char>> {
    parts.map_values(|p: String| p@)
}

/// Viewing a list after a push.
pub proof fn lemma_views_push(v: Seq<String>, x: String)
    ensures
        views(v.push(x)) == views(v).push(x@),
{
    assert(views(v.push(x)) =~= views(v).push(x@));
}

/// Viewing a prefix of a list.
pub proof fn lemma_views_take(v: Seq<String>, n: int)
    requires
        0 <= n <= v.len(),
    ensures
        views(v.take(n)) == views(v).take(n),
        views(v).len() == v.len(),
{
    assert(views(v.take(n)) =~= views(v).take(n));
}

/// `parts.join(sep)`.
pub fn join_strings(parts: &Vec<String>, sep: &str) -> (r: String)
    ensures
        r@ == join(views(parts@), sep@),
{
    let mut out = String::new();
    let mut i: usize = 0;
    while i < parts.len()
        invariant
            i <= parts.len(),
            out@ == join(views(parts@).take(i as int), sep@),
        decreases parts.len() - i,
    {
        let ghost before = views(parts@).take(i as int);
        assert(views(parts@).take(i + 1) =~= before.push(parts@[i as int]@));
        if i > 0 {
            proof {
                lemma_join_push(before, parts@[i as int]@, sep@);
            }
            out.append(sep);
        } else {
            assert(before.push(parts@[i as int]@) =~= seq![parts@[i as int]@]);
        }
        out.append(parts[i].as_str());
        i = i + 1;
    }
    assert(views(parts@).take(parts.len() as int) =~= views(parts@));
    out
}

/// Number of bytes the UTF-8 encoding of `c` takes.
pub open spec fn utf8_width(c: char) -> nat {
    let u = c as u32;
    if u < 0x80 {
        1
    } else if u < 0x800 {
        2
    } else if u < 0x10000 {
        3
    } else {
        4
    }
}

/// `s.get(b..)` for a byte offset `b`: the characters after the first `b`
/// bytes, or `None` when `b` is past the end or inside a character.
pub open spec fn skip_bytes(s: Seq<char>, b: nat) -> Option<Seq<char>>
    decreases s.len(),
{
    if b == 0 {
        Some(s)
    } else if s.len() == 0 || utf8_width(s[0]) > b {
        None
    } else {
        skip_bytes(s.skip(1), (b - utf8_width(s[0])) as nat)
    }
}

fn utf8_width_exec(c: char) -> (w: usize)
    ensures
        w == utf8_width(c),
{
    let u = c as u32;
    if u < 0x80 {
        1
    } else if u < 0x800 {
        2
    } else if u < 0x10000 {
        3
    } else {
        4
    }
}

/// `s.get(b..)`.
pub fn skip_bytes_str(s: &str, b: usize) -> (r: Option<String>)
    ensures
        match skip_bytes(s@, b as nat) {
            Some(t) => r matches Some(x) && x@ == t,
            None => r is None,
        },
{
    let v = chars_vec(s);
    let mut i: usize = 0;
    let mut left: usize = b;
    assert(v@.skip(0) =~= v@);
    while left > 0
        invariant
            i <= v.len(),
            v@ == s@,
            skip_bytes(s@, b as nat) == skip_bytes(v@.skip(i as int), left as nat),
        decreases left,
    {
        if i >= v.len() {
            return None;
        }
        let w = utf8_width_exec(v[i]);
        assert(v@.skip(i as int)[0] == v@[i as int]);
        if w > left {
            return None;
        }
        assert(v@.skip(i as int).skip(1) =~= v@.skip(i + 1));
        left = left - w;
        i = i + 1;
    }
    let rest = sub_chars(&v, i, v.len());
    assert(rest@ =~= v@.skip(i as int));
    Some(from_chars(rest.as_slice()))
}

/// Number of bytes the UTF-8 encoding of `s` takes.
pub open spec fn utf8_len(s: Seq<char>) -> nat
    decreases s.len(),
{
    if s.len() == 0 {
        0
    } else {
        utf8_width(s[0]) + utf8_len(s.drop_first())
    }
}

/// `s` cut at the last character boundary at or before byte `b`: its longest
/// prefix whose UTF-8 encoding takes at most `b` bytes.
pub open spec fn prefix_within(s: Seq<char>, b: nat) -> Seq<char>
    decreases s.len(),
{
    if s.len() == 0 || utf8_width(s[0]) > b {
        Seq::empty()
    } else {
        seq![s[0]] + prefix_within(s.drop_first(), (b - utf8_width(s[0])) as nat)
    }
}

/// The UTF-8 encoding of `s` is `utf8_len(s)` bytes long.
proof fn lemma_encode_len(s: Seq<char>)
    ensures
        encode_utf8(s).len() == utf8_len(s),
    decreases s.len(),
{
    if s.len() > 0 {
        lemma_encode_len(s.drop_first());
        let c = s[0];
        char_is_scalar(c);
        assert(encode_scalar(c as u32).len() == utf8_width(c));
    }
}

/// The length of `s` in bytes (`str::len`); the length of a string in
/// memory fits in `usize`.
pub fn byte_len(s: &str) -> (n: usize)
    requires
        utf8_len(s@) <= usize::MAX,
    ensures
        n == utf8_len(s@),
{
    proof {
        lemma_encode_len(s@);
    }
    s.len()
}

/// `prefix_within` of a prefix of `s` extends by the next character when
/// it fits.
proof fn lemma_prefix_within_step(s: Seq<char>, i: int, b: nat, used: nat)
    requires
        0 <= i < s.len(),
        used <= b,
        prefix_within(s, b) == s.take(i) + prefix_within(s.skip(i), (b - used) as nat),
    ensures
        used + utf8_width(s[i]) <= b ==> prefix_within(s, b) == s.take(i + 1) + prefix_within(
            s.skip(i + 1),
            (b - used - utf8_width(s[i])) as nat,
        ),
        used + utf8_width(s[i]) > b ==> prefix_within(s, b) == s.take(i),
{
    let rest = s.skip(i);
    assert(rest[0] == s[i]);
    assert(rest.drop_first() =~= s.skip(i + 1));
    let w = utf8_width(s[i]);
    if used + w <= b {
        let tail = prefix_within(s.skip(i + 1), (b - used - w) as nat);
        assert(s.take(i) + (seq![s[i]] + tail) =~= s.take(i + 1) + tail);
    } else {
        assert(s.take(i) + Seq::<char>::empty() =~= s.take(i));
    }
}

/// `s` cut at the last character boundary at or before byte `b` (see
/// `prefix_within`).
pub fn prefix_within_str(s: &str, b: usize) -> (r: String)
    ensures
        r@ == prefix_within(s@, b as nat),
{
    let v = chars_vec(s);
    let mut i: usize = 0;
    let mut used: usize = 0;
    assert(v@.skip(0) =~= v@);
    assert(v@.take(0) + v@ =~= v@);
    assert(v@.take(0) + prefix_within(v@, b as nat) =~= prefix_within(v@, b as nat));
    while i < v.len()
        invariant
            i <= v.len(),
            used <= b,
            v@ == s@,
            prefix_within(s@, b as nat) == v@.take(i as int) + prefix_within(v@.skip(i as int), (b - used) as nat),
        decreases v.len() - i,
    {
        let w = utf8_width_exec(v[i]);
        proof {
            lemma_prefix_within_step(v@, i as int, b as nat, used as nat);
        }
        if w > b - used {
            let head = sub_chars(&v, 0, i);
            assert(head@ =~= v@.take(i as int));
            return from_chars(head.as_slice());
        }
        used = used + w;
        i = i + 1;
    }
    assert(v@.skip(i as int) =~= Seq::<char>::empty());
    assert(v@.take(i as int) + Seq::<char>::empty() =~= v@.take(i as int));
    let head = sub_chars(&v, 0, i);
    assert(head@ =~= v@.take(i as int));
    from_chars(head.as_slice())
}

} // verus!
