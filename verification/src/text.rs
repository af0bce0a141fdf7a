//! Character-level text operations, each specified over `Seq<char>`.

use vstd::prelude::*;
use vstd::utf8::{encode_scalar, encode_utf8};

verus! {

/// Appends one character to a `String` (std's `String::push`).
/// Trusted: std documents that `push` appends the given `char` to the end.
#[verifier::external_body]
fn push_char(s: &mut String, c: char)
    ensures
        final(s)@ == old(s)@.push(c),
{
    s.push(c)
}

/// The characters of `s`, in order.
pub fn chars_of(s: &str) -> (v: Vec<char>)
    ensures
        v@ == s@,
{
    let mut v: Vec<char> = Vec::new();
    let n = s.unicode_len();
    let mut i: usize = 0;
    while i < n
        invariant
            n == s@.len(),
            i <= n,
            v@ == s@.take(i as int),
        decreases n - i,
    {
        let c = s.get_char(i);
        v.push(c);
        assert(s@.take(i + 1) =~= s@.take(i as int).push(c));
        i = i + 1;
    }
    assert(s@.take(n as int) =~= s@);
    v
}

/// The string made of the characters of `v`.
pub fn text_of(v: &Vec<char>) -> (s: String)
    ensures
        s@ == v@,
{
    let mut s = String::new();
    let mut i: usize = 0;
    while i < v.len()
        invariant
            i <= v.len(),
            s@ == v@.take(i as int),
        decreases v.len() - i,
    {
        push_char(&mut s, v[i]);
        assert(v@.take(i + 1) =~= v@.take(i as int).push(v@[i as int]));
        i = i + 1;
    }
    assert(v@.take(v.len() as int) =~= v@);
    s
}


/// `p` occurs in `s` starting at index `i`.
pub open spec fn occurs_at(s: Seq<char>, p: Seq<char>, i: int) -> bool {
    0 <= i && i + p.len() <= s.len() && s.subrange(i, i + p.len()) == p
}

/// `p` occurs somewhere in `s` (std's `str::contains` with a string pattern).
pub open spec fn has_infix(s: Seq<char>, p: Seq<char>) -> bool {
    exists|i: int| occurs_at(s, p, i)
}

/// `s` begins with `p` (std's `str::starts_with`).
pub open spec fn has_prefix(s: Seq<char>, p: Seq<char>) -> bool {
    occurs_at(s, p, 0)
}

/// Whether `p` occurs in `s` at index `i`.
pub fn matches_at(s: &Vec<char>, p: &Vec<char>, i: usize) -> (b: bool)
    ensures
        b == occurs_at(s@, p@, i as int),
{
    if i > s.len() || p.len() > s.len() - i {
        return false;
    }
    let mut k: usize = 0;
    while k < p.len()
        invariant
            i + p.len() <= s.len(),
            k <= p.len(),
            forall|j: int| 0 <= j < k ==> s@[i + j] == p@[j],
        decreases p.len() - k,
    {
        if s[i + k] != p[k] {
            assert(s@.subrange(i as int, i + p.len())[k as int] != p@[k as int]);
            return false;
        }
        k = k + 1;
    }
    assert(s@.subrange(i as int, i + p.len()) =~= p@);
    true
}

/// Whether `p` occurs anywhere in `s`.
pub fn contains(s: &Vec<char>, p: &Vec<char>) -> (b: bool)
    ensures
        b == has_infix(s@, p@),
{
    let mut i: usize = 0;
    loop
        invariant
            i <= s.len(),
            forall|j: int| 0 <= j < i ==> !occurs_at(s@, p@, j),
        ensures
            forall|j: int| 0 <= j <= s.len() ==> !occurs_at(s@, p@, j),
        decreases s.len() - i,
    {
        if matches_at(s, p, i) {
            return true;
        }
        if i == s.len() {
            break;
        }
        i = i + 1;
    }
    assert forall|j: int| !occurs_at(s@, p@, j) by {
        if 0 <= j && j + p@.len() <= s@.len() {
            assert(j <= s.len());
        }
    }
    false
}

/// Whether `s` begins with `p`.
pub fn starts_with(s: &Vec<char>, p: &Vec<char>) -> (b: bool)
    ensures
        b == has_prefix(s@, p@),
{
    matches_at(s, p, 0)
}

/// Whether `s` and `t` hold the same characters.
pub fn same_text(s: &Vec<char>, t: &Vec<char>) -> (b: bool)
    ensures
        b == (s@ == t@),
{
    if s.len() != t.len() {
        return false;
    }
    let b = matches_at(s, t, 0);
    proof {
        if b {
            assert(s@.subrange(0, t@.len() as int) =~= s@);
        } else {
            assert(s@.subrange(0, t@.len() as int) =~= s@);
        }
    }
    b
}


/// Index of the first `c` in `s`, or `s.len()` where `s` holds none.
pub open spec fn char_pos(s: Seq<char>, c: char) -> int
    decreases s.len(),
{
    if s.len() == 0 {
        0
    } else if s[0] == c {
        0
    } else {
        1 + char_pos(s.drop_first(), c)
    }
}

/// An index `i` before which `s` holds no `c`, and at which `s` holds `c`
/// (or ends), is `char_pos(s, c)`.
pub proof fn lemma_char_pos(s: Seq<char>, c: char, i: int)
    requires
        0 <= i <= s.len(),
        forall|j: int| 0 <= j < i ==> s[j] != c,
        i < s.len() ==> s[i] == c,
    ensures
        char_pos(s, c) == i,
    decreases i,
{
    if i > 0 {
        assert forall|j: int| 0 <= j < i - 1 implies s.drop_first()[j] != c by {
            assert(s[j + 1] != c);
        }
        lemma_char_pos(s.drop_first(), c, i - 1);
    }
}

/// The characters after the first `c` in `s`, up to the next `c` or the end:
/// the second piece of `s.split(c)`. Empty where `s` holds no `c`.
pub open spec fn second_field(s: Seq<char>, c: char) -> Seq<char> {
    let k = char_pos(s, c);
    if k >= s.len() {
        Seq::empty()
    } else {
        let rest = s.skip(k + 1);
        rest.take(char_pos(rest, c))
    }
}

/// The first piece of `s.split(c)`: the characters before the first `c`.
pub open spec fn first_field(s: Seq<char>, c: char) -> Seq<char> {
    s.take(char_pos(s, c))
}

/// Index, at or after `start`, of the first `c` in `v`; `v.len()` where none.
fn find_from(v: &Vec<char>, start: usize, c: char) -> (k: usize)
    requires
        start <= v.len(),
    ensures
        start <= k <= v.len(),
        k - start == char_pos(v@.skip(start as int), c),
{
    let mut k = start;
    while k < v.len() && v[k] != c
        invariant
            start <= k <= v.len(),
            forall|j: int| start <= j < k ==> v@[j] != c,
        decreases v.len() - k,
    {
        k = k + 1;
    }
    proof {
        let t = v@.skip(start as int);
        assert forall|j: int| 0 <= j < k - start implies t[j] != c by {
            assert(v@[start + j] != c);
        }
        lemma_char_pos(t, c, k - start);
    }
    k
}

/// The characters of `v` from index `from` up to `to`.
fn slice_of(v: &Vec<char>, from: usize, to: usize) -> (w: Vec<char>)
    requires
        from <= to <= v.len(),
    ensures
        w@ == v@.subrange(from as int, to as int),
{
    let mut w: Vec<char> = Vec::new();
    let mut i = from;
    while i < to
        invariant
            from <= i <= to <= v.len(),
            w@ == v@.subrange(from as int, i as int),
        decreases to - i,
    {
        w.push(v[i]);
        assert(v@.subrange(from as int, i + 1) =~= v@.subrange(from as int, i as int).push(v@[i as int]));
        i = i + 1;
    }
    w
}

/// The second piece of `v` split at `c` (see `second_field`).
pub fn field_two(v: &Vec<char>, c: char) -> (w: Vec<char>)
    ensures
        w@ == second_field(v@, c),
{
    let k = find_from(v, 0, c);
    assert(v@.skip(0) =~= v@);
    if k >= v.len() {
        return Vec::new();
    }
    let e = find_from(v, k + 1, c);
    let w = slice_of(v, k + 1, e);
    assert(w@ =~= v@.skip(k + 1).take(char_pos(v@.skip(k + 1), c)));
    w
}

/// The first piece of `v` split at `c` (see `first_field`).
pub fn field_one(v: &Vec<char>, c: char) -> (w: Vec<char>)
    ensures
        w@ == first_field(v@, c),
{
    let k = find_from(v, 0, c);
    assert(v@.skip(0) =~= v@);
    let w = slice_of(v, 0, k);
    assert(w@ =~= v@.take(k as int));
    w
}

/// `s` without any `c` (std's `str::replace(c, "")`).
pub open spec fn without_char(s: Seq<char>, c: char) -> Seq<char>
    decreases s.len(),
{
    if s.len() == 0 {
        s
    } else if s.last() == c {
        without_char(s.drop_last(), c)
    } else {
        without_char(s.drop_last(), c).push(s.last())
    }
}

/// The characters of `v` other than `c`, in order.
pub fn remove_char(v: &Vec<char>, c: char) -> (w: Vec<char>)
    ensures
        w@ == without_char(v@, c),
{
    let mut w: Vec<char> = Vec::new();
    let mut i: usize = 0;
    while i < v.len()
        invariant
            i <= v.len(),
            w@ == without_char(v@.take(i as int), c),
        decreases v.len() - i,
    {
        let ghost before = v@.take(i as int);
        assert(v@.take(i + 1).drop_last() =~= before);
        assert(v@.take(i + 1).last() == v@[i as int]);
        if v[i] != c {
            w.push(v[i]);
            assert(without_char(v@.take(i + 1), c) == without_char(before, c).push(v@[i as int]));
        } else {
            assert(without_char(v@.take(i + 1), c) == without_char(before, c));
        }
        i = i + 1;
    }
    assert(v@.take(v.len() as int) =~= v@);
    w
}

/// `s` with every `a` replaced by `b`.
pub open spec fn swap_char(s: Seq<char>, a: char, b: char) -> Seq<char> {
    s.map_values(|x: char| if x == a { b } else { x })
}

/// `v` with every `a` replaced by `b`.
pub fn replace_char(v: &Vec<char>, a: char, b: char) -> (w: Vec<char>)
    ensures
        w@ == swap_char(v@, a, b),
{
    let mut w: Vec<char> = Vec::new();
    let mut i: usize = 0;
    while i < v.len()
        invariant
            i <= v.len(),
            w@ == swap_char(v@.take(i as int), a, b),
        decreases v.len() - i,
    {
        let x = if v[i] == a { b } else { v[i] };
        w.push(x);
        assert(swap_char(v@.take(i + 1), a, b) =~= swap_char(v@.take(i as int), a, b).push(x));
        i = i + 1;
    }
    assert(v@.take(v.len() as int) =~= v@);
    w
}

/// `s` with leading copies of `p` removed, as many as there are
/// (std's `str::trim_start_matches` with a string pattern).
pub open spec fn trim_leading(s: Seq<char>, p: Seq<char>) -> Seq<char>
    decreases s.len(),
{
    if p.len() > 0 && has_prefix(s, p) {
        trim_leading(s.skip(p.len() as int), p)
    } else {
        s
    }
}

/// `v` with leading copies of `p` removed.
pub fn trim_start(v: &Vec<char>, p: &Vec<char>) -> (w: Vec<char>)
    ensures
        w@ == trim_leading(v@, p@),
{
    let mut i: usize = 0;
    assert(v@.skip(0) =~= v@);
    while p.len() > 0 && matches_at(v, p, i)
        invariant
            i <= v.len(),
            trim_leading(v@.skip(i as int), p@) == trim_leading(v@, p@),
        decreases v.len() - i,
    {
        assert(v@.skip(i as int).subrange(0, p@.len() as int) =~= v@.subrange(i as int, i + p@.len()));
        assert(v@.skip(i as int).skip(p@.len() as int) =~= v@.skip(i + p@.len()));
        i = i + p.len();
    }
    if p.len() > 0 {
        assert(!has_prefix(v@.skip(i as int), p@)) by {
            if has_prefix(v@.skip(i as int), p@) {
                assert(v@.skip(i as int).subrange(0, p@.len() as int) =~= v@.subrange(i as int, i + p@.len()));
            }
        }
    }
    let w = slice_of(v, i, v.len());
    w
}

/// `s` with each occurrence of `p`, scanned left to right without overlap,
/// replaced by `r` (std's `str::replace` with a non-empty pattern).
pub open spec fn replace_all(s: Seq<char>, p: Seq<char>, r: Seq<char>) -> Seq<char>
    decreases s.len(),
{
    if s.len() == 0 {
        s
    } else if p.len() > 0 && has_prefix(s, p) {
        r + replace_all(s.skip(p.len() as int), p, r)
    } else {
        seq![s[0]] + replace_all(s.drop_first(), p, r)
    }
}

/// `v` with each occurrence of `p` replaced by `r`.
pub fn replace_text(v: &Vec<char>, p: &Vec<char>, r: &Vec<char>) -> (w: Vec<char>)
    requires
        p.len() > 0,
    ensures
        w@ == replace_all(v@, p@, r@),
{
    let mut w: Vec<char> = Vec::new();
    let mut i: usize = 0;
    assert(v@.skip(0) =~= v@);
    while i < v.len()
        invariant
            p.len() > 0,
            i <= v.len(),
            w@ + replace_all(v@.skip(i as int), p@, r@) == replace_all(v@, p@, r@),
        decreases v.len() - i,
    {
        let ghost rest = v@.skip(i as int);
        if matches_at(v, p, i) {
            assert(rest.subrange(0, p@.len() as int) =~= v@.subrange(i as int, i + p@.len()));
            assert(rest.skip(p@.len() as int) =~= v@.skip(i + p@.len()));
            let ghost before = w@;
            let mut k: usize = 0;
            while k < r.len()
                invariant
                    k <= r.len(),
                    w@ == before + r@.take(k as int),
                decreases r.len() - k,
            {
                w.push(r[k]);
                assert(r@.take(k + 1) =~= r@.take(k as int).push(r@[k as int]));
                k = k + 1;
            }
            assert(r@.take(r.len() as int) =~= r@);
            assert(w@ + replace_all(v@.skip(i + p@.len()), p@, r@) =~= before + (r@ + replace_all(rest.skip(p@.len() as int), p@, r@)));
            i = i + p.len();
        } else {
            assert(!has_prefix(rest, p@)) by {
                if has_prefix(rest, p@) {
                    assert(rest.subrange(0, p@.len() as int) =~= v@.subrange(i as int, i + p@.len()));
                }
            }
            assert(rest.drop_first() =~= v@.skip(i + 1));
            let ghost before = w@;
            w.push(v[i]);
            assert(w@ + replace_all(v@.skip(i + 1), p@, r@) =~= before + (seq![rest[0]] + replace_all(rest.drop_first(), p@, r@)));
            i = i + 1;
        }
    }
    assert(v@.skip(i as int) =~= Seq::<char>::empty());
    assert(w@ + Seq::<char>::empty() =~= w@);
    w
}

/// Number of bytes in the UTF-8 encoding of `c` (std's `char::len_utf8`).
fn width_of(c: char) -> (n: usize)
    ensures
        n == encode_scalar(c as u32).len(),
{
    let v = c as u32;
    if v <= 0x7F {
        1
    } else if v <= 0x7FF {
        2
    } else if v <= 0xFFFF && !(0xD800 <= v && v <= 0xDFFF) {
        3
    } else {
        4
    }
}

/// Whether the UTF-8 encoding of `v` is longer than `n` bytes, i.e. whether
/// `str::len` of that text exceeds `n`.
pub fn utf8_longer_than(v: &Vec<char>, n: usize) -> (b: bool)
    requires
        n <= 1024,
    ensures
        b == (encode_utf8(v@).len() > n),
{
    let mut acc: usize = 0;
    let mut i: usize = 0;
    assert(v@.skip(0) =~= v@);
    while i < v.len()
        invariant
            i <= v.len(),
            n <= 1024,
            acc <= n,
            encode_utf8(v@).len() == acc + encode_utf8(v@.skip(i as int)).len(),
        decreases v.len() - i,
    {
        let ghost rest = v@.skip(i as int);
        assert(rest.drop_first() =~= v@.skip(i + 1));
        acc = acc + width_of(v[i]);
        if acc > n {
            return true;
        }
        i = i + 1;
    }
    assert(v@.skip(i as int) =~= Seq::<char>::empty());
    false
}

} // verus!
