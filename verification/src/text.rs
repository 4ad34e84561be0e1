//! Character-level text operations with sequence-level contracts.
//!
//! Module specifiers, paths and diagnostics are all plain text. The functions
//! here work on slices of `char` and state their results over `Seq<char>`, the
//! view that `str` and `String` share.

use vstd::prelude::*;

verus! {

/// `String::push` of the standard library appends one character to the end of
/// the string and leaves the characters already there unchanged.
pub assume_specification[ String::push ](s: &mut String, c: char)
    ensures
        final(s)@ == old(s)@.push(c),
;

/// An optional string as an optional character sequence.
pub open spec fn opt_text(s: Option<String>) -> Option<Seq<char>> {
    match s {
        Some(t) => Some(t@),
        None => None,
    }
}

/// The texts of a list of strings.
pub open spec fn texts(list: Seq<String>) -> Seq<Seq<char>> {
    Seq::new(list.len(), |i: int| list[i]@)
}

/// A result of strings with both sides as character sequences.
pub open spec fn text_result(r: Result<String, String>) -> Result<Seq<char>, Seq<char>> {
    match r {
        Ok(s) => Ok(s@),
        Err(e) => Err(e@),
    }
}

/// The decimal digit for the last place of a number.
pub open spec fn digit(n: nat) -> char {
    (('0' as u8) + (n % 10) as u8) as char
}

/// The decimal notation of a number.
pub open spec fn decimal(n: nat) -> Seq<char>
    decreases n,
{
    if n < 10 {
        seq![digit(n)]
    } else {
        decimal(n / 10).push(digit(n % 10))
    }
}

/// `s` begins with `p`.
pub open spec fn has_prefix(s: Seq<char>, p: Seq<char>) -> bool {
    p.len() <= s.len() && s.subrange(0, p.len() as int) == p
}

/// `s` ends with `p`.
pub open spec fn has_suffix(s: Seq<char>, p: Seq<char>) -> bool {
    p.len() <= s.len() && s.subrange(s.len() - p.len(), s.len() as int) == p
}

/// `s` without the suffix `p`, where it ends with `p`; `s` itself where it
/// does not.
pub open spec fn strip_suffix(s: Seq<char>, p: Seq<char>) -> Seq<char> {
    if has_suffix(s, p) {
        s.subrange(0, s.len() - p.len())
    } else {
        s
    }
}

/// `s` with every occurrence of the character `from` replaced by `to`.
pub open spec fn replace_char(s: Seq<char>, from: char, to: char) -> Seq<char> {
    Seq::new(s.len(), |i: int| if s[i] == from { to } else { s[i] })
}

/// `s` without the characters `a` and `b`, the others in their order.
pub open spec fn without_chars(s: Seq<char>, a: char, b: char) -> Seq<char> {
    s.filter(|c: char| c != a && c != b)
}

/// `p` occurs in `s` at position `i`.
pub open spec fn occurs_at(s: Seq<char>, p: Seq<char>, i: int) -> bool {
    0 <= i && i + p.len() <= s.len() && s.subrange(i, i + p.len()) == p
}

/// `p` occurs somewhere in `s`.
pub open spec fn contains_text(s: Seq<char>, p: Seq<char>) -> bool {
    exists|i: int| occurs_at(s, p, i)
}

/// The characters of a string slice.
pub fn chars_of(s: &str) -> (v: Vec<char>)
    ensures
        v@ == s@,
{
    let mut v: Vec<char> = Vec::new();
    for c in it: s.chars()
        invariant
            v@ == it.seq().take(it.index() as int),
            it.seq() == s@,
    {
        v.push(c);
    }
    v
}

/// The string made of the given characters.
pub fn string_of(v: &[char]) -> (s: String)
    ensures
        s@ == v@,
{
    let mut s = String::new();
    let mut i: usize = 0;
    while i < v.len()
        invariant
            i <= v.len(),
            s@ == v@.take(i as int),
        decreases v.len() - i,
    {
        s.push(v[i]);
        i += 1;
    }
    s
}

/// Whether two texts hold the same characters.
pub fn same_text(a: &[char], b: &[char]) -> (r: bool)
    ensures
        r == (a@ == b@),
{
    if a.len() != b.len() {
        return false;
    }
    let mut i: usize = 0;
    while i < a.len()
        invariant
            i <= a.len(),
            a.len() == b.len(),
            a@.take(i as int) == b@.take(i as int),
        decreases a.len() - i,
    {
        if a[i] != b[i] {
            return false;
        }
        assert(a@.take(i + 1) == a@.take(i as int).push(a@[i as int]));
        assert(b@.take(i + 1) == b@.take(i as int).push(b@[i as int]));
        i += 1;
    }
    assert(a@.take(a.len() as int) == a@);
    assert(b@.take(b.len() as int) == b@);
    true
}

/// Whether two string slices hold the same characters.
pub fn same_str(a: &str, b: &str) -> (r: bool)
    ensures
        r == (a@ == b@),
{
    let ca = chars_of(a);
    let cb = chars_of(b);
    same_text(ca.as_slice(), cb.as_slice())
}

/// Whether `p` occurs in `s` at position `at`.
pub fn matches_at(s: &[char], p: &[char], at: usize) -> (r: bool)
    ensures
        r == occurs_at(s@, p@, at as int),
{
    if at > s.len() || p.len() > s.len() - at {
        return false;
    }
    let mut i: usize = 0;
    while i < p.len()
        invariant
            i <= p.len(),
            at + p.len() <= s.len(),
            s@.subrange(at as int, at + i) == p@.take(i as int),
        decreases p.len() - i,
    {
        if s[at + i] != p[i] {
            assert(s@.subrange(at as int, at + p.len())[i as int] != p@[i as int]);
            return false;
        }
        assert(s@.subrange(at as int, at + i + 1) == s@.subrange(at as int, at + i).push(
            s@[at + i],
        ));
        assert(p@.take(i + 1) == p@.take(i as int).push(p@[i as int]));
        i += 1;
    }
    assert(p@.take(p.len() as int) == p@);
    true
}

/// Whether `s` begins with `p`.
pub fn starts_with(s: &[char], p: &[char]) -> (r: bool)
    ensures
        r == has_prefix(s@, p@),
{
    matches_at(s, p, 0)
}

/// Whether `s` ends with `p`.
pub fn ends_with(s: &[char], p: &[char]) -> (r: bool)
    ensures
        r == has_suffix(s@, p@),
{
    if p.len() > s.len() {
        return false;
    }
    matches_at(s, p, s.len() - p.len())
}

/// Whether `p` occurs somewhere in `s`.
pub fn contains(s: &[char], p: &[char]) -> (r: bool)
    ensures
        r == contains_text(s@, p@),
{
    let mut i: usize = 0;
    while i < s.len()
        invariant
            i <= s.len(),
            forall|j: int| 0 <= j < i ==> !occurs_at(s@, p@, j),
        decreases s.len() - i,
    {
        if matches_at(s, p, i) {
            return true;
        }
        i += 1;
    }
    matches_at(s, p, i)
}

/// The position of the first `c` in `s`.
pub fn find_char(s: &[char], c: char) -> (r: Option<usize>)
    ensures
        match r {
            Some(i) => i < s.len() && s@[i as int] == c && s@.index_of_first(c) == Some(i as int),
            None => s@.index_of_first(c) is None,
        },
{
    let mut i: usize = 0;
    while i < s.len()
        invariant
            i <= s.len(),
            forall|j: int| 0 <= j < i ==> s@[j] != c,
        decreases s.len() - i,
    {
        if s[i] == c {
            proof {
                s@.index_of_first_ensures(c);
            }
            return Some(i);
        }
        i += 1;
    }
    proof {
        s@.index_of_first_ensures(c);
    }
    None
}

/// The position of the last `c` in `s`.
pub fn rfind_char(s: &[char], c: char) -> (r: Option<usize>)
    ensures
        match r {
            Some(i) => i < s.len() && s@[i as int] == c && s@.index_of_last(c) == Some(i as int),
            None => s@.index_of_last(c) is None,
        },
{
    let mut i: usize = s.len();
    while i > 0
        invariant
            i <= s.len(),
            forall|j: int| i <= j < s.len() ==> s@[j] != c,
        decreases i,
    {
        i -= 1;
        if s[i] == c {
            proof {
                s@.index_of_last_ensures(c);
            }
            return Some(i);
        }
    }
    proof {
        s@.index_of_last_ensures(c);
    }
    None
}

/// The characters of `s` from position `from` up to, not including, `to`.
pub fn slice_of(s: &[char], from: usize, to: usize) -> (v: Vec<char>)
    requires
        from <= to <= s.len(),
    ensures
        v@ == s@.subrange(from as int, to as int),
{
    let mut v: Vec<char> = Vec::new();
    let mut i: usize = from;
    while i < to
        invariant
            from <= i <= to <= s.len(),
            v@ == s@.subrange(from as int, i as int),
        decreases to - i,
    {
        v.push(s[i]);
        i += 1;
    }
    v
}

/// Appends the characters of `tail` to `out`.
pub fn push_all(out: &mut Vec<char>, tail: &[char])
    ensures
        final(out)@ == old(out)@ + tail@,
{
    let mut i: usize = 0;
    while i < tail.len()
        invariant
            i <= tail.len(),
            out@ == old(out)@ + tail@.take(i as int),
        decreases tail.len() - i,
    {
        out.push(tail[i]);
        i += 1;
    }
    assert(tail@.take(tail.len() as int) == tail@);
}

/// Appends the characters of a string slice to `out`.
pub fn push_str(out: &mut Vec<char>, tail: &str)
    ensures
        final(out)@ == old(out)@ + tail@,
{
    let t = chars_of(tail);
    push_all(out, t.as_slice());
}

/// `s` with every `from` replaced by `to`.
pub fn replace(s: &[char], from: char, to: char) -> (v: Vec<char>)
    ensures
        v@ == replace_char(s@, from, to),
{
    let mut v: Vec<char> = Vec::new();
    let mut i: usize = 0;
    while i < s.len()
        invariant
            i <= s.len(),
            v@ == replace_char(s@, from, to).take(i as int),
        decreases s.len() - i,
    {
        if s[i] == from {
            v.push(to);
        } else {
            v.push(s[i]);
        }
        i += 1;
    }
    v
}

/// `s` with every occurrence of `pattern` replaced by `with`, found from the
/// left and without overlap. An empty pattern occurs nowhere.
pub open spec fn replace_text(s: Seq<char>, pattern: Seq<char>, with: Seq<char>) -> Seq<char>
    decreases s.len(),
{
    if pattern.len() == 0 || s.len() < pattern.len() {
        s
    } else if has_prefix(s, pattern) {
        with + replace_text(s.subrange(pattern.len() as int, s.len() as int), pattern, with)
    } else {
        seq![s[0]] + replace_text(s.subrange(1, s.len() as int), pattern, with)
    }
}

/// `s` without every leading occurrence of `pattern`.
pub open spec fn trim_start(s: Seq<char>, pattern: Seq<char>) -> Seq<char>
    decreases s.len(),
{
    if pattern.len() > 0 && has_prefix(s, pattern) {
        trim_start(s.subrange(pattern.len() as int, s.len() as int), pattern)
    } else {
        s
    }
}

/// `s` without every trailing occurrence of `pattern`.
pub open spec fn trim_end(s: Seq<char>, pattern: Seq<char>) -> Seq<char>
    decreases s.len(),
{
    if pattern.len() > 0 && has_suffix(s, pattern) {
        trim_end(s.subrange(0, s.len() - pattern.len()), pattern)
    } else {
        s
    }
}

/// `s` with every occurrence of `pattern` replaced by `with`.
pub fn replace_all(s: &[char], pattern: &[char], with: &[char]) -> (out: Vec<char>)
    ensures
        out@ == replace_text(s@, pattern@, with@),
{
    let mut out: Vec<char> = Vec::new();
    let mut i: usize = 0;
    if pattern.len() == 0 {
        push_all(&mut out, s);
        return out;
    }
    assert(s@.subrange(0, s@.len() as int) == s@);
    while i < s.len()
        invariant
            i <= s.len(),
            pattern.len() > 0,
            out@ + replace_text(s@.subrange(i as int, s@.len() as int), pattern@, with@)
                == replace_text(s@, pattern@, with@),
        decreases s.len() - i,
    {
        let ghost rest = s@.subrange(i as int, s@.len() as int);
        let ghost done = out@;
        if matches_at(s, pattern, i) {
            assert(rest.subrange(0, pattern@.len() as int) == s@.subrange(
                i as int,
                i + pattern@.len(),
            ));
            assert(rest.subrange(pattern@.len() as int, rest.len() as int) == s@.subrange(
                i + pattern@.len(),
                s@.len() as int,
            ));
            push_all(&mut out, with);
            i += pattern.len();
            assert(out@ + replace_text(s@.subrange(i as int, s@.len() as int), pattern@, with@)
                == done + (with@ + replace_text(
                s@.subrange(i as int, s@.len() as int),
                pattern@,
                with@,
            )));
        } else {
            assert(rest.len() >= pattern@.len() ==> !has_prefix(rest, pattern@)) by {
                if rest.len() >= pattern@.len() {
                    assert(rest.subrange(0, pattern@.len() as int) == s@.subrange(
                        i as int,
                        i + pattern@.len(),
                    ));
                }
            }
            if s.len() - i < pattern.len() {
                push_all(&mut out, slice_of(s, i, s.len()).as_slice());
                i = s.len();
                assert(s@.subrange(i as int, s@.len() as int) == Seq::<char>::empty());
                assert(replace_text(Seq::<char>::empty(), pattern@, with@) == Seq::<char>::empty());
                assert(out@ + Seq::<char>::empty() == out@);
            } else {
                assert(rest.subrange(1, rest.len() as int) == s@.subrange(
                    i + 1,
                    s@.len() as int,
                ));
                out.push(s[i]);
                i += 1;
                assert(out@ + replace_text(s@.subrange(i as int, s@.len() as int), pattern@, with@)
                    == done + (seq![rest[0]] + replace_text(
                    s@.subrange(i as int, s@.len() as int),
                    pattern@,
                    with@,
                )));
            }
        }
    }
    assert(s@.subrange(s@.len() as int, s@.len() as int) == Seq::<char>::empty());
    assert(out@ + Seq::<char>::empty() == out@);
    out
}

/// `s` without every leading occurrence of `pattern`.
pub fn trimmed_start(s: &[char], pattern: &[char]) -> (out: Vec<char>)
    ensures
        out@ == trim_start(s@, pattern@),
{
    let mut i: usize = 0;
    assert(s@.subrange(0, s@.len() as int) == s@);
    while pattern.len() > 0 && matches_at(s, pattern, i)
        invariant
            i <= s.len(),
            trim_start(s@.subrange(i as int, s@.len() as int), pattern@) == trim_start(
                s@,
                pattern@,
            ),
        decreases s.len() - i,
    {
        let ghost rest = s@.subrange(i as int, s@.len() as int);
        assert(rest.subrange(0, pattern@.len() as int) == s@.subrange(i as int, i + pattern@.len()));
        assert(rest.subrange(pattern@.len() as int, rest.len() as int) == s@.subrange(
            i + pattern@.len(),
            s@.len() as int,
        ));
        i += pattern.len();
    }
    proof {
        let rest = s@.subrange(i as int, s@.len() as int);
        if pattern@.len() > 0 && rest.len() >= pattern@.len() {
            assert(rest.subrange(0, pattern@.len() as int) == s@.subrange(
                i as int,
                i + pattern@.len(),
            ));
        }
    }
    slice_of(s, i, s.len())
}

/// `s` without every trailing occurrence of `pattern`.
pub fn trimmed_end(s: &[char], pattern: &[char]) -> (out: Vec<char>)
    ensures
        out@ == trim_end(s@, pattern@),
{
    let mut n: usize = s.len();
    assert(s@.subrange(0, s@.len() as int) == s@);
    while pattern.len() > 0 && n >= pattern.len() && matches_at(s, pattern, n - pattern.len())
        invariant
            n <= s.len(),
            trim_end(s@.subrange(0, n as int), pattern@) == trim_end(s@, pattern@),
        decreases n,
    {
        let ghost rest = s@.subrange(0, n as int);
        assert(rest.subrange(rest.len() - pattern@.len(), rest.len() as int) == s@.subrange(
            n - pattern@.len(),
            n as int,
        ));
        assert(rest.subrange(0, rest.len() - pattern@.len()) == s@.subrange(
            0,
            n - pattern@.len(),
        ));
        n -= pattern.len();
    }
    proof {
        let rest = s@.subrange(0, n as int);
        if pattern@.len() > 0 && rest.len() >= pattern@.len() {
            assert(rest.subrange(rest.len() - pattern@.len(), rest.len() as int) == s@.subrange(
                n - pattern@.len(),
                n as int,
            ));
        }
    }
    slice_of(s, 0, n)
}

/// Appends the decimal notation of a number.
pub fn push_decimal(out: &mut Vec<char>, n: u64)
    ensures
        final(out)@ == old(out)@ + decimal(n as nat),
    decreases n,
{
    if n >= 10 {
        push_decimal(out, n / 10);
    }
    out.push((48u8 + (n % 10) as u8) as char);
    assert(out@ =~= old(out)@ + decimal(n as nat));
}

} // verus!
