//! Character-level text operations used throughout the library: building
//! strings from characters, ASCII case folding, substring search,
//! replacement, joining and decimal formatting.
use vstd::prelude::*;

verus! {

/// Appends one character to a string (`String::push`).
#[verifier::external_body]
fn push_char(s: &mut String, c: char)
    ensures
        final(s)@ == old(s)@.push(c),
{
    s.push(c);
}

/// The characters of a string slice, in order.
pub fn chars_of(s: &str) -> (result: Vec<char>)
    ensures
        result@ == s@,
{
    let mut result: Vec<char> = Vec::new();
    for c in it: s.chars()
        invariant
            result@ == it.seq().take(it.index() as int),
    {
        result.push(c);
    }
    result
}

/// A string made of the given characters.
pub fn string_of(chars: &[char]) -> (result: String)
    ensures
        result@ == chars@,
{
    let mut result = String::new();
    let mut i: usize = 0;
    while i < chars.len()
        invariant
            i <= chars@.len(),
            result@ == chars@.take(i as int),
        decreases chars@.len() - i,
    {
        push_char(&mut result, chars[i]);
        i = i + 1;
        assert(result@ =~= chars@.take(i as int));
    }
    assert(chars@.take(i as int) =~= chars@);
    result
}

/// A fresh string with the same characters.
pub fn copy_str(s: &str) -> (result: String)
    ensures
        result@ == s@,
{
    s.to_owned()
}

/// The concatenation of two string slices.
pub fn concat(a: &str, b: &str) -> (result: String)
    ensures
        result@ == a@ + b@,
{
    let mut result = a.to_owned();
    result.append(b);
    result
}

/// The concatenation of three string slices.
pub fn concat3(a: &str, b: &str, c: &str) -> (result: String)
    ensures
        result@ == a@ + b@ + c@,
{
    let mut result = a.to_owned();
    result.append(b);
    result.append(c);
    result
}

/// Whether two strings hold the same characters.
pub fn str_eq(a: &str, b: &str) -> (result: bool)
    ensures
        result == (a@ == b@),
{
    let x = chars_of(a);
    let y = chars_of(b);
    if x.len() != y.len() {
        return false;
    }
    let mut i: usize = 0;
    while i < x.len()
        invariant
            x@ == a@,
            y@ == b@,
            x@.len() == y@.len(),
            i <= x@.len(),
            forall|j: int| 0 <= j < i ==> x@[j] == y@[j],
        decreases x@.len() - i,
    {
        if x[i] != y[i] {
            return false;
        }
        i = i + 1;
    }
    assert(x@ =~= y@);
    true
}

/// ASCII lower-casing of a character, as a code point.
pub open spec fn ascii_lower(c: char) -> int {
    if 'A' <= c && c <= 'Z' {
        (c as int) + 32
    } else {
        c as int
    }
}

/// ASCII lower-casing of a character.
pub fn to_ascii_lower(c: char) -> (result: u32)
    ensures
        result == ascii_lower(c),
{
    if 'A' <= c && c <= 'Z' {
        (c as u32) + 32
    } else {
        c as u32
    }
}

/// Two texts are equal when ASCII letters are compared without regard to case.
pub open spec fn eq_ignore_ascii_case(a: Seq<char>, b: Seq<char>) -> bool {
    &&& a.len() == b.len()
    &&& forall|i: int| 0 <= i < a.len() ==> ascii_lower(#[trigger] a[i]) == ascii_lower(b[i])
}

/// Comparison of two strings ignoring ASCII case (`str::eq_ignore_ascii_case`).
pub fn str_eq_ignore_ascii_case(a: &str, b: &str) -> (result: bool)
    ensures
        result == eq_ignore_ascii_case(a@, b@),
{
    let x = chars_of(a);
    let y = chars_of(b);
    if x.len() != y.len() {
        return false;
    }
    let mut i: usize = 0;
    while i < x.len()
        invariant
            x@ == a@,
            y@ == b@,
            x@.len() == y@.len(),
            i <= x@.len(),
            forall|j: int| 0 <= j < i ==> ascii_lower(#[trigger] x@[j]) == ascii_lower(y@[j]),
        decreases x@.len() - i,
    {
        if to_ascii_lower(x[i]) != to_ascii_lower(y[i]) {
            return false;
        }
        i = i + 1;
    }
    true
}

/// `pattern` occurs in `s` starting at position `i`.
pub open spec fn occurs_at(s: Seq<char>, pattern: Seq<char>, i: int) -> bool {
    &&& 0 <= i
    &&& i + pattern.len() <= s.len()
    &&& s.subrange(i, i + pattern.len()) == pattern
}

/// `pattern` occurs somewhere in `s`.
pub open spec fn contains(s: Seq<char>, pattern: Seq<char>) -> bool {
    exists|i: int| occurs_at(s, pattern, i)
}

/// Whether `pattern` occurs in `s` at position `i`.
fn matches_at(s: &Vec<char>, pattern: &Vec<char>, i: usize) -> (result: bool)
    ensures
        result == occurs_at(s@, pattern@, i as int),
{
    if i > s.len() || pattern.len() > s.len() - i {
        return false;
    }
    let mut k: usize = 0;
    while k < pattern.len()
        invariant
            i + pattern@.len() <= s@.len(),
            s@.len() <= usize::MAX,
            k <= pattern@.len(),
            forall|j: int| 0 <= j < k ==> s@[i + j] == pattern@[j],
        decreases pattern@.len() - k,
    {
        if s[i + k] != pattern[k] {
            assert(s@.subrange(i as int, i + pattern@.len())[k as int] != pattern@[k as int]);
            return false;
        }
        k = k + 1;
    }
    assert(s@.subrange(i as int, i + pattern@.len()) =~= pattern@);
    true
}

/// Whether `pattern` occurs in `s` (`str::contains`).
pub fn str_contains(s: &str, pattern: &str) -> (result: bool)
    ensures
        result == contains(s@, pattern@),
{
    let x = chars_of(s);
    let p = chars_of(pattern);
    if p.len() == 0 {
        assert(occurs_at(s@, pattern@, 0)) by {
            assert(s@.subrange(0, 0) =~= pattern@);
        }
        return true;
    }
    let mut i: usize = 0;
    while i < x.len()
        invariant
            x@ == s@,
            p@ == pattern@,
            p@.len() > 0,
            i <= x@.len(),
            forall|j: int| 0 <= j < i ==> !occurs_at(s@, pattern@, j),
        decreases x@.len() - i,
    {
        if matches_at(&x, &p, i) {
            return true;
        }
        i = i + 1;
    }
    assert forall|j: int| !occurs_at(s@, pattern@, j) by {
        if 0 <= j && j < i {
        }
    }
    false
}


/// Appends every character of `tail` to `out`.
pub fn push_all(out: &mut Vec<char>, tail: &Vec<char>)
    ensures
        final(out)@ == old(out)@ + tail@,
{
    let mut k: usize = 0;
    while k < tail.len()
        invariant
            k <= tail@.len(),
            out@ == old(out)@ + tail@.take(k as int),
        decreases tail@.len() - k,
    {
        out.push(tail[k]);
        k = k + 1;
        assert(out@ =~= old(out)@ + tail@.take(k as int));
    }
    assert(tail@.take(k as int) =~= tail@);
}

/// Every non-overlapping occurrence of `from` in `s`, scanning from the left,
/// replaced by `to` (the meaning of `str::replace` for a non-empty pattern).
pub open spec fn replace_all(s: Seq<char>, from: Seq<char>, to: Seq<char>) -> Seq<char>
    decreases s.len(),
{
    if from.len() == 0 || s.len() < from.len() {
        s
    } else if s.take(from.len() as int) == from {
        to + replace_all(s.skip(from.len() as int), from, to)
    } else {
        seq![s[0]] + replace_all(s.skip(1), from, to)
    }
}

/// Replaces every occurrence of a non-empty pattern (`str::replace`).
pub fn replace(s: &str, from: &str, to: &str) -> (result: String)
    requires
        from@.len() > 0,
    ensures
        result@ == replace_all(s@, from@, to@),
{
    let x = chars_of(s);
    let f = chars_of(from);
    let t = chars_of(to);
    let mut out: Vec<char> = Vec::new();
    let mut i: usize = 0;
    assert(x@.skip(0) =~= x@);
    while i < x.len()
        invariant
            x@ == s@,
            f@ == from@,
            t@ == to@,
            f@.len() > 0,
            i <= x@.len(),
            out@ + replace_all(x@.skip(i as int), f@, t@) == replace_all(x@, f@, t@),
        ensures
            i == x@.len(),
            out@ + replace_all(x@.skip(i as int), f@, t@) == replace_all(x@, f@, t@),
        decreases x@.len() - i,
    {
        let ghost rest = x@.skip(i as int);
        if f.len() > x.len() - i {
            assert(replace_all(rest, f@, t@) == rest);
            let ghost start = out@;
            let mut k: usize = i;
            while k < x.len()
                invariant
                    i <= k <= x@.len(),
                    out@ == start + x@.subrange(i as int, k as int),
                decreases x@.len() - k,
            {
                out.push(x[k]);
                k = k + 1;
                assert(out@ =~= start + x@.subrange(i as int, k as int));
            }
            assert(x@.subrange(i as int, k as int) =~= rest);
            i = x.len();
            assert(out@ + replace_all(x@.skip(i as int), f@, t@) =~= out@) by {
                assert(x@.skip(i as int) =~= Seq::<char>::empty());
            }
            break;
        }
        if matches_at(&x, &f, i) {
            assert(rest.take(f@.len() as int) =~= f@);
            assert(rest.skip(f@.len() as int) =~= x@.skip(i + f@.len()));
            push_all(&mut out, &t);
            i = i + f.len();
        } else {
            assert(rest.take(f@.len() as int) != f@) by {
                if rest.take(f@.len() as int) == f@ {
                    assert(x@.subrange(i as int, i + f@.len()) =~= rest.take(f@.len() as int));
                }
            }
            assert(rest.skip(1) =~= x@.skip(i + 1));
            out.push(x[i]);
            i = i + 1;
        }
    }
    assert(x@.skip(i as int) =~= Seq::<char>::empty());
    string_of(out.as_slice())
}


/// The views of a list of strings.
pub open spec fn views(parts: Seq<String>) -> Seq<Seq<char>> {
    parts.map_values(|p: String| p@)
}

/// The parts separated by `sep` (the meaning of `join` on a slice of strings).
pub open spec fn join(parts: Seq<Seq<char>>, sep: Seq<char>) -> Seq<char>
    decreases parts.len(),
{
    if parts.len() == 0 {
        Seq::empty()
    } else if parts.len() == 1 {
        parts[0]
    } else {
        join(parts.drop_last(), sep) + sep + parts.last()
    }
}

/// Joins strings with a separator (`[String]::join`).
pub fn join_strings(parts: &Vec<String>, sep: &str) -> (result: String)
    ensures
        result@ == join(views(parts@), sep@),
{
    let mut result = String::new();
    let mut i: usize = 0;
    while i < parts.len()
        invariant
            i <= parts@.len(),
            result@ == join(views(parts@).take(i as int), sep@),
        decreases parts@.len() - i,
    {
        let ghost before = views(parts@).take(i as int);
        let ghost after = views(parts@).take(i + 1);
        assert(after.drop_last() =~= before);
        assert(after.last() == parts@[i as int]@);
        if i > 0 {
            result.append(sep);
        } else {
            assert(result@ =~= Seq::<char>::empty());
        }
        result.append(parts[i].as_str());
        i = i + 1;
    }
    assert(views(parts@).take(i as int) =~= views(parts@));
    result
}

/// The decimal digit for a value below ten.
pub open spec fn digit_char(d: nat) -> char {
    if d == 0 { '0' }
    else if d == 1 { '1' }
    else if d == 2 { '2' }
    else if d == 3 { '3' }
    else if d == 4 { '4' }
    else if d == 5 { '5' }
    else if d == 6 { '6' }
    else if d == 7 { '7' }
    else if d == 8 { '8' }
    else { '9' }
}

/// The decimal representation of a natural number, without leading zeros.
pub open spec fn decimal(n: nat) -> Seq<char>
    decreases n,
{
    if n < 10 {
        seq![digit_char(n)]
    } else {
        decimal(n / 10).push(digit_char(n % 10))
    }
}

/// The decimal representation of an integer, with a leading `-` when negative.
pub open spec fn signed_decimal(n: int) -> Seq<char> {
    if n < 0 {
        seq!['-'] + decimal((-n) as nat)
    } else {
        decimal(n as nat)
    }
}

fn digit(d: u64) -> (c: char)
    requires
        d < 10,
    ensures
        c == digit_char(d as nat),
{
    if d == 0 { '0' }
    else if d == 1 { '1' }
    else if d == 2 { '2' }
    else if d == 3 { '3' }
    else if d == 4 { '4' }
    else if d == 5 { '5' }
    else if d == 6 { '6' }
    else if d == 7 { '7' }
    else if d == 8 { '8' }
    else { '9' }
}

fn push_decimal(n: u64, out: &mut Vec<char>)
    ensures
        final(out)@ == old(out)@ + decimal(n as nat),
    decreases n,
{
    if n >= 10 {
        push_decimal(n / 10, out);
    }
    out.push(digit(n % 10));
    assert(out@ =~= old(out)@ + decimal(n as nat));
}

/// The decimal text of an unsigned number (`u64::to_string`).
pub fn u64_to_decimal(n: u64) -> (result: String)
    ensures
        result@ == decimal(n as nat),
{
    let mut out: Vec<char> = Vec::new();
    push_decimal(n, &mut out);
    assert(out@ =~= decimal(n as nat));
    string_of(out.as_slice())
}

/// The decimal text of a signed number (`i64::to_string`).
pub fn i64_to_decimal(n: i64) -> (result: String)
    ensures
        result@ == signed_decimal(n as int),
{
    let mut out: Vec<char> = Vec::new();
    if n < 0 {
        out.push('-');
        let magnitude: u64 = ((-(n + 1)) as u64) + 1;
        push_decimal(magnitude, &mut out);
        assert(out@ =~= signed_decimal(n as int));
    } else {
        push_decimal(n as u64, &mut out);
        assert(out@ =~= signed_decimal(n as int));
    }
    string_of(out.as_slice())
}


/// The characters of `v` from position `from` up to (not including) `to`.
pub fn slice_chars(v: &Vec<char>, from: usize, to: usize) -> (result: Vec<char>)
    requires
        from <= to <= v@.len(),
    ensures
        result@ == v@.subrange(from as int, to as int),
{
    let mut result: Vec<char> = Vec::new();
    let mut k: usize = from;
    while k < to
        invariant
            from <= k <= to <= v@.len(),
            result@ == v@.subrange(from as int, k as int),
        decreases to - k,
    {
        result.push(v[k]);
        k = k + 1;
        assert(result@ =~= v@.subrange(from as int, k as int));
    }
    result
}

} // verus!
