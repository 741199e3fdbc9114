//! White space in text: trimming it and splitting text into the words
//! between it, as `str::trim` and `str::split_whitespace` do, and removing
//! repeated neighbours from a list.
use vstd::prelude::*;
use crate::text::{chars_of, string_of, slice_chars, views, str_eq};

verus! {

/// The characters with the Unicode `White_Space` property.
pub open spec fn is_white_space(c: char) -> bool {
    let n = c as u32;
    (0x9 <= n <= 0xd) || n == 0x20 || n == 0x85 || n == 0xa0 || n == 0x1680 || (0x2000 <= n <= 0x200a)
        || n == 0x2028 || n == 0x2029 || n == 0x202f || n == 0x205f || n == 0x3000
}

/// Whether a character is white space (`char::is_whitespace`).
pub fn char_is_white_space(c: char) -> (result: bool)
    ensures
        result == is_white_space(c),
{
    let n = c as u32;
    (0x9 <= n && n <= 0xd) || n == 0x20 || n == 0x85 || n == 0xa0 || n == 0x1680 || (0x2000 <= n && n
        <= 0x200a) || n == 0x2028 || n == 0x2029 || n == 0x202f || n == 0x205f || n == 0x3000
}

/// The text without the white space at its start.
pub open spec fn trim_start(s: Seq<char>) -> Seq<char>
    decreases s.len(),
{
    if s.len() > 0 && is_white_space(s[0]) {
        trim_start(s.skip(1))
    } else {
        s
    }
}

/// The text without the white space at its end.
pub open spec fn trim_end(s: Seq<char>) -> Seq<char>
    decreases s.len(),
{
    if s.len() > 0 && is_white_space(s.last()) {
        trim_end(s.drop_last())
    } else {
        s
    }
}

/// The text without white space at either end.
pub open spec fn trimmed_text(s: Seq<char>) -> Seq<char> {
    trim_end(trim_start(s))
}

proof fn lemma_trim_start_starts_with_text(s: Seq<char>)
    ensures
        trim_start(s).len() == 0 || !is_white_space(trim_start(s)[0]),
    decreases s.len(),
{
    if s.len() > 0 && is_white_space(s[0]) {
        lemma_trim_start_starts_with_text(s.skip(1));
    }
}

proof fn lemma_trim_end_is_prefix(s: Seq<char>)
    ensures
        trim_end(s).len() <= s.len(),
        trim_end(s) == s.take(trim_end(s).len() as int),
        trim_end(s).len() == 0 || !is_white_space(trim_end(s).last()),
    decreases s.len(),
{
    if s.len() > 0 && is_white_space(s.last()) {
        lemma_trim_end_is_prefix(s.drop_last());
        let r = trim_end(s.drop_last());
        assert(s.drop_last().take(r.len() as int) =~= s.take(r.len() as int));
    } else {
        assert(s.take(s.len() as int) =~= s);
    }
}

/// Trimming trimmed text changes nothing.
pub proof fn lemma_trim_idempotent(s: Seq<char>)
    ensures
        trimmed_text(trimmed_text(s)) == trimmed_text(s),
{
    let u = trim_start(s);
    let v = trim_end(u);
    lemma_trim_start_starts_with_text(s);
    lemma_trim_end_is_prefix(u);
    if v.len() > 0 {
        assert(v[0] == u[0]);
    }
    assert(trim_start(v) == v);
    assert(trim_end(v) == v);
}

/// The text without white space at either end (`str::trim`).
pub fn trim(s: &str) -> (result: String)
    ensures
        result@ == trimmed_text(s@),
{
    let chars = chars_of(s);
    let mut start: usize = 0;
    assert(chars@.skip(0) =~= chars@);
    while start < chars.len() && char_is_white_space(chars[start])
        invariant
            start <= chars@.len(),
            trim_start(s@) == trim_start(chars@.skip(start as int)),
            chars@ == s@,
        decreases chars@.len() - start,
    {
        assert(chars@.skip(start as int).skip(1) =~= chars@.skip(start + 1));
        start = start + 1;
    }
    let ghost front = chars@.skip(start as int);
    assert(trim_start(s@) == front);
    let mut end: usize = chars.len();
    assert(front.take(front.len() as int) =~= front);
    while end > start && char_is_white_space(chars[end - 1])
        invariant
            start <= end <= chars@.len(),
            front == chars@.skip(start as int),
            trim_end(front) == trim_end(front.take(end - start)),
        decreases end,
    {
        let ghost part = front.take(end - start);
        assert(part.last() == chars@[end - 1]);
        assert(part.drop_last() =~= front.take(end - 1 - start));
        end = end - 1;
    }
    let result = slice_chars(&chars, start, end);
    assert(result@ =~= front.take(end - start));
    string_of(result.as_slice())
}

/// The words of a text: the runs of characters between white space, in
/// order.
pub open spec fn words(s: Seq<char>) -> Seq<Seq<char>>
    decreases s.len(),
{
    if s.len() == 0 {
        Seq::empty()
    } else if is_white_space(s.last()) {
        words(s.drop_last())
    } else if s.len() >= 2 && !is_white_space(s[s.len() - 2]) {
        let before = words(s.drop_last());
        before.drop_last().push(before.last().push(s.last()))
    } else {
        words(s.drop_last()).push(seq![s.last()])
    }
}

/// The words of a text (`str::split_whitespace`).
pub fn split_whitespace(s: &str) -> (result: Vec<String>)
    ensures
        views(result@) == words(s@),
{
    let chars = chars_of(s);
    let mut done: Vec<String> = Vec::new();
    let mut current: Vec<char> = Vec::new();
    let mut i: usize = 0;
    while i < chars.len()
        invariant
            i <= chars@.len(),
            chars@ == s@,
            current@.len() > 0 <==> (i > 0 && !is_white_space(chars@[i - 1])),
            words(chars@.take(i as int)) == views(done@) + (if current@.len() > 0 {
                seq![current@]
            } else {
                Seq::<Seq<char>>::empty()
            }),
        decreases chars@.len() - i,
    {
        let c = chars[i];
        let ghost prefix = chars@.take(i + 1);
        assert(prefix.drop_last() =~= chars@.take(i as int));
        assert(prefix.last() == c);
        if char_is_white_space(c) {
            if current.len() > 0 {
                let word = string_of(current.as_slice());
                let ghost before = done@;
                done.push(word);
                assert(views(done@) =~= views(before).push(word@));
                current = Vec::new();
            }
            assert(words(prefix) == words(chars@.take(i as int)));
            assert(words(prefix) =~= views(done@));
        } else {
            let ghost old_current = current@;
            if current.len() > 0 {
                assert(prefix[prefix.len() - 2] == chars@[i - 1]);
                current.push(c);
                assert(words(prefix) =~= views(done@) + seq![old_current.push(c)]);
            } else {
                current.push(c);
                assert(i > 0 ==> prefix[prefix.len() - 2] == chars@[i - 1]);
                assert(words(prefix) =~= views(done@) + seq![seq![c]]);
                assert(current@ =~= seq![c]);
            }
        }
        i = i + 1;
    }
    assert(chars@.take(i as int) =~= chars@);
    if current.len() > 0 {
        let word = string_of(current.as_slice());
        let ghost before = done@;
        done.push(word);
        assert(views(done@) =~= views(before).push(word@));
    }
    done
}

/// The list without the items equal to the one before them (`Vec::dedup`).
pub open spec fn deduplicated(items: Seq<Seq<char>>) -> Seq<Seq<char>>
    decreases items.len(),
{
    if items.len() == 0 {
        Seq::empty()
    } else if items.len() >= 2 && items.last() == items[items.len() - 2] {
        deduplicated(items.drop_last())
    } else {
        deduplicated(items.drop_last()).push(items.last())
    }
}

/// Removes the items equal to the one before them.
pub fn dedup(items: Vec<String>) -> (result: Vec<String>)
    ensures
        views(result@) == deduplicated(views(items@)),
{
    let mut result: Vec<String> = Vec::new();
    let mut i: usize = 0;
    while i < items.len()
        invariant
            i <= items@.len(),
            views(result@) == deduplicated(views(items@).take(i as int)),
        decreases items@.len() - i,
    {
        let ghost prefix = views(items@).take(i + 1);
        assert(prefix.drop_last() =~= views(items@).take(i as int));
        assert(prefix.last() == items@[i as int]@);
        if i > 0 && str_eq(items[i].as_str(), items[i - 1].as_str()) {
            assert(prefix[prefix.len() - 2] == items@[i - 1]@);
        } else {
            assert(i > 0 ==> prefix[prefix.len() - 2] == items@[i - 1]@);
            let ghost before = result@;
            result.push(items[i].clone());
            assert(views(result@) =~= views(before).push(items@[i as int]@));
        }
        i = i + 1;
    }
    assert(views(items@).take(i as int) =~= views(items@));
    result
}

} // verus!
