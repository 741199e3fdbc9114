//! Paths as text: components separated by `/`. These functions give the
//! meaning of `Path::join`, `Path::parent`, `Path::file_name` and
//! `Path::extension` on such paths, with trailing separators and trailing
//! `.` components ignored.
use vstd::prelude::*;
use crate::text::{chars_of, string_of, concat, concat3, copy_str, slice_chars};

verus! {

/// The separator of path components.
pub open spec fn is_separator(c: char) -> bool {
    c == '/'
}

/// The position of the last occurrence of `c` in `s`, or -1.
pub open spec fn last_index_of(s: Seq<char>, c: char) -> int
    decreases s.len(),
{
    if s.len() == 0 {
        -1
    } else if s.last() == c {
        s.len() - 1
    } else {
        last_index_of(s.drop_last(), c)
    }
}

pub proof fn lemma_last_index_of(s: Seq<char>, c: char)
    ensures
        -1 <= last_index_of(s, c) < s.len(),
        last_index_of(s, c) >= 0 ==> s[last_index_of(s, c)] == c,
        forall|j: int| last_index_of(s, c) < j < s.len() ==> s[j] != c,
    decreases s.len(),
{
    if s.len() > 0 && s.last() != c {
        lemma_last_index_of(s.drop_last(), c);
        assert forall|j: int| last_index_of(s, c) < j < s.len() implies s[j] != c by {
            if j < s.len() - 1 {
                assert(s.drop_last()[j] == s[j]);
            }
        }
    }
}

/// `base` joined with `part`: an absolute `part` replaces `base`, otherwise
/// a separator is placed between them unless `base` is empty or already ends
/// with one.
pub open spec fn joined(base: Seq<char>, part: Seq<char>) -> Seq<char> {
    if part.len() > 0 && is_separator(part[0]) {
        part
    } else if base.len() == 0 {
        part
    } else if is_separator(base.last()) {
        base + part
    } else {
        base + seq!['/'] + part
    }
}

/// Whether the path ends with a separator or with a `.` component after a
/// separator, which a trim takes off one character at a time.
pub open spec fn ends_trimmable(p: Seq<char>) -> bool {
    p.len() > 1 && (is_separator(p.last()) || (p.last() == '.' && is_separator(p[p.len() - 2])))
}

/// The path without trailing separators and trailing `.` components (a
/// lone root stays).
pub open spec fn trimmed(p: Seq<char>) -> Seq<char>
    decreases p.len(),
{
    if ends_trimmable(p) {
        trimmed(p.drop_last())
    } else {
        p
    }
}

/// The parent of a path: `None` for the empty path and the root.
pub open spec fn parent_of(p: Seq<char>) -> Option<Seq<char>> {
    let t = trimmed(p);
    let k = last_index_of(t, '/');
    if t.len() == 0 || t == seq!['/'] {
        None
    } else if k < 0 {
        Some(Seq::empty())
    } else if k == 0 {
        Some(seq!['/'])
    } else {
        Some(trimmed(t.take(k)))
    }
}

/// The last component of a path: `None` when there is none or it is `.`
/// or `..`.
pub open spec fn file_name_of(p: Seq<char>) -> Option<Seq<char>> {
    let t = trimmed(p);
    let name = t.skip(last_index_of(t, '/') + 1);
    if name.len() == 0 || name == seq!['.'] || name == seq!['.', '.'] {
        None
    } else {
        Some(name)
    }
}

/// The text after the last `.` of the file name, when that `.` is not its
/// first character.
pub open spec fn extension_of(p: Seq<char>) -> Option<Seq<char>> {
    match file_name_of(p) {
        None => None,
        Some(name) => {
            let k = last_index_of(name, '.');
            if k <= 0 {
                None
            } else {
                Some(name.skip(k + 1))
            }
        },
    }
}

/// The last occurrence of `c` in `a + b` is the one in `a` when `b` holds
/// no `c`.
proof fn lemma_last_index_of_concat(a: Seq<char>, b: Seq<char>, c: char)
    requires
        !b.contains(c),
    ensures
        last_index_of(a + b, c) == last_index_of(a, c),
    decreases b.len(),
{
    if b.len() == 0 {
        assert(a + b =~= a);
    } else {
        assert((a + b).drop_last() =~= a + b.drop_last());
        assert((a + b).last() == b.last());
        assert(b[b.len() - 1] == b.last());
        assert(!b.drop_last().contains(c)) by {
            if b.drop_last().contains(c) {
                let k = choose|k: int| 0 <= k < b.drop_last().len() && b.drop_last()[k] == c;
                assert(b[k] == c);
            }
        }
        lemma_last_index_of_concat(a, b.drop_last(), c);
    }
}

/// Joining a file name (not empty, without separators, not `.` or `..`) to a
/// directory and splitting the result again gives back the file name, and
/// the directory without its trailing separators as the parent.
pub proof fn lemma_join_then_split(base: Seq<char>, name: Seq<char>)
    requires
        name.len() > 0,
        !name.contains('/'),
        name != seq!['.'],
        name != seq!['.', '.'],
    ensures
        file_name_of(joined(base, name)) == Some(name),
        parent_of(joined(base, name)) == Some(trimmed(base)),
{
    assert(name[0] != '/');
    assert(name.last() != '/') by {
        assert(name[name.len() - 1] == name.last());
    }
    assert(name.len() == 1 ==> name.last() != '.') by {
        if name.len() == 1 && name.last() == '.' {
            assert(name =~= seq!['.']);
        }
    }
    assert(name.len() > 1 ==> name[name.len() - 2] != '/');
    let t = joined(base, name);
    if base.len() == 0 {
        assert(t == name);
        lemma_last_index_of_concat(Seq::<char>::empty(), name, '/');
        assert(Seq::<char>::empty() + name =~= name);
        assert(trimmed(t) == t);
        assert(t.skip(0) =~= name);
        assert(t != seq!['/']) by {
            if t == seq!['/'] {
                assert(name[0] == '/');
            }
        }
    } else {
        let prefix = if is_separator(base.last()) { base } else { base + seq!['/'] };
        assert(t == prefix + name);
        assert(prefix.last() == '/');
        assert(last_index_of(prefix, '/') == prefix.len() - 1);
        lemma_last_index_of_concat(prefix, name, '/');
        assert((prefix + name).last() == name.last());
        assert(trimmed(t) == t);
        assert(t.skip(prefix.len() as int) =~= name);
        assert(t != seq!['/']) by {
            assert(t.len() > 1);
        }
        assert(t.take(prefix.len() - 1) =~= prefix.drop_last());
        if is_separator(base.last()) {
            if base.len() > 1 {
                assert(trimmed(base) == trimmed(base.drop_last()));
            } else {
                assert(base =~= seq!['/']);
                assert(prefix.len() - 1 == 0);
            }
        } else {
            assert(prefix.drop_last() =~= base);
        }
    }
}

fn last_index(s: &Vec<char>, c: char) -> (result: Option<usize>)
    ensures
        match result {
            Some(k) => k == last_index_of(s@, c),
            None => last_index_of(s@, c) == -1,
        },
{
    let mut k: usize = s.len();
    assert(s@.take(k as int) =~= s@);
    while k > 0
        invariant
            k <= s@.len(),
            last_index_of(s@, c) == last_index_of(s@.take(k as int), c),
        decreases k,
    {
        let ghost prefix = s@.take(k as int);
        assert(prefix.drop_last() =~= s@.take(k - 1));
        assert(prefix.last() == s@[k - 1]);
        if s[k - 1] == c {
            assert(prefix.len() == k);
            assert(last_index_of(prefix, c) == k - 1);
            return Some(k - 1);
        }
        k = k - 1;
    }
    None
}

fn trim(p: &Vec<char>) -> (result: Vec<char>)
    ensures
        result@ == trimmed(p@),
{
    let mut k: usize = p.len();
    assert(p@.take(k as int) =~= p@);
    while k > 1 && (p[k - 1] == '/' || (p[k - 1] == '.' && p[k - 2] == '/'))
        invariant
            k <= p@.len(),
            trimmed(p@) == trimmed(p@.take(k as int)),
        decreases k,
    {
        assert(p@.take(k as int).drop_last() =~= p@.take(k - 1));
        k = k - 1;
    }
    let result = slice_chars(p, 0, k);
    assert(result@ =~= p@.take(k as int));
    result
}

/// `base` joined with `part` (`Path::join`).
pub fn join(base: &str, part: &str) -> (result: String)
    ensures
        result@ == joined(base@, part@),
{
    let b = chars_of(base);
    let p = chars_of(part);
    if p.len() > 0 && p[0] == '/' {
        copy_str(part)
    } else if b.len() == 0 {
        copy_str(part)
    } else if b[b.len() - 1] == '/' {
        concat(base, part)
    } else {
        let r = concat3(base, "/", part);
        proof {
            reveal_strlit("/");
        }
        r
    }
}

/// The parent directory of a path (`Path::parent`).
pub fn parent(p: &str) -> (result: Option<String>)
    ensures
        result matches Some(r) ==> parent_of(p@) == Some(r@),
        result is None ==> parent_of(p@) is None,
{
    let t = trim(&chars_of(p));
    proof {
        lemma_trimmed_len(p@);
    }
    let k = last_index(&t, '/');
    if t.len() == 0 || (t.len() == 1 && t[0] == '/') {
        assert(t.len() == 1 ==> t@ =~= seq!['/']);
        return None;
    }
    assert(t@ != seq!['/']) by {
        if t@ == seq!['/'] {
            assert(t@.len() == 1 && t@[0] == '/');
        }
    }
    match k {
        None => Some(String::new()),
        Some(k) => {
            if k == 0 {
                let v: Vec<char> = vec!['/'];
                assert(v@ =~= seq!['/']);
                Some(string_of(v.as_slice()))
            } else {
                proof {
                    lemma_last_index_of(t@, '/');
                }
                let head = slice_chars(&t, 0, k);
                assert(head@ =~= t@.take(k as int));
                let r = trim(&head);
                Some(string_of(r.as_slice()))
            }
        },
    }
}

pub proof fn lemma_trimmed_len(p: Seq<char>)
    ensures
        trimmed(p).len() <= p.len(),
    decreases p.len(),
{
    if ends_trimmable(p) {
        lemma_trimmed_len(p.drop_last());
    }
}

/// The last component of a path (`Path::file_name`).
pub fn file_name(p: &str) -> (result: Option<String>)
    ensures
        result matches Some(r) ==> file_name_of(p@) == Some(r@),
        result is None ==> file_name_of(p@) is None,
{
    let t = trim(&chars_of(p));
    proof {
        lemma_trimmed_len(p@);
        lemma_last_index_of(t@, '/');
    }
    let n = t.len();
    let start: usize = match last_index(&t, '/') {
        Some(k) => {
            assert(k < n);
            k + 1
        },
        None => 0,
    };
    let name = slice_chars(&t, start, t.len());
    assert(name@ =~= t@.skip(last_index_of(t@, '/') + 1));
    if name.len() == 0 || (name.len() == 1 && name[0] == '.') || (name.len() == 2 && name[0] == '.' && name[1] == '.') {
        assert(name.len() == 1 ==> name@ =~= seq!['.']);
        assert(name.len() == 2 ==> name@ =~= seq!['.', '.']);
        None
    } else {
        assert(name@ != seq!['.']) by {
            if name@ == seq!['.'] {
                assert(name@.len() == 1 && name@[0] == '.');
            }
        }
        assert(name@ != seq!['.', '.']) by {
            if name@ == seq!['.', '.'] {
                assert(name@.len() == 2 && name@[0] == '.' && name@[1] == '.');
            }
        }
        Some(string_of(name.as_slice()))
    }
}

/// The extension of a path's file name (`Path::extension`).
pub fn extension(p: &str) -> (result: Option<String>)
    ensures
        result matches Some(r) ==> extension_of(p@) == Some(r@),
        result is None ==> extension_of(p@) is None,
{
    match file_name(p) {
        None => None,
        Some(name) => {
            let n = chars_of(name.as_str());
            proof {
                lemma_trimmed_len(p@);
                let t = trimmed(p@);
                lemma_last_index_of(t, '/');
                lemma_last_index_of(n@, '.');
            }
            match last_index(&n, '.') {
                None => None,
                Some(k) => {
                    if k == 0 {
                        None
                    } else {
                        let ext = slice_chars(&n, k + 1, n.len());
                        assert(ext@ =~= n@.skip(k + 1));
                        Some(string_of(ext.as_slice()))
                    }
                },
            }
        },
    }
}

} // verus!
