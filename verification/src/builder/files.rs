//! Finding the files a library's build leaves behind that must be deleted:
//! names matched against wildcard patterns, where `*` stands for any text
//! and `?` for any one character.
use vstd::prelude::*;
use crate::paths::{file_name, file_name_of};
use crate::text::{chars_of, views};
use super::library::FileNamed;

verus! {

/// Whether a name matches a wildcard pattern.
pub open spec fn wild_matches(pattern: Seq<char>, name: Seq<char>) -> bool
    decreases pattern.len(), name.len(),
{
    if pattern.len() == 0 {
        name.len() == 0
    } else if pattern[0] == '*' {
        wild_matches(pattern.skip(1), name) || (name.len() > 0 && wild_matches(pattern, name.skip(1)))
    } else {
        name.len() > 0 && (pattern[0] == '?' || pattern[0] == name[0]) && wild_matches(
            pattern.skip(1),
            name.skip(1),
        )
    }
}

/// Whether `name` from position `j` matches `pattern` from position `i`.
fn matches_from(pattern: &Vec<char>, i: usize, name: &Vec<char>, j: usize) -> (result: bool)
    requires
        i <= pattern@.len(),
        j <= name@.len(),
    ensures
        result == wild_matches(pattern@.skip(i as int), name@.skip(j as int)),
    decreases pattern@.len() - i, name@.len() - j,
{
    let ghost p = pattern@.skip(i as int);
    let ghost n = name@.skip(j as int);
    if i == pattern.len() {
        return j == name.len();
    }
    assert(p.skip(1) =~= pattern@.skip(i + 1));
    assert(p[0] == pattern@[i as int]);
    if j < name.len() {
        assert(n.skip(1) =~= name@.skip(j + 1));
        assert(n[0] == name@[j as int]);
    }
    if pattern[i] == '*' {
        if matches_from(pattern, i + 1, name, j) {
            return true;
        }
        if j < name.len() {
            return matches_from(pattern, i, name, j + 1);
        }
        return false;
    }
    if j < name.len() && (pattern[i] == '?' || pattern[i] == name[j]) {
        return matches_from(pattern, i + 1, name, j + 1);
    }
    false
}

/// Whether a name matches a wildcard pattern.
pub fn wildcard_matches(pattern: &str, name: &str) -> (result: bool)
    ensures
        result == wild_matches(pattern@, name@),
{
    let p = chars_of(pattern);
    let n = chars_of(name);
    assert(p@.skip(0) =~= p@);
    assert(n@.skip(0) =~= n@);
    matches_from(&p, 0, &n, 0)
}

/// Whether a file name is one of the files a pattern names.
pub open spec fn named_by(pattern: FileNamed, name: Seq<char>) -> bool
    decreases pattern,
{
    match pattern {
        FileNamed::Wildmatch(w) => wild_matches(w@, name),
        FileNamed::AnyNamed(patterns) => {
            proof {
                assert(decreases_to!(patterns => patterns@));
            }
            any_named(patterns@, name)
        },
    }
}

/// Whether a file name is named by any of the patterns.
pub open spec fn any_named(patterns: Seq<FileNamed>, name: Seq<char>) -> bool
    decreases patterns,
{
    if patterns.len() == 0 {
        false
    } else {
        proof {
            assert(decreases_to!(patterns => patterns[0]));
            assert(decreases_to!(patterns => patterns.skip(1)));
        }
        named_by(patterns[0], name) || any_named(patterns.skip(1), name)
    }
}

impl FileNamed {
    /// Whether a file name is one of the files this pattern names.
    pub fn matches_name(&self, name: &str) -> (result: bool)
        ensures
            result == named_by(*self, name@),
        decreases self,
    {
        match self {
            FileNamed::Wildmatch(w) => wildcard_matches(w.as_str(), name),
            FileNamed::AnyNamed(patterns) => {
                let mut i: usize = 0;
                assert(patterns@.skip(0) =~= patterns@);
                while i < patterns.len()
                    invariant
                        i <= patterns@.len(),
                        *self == FileNamed::AnyNamed(*patterns),
                        any_named(patterns@, name@) == any_named(patterns@.skip(i as int), name@),
                    decreases patterns@.len() - i,
                {
                    assert((*self)->AnyNamed_0 == *patterns);
                    assert(decreases_to!(*self => (*self)->AnyNamed_0));
                    assert(decreases_to!(*patterns => patterns@));
                    assert(decreases_to!(patterns@ => patterns@[i as int]));
                    let ghost rest = patterns@.skip(i as int);
                    assert(rest[0] == patterns@[i as int]);
                    assert(rest.skip(1) =~= patterns@.skip(i + 1));
                    if patterns[i].matches_name(name) {
                        return true;
                    }
                    i = i + 1;
                }
                assert(patterns@.skip(i as int) =~= Seq::<FileNamed>::empty());
                false
            },
        }
    }

    /// The first of the paths whose file name this pattern names.
    pub fn find(&self, paths: &Vec<String>) -> (result: Option<String>)
        ensures
            match result {
                Some(r) => exists|i: int| 0 <= i < paths@.len() && paths@[i]@ == r@ && (match file_name_of(r@) {
                    Some(n) => named_by(*self, n),
                    None => false,
                }) && forall|k: int| 0 <= k < i ==> !(match file_name_of(#[trigger] paths@[k]@) {
                    Some(n) => named_by(*self, n),
                    None => false,
                }),
                None => forall|k: int| 0 <= k < paths@.len() ==> !(match file_name_of(#[trigger] paths@[k]@) {
                    Some(n) => named_by(*self, n),
                    None => false,
                }),
            },
    {
        let mut i: usize = 0;
        while i < paths.len()
            invariant
                i <= paths@.len(),
                forall|k: int| 0 <= k < i ==> !(match file_name_of(#[trigger] paths@[k]@) {
                    Some(n) => named_by(*self, n),
                    None => false,
                }),
            decreases paths@.len() - i,
        {
            match file_name(paths[i].as_str()) {
                Some(n) => {
                    if self.matches_name(n.as_str()) {
                        return Some(paths[i].clone());
                    }
                },
                None => {},
            }
            i = i + 1;
        }
        None
    }
}

} // verus!
