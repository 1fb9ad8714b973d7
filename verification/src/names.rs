//! Archive-name handling: deriving an entry name from the final component of
//! a source path, and joining name prefixes for directory walks.
//!
//! A derived name is the last path component, where trailing slashes and `.`
//! components are skipped; derivation fails when nothing remains (an empty
//! path, a root path) or when the final component is `..`.

use vstd::prelude::*;
use vstd::string::StrSliceExecFns;
use vstd::string::StringExecFns;

verus! {

/// True when no character of `s` is a NUL byte.
pub open spec fn nul_free(s: Seq<char>) -> bool {
    forall|i: int| 0 <= i < s.len() ==> s[i] != '\0'
}

/// The index where the final path component of `s` begins: one past the last
/// `/`, or 0 when `s` holds no `/`.
pub open spec fn comp_start(s: Seq<char>) -> int
    decreases s.len(),
{
    if s.len() == 0 {
        0
    } else if s.last() == '/' {
        s.len() as int
    } else {
        comp_start(s.drop_last())
    }
}

/// The name derived from a source path, if any: its last component, skipping
/// trailing slashes and `.` components; `None` for an empty remainder or a
/// final `..` component.
pub open spec fn derived_name_spec(path: Seq<char>) -> Option<Seq<char>>
    decreases path.len(),
{
    if path.len() == 0 {
        None
    } else if path.last() == '/' {
        derived_name_spec(path.drop_last())
    } else {
        let comp = path.subrange(comp_start(path), path.len() as int);
        if comp == seq!['.'] {
            derived_name_spec(path.drop_last())
        } else if comp == seq!['.', '.'] {
            None
        } else {
            Some(comp)
        }
    }
}

/// `comp_start` is the unique boundary: everything from it on is slash-free,
/// and it sits at the start of `s` or right after a slash.
pub proof fn lemma_comp_start_at(s: Seq<char>, start: int)
    requires
        0 <= start <= s.len(),
        forall|j: int| start <= j < s.len() ==> s[j] != '/',
        start == 0 || s[start - 1] == '/',
    ensures
        comp_start(s) == start,
    decreases s.len(),
{
    if s.len() == 0 {
    } else if s.last() == '/' {
        assert(start == s.len());
    } else {
        assert(start < s.len());
        lemma_comp_start_at(s.drop_last(), start);
    }
}

/// Compares two string slices character by character.
pub fn str_eq(a: &str, b: &str) -> (r: bool)
    ensures
        r == (a@ == b@),
{
    let alen = a.unicode_len();
    let blen = b.unicode_len();
    if alen != blen {
        return false;
    }
    let mut i: usize = 0;
    while i < alen
        invariant
            i <= alen,
            alen == a@.len(),
            alen == b@.len(),
            forall|j: int| 0 <= j < i ==> a@[j] == b@[j],
        decreases alen - i,
    {
        if a.get_char(i) != b.get_char(i) {
            return false;
        }
        i = i + 1;
    }
    proof {
        assert(a@ =~= b@);
    }
    true
}

/// Joins an archive-name prefix and a child name with a slash.
pub fn join_name(prefix: &str, child: &str) -> (r: String)
    ensures
        r@ == prefix@ + seq!['/'] + child@,
{
    let mut s = String::from_str(prefix);
    s.append("/");
    s.append(child);
    proof {
        reveal_strlit("/");
        assert("/"@ =~= seq!['/']);
        assert(s@ =~= prefix@ + seq!['/'] + child@);
    }
    s
}

/// Derives an archive name from the final component of `path`, as
/// `derived_name_spec` describes.
pub fn derive_name(path: &str) -> (r: Option<String>)
    ensures
        match r {
            Some(name) => derived_name_spec(path@) == Some(name@),
            None => derived_name_spec(path@) is None,
        },
{
    let mut end: usize = path.unicode_len();
    proof {
        assert(path@.subrange(0, end as int) =~= path@);
    }
    loop
        invariant
            end <= path@.len(),
            derived_name_spec(path@.subrange(0, end as int)) == derived_name_spec(path@),
        decreases end,
    {
        let ghost sub = path@.subrange(0, end as int);
        if end == 0 {
            return None;
        }
        if path.get_char(end - 1) == '/' {
            proof {
                assert(sub.last() == '/');
                assert(sub.drop_last() =~= path@.subrange(0, end - 1));
            }
            end = end - 1;
            continue;
        }
        let mut start: usize = end;
        while start > 0 && path.get_char(start - 1) != '/'
            invariant
                start <= end <= path@.len(),
                forall|j: int| start <= j < end ==> path@[j] != '/',
            decreases start,
        {
            start = start - 1;
        }
        proof {
            assert(forall|j: int| start <= j < sub.len() ==> sub[j] != '/');
            lemma_comp_start_at(sub, start as int);
        }
        let ghost comp = sub.subrange(start as int, end as int);
        if end - start == 1 && path.get_char(start) == '.' {
            proof {
                assert(comp =~= seq!['.']);
                assert(sub.drop_last() =~= path@.subrange(0, end - 1));
            }
            end = end - 1;
            continue;
        }
        if end - start == 2 && path.get_char(start) == '.' && path.get_char(start + 1) == '.' {
            proof {
                assert(comp =~= seq!['.', '.']);
                assert(derived_name_spec(path@) is None);
            }
            return None;
        }
        let name = path.substring_char(start, end);
        proof {
            assert(name@ =~= comp);
            if end - start == 1 {
                assert(comp != seq!['.']) by {
                    assert(seq!['.'][0] == '.');
                }
            } else {
                assert(comp.len() != 1);
                assert(comp != seq!['.']) by {
                    assert(seq!['.'].len() == 1);
                }
            }
            if end - start == 2 {
                assert(comp != seq!['.', '.']) by {
                    assert(seq!['.', '.'][0] == '.');
                    assert(seq!['.', '.'][1] == '.');
                }
            } else {
                assert(comp != seq!['.', '.']) by {
                    assert(seq!['.', '.'].len() == 2);
                }
            }
            assert(derived_name_spec(path@) == Some(comp));
        }
        return Some(name.to_owned());
    }
}

} // verus!
