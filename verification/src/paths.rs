//! Path arithmetic for anchor-based resolution.
//!
//! Paths are plain strings with `/` as the separator. Joining follows
//! ordinary path-join rules: an absolute right-hand side replaces the base,
//! otherwise the two sides are joined with exactly one separator. No
//! normalisation or traversal sanitisation is performed; a relative path
//! containing parent-directory segments may escape its anchor, which is a
//! documented trust boundary (callers control their own templates).

use vstd::prelude::*;
use vstd::string::StrSliceExecFns;
use vstd::string::StringExecFns;

verus! {

/// A path is absolute when it starts with the separator.
pub open spec fn spec_is_absolute(s: Seq<char>) -> bool {
    s.len() > 0 && s[0] == '/'
}

/// The join of `base` and `rel`: `rel` when it is absolute or `base` is
/// empty, otherwise the two sides with exactly one separator between them.
pub open spec fn spec_join(base: Seq<char>, rel: Seq<char>) -> Seq<char> {
    if spec_is_absolute(rel) {
        rel
    } else if base.len() == 0 {
        rel
    } else if base.last() == '/' {
        base + rel
    } else {
        base + seq!['/'] + rel
    }
}

/// Resolution of a possibly-relative path against a root directory: an
/// absolute path stands as it is, a relative one is joined to the root.
pub open spec fn spec_resolve_to_root(path: Seq<char>, root: Seq<char>) -> Seq<char> {
    if spec_is_absolute(path) {
        path
    } else {
        spec_join(root, path)
    }
}

/// `s` without its trailing separators.
pub open spec fn strip_trailing_separators(s: Seq<char>) -> Seq<char>
    decreases s.len(),
{
    if s.len() > 0 && s.last() == '/' {
        strip_trailing_separators(s.drop_last())
    } else {
        s
    }
}

/// `s` without the trailing run of non-separator characters.
pub open spec fn drop_last_component(s: Seq<char>) -> Seq<char>
    decreases s.len(),
{
    if s.len() == 0 {
        s
    } else if s.last() == '/' {
        s
    } else {
        drop_last_component(s.drop_last())
    }
}

/// The parent of a path: the path without its final component and without
/// the separators around it. `None` for an empty path or the root; a
/// single-component relative path has the empty parent; a top-level absolute
/// path has the root as its parent.
pub open spec fn spec_parent(s: Seq<char>) -> Option<Seq<char>> {
    let t = strip_trailing_separators(s);
    if t.len() == 0 {
        None
    } else {
        let p = strip_trailing_separators(drop_last_component(t));
        if p.len() == 0 && t[0] == '/' {
            Some(seq!['/'])
        } else {
            Some(p)
        }
    }
}

pub fn is_absolute_path(s: &str) -> (r: bool)
    ensures
        r == spec_is_absolute(s@),
{
    let n: usize = s.unicode_len();
    if n == 0 {
        false
    } else {
        s.get_char(0) == '/'
    }
}

pub fn join_path(base: &str, rel: &str) -> (r: String)
    ensures
        r@ == spec_join(base@, rel@),
{
    if is_absolute_path(rel) {
        rel.to_owned()
    } else {
        let n: usize = base.unicode_len();
        if n == 0 {
            rel.to_owned()
        } else {
            let mut out = base.to_owned();
            if base.get_char(n - 1) != '/' {
                proof {
                    reveal_strlit("/");
                }
                out.append("/");
                assert(out@ =~= base@ + seq!['/']);
            }
            out.append(rel);
            assert(out@ =~= spec_join(base@, rel@));
            out
        }
    }
}

pub fn resolve_to_root(path: &str, root: &str) -> (r: String)
    ensures
        r@ == spec_resolve_to_root(path@, root@),
{
    if is_absolute_path(path) {
        path.to_owned()
    } else {
        join_path(root, path)
    }
}

pub fn parent_of(s: &str) -> (r: Option<String>)
    ensures
        match r {
            Some(p) => spec_parent(s@) == Some(p@),
            None => spec_parent(s@) == None::<Seq<char>>,
        },
{
    let len: usize = s.unicode_len();
    assert(s@.take(len as int) =~= s@);
    let mut i: usize = len;
    while i > 0 && s.get_char(i - 1) == '/'
        invariant
            i <= len,
            len == s@.len(),
            strip_trailing_separators(s@) == strip_trailing_separators(s@.take(i as int)),
        decreases i,
    {
        assert(s@.take(i as int).drop_last() =~= s@.take(i - 1));
        i = i - 1;
    }
    if i == 0 {
        return None;
    }
    let ghost t = s@.take(i as int);
    assert(strip_trailing_separators(s@) == t);
    let mut j: usize = i;
    while j > 0 && s.get_char(j - 1) != '/'
        invariant
            j <= i,
            i <= len,
            len == s@.len(),
            drop_last_component(t) == drop_last_component(s@.take(j as int)),
        decreases j,
    {
        assert(s@.take(j as int).drop_last() =~= s@.take(j - 1));
        j = j - 1;
    }
    assert(drop_last_component(t) == s@.take(j as int));
    let mut k: usize = j;
    while k > 0 && s.get_char(k - 1) == '/'
        invariant
            k <= j,
            j <= len,
            len == s@.len(),
            strip_trailing_separators(s@.take(j as int)) == strip_trailing_separators(
                s@.take(k as int),
            ),
        decreases k,
    {
        assert(s@.take(k as int).drop_last() =~= s@.take(k - 1));
        k = k - 1;
    }
    assert(strip_trailing_separators(drop_last_component(t)) == s@.take(k as int));
    if k == 0 {
        if s.get_char(0) == '/' {
            let root = String::from_str("/");
            proof {
                reveal_strlit("/");
                assert(root@ =~= seq!['/']);
            }
            Some(root)
        } else {
            Some(String::new())
        }
    } else {
        Some(s.substring_char(0, k).to_owned())
    }
}

} // verus!
