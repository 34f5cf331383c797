//! Object-path and string logic.
//!
//! An object path is an absolute hierarchical string identifier such as
//! `/org/bluez/hci0/dev_AA_BB`.  Equality is exact string equality; "is
//! under" is a prefix test against a root normalized to end with the path
//! separator; the parent of a path is everything before its last separator.

use vstd::prelude::*;

verus! {

/// Whether `s` begins with `prefix`, character for character.
pub open spec fn starts_with(s: Seq<char>, prefix: Seq<char>) -> bool {
    prefix.len() <= s.len() && s.subrange(0, prefix.len() as int) == prefix
}

/// Compares two strings for exact equality of content.
pub fn str_eq(a: &str, b: &str) -> (r: bool)
    ensures
        r == (a@ == b@),
{
    let alen = a.unicode_len();
    let blen = b.unicode_len();
    if alen != blen {
        assert(a@ =~= b@ ==> a@.len() == b@.len());
        return false;
    }
    let mut i: usize = 0;
    while i < alen
        invariant
            i <= alen,
            alen == a@.len(),
            alen == b@.len(),
            forall|j: int| 0 <= j < i ==> a@[j] == b@[j],
        decreases alen - i,
    {
        if a.get_char(i) != b.get_char(i) {
            assert(a@ != b@);
            return false;
        }
        i = i + 1;
    }
    assert(a@ =~= b@);
    true
}

/// Whether `s` begins with `prefix`, character for character.
pub fn str_starts_with(s: &str, prefix: &str) -> (r: bool)
    ensures
        r == starts_with(s@, prefix@),
{
    let slen = s.unicode_len();
    let plen = prefix.unicode_len();
    if plen > slen {
        return false;
    }
    let mut i: usize = 0;
    while i < plen
        invariant
            i <= plen,
            plen <= slen,
            slen == s@.len(),
            plen == prefix@.len(),
            forall|j: int| 0 <= j < i ==> s@[j] == prefix@[j],
        decreases plen - i,
    {
        if s.get_char(i) != prefix.get_char(i) {
            assert(s@.subrange(0, plen as int)[i as int] != prefix@[i as int]);
            return false;
        }
        i = i + 1;
    }
    assert(s@.subrange(0, plen as int) =~= prefix@);
    true
}

/// A root path normalized so that it ends with the separator: the path
/// itself when it already does, otherwise the path with `/` appended.
pub open spec fn normalized_root(root: Seq<char>) -> Seq<char> {
    if root.len() > 0 && root[root.len() - 1] == '/' {
        root
    } else {
        root.push('/')
    }
}

/// Appends the path separator to `root` unless it already ends with one.
pub fn normalize_root(root: &str) -> (r: String)
    ensures
        r@ == normalized_root(root@),
{
    let len = root.unicode_len();
    if len > 0 && root.get_char(len - 1) == '/' {
        root.to_owned()
    } else {
        let r = root.to_owned().concat("/");
        proof {
            reveal_strlit("/");
            assert(r@ =~= root@.push('/'));
        }
        r
    }
}

/// The content of `path` before its last separator: the parent object
/// path of a child path, or `path` unchanged when it holds no separator.
pub open spec fn parent_path(path: Seq<char>) -> Seq<char> {
    if exists|i: int| 0 <= i < path.len() && path[i] == '/' {
        path.subrange(0, last_separator(path))
    } else {
        path
    }
}

/// The index of the last separator of `path`; meaningful only when one exists.
pub open spec fn last_separator(path: Seq<char>) -> int {
    choose|i: int| 0 <= i < path.len() && path[i] == '/' && (forall|j: int|
        i < j < path.len() ==> path[j] != '/')
}

/// Takes the portion of `path` before its last `/`, or all of `path` when
/// it holds none.
pub fn parent_object_path(path: &str) -> (r: String)
    ensures
        r@ == parent_path(path@),
{
    let len = path.unicode_len();
    let mut i: usize = len;
    while i > 0
        invariant
            i <= len,
            len == path@.len(),
            forall|j: int| i <= j < len ==> path@[j] != '/',
        decreases i,
    {
        if path.get_char(i - 1) == '/' {
            let r = path.substring_char(0, i - 1).to_owned();
            proof {
                let k = i - 1 as int;
                assert(0 <= k < path@.len() && path@[k] == '/' && (forall|j: int|
                    k < j < path@.len() ==> path@[j] != '/'));
                let c = last_separator(path@);
                assert(path@[c] == '/');
                assert(c == k) by {
                    if c < k {
                        assert(path@[k] != '/');
                    }
                    if c > k {
                        assert(path@[c] != '/');
                    }
                }
            }
            return r;
        }
        i = i - 1;
    }
    assert(forall|j: int| 0 <= j < path@.len() ==> path@[j] != '/');
    path.to_owned()
}

} // verus!
