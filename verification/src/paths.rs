//! File paths, as far as the library reasons about them.
//!
//! Paths are handled as strings. Splitting one into parts follows the
//! platform's rules (`std::path::Path`), which differ between systems — on
//! Windows `\` separates components and `C:` starts a drive prefix,
//! elsewhere they don't. The contracts say exactly what the parts are for
//! plain relative paths (components joined by `/`), where every platform
//! agrees, and only what holds everywhere for the rest.

use vstd::prelude::*;

use crate::text::has_char;

verus! {

/// The position of the last `c` in `s`, or -1.
pub open spec fn last_index_of(s: Seq<char>, c: char) -> int
    decreases s.len(),
{
    if s.len() == 0 {
        -1
    } else if s.last() == c {
        s.len() - 1
    } else {
        last_index_of(s.drop_last(), c)
    }
}

pub proof fn lemma_last_index_of(s: Seq<char>, c: char)
    ensures
        -1 <= last_index_of(s, c) < s.len(),
        last_index_of(s, c) >= 0 ==> s[last_index_of(s, c)] == c,
        forall|k: int| last_index_of(s, c) < k < s.len() ==> s[k] != c,
    decreases s.len(),
{
    if s.len() > 0 && s.last() != c {
        lemma_last_index_of(s.drop_last(), c);
        assert forall|k: int| last_index_of(s, c) < k < s.len() implies s[k] != c by {
            if k < s.len() - 1 {
                assert(s[k] == s.drop_last()[k]);
            }
        }
    }
}

/// A relative path of plain components joined by `/`: not empty, no `\`
/// or `:` (which Windows reads as a separator or a drive prefix), no empty
/// component (no leading, trailing or doubled `/`), and no component
/// starting with `.` (so none is `.` or `..`). Every platform splits such a
/// path the same way.
pub open spec fn plain_path(s: Seq<char>) -> bool {
    &&& s.len() > 0
    &&& s[0] != '/' && s[0] != '.'
    &&& s.last() != '/'
    &&& forall|i: int| 0 <= i < s.len() ==> #[trigger] s[i] != '\\' && s[i] != ':'
    &&& forall|i: int| 0 <= i < s.len() - 1 && #[trigger] s[i] == '/' ==> s[i + 1] != '/' && s[i + 1] != '.'
}

/// Everything before the last `/` (empty when there is none).
pub open spec fn parent_of(s: Seq<char>) -> Seq<char> {
    let k = last_index_of(s, '/');
    if k < 0 {
        Seq::empty()
    } else {
        s.take(k)
    }
}

/// Everything after the last `/`.
pub open spec fn file_name_of(s: Seq<char>) -> Seq<char> {
    s.skip(last_index_of(s, '/') + 1)
}

/// What follows the last `.` of the file name, if it has one.
pub open spec fn extension_of(s: Seq<char>) -> Option<Seq<char>> {
    let f = file_name_of(s);
    let k = last_index_of(f, '.');
    if k < 0 {
        None
    } else {
        Some(f.skip(k + 1))
    }
}

/// A string's characters, if there is one.
pub open spec fn opt_chars(o: Option<String>) -> Option<Seq<char>> {
    match o {
        Some(s) => Some(s@),
        None => None,
    }
}

/// The folder part of a plain path with a folder is a plain path too.
pub proof fn lemma_parent_is_plain(s: Seq<char>)
    requires
        plain_path(s),
        parent_of(s).len() > 0,
    ensures
        plain_path(parent_of(s)),
{
    lemma_last_index_of(s, '/');
    let k = last_index_of(s, '/');
    let p = parent_of(s);
    assert(k > 0);
    assert(p.last() == s[k - 1]);
    if s[k - 1] == '/' {
        assert(s[k - 1 + 1] != '/');
    }
    assert forall|i: int| 0 <= i < p.len() implies #[trigger] p[i] != '\\' && p[i] != ':' by {
        assert(p[i] == s[i]);
    }
    assert forall|i: int| 0 <= i < p.len() - 1 && #[trigger] p[i] == '/' implies p[i + 1] != '/' && p[i + 1] != '.' by {
        assert(p[i] == s[i] && p[i + 1] == s[i + 1]);
    }
}


/// An absolute path of plain components: `/` and then a plain relative path
/// (so no `\\`, no `:` and no leading `//`). Unix and Windows split such a
/// path the same way.
pub open spec fn rooted_path(s: Seq<char>) -> bool {
    s.len() > 1 && s[0] == '/' && plain_path(s.skip(1))
}

/// The folder of a rooted path: everything before its last `/`, or the
/// root `/` itself for a single component (`/foo` → `/`, `/foo/bar` → `/foo`).
pub open spec fn rooted_parent(s: Seq<char>) -> Seq<char> {
    let k = last_index_of(s, '/');
    if k <= 0 {
        "/"@
    } else {
        s.take(k)
    }
}

/// The folder of a rooted path below the root is a rooted path too.
pub proof fn lemma_rooted_parent_is_rooted(s: Seq<char>)
    requires
        rooted_path(s),
        last_index_of(s, '/') > 0,
    ensures
        rooted_path(rooted_parent(s)),
{
    lemma_last_index_of(s, '/');
    let k = last_index_of(s, '/');
    let r = s.skip(1);
    let t = s.take(k);
    let u = t.skip(1);
    assert(s[1] == r[0]);
    assert(k >= 2);
    assert(u.len() == k - 1);
    assert forall|i: int| 0 <= i < u.len() implies u[i] == r[i] by {}
    assert(u[0] == r[0]);
    assert(u.last() == r[k - 2]);
    if r[k - 2] == '/' {
        assert(r[k - 2 + 1] == s[k]);
        assert(r[k - 2 + 1] != '/');
    }
    assert forall|i: int| 0 <= i < u.len() implies #[trigger] u[i] != '\\' && u[i] != ':' by {
        assert(u[i] == r[i]);
    }
    assert forall|i: int| 0 <= i < u.len() - 1 && #[trigger] u[i] == '/' implies u[i + 1] != '/' && u[i + 1] != '.' by {
        assert(u[i] == r[i] && u[i + 1] == r[i + 1]);
    }
    assert(rooted_parent(s) == t);
}

/// `Path::parent`: the path without its final component.
///
/// Claimed: an empty path has no parent (the documentation: "Returns `None`
/// if the path terminates in a root or prefix, or if it's the empty
/// string"); a plain relative path's parent is everything before its last
/// `/`, and the empty path for a single component (the documentation's
/// `Path::new("foo").parent()` is `Some(Path::new(""))`); a rooted path's
/// parent is everything before its last `/`, or `/` for a single component
/// (the documentation: `/foo/bar` → `/foo`, `/foo` → `/`). For other paths
/// the parent depends on the platform's separators and is left unsaid.
#[verifier::external_body]
pub(crate) fn path_parent(path: &str) -> (r: Option<String>)
    ensures
        path@.len() == 0 ==> r is None,
        plain_path(path@) ==> opt_chars(r) == Some(parent_of(path@)),
        rooted_path(path@) ==> opt_chars(r) == Some(rooted_parent(path@)),
{
    std::path::Path::new(path).parent().map(|p| p.to_string_lossy().to_string())
}

/// `Path::file_name`: the final component, if it is a normal one.
///
/// Claimed: an empty path and the root `/` have no file name (neither ends
/// in a normal component), and a plain relative or rooted path's file name
/// is its last component, everything after its last `/`. For other paths it
/// depends on the platform's separators and is left unsaid.
#[verifier::external_body]
pub(crate) fn path_file_name(path: &str) -> (r: Option<String>)
    ensures
        path@.len() == 0 ==> r is None,
        path@ == "/"@ ==> r is None,
        plain_path(path@) ==> opt_chars(r) == Some(file_name_of(path@)),
        rooted_path(path@) ==> opt_chars(r) == Some(file_name_of(path@)),
{
    std::path::Path::new(path).file_name().map(|n| n.to_string_lossy().to_string())
}

/// `Path::extension`: what follows the last `.` of the file name.
///
/// Claimed: an empty path has no extension (it has no file name), and a
/// path without any `.` has none (the documentation: `None` "if there is no
/// embedded `.`"), and for a plain relative path it is what follows the
/// last `.` of the last component, when there is one (that component never
/// starts with `.`); the same for a rooted path. For other paths it depends on the platform's
/// separators and is left unsaid.
#[verifier::external_body]
pub(crate) fn path_extension(path: &str) -> (r: Option<String>)
    ensures
        path@.len() == 0 ==> r is None,
        !has_char(path@, '.') ==> r is None,
        plain_path(path@) ==> opt_chars(r) == extension_of(path@),
        rooted_path(path@) ==> opt_chars(r) == extension_of(path@),
{
    std::path::Path::new(path).extension().map(|e| e.to_string_lossy().to_string())
}

} // verus!
