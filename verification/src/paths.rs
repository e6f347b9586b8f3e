//! Paths as text, with `/` as the separator.
//!
//! A path is kept as a string and joined by its characters. Nothing here
//! touches the file system.

use crate::text::to_chars;
use vstd::prelude::*;

verus! {

/// Whether `path` starts at the root of the file system.
pub open spec fn is_absolute(path: Seq<char>) -> bool {
    path.len() > 0 && path[0] == '/'
}

/// `dir` written so that a relative path can follow it: with one separator
/// at its end, unless it is empty or ends in one already.
pub open spec fn dir_prefix(dir: Seq<char>) -> Seq<char> {
    if dir.len() == 0 || dir.last() == '/' {
        dir
    } else {
        dir.push('/')
    }
}

/// The path `name` as seen from the directory `dir`: `name` itself where it
/// is absolute, else `dir`, a separator and `name`.
pub open spec fn join(dir: Seq<char>, name: Seq<char>) -> Seq<char> {
    if is_absolute(name) {
        name
    } else {
        dir_prefix(dir) + name
    }
}

/// Whether `path` is spelled as a path below the directory `dir`.
pub open spec fn lies_under(path: Seq<char>, dir: Seq<char>) -> bool {
    dir_prefix(dir).is_prefix_of(path)
}

/// Whether `name` has no separator in it, so that it names one entry of a
/// directory.
pub open spec fn is_component(name: Seq<char>) -> bool {
    name.len() > 0 && forall|i: int| 0 <= i < name.len() ==> #[trigger] name[i] != '/'
}

/// Whether `name` is an absolute path.
pub fn starts_at_root(name: &str) -> (b: bool)
    ensures
        b == is_absolute(name@),
{
    let chars = to_chars(name);
    chars.len() > 0 && chars[0] == '/'
}

/// Joins `name` to the directory `dir`.
pub fn join_paths(dir: &str, name: &str) -> (path: String)
    ensures
        path@ == join(dir@, name@),
{
    if starts_at_root(name) {
        return String::from_str(name);
    }
    let chars = to_chars(dir);
    let mut path = String::from_str(dir);
    if chars.len() > 0 && chars[chars.len() - 1] != '/' {
        path.push('/');
    }
    path.append(name);
    path
}

/// A path that lies under a directory lies under every directory that the
/// directory lies under.
pub proof fn lemma_lies_under_transitive(path: Seq<char>, inner: Seq<char>, outer: Seq<char>)
    requires
        lies_under(path, inner),
        lies_under(inner, outer),
    ensures
        lies_under(path, outer),
{
    let a = dir_prefix(outer);
    let b = dir_prefix(inner);
    assert(forall|i: int| 0 <= i < a.len() ==> inner[i] == inner.subrange(0, a.len() as int)[i]);
    assert(forall|i: int| 0 <= i < b.len() ==> path[i] == path.subrange(0, b.len() as int)[i]);
    assert(forall|i: int| 0 <= i < inner.len() ==> b[i] == inner[i]);
    assert(a =~= path.subrange(0, a.len() as int));
}

/// Joining a relative name to a directory gives a path under that
/// directory.
pub proof fn lemma_join_lies_under(dir: Seq<char>, name: Seq<char>)
    requires
        !is_absolute(name),
    ensures
        lies_under(join(dir, name), dir),
{
    let p = dir_prefix(dir);
    assert(p =~= (p + name).subrange(0, p.len() as int));
}

/// No path lies under two entries of one directory that have different
/// names.
pub proof fn lemma_siblings_apart(parent: Seq<char>, a: Seq<char>, b: Seq<char>, path: Seq<char>)
    requires
        is_component(a),
        is_component(b),
        a != b,
    ensures
        !(lies_under(path, parent + a) && lies_under(path, parent + b)),
{
    let da = dir_prefix(parent + a);
    let db = dir_prefix(parent + b);
    assert((parent + a).last() == a.last());
    assert((parent + b).last() == b.last());
    assert(da =~= parent + a + seq!['/']);
    assert(db =~= parent + b + seq!['/']);
    if lies_under(path, parent + a) && lies_under(path, parent + b) {
        let n = parent.len() as int;
        assert(forall|i: int| 0 <= i < da.len() ==> path[i] == path.subrange(0, da.len() as int)[i]);
        assert(forall|i: int| 0 <= i < db.len() ==> path[i] == path.subrange(0, db.len() as int)[i]);
        assert(forall|i: int| 0 <= i < a.len() ==> path[n + i] == a[i]) by {
            assert(forall|i: int| 0 <= i < a.len() ==> da[n + i] == a[i]);
        }
        assert(forall|i: int| 0 <= i < b.len() ==> path[n + i] == b[i]) by {
            assert(forall|i: int| 0 <= i < b.len() ==> db[n + i] == b[i]);
        }
        assert(path[n + a.len()] == '/') by {
            assert(da[n + a.len()] == '/');
        }
        assert(path[n + b.len()] == '/') by {
            assert(db[n + b.len()] == '/');
        }
        if a.len() < b.len() {
            assert(b[a.len() as int] == '/');
        } else if b.len() < a.len() {
            assert(a[b.len() as int] == '/');
        } else {
            assert(a =~= b);
        }
    }
}

} // verus!
