//! Where a test invocation keeps its files.
//!
//! Every invocation has a base directory of its own under the system's
//! temporary directory, named after the supervisor's process id and a fresh
//! identifier:
//!
//! ```text
//! <tmp>/first/first-<pid>-<uuid>/run_<N>/
//! ```
//!
//! Below it, every crash target `N` has a leaf directory `run_<N>`, which is
//! the workspace of the children that run under that target. Nothing is
//! created here: these functions only spell the paths.

use crate::paths::{
    dir_prefix, is_absolute, is_component, join, join_paths, lemma_join_lies_under,
    lemma_lies_under_transitive, lemma_siblings_apart, lies_under,
};
use crate::text::{
    decimal, is_digit, lemma_decimal_injective, lemma_decimal_round_trip, push_decimal,
};
use vstd::prelude::*;

verus! {

/// Whether `c` is a digit of a lowercase hexadecimal numeral.
pub open spec fn is_hex_digit(c: char) -> bool {
    ('0' <= c <= '9') || ('a' <= c <= 'f')
}

/// Whether `id` is spelled as a random (version 4) UUID in its usual form:
/// 32 lowercase hexadecimal digits in groups of 8, 4, 4, 4 and 12 with a
/// hyphen between the groups, the third group beginning with `4` and the
/// fourth with `8`, `9`, `a` or `b`.
pub open spec fn is_run_id(id: Seq<char>) -> bool {
    &&& id.len() == 36
    &&& forall|i: int|
        0 <= i < 36 ==> if i == 8 || i == 13 || i == 18 || i == 23 {
            #[trigger] id[i] == '-'
        } else {
            is_hex_digit(id[i])
        }
    &&& id[14] == '4'
    &&& (id[19] == '8' || id[19] == '9' || id[19] == 'a' || id[19] == 'b')
}

/// The name of the base directory of the invocation that the process `pid`
/// supervises under the identifier `id`.
pub open spec fn run_name(pid: u32, id: Seq<char>) -> Seq<char> {
    "first-"@ + decimal(pid as nat) + "-"@ + id
}

/// The directory, below the temporary directory `tmp`, that holds the base
/// directories of all invocations.
pub open spec fn shared_root(tmp: Seq<char>) -> Seq<char> {
    join(tmp, "first"@)
}

/// The base directory of the invocation that the process `pid` supervises
/// under the identifier `id`.
pub open spec fn base_dir_of(tmp: Seq<char>, pid: u32, id: Seq<char>) -> Seq<char> {
    join(shared_root(tmp), run_name(pid, id))
}

/// The name of the leaf directory of the crash target `target`.
pub open spec fn leaf_name(target: usize) -> Seq<char> {
    "run_"@ + decimal(target as nat)
}

/// The leaf directory of the crash target `target` below `base`.
pub open spec fn leaf_of(base: Seq<char>, target: usize) -> Seq<char> {
    join(base, leaf_name(target))
}

/// The workspace of a child that was not told of one.
pub open spec fn default_work_dir(tmp: Seq<char>) -> Seq<char> {
    join(shared_root(tmp), "default"@)
}

/// The workspace that the value of `FIRST_WORK_DIR` names; without a value,
/// the default workspace below the temporary directory `tmp`.
pub open spec fn work_dir_of(var: Option<Seq<char>>, tmp: Seq<char>) -> Seq<char> {
    match var {
        Some(dir) => dir,
        None => default_work_dir(tmp),
    }
}

/// A fresh identifier from `uuid::Uuid::new_v4`, in the hyphenated lowercase
/// form that `Uuid::hyphenated` writes.
///
/// Trusted: that the text has the form of a version 4 UUID. Nothing is
/// claimed of which identifier comes back: it is drawn from the operating
/// system's random numbers, and two calls may give any two values. The call
/// panics where the operating system cannot supply random bytes.
#[verifier::external_body]
fn fresh_run_id() -> (id: String)
    ensures
        is_run_id(id@),
{
    uuid::Uuid::new_v4().hyphenated().to_string()
}

/// The base directory of the invocation that the process `pid` supervises
/// under the identifier `run_id`, below the temporary directory `tmp`.
pub fn base_dir(tmp: &str, pid: u32, run_id: &str) -> (base: String)
    ensures
        base@ == base_dir_of(tmp@, pid, run_id@),
{
    let root = join_paths(tmp, "first");
    let mut name = String::from_str("first-");
    push_decimal(&mut name, pid as u64);
    name.append("-");
    name.append(run_id);
    join_paths(root.as_str(), name.as_str())
}

/// A base directory for a new invocation that the process `pid`
/// supervises: `<tmp>/first/first-<pid>-<uuid>` with a fresh random UUID.
///
/// The directory is not created.
pub fn allocate_base(tmp: &str, pid: u32) -> (base: String)
    ensures
        exists|id: Seq<char>| is_run_id(id) && base@ == #[trigger] base_dir_of(tmp@, pid, id),
{
    let id = fresh_run_id();
    base_dir(tmp, pid, id.as_str())
}

/// The workspace of a child whose environment holds `var` as
/// `FIRST_WORK_DIR`: the value as it stands, or `<tmp>/first/default` where
/// there is none.
pub fn work_dir(var: Option<&str>, tmp: &str) -> (dir: String)
    ensures
        dir@ == work_dir_of(var.deep_view(), tmp@),
{
    match var {
        Some(dir) => String::from_str(dir),
        None => {
            let root = join_paths(tmp, "first");
            join_paths(root.as_str(), "default")
        },
    }
}

/// The leaf directory `<base>/run_<target>`.
pub fn leaf(base: &str, target: usize) -> (dir: String)
    ensures
        dir@ == leaf_of(base@, target),
{
    let mut name = String::from_str("run_");
    push_decimal(&mut name, target as u64);
    join_paths(base, name.as_str())
}

/// The name of a base directory has no separator in it.
pub proof fn lemma_run_name_is_component(pid: u32, id: Seq<char>)
    requires
        is_run_id(id),
    ensures
        is_component(run_name(pid, id)),
        !is_absolute(run_name(pid, id)),
{
    reveal_strlit("first-");
    reveal_strlit("-");
    lemma_decimal_round_trip(pid as nat);
    let digits = decimal(pid as nat);
    let name = run_name(pid, id);
    let d = digits.len() as int;
    assert forall|i: int| 0 <= i < name.len() implies #[trigger] name[i] != '/' by {
        if i < 6 {
        } else if i < 6 + d {
            assert(is_digit(digits[i - 6]));
        } else if i == 6 + d {
        } else {
            let k = i - 7 - d;
            assert(name[i] == id[k]);
            assert(id[k] == '-' || is_hex_digit(id[k]));
        }
    }
    assert(name[0] == 'f');
}

/// Two invocations have the same base directory name only where the
/// process id and the identifier are the same.
pub proof fn lemma_run_name_injective(pid_a: u32, id_a: Seq<char>, pid_b: u32, id_b: Seq<char>)
    requires
        is_run_id(id_a),
        is_run_id(id_b),
        run_name(pid_a, id_a) == run_name(pid_b, id_b),
    ensures
        pid_a == pid_b,
        id_a == id_b,
{
    reveal_strlit("first-");
    reveal_strlit("-");
    let da = decimal(pid_a as nat);
    let db = decimal(pid_b as nat);
    let name = run_name(pid_a, id_a);
    assert(name.len() == 6 + da.len() + 1 + 36);
    assert(name.len() == 6 + db.len() + 1 + 36);
    let d = da.len() as int;
    assert(da =~= name.subrange(6, 6 + d));
    assert(db =~= name.subrange(6, 6 + d));
    assert(id_a =~= name.subrange(7 + d, 43 + d));
    assert(id_b =~= name.subrange(7 + d, 43 + d));
    lemma_decimal_injective(pid_a as nat, pid_b as nat);
}

/// The base directories of two invocations that differ in the process id
/// or in the identifier are apart: no path lies under both.
pub proof fn lemma_bases_apart(
    tmp: Seq<char>,
    pid_a: u32,
    id_a: Seq<char>,
    pid_b: u32,
    id_b: Seq<char>,
    path: Seq<char>,
)
    requires
        is_run_id(id_a),
        is_run_id(id_b),
        pid_a != pid_b || id_a != id_b,
    ensures
        !(lies_under(path, base_dir_of(tmp, pid_a, id_a)) && lies_under(
            path,
            base_dir_of(tmp, pid_b, id_b),
        )),
{
    let parent = dir_prefix(shared_root(tmp));
    let a = run_name(pid_a, id_a);
    let b = run_name(pid_b, id_b);
    lemma_run_name_is_component(pid_a, id_a);
    lemma_run_name_is_component(pid_b, id_b);
    if a == b {
        lemma_run_name_injective(pid_a, id_a, pid_b, id_b);
    }
    lemma_siblings_apart(parent, a, b, path);
}

/// Workspace isolation. Take two invocations that differ in the process id
/// or in the identifier, any crash target of each, and any relative name
/// handed to the `Env` of each. The two paths that come back differ, each
/// lies under the base directory of its own invocation, and neither lies
/// under the base directory of the other.
pub proof fn lemma_workspace_isolation(
    tmp: Seq<char>,
    pid_a: u32,
    id_a: Seq<char>,
    target_a: usize,
    name_a: Seq<char>,
    pid_b: u32,
    id_b: Seq<char>,
    target_b: usize,
    name_b: Seq<char>,
)
    requires
        is_run_id(id_a),
        is_run_id(id_b),
        pid_a != pid_b || id_a != id_b,
        !is_absolute(name_a),
        !is_absolute(name_b),
    ensures
        ({
            let base_a = base_dir_of(tmp, pid_a, id_a);
            let base_b = base_dir_of(tmp, pid_b, id_b);
            let path_a = join(leaf_of(base_a, target_a), name_a);
            let path_b = join(leaf_of(base_b, target_b), name_b);
            &&& path_a != path_b
            &&& lies_under(path_a, base_a)
            &&& lies_under(path_b, base_b)
            &&& !lies_under(path_a, base_b)
            &&& !lies_under(path_b, base_a)
        }),
{
    let base_a = base_dir_of(tmp, pid_a, id_a);
    let base_b = base_dir_of(tmp, pid_b, id_b);
    let leaf_a = leaf_of(base_a, target_a);
    let leaf_b = leaf_of(base_b, target_b);
    let path_a = join(leaf_a, name_a);
    let path_b = join(leaf_b, name_b);
    reveal_strlit("run_");
    assert(!is_absolute(leaf_name(target_a)));
    assert(!is_absolute(leaf_name(target_b)));
    lemma_join_lies_under(base_a, leaf_name(target_a));
    lemma_join_lies_under(base_b, leaf_name(target_b));
    lemma_join_lies_under(leaf_a, name_a);
    lemma_join_lies_under(leaf_b, name_b);
    lemma_lies_under_transitive(path_a, leaf_a, base_a);
    lemma_lies_under_transitive(path_b, leaf_b, base_b);
    lemma_bases_apart(tmp, pid_a, id_a, pid_b, id_b, path_a);
    lemma_bases_apart(tmp, pid_a, id_a, pid_b, id_b, path_b);
}

} // verus!
