//! What a test's closures are given: the workspace of the run, and what is
//! known of the crash that came before a verification.

use crate::paths::{
    is_absolute, join, join_paths, lemma_join_lies_under, lies_under, starts_at_root,
};
use vstd::prelude::*;

verus! {

/// Why `Env::path` refused a name.
#[derive(Debug, Clone, Copy, PartialEq, Eq, Structural)]
pub enum PathError {
    /// The name is an absolute path, which would leave the workspace.
    Absolute,
}

/// The isolated workspace of one run, as the closures of a test see it.
///
/// It holds the workspace root and does no I/O: creating files and
/// directories below the root is up to the caller.
pub struct Env {
    work_dir: String,
}

impl View for Env {
    type V = Seq<char>;

    /// The workspace root.
    closed spec fn view(&self) -> Seq<char> {
        self.work_dir@
    }
}

impl Env {
    /// An environment whose workspace root is `work_dir`.
    pub fn new(work_dir: String) -> (env: Self)
        ensures
            env@ == work_dir@,
    {
        Env { work_dir }
    }

    /// The workspace root.
    pub fn root(&self) -> (root: &str)
        ensures
            root@ == self@,
    {
        self.work_dir.as_str()
    }

    /// The path of `name` inside the workspace.
    ///
    /// A relative name is joined to the workspace root. An absolute name is
    /// refused, so that every path handed out lies below the root.
    pub fn path(&self, name: &str) -> (path: Result<String, PathError>)
        ensures
            match path {
                Ok(p) => !is_absolute(name@) && p@ == join(self@, name@) && lies_under(p@, self@),
                Err(e) => is_absolute(name@) && e == PathError::Absolute,
            },
    {
        if starts_at_root(name) {
            Err(PathError::Absolute)
        } else {
            proof {
                lemma_join_lies_under(self@, name@);
            }
            Ok(join_paths(self.work_dir.as_str(), name))
        }
    }
}

/// What is known of a crash: at which crash point it came, and under which
/// label.
pub struct CrashInfoView {
    /// The number of the crash point, counted from 1; 0 where it is not
    /// known.
    pub point_id: usize,
    /// The label of the crash point.
    pub label: Seq<char>,
}

/// What a verifier is told of the crash that came before it.
///
/// Labels need not be unique, and a `point_id` changes when crash points are
/// added to or taken out of the workload.
#[derive(Debug)]
#[non_exhaustive]
pub struct CrashInfo {
    /// The crash point at which the run was killed, counted from 1 in the
    /// order in which the workload reached its crash points.
    pub point_id: usize,
    /// The label given to that crash point.
    pub label: String,
}

impl View for CrashInfo {
    type V = CrashInfoView;

    open spec fn view(&self) -> CrashInfoView {
        CrashInfoView { point_id: self.point_id, label: self.label@ }
    }
}

impl DeepView for CrashInfo {
    type V = CrashInfoView;

    open spec fn deep_view(&self) -> CrashInfoView {
        self@
    }
}

impl Clone for CrashInfo {
    fn clone(&self) -> (copy: Self)
        ensures
            copy@ == self@,
    {
        CrashInfo { point_id: self.point_id, label: self.label.clone() }
    }
}

impl CrashInfo {
    /// The crash at crash point `point_id`, which carried `label`.
    pub fn new(point_id: usize, label: String) -> (info: Self)
        ensures
            info@ == (CrashInfoView { point_id, label: label@ }),
    {
        CrashInfo { point_id, label }
    }
}

} // verus!
