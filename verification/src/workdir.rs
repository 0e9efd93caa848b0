//! The node's work directory: how the caller's directory options resolve
//! into one concrete directory mode, and what teardown owes each mode.

use crate::errors::Error;
use vstd::prelude::*;

verus! {

/// The kind of data directory the node runs in: persistent and owned by
/// the caller, or temporary and deleted when the node's handle goes away.
/// Exactly one of the two modes is active.
#[derive(Debug, Clone, PartialEq, Eq)]
pub enum DataDir {
    /// Persistent data directory, never deleted by this crate.
    Persistent(String),
    /// Temporary data directory; the owning handle outside this crate
    /// removes it on teardown.  The payload is the directory's path.
    Temporary(String),
}

impl DataDir {
    /// The data directory path, whichever the mode.
    pub open spec fn path_spec(self) -> Seq<char> {
        match self {
            DataDir::Persistent(p) => p@,
            DataDir::Temporary(p) => p@,
        }
    }

    /// Returns the data directory path.
    pub fn path(&self) -> (r: String)
        ensures
            r@ == self.path_spec(),
    {
        match self {
            DataDir::Persistent(p) => p.clone(),
            DataDir::Temporary(p) => p.clone(),
        }
    }
}

/// How the work directory is to be created, resolved from the caller's
/// options before any resource is acquired.
#[derive(Debug, Clone, PartialEq, Eq)]
pub enum WorkDirPlan {
    /// Create a fresh temporary directory under the given base path.
    TemporaryIn(String),
    /// Create a fresh temporary directory under the system default base.
    TemporaryDefault,
    /// Create (if missing) and use the given persistent directory.
    PersistentAt(String),
}

/// Resolves the caller's directory options into one plan.  A temporary
/// base is taken from the configuration or, failing that, from the
/// `TEMPDIR_ROOT` environment value handed in by the caller; asking for a
/// temporary base and a persistent directory at once is refused before
/// any resource is acquired.
pub fn plan_workdir(tmpdir: Option<String>, staticdir: Option<String>, env_tempdir_root: Option<
    String,
>) -> (r: Result<WorkDirPlan, Error>)
    ensures
        ({
            let efftmp = if tmpdir is Some {
                tmpdir
            } else {
                env_tempdir_root
            };
            match (efftmp, staticdir) {
                (Option::Some(_), Option::Some(_)) => r == Err::<WorkDirPlan, Error>(
                    Error::BothDirsSpecified,
                ),
                (Option::Some(t), Option::None) => r matches Ok(p) && p matches
                    WorkDirPlan::TemporaryIn(b) && b@ == t@,
                (Option::None, Option::Some(w)) => r matches Ok(p) && p matches
                    WorkDirPlan::PersistentAt(q) && q@ == w@,
                (Option::None, Option::None) => r == Ok::<WorkDirPlan, Error>(
                    WorkDirPlan::TemporaryDefault,
                ),
            }
        }),
{
    let efftmp = match tmpdir {
        Option::Some(t) => Option::Some(t),
        Option::None => env_tempdir_root,
    };
    match (efftmp, staticdir) {
        (Option::Some(_), Option::Some(_)) => Err(Error::BothDirsSpecified),
        (Option::Some(t), Option::None) => Ok(WorkDirPlan::TemporaryIn(t)),
        (Option::None, Option::Some(w)) => Ok(WorkDirPlan::PersistentAt(w)),
        (Option::None, Option::None) => Ok(WorkDirPlan::TemporaryDefault),
    }
}

/// The two explicit phases of handle teardown: whether a graceful stop is
/// attempted before the unconditional kill, and whether the work
/// directory is removed afterwards.
#[derive(Debug, Clone, Copy, PartialEq, Eq)]
pub struct TeardownPlan {
    /// Attempt a graceful shutdown call, ignoring its result, before the
    /// process is killed.
    pub graceful_stop_first: bool,
    /// The work directory is removed once the process is gone.
    pub remove_directory: bool,
}

/// What teardown owes the work directory: a persistent directory gets a
/// best-effort graceful stop first (so its on-disk state stays reusable)
/// and is never removed; a temporary directory gets no graceful stop and
/// is removed with the handle.
pub fn teardown_plan(work_dir: &DataDir) -> (p: TeardownPlan)
    ensures
        p.graceful_stop_first == work_dir is Persistent,
        p.remove_directory == work_dir is Temporary,
        p.remove_directory == !p.graceful_stop_first,
{
    match work_dir {
        DataDir::Persistent(_) => TeardownPlan { graceful_stop_first: true, remove_directory: false },
        DataDir::Temporary(_) => TeardownPlan { graceful_stop_first: false, remove_directory: true },
    }
}

} // verus!
