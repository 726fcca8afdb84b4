//! The extension point that is invoked after a table commit succeeds.
use vstd::prelude::*;

use crate::table::Snapshot;

verus! {

/// A hook for each successful commit of a table: once for each commit, not
/// once for each attempt at it.
///
/// A callback decides; whoever commits carries out what it decides on, and
/// where that fails the whole commit fails.
pub trait CommitCallback {
    /// What there may be to do after a commit.
    type Work;

    /// Called once, after `snapshot` has been durably committed: what there is
    /// to do, if anything.
    fn call(&self, snapshot: &Snapshot) -> Option<Self::Work>;

    /// Called where a commit turns out to have succeeded in an earlier
    /// attempt. Of that commit only the identifier is known. There is nothing
    /// to do, unless the callback says otherwise.
    fn retry(&self, _commit_identifier: i64) -> (r: Option<Self::Work>)
        default_ensures
            r is None,
    {
        None
    }
}

} // verus!
