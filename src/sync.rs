//! The team sync command, of which only the choice of direction exists yet.

use vstd::prelude::*;

verus! {

/// What the sync command reports.
#[derive(Clone, Copy, Debug, PartialEq, Eq, Structural)]
pub enum SyncNotice {
    /// Neither direction was asked for: the two options are explained.
    ChooseDirection,
    /// The directions asked for, neither of which is available yet.
    NotYetAvailable { pull: bool, push: bool },
}

/// Decides the sync command from the directions asked for.
pub fn run(pull: bool, push: bool) -> (r: SyncNotice)
    ensures
        !pull && !push ==> r == SyncNotice::ChooseDirection,
        pull || push ==> r == (SyncNotice::NotYetAvailable { pull, push }),
{
    if !pull && !push {
        SyncNotice::ChooseDirection
    } else {
        SyncNotice::NotYetAvailable { pull, push }
    }
}

} // verus!
