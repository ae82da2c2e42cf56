//! Follow-up work an action hands back to the driving loop.
//!
//! Long-running work must not block event processing: an action
//! packages it as a task that re-enters the dispatch path as a
//! discrete completion step applied to the shell.

use vstd::prelude::*;
use crate::shell::CShell;

verus! {

/// A deferred piece of work that completes by being applied to the
/// shell on the driving loop.
pub trait ActionTask: Sized {
    /// Applies the completed work to the shell.
    fn apply(self, shell: &mut CShell);
}

} // verus!
