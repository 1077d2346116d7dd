//! What a state change does to the tasks that wait for it.

use vstd::prelude::*;

verus! {

/// Which waiting tasks a state change wakes.
#[derive(Clone, Copy, Debug, PartialEq, Eq, Structural)]
pub enum Wake {
    /// Nobody.
    Nobody,
    /// The task that waited longest.
    One,
    /// Every waiting task.
    Everyone,
}

} // verus!
