//! Notifications the bus pushes to the driver at the end of a step.

use vstd::prelude::*;

verus! {

/// An event for the caller-supplied sink.
#[derive(Clone, Copy, Debug, PartialEq, Eq, Structural)]
pub enum Event {
    /// An address registered as a watchpoint was written during the step.
    Watchpoint,
}

} // verus!
