//! The state that all wrapped tasks of one process share.

use crate::absolute_time::AbsoluteTimeBridge;
use crate::identity::IdAllocator;
use vstd::prelude::*;

verus! {

/// The two pieces of state that the tasks of one process share: the counter
/// behind the task numbers, and the calibration of the clocks.
#[derive(Debug)]
pub struct Diagnostics {
    pub ids: IdAllocator,
    pub bridge: AbsoluteTimeBridge,
}

impl Diagnostics {
    /// The state of a process that has wrapped no task yet: the counter at
    /// zero, the clocks not calibrated.
    pub fn new() -> (state: Self)
        ensures
            state.ids.next_id() == 0,
            state.bridge.calibration() is None,
    {
        Diagnostics { ids: IdAllocator::new(), bridge: AbsoluteTimeBridge::new() }
    }
}

} // verus!
