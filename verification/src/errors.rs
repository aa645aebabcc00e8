//! How xHCI bring-up fails.  Failures are fatal only to USB bring-up: the
//! caller logs one line and boots on without USB unless it escalates.

use vstd::prelude::*;

verus! {

/// Typed failures of the host-controller bring-up.
#[derive(Debug, Copy, Clone, Eq, PartialEq, Structural)]
pub enum XhciError {
    /// The controller carries no extended-capability list, or the list holds
    /// no USB legacy-support record: the ownership handoff cannot run.
    UnsupportedController,
    /// Firmware never released the controller within the polling budget.
    HandoffTimeout,
    /// The controller never reported halted within the polling budget.
    HaltTimeout,
    /// The controller never became ready after reset within the polling
    /// budget.
    ResetTimeout,
    /// A ring pointer violated its required alignment.
    MisalignedPointer,
}

} // verus!
