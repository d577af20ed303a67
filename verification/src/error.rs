//! The error taxonomy used across the HAL. Each variant is raised by the
//! driver named in the comment beside it.

use vstd::prelude::*;

verus! {

/// Errors raised by the HAL drivers. Contention errors (`ChannelBusy`,
/// `AcquisitionFailed`) are routine and recoverable; `ReleaseFailed` signals
/// a protocol violation; the flag errors are semaphore precondition
/// violations; the clock errors come from the FLL start-up sequence.
#[derive(Clone, Copy, Debug, PartialEq, Eq, Structural)]
pub enum Error {
    // IPC channel errors.
    AcquisitionFailed,
    ReleaseFailed,
    SendFailed,
    ReceiveFailed,
    ChannelBusy,
    // Semaphore errors.
    FlagUnknown,
    FlagLocked,
    FlagCannotBeClearedIsNotSet,
    AttemptingToClearUnknownFlag,
    AttemptingToSetUnknownFlag,
    // System clock errors.
    NoError,
    UnknownLfClkSource,
    UnknownPathSource,
    FllCouldNotBeConfigured,
    FllCouldNotBeStarted,
    FllStartupCouldNotBeCompletedBeforeTimeout,
    FllStartupFailedCcoNotReady,
    FllStartupFailedFllCouldNotBeLocked,
    // GPIO errors.
    AttemptingToSetUnknownInterrupt,
    // CPU subsystem errors.
    VectorTableBaseAddressIncludesReservedRange,
}

} // verus!
