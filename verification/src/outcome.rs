//! The typed outcome of a host function called from inside a guest call.
//!
//! An imported host function may either hand a value back to the guest and
//! let it continue, or deliberately halt the guest call. The halt is a
//! visible, typed result — not unwinding — and it surfaces to the host
//! caller as a `HostAbort` error: the guest's remaining instructions,
//! including its own declared return value, are skipped. A single call
//! thus ends in one of three terminal states: completed with a value,
//! trapped with the engine's diagnostic, or aborted by the host; this
//! crate carries the last two as the `Trap` and `HostAbort` errors.
use vstd::prelude::*;

use crate::errors::BoundaryError;

verus! {

/// What an imported host function tells the boundary after it ran: hand
/// this value to the guest and continue, or halt the guest call now for
/// this reason.
#[derive(Debug)]
pub enum HostOutcome {
    Continue(i32),
    Abort(String),
}

/// Turns a host function's outcome into what the guest call sees: the
/// value on `Continue`, and the terminal `HostAbort` error on `Abort` —
/// the early-exit contract of the boundary.
pub fn absorb_host_outcome(outcome: HostOutcome) -> (r: Result<i32, BoundaryError>)
    ensures
        outcome matches HostOutcome::Continue(v) ==> r == Ok::<i32, BoundaryError>(v),
        outcome matches HostOutcome::Abort(reason) ==> r == Err::<i32, BoundaryError>(
            BoundaryError::HostAbort { reason },
        ),
{
    match outcome {
        HostOutcome::Continue(v) => Ok(v),
        HostOutcome::Abort(reason) => Err(BoundaryError::HostAbort { reason }),
    }
}

} // verus!
