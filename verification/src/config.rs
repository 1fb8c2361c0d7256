//! Configuration values the supervision core decides over.
//!
//! All of these are built once from the invocation's parameters and never
//! mutated afterwards; every connection attempt reads the same values.

use vstd::prelude::*;

verus! {

/// A relay address together with the remote port to request on it.
/// Immutable for the duration of one attempt.
#[derive(Clone, Debug, PartialEq, Eq)]
pub struct Endpoint {
    /// Host name or address of the relay.
    pub host: String,
    /// Port to request or bind on the relay.
    pub remote_port: u16,
}

/// How many iterations the client orchestrator performs.
///
/// `Relentless` repeats forever; `Bounded(count)` performs exactly `count`
/// iterations then stops.  The two modes are mutually exclusive: a
/// relentless orchestrator carries no iteration count at all, so a bounded
/// count can never leak into relentless operation.
#[derive(Clone, Copy, Debug, PartialEq, Eq, Structural)]
pub enum RetryMode {
    /// Repeat iterations until the process is terminated externally.
    Relentless,
    /// Perform exactly this many iterations, then return.
    Bounded(u8),
}

/// The client's retry policy: an operating mode and an optional fallback
/// relay attempted after the primary in every iteration.
#[derive(Clone, Debug)]
pub struct RetryPolicy {
    /// Relentless or bounded operation.
    pub mode: RetryMode,
    /// Secondary relay tried after the primary in each iteration, if any.
    pub fallback: Option<Endpoint>,
}

/// How a single connection attempt ended, as reported back to the
/// orchestrator by whoever performed the attempt.
///
/// The orchestrator deliberately draws no distinction between these when
/// deciding what to do next: both simply end the current attempt.
#[derive(Clone, Copy, Debug, PartialEq, Eq, Structural)]
pub enum AttemptOutcome {
    /// The session could not be established (connection error).
    NotEstablished,
    /// The session was established and later ended, cleanly or with an
    /// error while running.
    Ended,
}

impl RetryMode {
    /// The number of iterations a bounded mode owes; meaningless (zero)
    /// for relentless mode, which owes infinitely many.
    pub open spec fn count(self) -> nat {
        match self {
            RetryMode::Relentless => 0,
            RetryMode::Bounded(c) => c as nat,
        }
    }
}

} // verus!
