//! What goes wrong while serving, and how far each failure reaches.

use vstd::prelude::*;

verus! {

/// A failure of one operation.
#[derive(Clone, Copy, Debug, PartialEq, Eq, Structural)]
pub enum Failure {
    /// The fetch at startup gave no true time.
    StartupFetch,
    /// A periodic fetch gave no true time.
    RefreshFetch,
    /// A datagram shorter than a request arrived.
    MalformedRequest,
    /// A reply could not be sent.
    Send,
}

/// What the program does about a failure.
#[derive(Clone, Copy, Debug, PartialEq, Eq, Structural)]
pub enum Disposition {
    /// Do not start serving: without a first offset there is no time to serve.
    Abort,
    /// Log it and go on; the cache, the other requests and the next tick
    /// are not affected.
    LogAndContinue,
}

/// Only a failed startup fetch is fatal.
pub open spec fn disposition_of(failure: Failure) -> Disposition {
    if failure == Failure::StartupFetch {
        Disposition::Abort
    } else {
        Disposition::LogAndContinue
    }
}

/// How far `failure` reaches.
pub fn disposition(failure: Failure) -> (d: Disposition)
    ensures
        d == disposition_of(failure),
{
    match failure {
        Failure::StartupFetch => Disposition::Abort,
        Failure::RefreshFetch => Disposition::LogAndContinue,
        Failure::MalformedRequest => Disposition::LogAndContinue,
        Failure::Send => Disposition::LogAndContinue,
    }
}

} // verus!
