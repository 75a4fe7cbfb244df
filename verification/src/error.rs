use vstd::prelude::*;

verus! {

/// Error for driver operations, parameterized by the transport's own
/// opaque error type.
///
/// Every fallible operation surfaces the first transport failure
/// immediately; the driver never retries and never suppresses a failure.
#[derive(Debug, Copy, Clone, PartialEq, Eq)]
pub enum Error<E> {
    /// A plain bus write failed.
    WriteError(E),
    /// A write-then-read transaction failed.
    WriteReadError(E),
    /// Reserved for identity verification; no operation raises it.
    WrongDevice,
}

} // verus!
