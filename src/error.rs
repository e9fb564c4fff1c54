use vstd::prelude::*;

verus! {

/// Why a call, root or nested, did not complete.
#[derive(Debug, Clone, Copy, PartialEq, Eq, Structural)]
pub enum VMError {
    /// Malformed host-call arguments, undecodable cryptographic input or an
    /// out-of-range memory access.
    InvalidArguments,
    /// A debug message was not valid UTF-8.
    InvalidUtf8,
    /// The gas budget was exhausted.
    OutOfGas,
    /// A nested call would exceed the configured call depth.
    MaxCallDepthExceeded,
    /// No contract is deployed under the requested id.
    UnknownContract,
    /// The bytecode faulted (or panicked on purpose).
    Trap,
}

} // verus!
