use vstd::prelude::*;

verus! {

/// Why an instruction was rejected.
#[derive(Clone, Copy, Debug, PartialEq, Eq, Structural)]
pub enum CounterError {
    /// No account was supplied.
    MissingAccount,
    /// The account is not owned by the invoking program.
    IncorrectOwner,
    /// Create was asked for on an account that already holds data.
    AlreadyInitialized,
    /// The account's data is not exactly one counter encoding wide.
    DecodeFailure,
    /// The opcode is neither Create nor Increment.
    InvalidInstruction,
}

} // verus!
