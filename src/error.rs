use vstd::prelude::*;

verus! {

/// Why an instruction was refused. Every error aborts the whole instruction:
/// no account is changed.
#[derive(Clone, Copy, Debug, PartialEq, Eq, Structural)]
pub enum ErrorCode {
    /// The token's metadata names no collection.
    InvalidNftCollection,
    /// An account does not match what the instruction requires: wrong owner,
    /// wrong mint, wrong balance, or a stake record in the wrong state.
    ConstraintViolation,
    /// The supplied time is earlier than the record's last redemption.
    ClockRegression,
    /// A balance or counter would leave its representable range.
    ArithmeticOverflow,
}

} // verus!
