use vstd::prelude::*;

verus! {

/// The bridge program's own error codes.
#[derive(Debug, Clone, Copy, PartialEq, Eq, Structural)]
pub enum ErrorCode {
    SigVerificationFailed,
    MissingSecp256k1Instruction,
    InvalidPayoutNonce,
}

/// Everything a payout can be refused with: one of the program's codes, or
/// the runtime error that reading the instructions sysvar raises (an index
/// past the transaction's instructions, or data that does not describe one).
#[derive(Debug, Clone, Copy, PartialEq, Eq, Structural)]
pub enum PayoutError {
    Code(ErrorCode),
    InvalidArgument,
    InvalidInstructionData,
}

} // verus!
