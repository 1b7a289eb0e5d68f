use vstd::prelude::*;

verus! {

/// The stake proxy's own error codes.
#[derive(Debug, Clone, Copy, PartialEq, Eq, Structural)]
pub enum ErrorCode {
    CustomError,
    InsufficientFundsForTransaction,
    NeedMoreStakeToken,
    StakeTokenMintMismatch,
    StakeAmountTooSmall,
    StakeAmountTooBig,
}

} // verus!
