use vstd::prelude::*;

verus! {

/// What one system stake account holds for its owners: the staked amount
/// (in tokens, and as many lamports above rent), the key allowed to change
/// the stake and the key allowed to withdraw it.
#[derive(Debug, Clone, Copy, PartialEq, Eq)]
pub struct StakeInfo {
    pub amount: u64,
    pub staker_pubkey: [u8; 32],
    pub withdrawer_pubkey: [u8; 32],
}

} // verus!
