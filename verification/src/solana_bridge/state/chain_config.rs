use vstd::prelude::*;

verus! {

/// Per-counterpart-chain state: whether the chain is enabled and the two
/// monotone counters that order cash-outs to it and payouts from it.
#[derive(Debug, Clone, Copy, PartialEq, Eq, Structural)]
pub struct ChainConfig {
    pub enabled: bool,
    pub chain_id: u64,
    pub cash_out_nonce: u64,
    pub payout_nonce: u64,
}

impl ChainConfig {
    /// Serialized size of the account body (without the 8-byte discriminator).
    pub const LEN: usize = 25;

    /// Enables the chain `chain_id` with both counters at zero.
    pub fn initialize(&mut self, chain_id: u64)
        ensures
            *final(self) == (ChainConfig { enabled: true, chain_id, cash_out_nonce: 0, payout_nonce: 0 }),
    {
        self.chain_id = chain_id;
        self.enabled = true;
        self.payout_nonce = 0;
        self.cash_out_nonce = 0;
    }

    /// Advances the payout counter by one; nothing else changes.
    pub fn increase_payout_nonce(&mut self)
        requires
            old(self).payout_nonce < u64::MAX,
        ensures
            *final(self) == (ChainConfig { payout_nonce: (old(self).payout_nonce + 1) as u64, ..*old(self) }),
    {
        self.payout_nonce = self.payout_nonce + 1;
    }

    /// Advances the cash-out counter by one; nothing else changes.
    pub fn increase_cash_out_nonce(&mut self)
        requires
            old(self).cash_out_nonce < u64::MAX,
        ensures
            *final(self) == (ChainConfig { cash_out_nonce: (old(self).cash_out_nonce + 1) as u64, ..*old(self) }),
    {
        self.cash_out_nonce = self.cash_out_nonce + 1;
    }
}

} // verus!
