use vstd::prelude::*;

verus! {

/// Program-wide configuration: the administrator key, the Ethereum-style
/// address whose secp256k1 signatures authorise payouts, and the id of the
/// chain this program runs on.
#[derive(Debug, Clone, Copy, PartialEq, Eq)]
pub struct SystemConfig {
    pub manager: [u8; 32],
    pub secp256k1_manager: [u8; 20],
    pub chain_id: u64,
}

impl SystemConfig {
    /// Serialized size of the account body (without the 8-byte discriminator).
    pub const LEN: usize = 60;

    /// Sets every field.
    pub fn initialize(&mut self, chain_id: u64, manager: [u8; 32], secp256k1_manager: [u8; 20])
        ensures
            *final(self) == (SystemConfig { manager, secp256k1_manager, chain_id }),
    {
        self.secp256k1_manager = secp256k1_manager;
        self.manager = manager;
        self.chain_id = chain_id;
    }

    /// Replaces both manager keys; the chain id is kept.
    pub fn update_manager(&mut self, manager: [u8; 32], secp256k1_manager: [u8; 20])
        ensures
            *final(self) == (SystemConfig { manager, secp256k1_manager, chain_id: old(self).chain_id }),
    {
        self.secp256k1_manager = secp256k1_manager;
        self.manager = manager;
    }
}

} // verus!
