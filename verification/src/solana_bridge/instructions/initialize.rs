use crate::solana_bridge::state::SystemConfig;
use vstd::prelude::*;

verus! {

/// Sets up the program: the chain it runs on, its administrator and the
/// address whose signatures authorise payouts.
pub fn handler(config: &mut SystemConfig, chain_id: u64, manager: [u8; 32], secp256k1_manager: [u8; 20])
    ensures
        *final(config) == (SystemConfig { manager, secp256k1_manager, chain_id }),
{
    config.initialize(chain_id, manager, secp256k1_manager);
}

} // verus!
