use crate::solana_bridge::state::SystemConfig;
use vstd::prelude::*;

verus! {

/// Hands administration and payout signing to new keys; the chain id stays.
pub fn handler(config: &mut SystemConfig, manager: [u8; 32], secp256k1_manager: [u8; 20])
    ensures
        *final(config) == (SystemConfig { manager, secp256k1_manager, chain_id: old(config).chain_id }),
{
    config.update_manager(manager, secp256k1_manager);
}

} // verus!
