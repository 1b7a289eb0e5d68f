use crate::solana_bridge::state::ChainConfig;
use vstd::prelude::*;

verus! {

/// Enables bridging with chain `chain_id`, both of its counters at zero.
pub fn handler(chain_config: &mut ChainConfig, chain_id: u64)
    ensures
        *final(chain_config) == (ChainConfig {
            enabled: true,
            chain_id,
            cash_out_nonce: 0,
            payout_nonce: 0,
        }),
{
    chain_config.initialize(chain_id);
}

} // verus!
