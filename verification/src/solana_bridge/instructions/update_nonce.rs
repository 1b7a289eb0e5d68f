use crate::solana_bridge::state::ChainConfig;
use vstd::prelude::*;

verus! {

/// Sets one counter of a chain: the payout nonce when `is_payout_nonce`,
/// the cash-out nonce otherwise. `chain_id` only selects the account.
pub fn handler(chain_config: &mut ChainConfig, chain_id: u64, nonce: u64, is_payout_nonce: bool)
    ensures
        is_payout_nonce ==> *final(chain_config) == (ChainConfig {
            payout_nonce: nonce,
            ..*old(chain_config)
        }),
        !is_payout_nonce ==> *final(chain_config) == (ChainConfig {
            cash_out_nonce: nonce,
            ..*old(chain_config)
        }),
{
    if is_payout_nonce {
        chain_config.payout_nonce = nonce;
    } else {
        chain_config.cash_out_nonce = nonce;
    }
}

} // verus!
