use crate::solana_bridge::state::TokenConfig;
use vstd::prelude::*;

verus! {

/// Enables bridging of the token `token_name` minted by `token_mint`.
pub fn handler(token_config: &mut TokenConfig, token_mint: [u8; 32], token_name: String)
    ensures
        final(token_config).enabled,
        final(token_config).token_mint == token_mint,
        final(token_config).token_name@ == token_name@,
{
    token_config.initialize(token_mint, token_name);
}

} // verus!
