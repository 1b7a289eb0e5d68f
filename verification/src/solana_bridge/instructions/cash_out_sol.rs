use crate::solana_bridge::instructions::cash_out::{after_cash_out, CashOutEvent};
use crate::solana_bridge::state::{ChainConfig, SystemConfig};
use crate::solana_bridge::utils::{base58_text, pubkey_to_string};
use vstd::prelude::*;

verus! {

/// Name under which the native coin is bridged.
pub const SOL_TOKEN_NAME: &'static str = "sol";

/// Decimals of the native coin (lamports per SOL as a power of ten).
pub const SOL_DECIMALS: u8 = 9;

/// An accepted native cash-out: move `lamports` from the payer into the
/// native vault, then publish `event`.
#[derive(Debug, Clone, PartialEq, Eq)]
pub struct CashOutSol {
    pub lamports: u64,
    pub event: CashOutEvent,
}

/// Cashes out native coin towards the chain of `chain_config`: `amount`
/// lamports go into the vault, the event carries the chain's current
/// cash-out nonce, and that nonce moves on by one.
pub fn handler(
    config: &SystemConfig,
    chain_config: &mut ChainConfig,
    target: [u8; 32],
    amount: u64,
    payer: [u8; 32],
) -> (res: CashOutSol)
    requires
        old(chain_config).cash_out_nonce < u64::MAX,
    ensures
        res.lamports == amount,
        res.event.nonce == old(chain_config).cash_out_nonce,
        res.event.token_name@ == SOL_TOKEN_NAME@,
        res.event.from == payer,
        res.event.target@ == base58_text(target@),
        res.event.amount == amount,
        res.event.chain_id == config.chain_id,
        res.event.target_chain_id == old(chain_config).chain_id,
        res.event.decimals == SOL_DECIMALS,
        *final(chain_config) == after_cash_out(*old(chain_config)),
{
    let event = CashOutEvent {
        nonce: chain_config.cash_out_nonce,
        token_name: SOL_TOKEN_NAME.to_owned(),
        from: payer,
        target: pubkey_to_string(&target),
        amount,
        chain_id: config.chain_id,
        target_chain_id: chain_config.chain_id,
        decimals: SOL_DECIMALS,
    };
    chain_config.increase_cash_out_nonce();
    CashOutSol { lamports: amount, event }
}

} // verus!
