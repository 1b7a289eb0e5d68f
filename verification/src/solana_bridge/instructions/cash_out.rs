use crate::solana_bridge::instructions::cash_out_sol::SOL_TOKEN_NAME;
use crate::solana_bridge::state::{ChainConfig, SystemConfig, TokenConfig};
use vstd::prelude::*;

verus! {

/// Published for every cash-out: what left this chain, from whom, and
/// where it is to be paid.
#[derive(Debug, Clone, PartialEq, Eq)]
pub struct CashOutEvent {
    pub nonce: u64,
    pub token_name: String,
    pub from: [u8; 32],
    pub target: String,
    pub amount: u64,
    pub chain_id: u64,
    pub target_chain_id: u64,
    pub decimals: u8,
}

/// A token cash-out request.
#[derive(Debug, Clone, PartialEq, Eq)]
pub struct CashOutArgs {
    pub token_name: String,
    pub target_chain_id: u64,
    pub target: String,
    pub amount: u64,
}

/// An accepted token cash-out: burn `burn_amount` from the payer's token
/// account, then publish `event`.
#[derive(Debug, Clone, PartialEq, Eq)]
pub struct CashOut {
    pub burn_amount: u64,
    pub event: CashOutEvent,
}

/// The chain state after a cash-out was accepted.
pub open spec fn after_cash_out(chain: ChainConfig) -> ChainConfig {
    ChainConfig { cash_out_nonce: (chain.cash_out_nonce + 1) as u64, ..chain }
}

/// Whether a token cash-out goes ahead: the token is enabled and is not the
/// native coin, which has its own instruction.
pub open spec fn cash_out_accepted(token_config: TokenConfig, args: CashOutArgs) -> bool {
    token_config.enabled && args.token_name@ != SOL_TOKEN_NAME@
}

/// Cashes out bridged tokens towards `args.target_chain_id`. When accepted,
/// `amount` is burnt, the event carries the chain's current cash-out nonce
/// and that nonce moves on by one; otherwise nothing happens.
pub fn handler(
    config: &SystemConfig,
    token_config: &TokenConfig,
    chain_config: &mut ChainConfig,
    args: CashOutArgs,
    payer: [u8; 32],
    decimals: u8,
) -> (res: Option<CashOut>)
    requires
        cash_out_accepted(*token_config, args) ==> old(chain_config).cash_out_nonce < u64::MAX,
    ensures
        !cash_out_accepted(*token_config, args) ==> res is None && *final(chain_config) == *old(
            chain_config,
        ),
        cash_out_accepted(*token_config, args) ==> {
            &&& res matches Some(c)
            &&& c.burn_amount == args.amount
            &&& c.event.nonce == old(chain_config).cash_out_nonce
            &&& c.event.token_name@ == args.token_name@
            &&& c.event.from == payer
            &&& c.event.target@ == args.target@
            &&& c.event.amount == args.amount
            &&& c.event.chain_id == config.chain_id
            &&& c.event.target_chain_id == args.target_chain_id
            &&& c.event.decimals == decimals
            &&& *final(chain_config) == after_cash_out(*old(chain_config))
        },
        !token_config.enabled || args.token_name@ == SOL_TOKEN_NAME@ ==> res is None
            && *final(chain_config) == *old(chain_config),
        token_config.enabled && args.token_name@ != SOL_TOKEN_NAME@ ==> {
            &&& res matches Some(c)
            &&& c.burn_amount == args.amount
            &&& c.event.nonce == old(chain_config).cash_out_nonce
            &&& final(chain_config).cash_out_nonce == old(chain_config).cash_out_nonce + 1
            &&& final(chain_config).payout_nonce == old(chain_config).payout_nonce
        },
{
    if !token_config.enabled {
        return None;
    }
    let sol = SOL_TOKEN_NAME.to_owned();
    if args.token_name == sol {
        return None;
    }
    let event = CashOutEvent {
        nonce: chain_config.cash_out_nonce,
        token_name: args.token_name,
        from: payer,
        target: args.target,
        amount: args.amount,
        chain_id: config.chain_id,
        target_chain_id: args.target_chain_id,
        decimals,
    };
    chain_config.increase_cash_out_nonce();
    Some(CashOut { burn_amount: args.amount, event })
}

/// Cash-outs towards one chain are numbered consecutively: the next
/// accepted cash-out carries the number after the previous one, and
/// cash-outs leave the payout counter and everything else alone.
pub proof fn lemma_cash_outs_numbered_consecutively(chain: ChainConfig)
    requires
        chain.cash_out_nonce < u64::MAX,
    ensures
        after_cash_out(chain).cash_out_nonce == chain.cash_out_nonce + 1,
        after_cash_out(chain).payout_nonce == chain.payout_nonce,
        after_cash_out(chain).chain_id == chain.chain_id,
        after_cash_out(chain).enabled == chain.enabled,
{
}

/// The chain state after `k` accepted cash-outs, token or native.
pub open spec fn after_cash_outs(chain: ChainConfig, k: nat) -> ChainConfig
    decreases k,
{
    if k == 0 {
        chain
    } else {
        after_cash_out(after_cash_outs(chain, (k - 1) as nat))
    }
}

/// Each cash-out nonce of a chain is used once and none is skipped: over a
/// run of `k` accepted cash-outs, the one made after `i` others carries the
/// starting nonce plus `i` (so `0, 1, .., k - 1` on a chain just enabled),
/// and the counter ends `k` higher, the payout counter untouched.
pub proof fn lemma_cash_out_run_numbering(chain: ChainConfig, k: nat)
    requires
        chain.cash_out_nonce + k <= u64::MAX,
    ensures
        forall|i: nat|
            i <= k ==> #[trigger] after_cash_outs(chain, i).cash_out_nonce == chain.cash_out_nonce
                + i,
        forall|i: nat| i <= k ==> #[trigger] after_cash_outs(chain, i).payout_nonce == chain.payout_nonce,
        after_cash_outs(chain, k).cash_out_nonce == chain.cash_out_nonce + k,
    decreases k,
{
    if k > 0 {
        lemma_cash_out_run_numbering(chain, (k - 1) as nat);
        assert forall|i: nat| i <= k implies #[trigger] after_cash_outs(chain, i).cash_out_nonce
            == chain.cash_out_nonce + i && after_cash_outs(chain, i).payout_nonce
            == chain.payout_nonce by {
            if i == k {
                assert(after_cash_outs(chain, i) == after_cash_out(
                    after_cash_outs(chain, (k - 1) as nat),
                ));
            }
        }
    }
}

/// A cash-out is skipped only for a disabled token or the native coin's
/// name `sol`: every other name of an enabled token is accepted.
pub proof fn lemma_cash_out_skips_only_disabled_or_native(token_config: TokenConfig, args: CashOutArgs)
    ensures
        cash_out_accepted(token_config, args) <==> (token_config.enabled && args.token_name@
            != "sol"@),
{
}

} // verus!
