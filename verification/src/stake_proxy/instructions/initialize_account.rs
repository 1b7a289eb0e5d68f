use crate::stake_proxy::error::ErrorCode;
use crate::stake_proxy::instructions::{expected_balance, try_rebalance};
use crate::stake_proxy::state::StakeInfo;
use vstd::prelude::*;

verus! {

/// A request to open a stake of `amount` owned by `staker` and `withdrawer`.
#[derive(Debug, Clone, Copy, PartialEq, Eq)]
pub struct InitializeAccountArgs {
    pub amount: u64,
    pub staker: [u8; 32],
    pub withdrawer: [u8; 32],
}

/// How a system stake account is set up: top it up by `lamports_to_stake`
/// (none when zero), then initialise it with `staker` and `withdrawer` as
/// its authorities.
#[derive(Debug, Clone, Copy, PartialEq, Eq)]
pub struct StakeAccountInit {
    pub lamports_to_stake: u64,
    pub staker: [u8; 32],
    pub withdrawer: [u8; 32],
}

/// An accepted new stake: move `token_transfer` tokens from the payer into
/// the token vault, then set up the stake account as `stake_account` says.
#[derive(Debug, Clone, Copy, PartialEq, Eq)]
pub struct InitializeAccountPlan {
    pub token_transfer: u64,
    pub stake_account: StakeAccountInit,
}

/// Sets up a system stake account for `stake_amount`, with the proxy's
/// delegate authority as both of its authorities. An account already
/// holding more than its rent-exempt minimum plus the stake is refused
/// with `NeedMoreStakeToken`.
pub fn initialize_stake_account(
    delegate_authority: [u8; 32],
    min_balance: u64,
    stake_lamports: u64,
    stake_amount: u64,
) -> (res: Result<StakeAccountInit, ErrorCode>)
    requires
        expected_balance(min_balance, stake_amount) <= u64::MAX,
    ensures
        expected_balance(min_balance, stake_amount) < stake_lamports ==> res == Err::<
            StakeAccountInit,
            ErrorCode,
        >(ErrorCode::NeedMoreStakeToken),
        stake_lamports <= expected_balance(min_balance, stake_amount) ==> {
            &&& res matches Ok(init)
            &&& stake_lamports + init.lamports_to_stake == expected_balance(min_balance, stake_amount)
            &&& init.staker == delegate_authority
            &&& init.withdrawer == delegate_authority
        },
{
    match try_rebalance(min_balance, stake_lamports, stake_amount) {
        Err(e) => Err(e),
        Ok(lamports_to_stake) => Ok(
            StakeAccountInit { lamports_to_stake, staker: delegate_authority, withdrawer: delegate_authority },
        ),
    }
}

/// The outcome of opening a stake of `args.amount` on a stake account
/// holding `stake_lamports`: refused when it already holds more than
/// expected, otherwise the tokens to deposit and the stake account set-up.
pub open spec fn initialize_account_result(
    args: InitializeAccountArgs,
    delegate_authority: [u8; 32],
    min_balance: u64,
    stake_lamports: u64,
) -> Result<InitializeAccountPlan, ErrorCode> {
    if expected_balance(min_balance, args.amount) < stake_lamports {
        Err(ErrorCode::NeedMoreStakeToken)
    } else {
        Ok(
            InitializeAccountPlan {
                token_transfer: args.amount,
                stake_account: StakeAccountInit {
                    lamports_to_stake: (expected_balance(min_balance, args.amount)
                        - stake_lamports) as u64,
                    staker: delegate_authority,
                    withdrawer: delegate_authority,
                },
            },
        )
    }
}

/// The stake record after opening a stake: the requested amount and
/// owners, or `info` unchanged when refused.
pub open spec fn initialize_account_state(
    info: StakeInfo,
    args: InitializeAccountArgs,
    min_balance: u64,
    stake_lamports: u64,
) -> StakeInfo {
    if expected_balance(min_balance, args.amount) < stake_lamports {
        info
    } else {
        StakeInfo { amount: args.amount, staker_pubkey: args.staker, withdrawer_pubkey: args.withdrawer }
    }
}

/// Tokens that enter the token vault on the outcome of opening a stake.
pub open spec fn tokens_deposited(res: Result<InitializeAccountPlan, ErrorCode>) -> int {
    match res {
        Ok(plan) => plan.token_transfer as int,
        Err(_) => 0,
    }
}

/// Opens a stake of `args.amount`: the tokens go into the vault, the stake
/// account (holding `stake_lamports`, rent-exempt minimum `min_balance`) is
/// set up for that amount, and the record names the requested staker and
/// withdrawer. A refusal leaves the record untouched.
pub fn handler(
    stake_info: &mut StakeInfo,
    args: InitializeAccountArgs,
    delegate_authority: [u8; 32],
    min_balance: u64,
    stake_lamports: u64,
) -> (res: Result<InitializeAccountPlan, ErrorCode>)
    requires
        expected_balance(min_balance, args.amount) <= u64::MAX,
    ensures
        res == initialize_account_result(args, delegate_authority, min_balance, stake_lamports),
        *final(stake_info) == initialize_account_state(
            *old(stake_info),
            args,
            min_balance,
            stake_lamports,
        ),
        min_balance + args.amount < stake_lamports ==> res == Err::<
            InitializeAccountPlan,
            ErrorCode,
        >(ErrorCode::NeedMoreStakeToken) && *final(stake_info) == *old(stake_info),
        stake_lamports <= min_balance + args.amount ==> {
            &&& res matches Ok(plan)
            &&& plan.token_transfer == args.amount
            &&& plan.stake_account.lamports_to_stake == min_balance + args.amount - stake_lamports
            &&& plan.stake_account.staker == delegate_authority
            &&& plan.stake_account.withdrawer == delegate_authority
            &&& final(stake_info).amount == args.amount
            &&& final(stake_info).staker_pubkey == args.staker
            &&& final(stake_info).withdrawer_pubkey == args.withdrawer
        },
        res matches Ok(plan) ==> stake_lamports + plan.stake_account.lamports_to_stake
            == expected_balance(min_balance, args.amount),
{
    match initialize_stake_account(delegate_authority, min_balance, stake_lamports, args.amount) {
        Err(e) => Err(e),
        Ok(stake_account) => {
            stake_info.amount = args.amount;
            stake_info.staker_pubkey = args.staker;
            stake_info.withdrawer_pubkey = args.withdrawer;
            Ok(InitializeAccountPlan { token_transfer: args.amount, stake_account })
        },
    }
}

/// The token vault moves exactly with the recorded stake: opening a stake
/// on a fresh record (amount zero, as the account is created), whatever the
/// outcome, leaves the vault's balance less the record as it was.
pub proof fn lemma_initialize_account_vault_mirrors_record(
    info: StakeInfo,
    args: InitializeAccountArgs,
    delegate_authority: [u8; 32],
    min_balance: u64,
    stake_lamports: u64,
    vault: int,
)
    requires
        info.amount == 0,
    ensures
        (vault + tokens_deposited(
            initialize_account_result(args, delegate_authority, min_balance, stake_lamports),
        )) - initialize_account_state(info, args, min_balance, stake_lamports).amount == vault
            - info.amount,
{
}

/// Opening a stake is refused exactly when the stake account already holds
/// more than its rent-exempt minimum plus the stake. Otherwise the whole
/// stake is deposited in tokens, the account is topped up to exactly the
/// minimum plus the stake under the delegate authority, and the record names
/// the requested amount and owners.
pub proof fn lemma_initialize_account_refuses_only_over_funded(
    info: StakeInfo,
    args: InitializeAccountArgs,
    delegate_authority: [u8; 32],
    min_balance: u64,
    stake_lamports: u64,
)
    ensures
        min_balance + args.amount < stake_lamports ==> initialize_account_result(
            args,
            delegate_authority,
            min_balance,
            stake_lamports,
        ) == Err::<InitializeAccountPlan, ErrorCode>(ErrorCode::NeedMoreStakeToken)
            && initialize_account_state(info, args, min_balance, stake_lamports) == info,
        stake_lamports <= min_balance + args.amount && min_balance + args.amount <= u64::MAX ==> {
            &&& initialize_account_result(args, delegate_authority, min_balance, stake_lamports) matches Ok(plan)
            &&& plan.token_transfer == args.amount
            &&& stake_lamports + plan.stake_account.lamports_to_stake == min_balance + args.amount
            &&& plan.stake_account.staker == delegate_authority
            &&& plan.stake_account.withdrawer == delegate_authority
            &&& initialize_account_state(info, args, min_balance, stake_lamports) == (StakeInfo {
                amount: args.amount,
                staker_pubkey: args.staker,
                withdrawer_pubkey: args.withdrawer,
            })
        },
{
}

} // verus!
