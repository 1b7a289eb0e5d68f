use crate::stake_proxy::error::ErrorCode;
use crate::stake_proxy::instructions::{expected_balance, rebalance};
use crate::stake_proxy::state::StakeInfo;
use vstd::prelude::*;

verus! {

/// A request to stake `amount` in total.
#[derive(Debug, Clone, Copy, PartialEq, Eq)]
pub struct DelegateStakeArgs {
    pub amount: u64,
}

/// An accepted delegation: move `token_transfer` tokens from the payer into
/// the token vault (none when zero), move `lamports_to_stake` lamports from
/// the native vault into the stake account (none when zero), then delegate
/// the stake account to the vote account.
#[derive(Debug, Clone, Copy, PartialEq, Eq)]
pub struct DelegatePlan {
    pub token_transfer: u64,
    pub lamports_to_stake: u64,
}

/// The outcome of raising the stake `info` to `amount`: refused below the
/// current stake, otherwise the difference in tokens and the lamports that
/// bring the stake account from `stake_lamports` to its expected balance.
pub open spec fn delegate_result(
    info: StakeInfo,
    amount: u64,
    min_balance: u64,
    stake_lamports: u64,
) -> Result<DelegatePlan, ErrorCode> {
    if amount < info.amount {
        Err(ErrorCode::StakeAmountTooSmall)
    } else {
        Ok(
            DelegatePlan {
                token_transfer: (amount - info.amount) as u64,
                lamports_to_stake: (expected_balance(min_balance, amount) - stake_lamports) as u64,
            },
        )
    }
}

/// The stake record after raising `info` to `amount`.
pub open spec fn delegate_state(info: StakeInfo, amount: u64) -> StakeInfo {
    if amount < info.amount {
        info
    } else {
        StakeInfo { amount, ..info }
    }
}

/// Tokens that enter the token vault on a delegation's outcome.
pub open spec fn tokens_paid_in(res: Result<DelegatePlan, ErrorCode>) -> int {
    match res {
        Ok(plan) => plan.token_transfer as int,
        Err(_) => 0,
    }
}

/// Raises the stake to `args.amount`. A lower total than already staked is
/// refused with `StakeAmountTooSmall`. Otherwise the difference is paid in
/// tokens, the stake account (holding `stake_lamports`, rent-exempt minimum
/// `min_balance`) is topped up to the minimum plus the new total, and the
/// recorded stake becomes `args.amount`.
pub fn handler(
    stake_info: &mut StakeInfo,
    args: DelegateStakeArgs,
    min_balance: u64,
    stake_lamports: u64,
) -> (res: Result<DelegatePlan, ErrorCode>)
    requires
        old(stake_info).amount <= args.amount ==> {
            &&& expected_balance(min_balance, args.amount) <= u64::MAX
            &&& stake_lamports <= expected_balance(min_balance, args.amount)
        },
    ensures
        res == delegate_result(*old(stake_info), args.amount, min_balance, stake_lamports),
        *final(stake_info) == delegate_state(*old(stake_info), args.amount),
        args.amount < old(stake_info).amount ==> res == Err::<DelegatePlan, ErrorCode>(
            ErrorCode::StakeAmountTooSmall,
        ) && *final(stake_info) == *old(stake_info),
        old(stake_info).amount <= args.amount ==> {
            &&& res matches Ok(plan)
            &&& plan.token_transfer == args.amount - old(stake_info).amount
            &&& plan.lamports_to_stake == min_balance + args.amount - stake_lamports
            &&& final(stake_info).amount == args.amount
            &&& final(stake_info).staker_pubkey == old(stake_info).staker_pubkey
            &&& final(stake_info).withdrawer_pubkey == old(stake_info).withdrawer_pubkey
        },
        res matches Ok(plan) ==> stake_lamports + plan.lamports_to_stake == expected_balance(
            min_balance,
            args.amount,
        ),
{
    if args.amount < stake_info.amount {
        return Err(ErrorCode::StakeAmountTooSmall);
    }
    let token_transfer = args.amount - stake_info.amount;
    let lamports_to_stake = delegate_stake(min_balance, stake_lamports, args.amount);
    stake_info.amount = args.amount;
    Ok(DelegatePlan { token_transfer, lamports_to_stake })
}

/// The lamports that bring the stake account to its expected balance
/// before it is delegated.
fn delegate_stake(min_balance: u64, stake_lamports: u64, stake_amount: u64) -> (lamports: u64)
    requires
        expected_balance(min_balance, stake_amount) <= u64::MAX,
        stake_lamports <= expected_balance(min_balance, stake_amount),
    ensures
        stake_lamports + lamports == expected_balance(min_balance, stake_amount),
{
    rebalance(min_balance, stake_lamports, stake_amount)
}

/// The token vault moves exactly with the recorded stake: whatever a
/// delegation's outcome, the vault's balance less the record is the same
/// before and after it.
pub proof fn lemma_delegate_vault_mirrors_record(
    info: StakeInfo,
    amount: u64,
    min_balance: u64,
    stake_lamports: u64,
    vault: int,
)
    ensures
        (vault + tokens_paid_in(delegate_result(info, amount, min_balance, stake_lamports)))
            - delegate_state(info, amount).amount == vault - info.amount,
{
}

/// Raising a stake records exactly the requested total, charges exactly the
/// difference in tokens and brings the stake account to exactly rent plus
/// the total; a lower total is refused and changes nothing.
pub proof fn lemma_delegate_sets_the_requested_total(
    info: StakeInfo,
    amount: u64,
    min_balance: u64,
    stake_lamports: u64,
)
    ensures
        info.amount <= amount && min_balance + amount <= u64::MAX && stake_lamports
            <= min_balance + amount ==> {
            &&& delegate_result(info, amount, min_balance, stake_lamports) matches Ok(plan)
            &&& info.amount + plan.token_transfer == amount
            &&& stake_lamports + plan.lamports_to_stake == min_balance + amount
            &&& delegate_state(info, amount).amount == amount
            &&& delegate_state(info, amount).staker_pubkey == info.staker_pubkey
            &&& delegate_state(info, amount).withdrawer_pubkey == info.withdrawer_pubkey
        },
        amount < info.amount ==> delegate_result(info, amount, min_balance, stake_lamports)
            == Err::<DelegatePlan, ErrorCode>(ErrorCode::StakeAmountTooSmall) && delegate_state(
            info,
            amount,
        ) == info,
{
}

/// Delegating the same total again charges no tokens and records the same
/// stake.
pub proof fn lemma_delegate_same_total_charges_nothing(
    info: StakeInfo,
    amount: u64,
    min_balance: u64,
    stake_lamports: u64,
    later_lamports: u64,
)
    requires
        info.amount <= amount,
    ensures
        tokens_paid_in(
            delegate_result(delegate_state(info, amount), amount, min_balance, later_lamports),
        ) == 0,
        delegate_state(delegate_state(info, amount), amount) == delegate_state(info, amount),
{
}

} // verus!
