use crate::stake_proxy::error::ErrorCode;
use crate::stake_proxy::state::StakeInfo;
use vstd::prelude::*;

verus! {

/// A withdrawal request.
#[derive(Debug, Clone, Copy, PartialEq, Eq)]
pub struct WithdrawArgs {
    pub amount: u64,
}

/// The outcome of withdrawing `amount` from the stake `info`: refused when
/// more than is staked, nothing for zero, otherwise the amount itself.
pub open spec fn withdraw_result(info: StakeInfo, amount: u64) -> Result<Option<u64>, ErrorCode> {
    if amount > info.amount {
        Err(ErrorCode::StakeAmountTooBig)
    } else if amount == 0 {
        Ok(None)
    } else {
        Ok(Some(amount))
    }
}

/// The stake record after withdrawing `amount` from `info`: lower by the
/// amount when the withdrawal goes ahead, unchanged otherwise.
pub open spec fn withdraw_state(info: StakeInfo, amount: u64) -> StakeInfo {
    if 0 < amount <= info.amount {
        StakeInfo { amount: (info.amount - amount) as u64, ..info }
    } else {
        info
    }
}

/// Tokens that leave the token vault for the receiver on a withdrawal's
/// outcome.
pub open spec fn tokens_paid_out(res: Result<Option<u64>, ErrorCode>) -> int {
    match res {
        Ok(Some(amount)) => amount as int,
        _ => 0,
    }
}

/// Withdraws part of a stake. More than is staked is refused with
/// `StakeAmountTooBig`; zero is a no-op (`Ok(None)`); otherwise
/// `Ok(Some(amount))`: that many lamports leave the stake account for the
/// native vault, as many tokens go from the token vault to the receiver,
/// and the recorded stake drops by exactly that much.
pub fn handler(stake_info: &mut StakeInfo, args: WithdrawArgs) -> (res: Result<Option<u64>, ErrorCode>)
    ensures
        res == withdraw_result(*old(stake_info), args.amount),
        *final(stake_info) == withdraw_state(*old(stake_info), args.amount),
        args.amount > old(stake_info).amount ==> res == Err::<Option<u64>, ErrorCode>(
            ErrorCode::StakeAmountTooBig,
        ) && *final(stake_info) == *old(stake_info),
        args.amount == 0 ==> res == Ok::<Option<u64>, ErrorCode>(None) && *final(stake_info)
            == *old(stake_info),
        0 < args.amount <= old(stake_info).amount ==> {
            &&& res == Ok::<Option<u64>, ErrorCode>(Some(args.amount))
            &&& final(stake_info).amount == old(stake_info).amount - args.amount
            &&& final(stake_info).staker_pubkey == old(stake_info).staker_pubkey
            &&& final(stake_info).withdrawer_pubkey == old(stake_info).withdrawer_pubkey
        },
{
    if args.amount > stake_info.amount {
        return Err(ErrorCode::StakeAmountTooBig);
    }
    if args.amount == 0 {
        return Ok(None);
    }
    stake_info.amount = stake_info.amount - args.amount;
    Ok(Some(args.amount))
}

/// The token vault moves exactly with the recorded stake: whatever a
/// withdrawal's outcome, the vault's balance less the record is the same
/// before and after it.
pub proof fn lemma_withdraw_vault_mirrors_record(info: StakeInfo, amount: u64, vault: int)
    ensures
        (vault - tokens_paid_out(withdraw_result(info, amount))) - withdraw_state(
            info,
            amount,
        ).amount == vault - info.amount,
{
}

/// A withdrawal within the stake pays out exactly the amount asked and
/// lowers the record by exactly that much, keeping its owners; more than is
/// staked is refused and changes nothing.
pub proof fn lemma_withdraw_pays_exactly_the_amount(info: StakeInfo, amount: u64)
    ensures
        0 < amount <= info.amount ==> {
            &&& withdraw_result(info, amount) == Ok::<Option<u64>, ErrorCode>(Some(amount))
            &&& withdraw_state(info, amount).amount + amount == info.amount
            &&& withdraw_state(info, amount).staker_pubkey == info.staker_pubkey
            &&& withdraw_state(info, amount).withdrawer_pubkey == info.withdrawer_pubkey
        },
        amount > info.amount ==> withdraw_result(info, amount) == Err::<Option<u64>, ErrorCode>(
            ErrorCode::StakeAmountTooBig,
        ) && withdraw_state(info, amount) == info,
{
}

/// Withdrawing in two steps is withdrawing the sum at once: the same
/// tokens leave and the record ends at the same amount.
pub proof fn lemma_withdrawals_compose(info: StakeInfo, first: u64, second: u64)
    requires
        0 < first,
        0 < second,
        first + second <= info.amount,
    ensures
        withdraw_state(withdraw_state(info, first), second) == withdraw_state(
            info,
            (first + second) as u64,
        ),
        tokens_paid_out(withdraw_result(info, first)) + tokens_paid_out(
            withdraw_result(withdraw_state(info, first), second),
        ) == tokens_paid_out(withdraw_result(info, (first + second) as u64)),
{
}

} // verus!
