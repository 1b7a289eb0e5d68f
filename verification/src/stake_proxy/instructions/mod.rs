//! The stake proxy's instruction handlers, as decisions over plain values,
//! and the balance arithmetic they share.
pub mod delegate_stake;
pub mod initialize_account;
pub mod withdraw;

use crate::stake_proxy::error::ErrorCode;
use vstd::prelude::*;

verus! {

/// The balance a system stake account must hold for `stake_amount` to be
/// staked: its rent-exempt minimum plus the stake.
pub open spec fn expected_balance(min_balance: u64, stake_amount: u64) -> int {
    min_balance + stake_amount
}

/// Lamports to move from the native vault into a stake account holding
/// `current_lamports` so that it holds exactly the expected balance; zero
/// means no transfer. The branch for an account holding more than expected
/// subtracts the larger balance from the smaller one and cannot complete,
/// so such accounts are excluded.
pub fn rebalance(min_balance: u64, current_lamports: u64, stake_amount: u64) -> (need_to_stake: u64)
    requires
        expected_balance(min_balance, stake_amount) <= u64::MAX,
        current_lamports <= expected_balance(min_balance, stake_amount),
    ensures
        current_lamports + need_to_stake == expected_balance(min_balance, stake_amount),
{
    let expected = min_balance + stake_amount;
    expected - current_lamports
}

/// Like `rebalance` for a stake account that is being set up: one that
/// already holds more than the expected balance is refused with
/// `NeedMoreStakeToken`; otherwise the result tops it up to exactly the
/// expected balance.
pub fn try_rebalance(min_balance: u64, current_lamports: u64, stake_amount: u64) -> (res: Result<
    u64,
    ErrorCode,
>)
    requires
        expected_balance(min_balance, stake_amount) <= u64::MAX,
    ensures
        expected_balance(min_balance, stake_amount) < current_lamports ==> res == Err::<
            u64,
            ErrorCode,
        >(ErrorCode::NeedMoreStakeToken),
        current_lamports <= expected_balance(min_balance, stake_amount) ==> {
            &&& res matches Ok(need)
            &&& current_lamports + need == expected_balance(min_balance, stake_amount)
        },
{
    let expected = min_balance + stake_amount;
    if expected < current_lamports {
        return Err(ErrorCode::NeedMoreStakeToken);
    }
    Ok(expected - current_lamports)
}

} // verus!
