use bridge_stake::stake_proxy::error::ErrorCode;
use bridge_stake::stake_proxy::instructions::delegate_stake::{self, DelegatePlan, DelegateStakeArgs};
use bridge_stake::stake_proxy::instructions::initialize_account::{
    self, initialize_stake_account, InitializeAccountArgs,
};
use bridge_stake::stake_proxy::instructions::withdraw::{self, WithdrawArgs};
use bridge_stake::stake_proxy::instructions::{rebalance, try_rebalance};
use bridge_stake::stake_proxy::state::StakeInfo;

const RENT: u64 = 2_282_880;

fn info(amount: u64) -> StakeInfo {
    StakeInfo { amount, staker_pubkey: [1; 32], withdrawer_pubkey: [2; 32] }
}

#[test]
fn try_rebalance_tops_up_to_rent_plus_stake() {
    assert_eq!(try_rebalance(RENT, 0, 500), Ok(RENT + 500));
    assert_eq!(try_rebalance(RENT, RENT, 500), Ok(500));
    assert_eq!(try_rebalance(RENT, RENT + 500, 500), Ok(0));
    assert_eq!(try_rebalance(RENT, RENT + 501, 500), Err(ErrorCode::NeedMoreStakeToken));
}

#[test]
fn rebalance_returns_the_shortfall() {
    assert_eq!(rebalance(RENT, RENT + 100, 400), 300);
    assert_eq!(rebalance(10, 0, 0), 10);
}

#[test]
fn withdraw_more_than_staked_is_refused() {
    let mut i = info(100);
    assert_eq!(withdraw::handler(&mut i, WithdrawArgs { amount: 101 }), Err(ErrorCode::StakeAmountTooBig));
    assert_eq!(i, info(100));
}

#[test]
fn withdraw_zero_does_nothing() {
    let mut i = info(100);
    assert_eq!(withdraw::handler(&mut i, WithdrawArgs { amount: 0 }), Ok(None));
    assert_eq!(i, info(100));
}

#[test]
fn withdraw_lowers_the_record_by_the_amount() {
    let mut i = info(100);
    assert_eq!(withdraw::handler(&mut i, WithdrawArgs { amount: 40 }), Ok(Some(40)));
    assert_eq!(i, info(60));
    assert_eq!(withdraw::handler(&mut i, WithdrawArgs { amount: 60 }), Ok(Some(60)));
    assert_eq!(i, info(0));
}

#[test]
fn delegate_below_current_stake_is_refused() {
    let mut i = info(100);
    let res = delegate_stake::handler(&mut i, DelegateStakeArgs { amount: 99 }, RENT, RENT + 100);
    assert_eq!(res, Err(ErrorCode::StakeAmountTooSmall));
    assert_eq!(i, info(100));
}

#[test]
fn delegate_charges_the_difference_and_tops_up() {
    let mut i = info(100);
    let res = delegate_stake::handler(&mut i, DelegateStakeArgs { amount: 250 }, RENT, RENT + 100);
    assert_eq!(res, Ok(DelegatePlan { token_transfer: 150, lamports_to_stake: 150 }));
    assert_eq!(i, info(250));
    let same = delegate_stake::handler(&mut i, DelegateStakeArgs { amount: 250 }, RENT, RENT + 250);
    assert_eq!(same, Ok(DelegatePlan { token_transfer: 0, lamports_to_stake: 0 }));
}

#[test]
fn initialize_stake_account_uses_delegate_authority() {
    let init = initialize_stake_account([6; 32], RENT, 0, 1_000).expect("fresh account");
    assert_eq!(init.lamports_to_stake, RENT + 1_000);
    assert_eq!(init.staker, [6; 32]);
    assert_eq!(init.withdrawer, [6; 32]);
    assert_eq!(initialize_stake_account([6; 32], RENT, RENT + 1_001, 1_000), Err(ErrorCode::NeedMoreStakeToken));
}

#[test]
fn initialize_account_records_owners() {
    let mut i = StakeInfo { amount: 0, staker_pubkey: [0; 32], withdrawer_pubkey: [0; 32] };
    let args = InitializeAccountArgs { amount: 1_000, staker: [3; 32], withdrawer: [4; 32] };
    let plan = initialize_account::handler(&mut i, args, [6; 32], RENT, 0).expect("accepted");
    assert_eq!(plan.token_transfer, 1_000);
    assert_eq!(plan.stake_account.lamports_to_stake, RENT + 1_000);
    assert_eq!(i, StakeInfo { amount: 1_000, staker_pubkey: [3; 32], withdrawer_pubkey: [4; 32] });
}

#[test]
fn initialize_account_over_funded_is_refused() {
    let mut i = StakeInfo { amount: 0, staker_pubkey: [0; 32], withdrawer_pubkey: [0; 32] };
    let args = InitializeAccountArgs { amount: 1_000, staker: [3; 32], withdrawer: [4; 32] };
    let res = initialize_account::handler(&mut i, args, [6; 32], RENT, RENT + 2_000);
    assert_eq!(res, Err(ErrorCode::NeedMoreStakeToken));
    assert_eq!(i.amount, 0);
}

#[test]
fn token_vault_moves_with_the_record() {
    let mut vault: u64 = 0;
    let mut i = StakeInfo { amount: 0, staker_pubkey: [0; 32], withdrawer_pubkey: [0; 32] };
    let args = InitializeAccountArgs { amount: 300, staker: [3; 32], withdrawer: [4; 32] };
    let plan = initialize_account::handler(&mut i, args, [6; 32], RENT, 0).unwrap();
    vault += plan.token_transfer;
    assert_eq!(vault, i.amount);
    let plan = delegate_stake::handler(&mut i, DelegateStakeArgs { amount: 500 }, RENT, RENT + 300).unwrap();
    vault += plan.token_transfer;
    assert_eq!(vault, i.amount);
    let out = withdraw::handler(&mut i, WithdrawArgs { amount: 120 }).unwrap().unwrap();
    vault -= out;
    assert_eq!(vault, i.amount);
    assert_eq!(vault, 380);
}
