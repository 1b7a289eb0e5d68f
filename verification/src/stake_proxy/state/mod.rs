//! Accounts stored by the stake proxy.
pub mod stake_info;

pub use stake_info::StakeInfo;
