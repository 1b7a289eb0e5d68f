//! The stake proxy: stake tokens deposited with it are mirrored, lamport for
//! token, by native stake held in a system stake account.
pub mod error;
pub mod instructions;
pub mod state;
