//! Verified core of two Solana programs: a cross-chain token bridge
//! (`solana_bridge`) and a native-stake proxy (`stake_proxy`).
//!
//! Each instruction handler is split the way the runtime forces it to be:
//! the decisions (which checks pass, which error is raised, how the account
//! state changes, which transfer or event follows) are verified functions
//! over plain values here, while the account plumbing and cross-program
//! invocations are performed by the caller with the results.
pub mod solana_bridge;
pub mod stake_proxy;
