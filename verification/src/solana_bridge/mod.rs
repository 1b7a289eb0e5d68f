//! The bridge program: system, chain and token configuration, cash-outs
//! towards other chains and signature-checked payouts from them.
pub mod error;
pub mod instructions;
pub mod instructions_sysvar;
pub mod state;
pub mod utils;
