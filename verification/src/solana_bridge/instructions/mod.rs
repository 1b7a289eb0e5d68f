//! The bridge's instruction handlers, as decisions over plain values.
pub mod cash_out;
pub mod cash_out_sol;
pub mod enable_chain;
pub mod enable_token;
pub mod initialize;
pub mod payout;
pub mod payout_sol;
pub mod update_manager;
pub mod update_nonce;
