//! Accounts stored by the bridge program.
pub mod chain_config;
pub mod system_config;
pub mod token_config;

pub use chain_config::ChainConfig;
pub use system_config::SystemConfig;
pub use token_config::TokenConfig;
