use bridge_stake::solana_bridge::instructions::{
    enable_chain, enable_token, initialize, update_manager, update_nonce,
};
use bridge_stake::solana_bridge::state::{ChainConfig, SystemConfig, TokenConfig};

fn blank_chain() -> ChainConfig {
    ChainConfig { enabled: false, chain_id: 0, cash_out_nonce: 0, payout_nonce: 0 }
}

#[test]
fn chain_config_initialize_resets_counters() {
    let mut chain = ChainConfig { enabled: false, chain_id: 3, cash_out_nonce: 9, payout_nonce: 4 };
    chain.initialize(56);
    assert_eq!(chain, ChainConfig { enabled: true, chain_id: 56, cash_out_nonce: 0, payout_nonce: 0 });
}

#[test]
fn chain_config_counters_advance_independently() {
    let mut chain = ChainConfig { enabled: true, chain_id: 1, cash_out_nonce: 7, payout_nonce: 2 };
    chain.increase_cash_out_nonce();
    assert_eq!(chain.cash_out_nonce, 8);
    assert_eq!(chain.payout_nonce, 2);
    chain.increase_payout_nonce();
    assert_eq!(chain.payout_nonce, 3);
    assert_eq!(chain.cash_out_nonce, 8);
    assert_eq!(chain.chain_id, 1);
}

#[test]
fn system_config_initialize_and_update_manager() {
    let mut config = SystemConfig { manager: [0; 32], secp256k1_manager: [0; 20], chain_id: 0 };
    initialize::handler(&mut config, 900, [1; 32], [2; 20]);
    assert_eq!(config, SystemConfig { manager: [1; 32], secp256k1_manager: [2; 20], chain_id: 900 });
    update_manager::handler(&mut config, [3; 32], [4; 20]);
    assert_eq!(config, SystemConfig { manager: [3; 32], secp256k1_manager: [4; 20], chain_id: 900 });
}

#[test]
fn enable_chain_sets_id() {
    let mut chain = blank_chain();
    enable_chain::handler(&mut chain, 97);
    assert_eq!(chain, ChainConfig { enabled: true, chain_id: 97, cash_out_nonce: 0, payout_nonce: 0 });
}

#[test]
fn enable_token_records_mint_and_name() {
    let mut token = TokenConfig { enabled: false, token_name: String::new(), token_mint: [0; 32] };
    enable_token::handler(&mut token, [5; 32], "usdt".to_string());
    assert!(token.enabled);
    assert_eq!(token.token_mint, [5; 32]);
    assert_eq!(token.token_name, "usdt");
}

#[test]
fn update_nonce_changes_only_the_selected_counter() {
    let mut chain = ChainConfig { enabled: true, chain_id: 8, cash_out_nonce: 10, payout_nonce: 20 };
    update_nonce::handler(&mut chain, 8, 77, true);
    assert_eq!(chain, ChainConfig { enabled: true, chain_id: 8, cash_out_nonce: 10, payout_nonce: 77 });
    update_nonce::handler(&mut chain, 8, 5, false);
    assert_eq!(chain, ChainConfig { enabled: true, chain_id: 8, cash_out_nonce: 5, payout_nonce: 77 });
}

#[test]
fn account_sizes() {
    assert_eq!(ChainConfig::LEN, 1 + 8 + 8 + 8);
    assert_eq!(SystemConfig::LEN, 32 + 20 + 8);
    assert_eq!(TokenConfig::INIT_SPACE, 1 + 4 + TokenConfig::MAX_NAME_LEN + 32);
}
