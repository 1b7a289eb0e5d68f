use anchor_lang::prelude::Pubkey;
use anchor_lang::solana_program::secp256k1_program;
use anchor_lang::solana_program::sysvar::instructions::{
    construct_instructions_data, store_current_index, BorrowedAccountMeta, BorrowedInstruction,
};
use bridge_stake::solana_bridge::error::{ErrorCode, PayoutError};
use bridge_stake::solana_bridge::instructions::payout::{self, PayoutArgs};
use bridge_stake::solana_bridge::instructions::payout_sol::{self, PayoutSolArgs, SYSTEM_PROGRAM_ID};
use bridge_stake::solana_bridge::state::{ChainConfig, SystemConfig, TokenConfig};
use bridge_stake::solana_bridge::utils::{
    hex_string, payout_message, verify_secp256k1_ix, LoadedInstruction, SECP256K1_PROGRAM_ID,
};

const SIGNER: [u8; 20] = [0xaa; 20];
const RECEIVER: [u8; 32] = [0x42; 32];
const MINT: [u8; 32] = [0x33; 32];
const MAGIC: [u8; 8] = *b"BRIDGE01";

fn config() -> SystemConfig {
    SystemConfig { manager: [1; 32], secp256k1_manager: SIGNER, chain_id: 900 }
}

fn token(enabled: bool, name: &str) -> TokenConfig {
    TokenConfig { enabled, token_name: name.to_string(), token_mint: MINT }
}

fn chain() -> ChainConfig {
    ChainConfig { enabled: true, chain_id: 56, cash_out_nonce: 3, payout_nonce: 7 }
}

fn args(nonce: u64, amount: u64) -> PayoutArgs {
    PayoutArgs {
        token_name: "usdt".to_string(),
        from_chain_id: 56,
        amount,
        magic: MAGIC,
        nonce,
        signature: [0x5c; 64],
        recovery_id: 1,
    }
}

fn message(name: &[u8], nonce: u64, amount: u64) -> Vec<u8> {
    let mut m = MAGIC.to_vec();
    m.extend_from_slice(&nonce.to_le_bytes());
    m.extend_from_slice(name);
    m.extend_from_slice(&RECEIVER);
    m.extend_from_slice(&amount.to_le_bytes());
    m.extend_from_slice(&56u64.to_le_bytes());
    m
}

fn secp_data(index: u8, signer: &[u8; 20], msg: &[u8], sig: &[u8; 64], recovery_id: u8) -> Vec<u8> {
    let mut d = vec![1u8, 32, 0, index, 12, 0, index, 97, 0];
    d.extend_from_slice(&(msg.len() as u16).to_le_bytes());
    d.push(index);
    d.extend_from_slice(signer);
    d.extend_from_slice(sig);
    d.push(recovery_id);
    d.extend_from_slice(msg);
    d
}

/// Instructions sysvar data for a transaction holding `ix_data` run by
/// `program` at index 0 and the bridge's own instruction at index 1, the
/// running one being `current`.
fn sysvar(program: &Pubkey, ix_data: &[u8], current: u16) -> Vec<u8> {
    let bridge = Pubkey::new_from_array([8; 32]);
    let account = Pubkey::new_from_array([9; 32]);
    let instructions = vec![
        BorrowedInstruction { program_id: program, accounts: vec![], data: ix_data },
        BorrowedInstruction {
            program_id: &bridge,
            accounts: vec![BorrowedAccountMeta { pubkey: &account, is_signer: false, is_writable: true }],
            data: &[1, 2, 3],
        },
    ];
    let mut data = construct_instructions_data(&instructions);
    store_current_index(&mut data, current);
    data
}

fn signed_sysvar(nonce: u64, amount: u64) -> Vec<u8> {
    let msg = message(b"usdt", nonce, amount);
    sysvar(&secp256k1_program::ID, &secp_data(0, &SIGNER, &msg, &[0x5c; 64], 1), 1)
}

#[test]
fn secp256k1_program_id_matches_runtime() {
    assert_eq!(SECP256K1_PROGRAM_ID, secp256k1_program::ID.to_bytes());
}

#[test]
fn payout_message_layout() {
    let m = payout_message(&MAGIC, 7, b"usdt", &RECEIVER, 1_000, 56);
    assert_eq!(m, message(b"usdt", 7, 1_000));
    assert_eq!(m.len(), 8 + 8 + 4 + 32 + 8 + 8);
    assert_eq!(&m[8..16], &[7, 0, 0, 0, 0, 0, 0, 0]);
}

#[test]
fn hex_string_is_lower_case_two_digits_per_byte() {
    assert_eq!(hex_string(&[0x00, 0xab, 0x10, 0xff]), "00ab10ff");
    assert_eq!(hex_string(&[]), "");
}

#[test]
fn payout_success_mints_and_advances_nonce() {
    let mut c = chain();
    let res = payout::handler(&config(), &token(true, "usdt"), &mut c, args(7, 1_000), RECEIVER, MINT, &signed_sysvar(7, 1_000))
        .expect("checks pass")
        .expect("token enabled");
    assert_eq!(res.mint_amount, 1_000);
    assert_eq!(res.event.nonce, 7);
    assert_eq!(res.event.token_name, "usdt");
    assert_eq!(res.event.target, RECEIVER);
    assert_eq!(res.event.token_mint, MINT);
    assert_eq!(res.event.amount, 1_000);
    assert_eq!(res.event.from_chain_id, 56);
    assert_eq!(c, ChainConfig { payout_nonce: 8, ..chain() });
}

#[test]
fn payout_replay_is_refused() {
    let mut c = chain();
    let sysvar = signed_sysvar(7, 1_000);
    let first = payout::handler(&config(), &token(true, "usdt"), &mut c, args(7, 1_000), RECEIVER, MINT, &sysvar);
    assert!(matches!(first, Ok(Some(_))));
    let again = payout::handler(&config(), &token(true, "usdt"), &mut c, args(7, 1_000), RECEIVER, MINT, &sysvar);
    assert_eq!(again, Err(PayoutError::Code(ErrorCode::InvalidPayoutNonce)));
    assert_eq!(c.payout_nonce, 8);
}

#[test]
fn payout_of_disabled_token_does_nothing() {
    let mut c = chain();
    let res = payout::handler(&config(), &token(false, "usdt"), &mut c, args(7, 1_000), RECEIVER, MINT, &[]);
    assert_eq!(res, Ok(None));
    assert_eq!(c, chain());
}

#[test]
fn payout_with_wrong_nonce_is_refused() {
    let mut c = chain();
    let res = payout::handler(&config(), &token(true, "usdt"), &mut c, args(6, 1_000), RECEIVER, MINT, &signed_sysvar(6, 1_000));
    assert_eq!(res, Err(PayoutError::Code(ErrorCode::InvalidPayoutNonce)));
    assert_eq!(c, chain());
}

#[test]
fn payout_as_first_instruction_is_refused() {
    let mut c = chain();
    let msg = message(b"usdt", 7, 1_000);
    let data = sysvar(&secp256k1_program::ID, &secp_data(0, &SIGNER, &msg, &[0x5c; 64], 1), 0);
    let res = payout::handler(&config(), &token(true, "usdt"), &mut c, args(7, 1_000), RECEIVER, MINT, &data);
    assert_eq!(res, Err(PayoutError::Code(ErrorCode::MissingSecp256k1Instruction)));
    assert_eq!(c, chain());
}

#[test]
fn payout_with_tampered_amount_is_refused() {
    let mut c = chain();
    let res = payout::handler(&config(), &token(true, "usdt"), &mut c, args(7, 9_999), RECEIVER, MINT, &signed_sysvar(7, 1_000));
    assert_eq!(res, Err(PayoutError::Code(ErrorCode::SigVerificationFailed)));
    assert_eq!(c, chain());
}

#[test]
fn payout_signed_by_someone_else_is_refused() {
    let mut c = chain();
    let msg = message(b"usdt", 7, 1_000);
    let data = sysvar(&secp256k1_program::ID, &secp_data(0, &[0xbb; 20], &msg, &[0x5c; 64], 1), 1);
    let res = payout::handler(&config(), &token(true, "usdt"), &mut c, args(7, 1_000), RECEIVER, MINT, &data);
    assert_eq!(res, Err(PayoutError::Code(ErrorCode::SigVerificationFailed)));
}

#[test]
fn payout_checked_by_another_program_is_refused() {
    let mut c = chain();
    let msg = message(b"usdt", 7, 1_000);
    let other = Pubkey::new_from_array([4; 32]);
    let data = sysvar(&other, &secp_data(0, &SIGNER, &msg, &[0x5c; 64], 1), 1);
    let res = payout::handler(&config(), &token(true, "usdt"), &mut c, args(7, 1_000), RECEIVER, MINT, &data);
    assert_eq!(res, Err(PayoutError::Code(ErrorCode::SigVerificationFailed)));
}

#[test]
fn payout_with_index_past_the_instructions_is_invalid_argument() {
    let mut c = chain();
    let msg = message(b"usdt", 7, 1_000);
    let data = sysvar(&secp256k1_program::ID, &secp_data(0, &SIGNER, &msg, &[0x5c; 64], 1), 5);
    let res = payout::handler(&config(), &token(true, "usdt"), &mut c, args(7, 1_000), RECEIVER, MINT, &data);
    assert_eq!(res, Err(PayoutError::InvalidArgument));
    assert_eq!(c, chain());
}

#[test]
fn payout_sol_success_and_vault_transfer() {
    let mut c = chain();
    let msg = message(b"sol", 7, 2_000);
    let data = sysvar(&secp256k1_program::ID, &secp_data(0, &SIGNER, &msg, &[0x5c; 64], 1), 1);
    let a = PayoutSolArgs { from_chain_id: 56, amount: 2_000, magic: MAGIC, nonce: 7, signature: [0x5c; 64], recovery_id: 1 };
    let res = payout_sol::handler(&config(), &token(true, "sol"), &mut c, a, RECEIVER, &data)
        .expect("checks pass")
        .expect("native token enabled");
    assert_eq!(res.lamports, 2_000);
    assert_eq!(res.event.token_name, "sol");
    assert_eq!(res.event.token_mint, SYSTEM_PROGRAM_ID);
    assert_eq!(SYSTEM_PROGRAM_ID, anchor_lang::system_program::ID.to_bytes());
    assert_eq!(c.payout_nonce, 8);
    let mut vault = 10_000u64;
    let mut receiver = 5u64;
    payout_sol::transfer_vault_lamports(&mut vault, &mut receiver, res.lamports);
    assert_eq!((vault, receiver), (8_000, 2_005));
}

#[test]
fn payout_sol_message_uses_native_name() {
    let mut c = chain();
    let msg = message(b"usdt", 7, 2_000);
    let data = sysvar(&secp256k1_program::ID, &secp_data(0, &SIGNER, &msg, &[0x5c; 64], 1), 1);
    let a = PayoutSolArgs { from_chain_id: 56, amount: 2_000, magic: MAGIC, nonce: 7, signature: [0x5c; 64], recovery_id: 1 };
    let res = payout_sol::handler(&config(), &token(true, "sol"), &mut c, a, RECEIVER, &data);
    assert_eq!(res, Err(PayoutError::Code(ErrorCode::SigVerificationFailed)));
}

#[test]
fn verify_secp256k1_ix_checks_every_part() {
    let msg = b"hello".to_vec();
    let sig = [7u8; 64];
    let good = LoadedInstruction {
        program_id: SECP256K1_PROGRAM_ID,
        num_accounts: 0,
        data: secp_data(2, &SIGNER, &msg, &sig, 0),
    };
    assert_eq!(verify_secp256k1_ix(&good, 2, &SIGNER, &msg, &sig, 0), Ok(()));
    assert_eq!(verify_secp256k1_ix(&good, 3, &SIGNER, &msg, &sig, 0), Err(ErrorCode::SigVerificationFailed));
    assert_eq!(verify_secp256k1_ix(&good, 2, &SIGNER, &msg, &sig, 1), Err(ErrorCode::SigVerificationFailed));
    assert_eq!(verify_secp256k1_ix(&good, 2, &SIGNER, b"hellp", &sig, 0), Err(ErrorCode::SigVerificationFailed));
    let with_account = LoadedInstruction { num_accounts: 1, ..good.clone() };
    assert_eq!(verify_secp256k1_ix(&with_account, 2, &SIGNER, &msg, &sig, 0), Err(ErrorCode::SigVerificationFailed));
    let mut longer = good.clone();
    longer.data.push(0);
    assert_eq!(verify_secp256k1_ix(&longer, 2, &SIGNER, &msg, &sig, 0), Err(ErrorCode::SigVerificationFailed));
}

#[test]
fn payout_messages_differ_in_every_field() {
    let base = payout_message(&MAGIC, 7, b"usdt", &RECEIVER, 1_000, 56);
    assert_ne!(base, payout_message(&MAGIC, 8, b"usdt", &RECEIVER, 1_000, 56));
    assert_ne!(base, payout_message(&MAGIC, 7, b"usdc", &RECEIVER, 1_000, 56));
    assert_ne!(base, payout_message(&MAGIC, 7, b"usdt", &[0x43; 32], 1_000, 56));
    assert_ne!(base, payout_message(&MAGIC, 7, b"usdt", &RECEIVER, 1_001, 56));
    assert_ne!(base, payout_message(&MAGIC, 7, b"usdt", &RECEIVER, 1_000, 57));
    assert_ne!(base, payout_message(b"BRIDGE02", 7, b"usdt", &RECEIVER, 1_000, 56));
}

#[test]
fn check_payout_refuses_short_of_a_preceding_instruction() {
    let msg = message(b"usdt", 7, 1_000);
    let data = sysvar(&secp256k1_program::ID, &secp_data(0, &SIGNER, &msg, &[0x5c; 64], 1), 0);
    assert_eq!(
        payout::check_payout(true, 7, 7, &data, &SIGNER, &msg, &[0x5c; 64], 1),
        Err(PayoutError::Code(ErrorCode::MissingSecp256k1Instruction))
    );
    let data = sysvar(&secp256k1_program::ID, &secp_data(0, &SIGNER, &msg, &[0x5c; 64], 1), 1);
    assert_eq!(payout::check_payout(true, 7, 7, &data, &SIGNER, &msg, &[0x5c; 64], 1), Ok(true));
    assert_eq!(payout::check_payout(false, 7, 7, &data, &SIGNER, &msg, &[0x5c; 64], 1), Ok(false));
}

#[test]
fn payout_at_nonce_ceiling_is_refused_as_usual() {
    let ceiling = ChainConfig { payout_nonce: u64::MAX, ..chain() };
    let mut c = ceiling;
    let res = payout::handler(&config(), &token(true, "usdt"), &mut c, args(u64::MAX, 1_000), RECEIVER, MINT, &[0, 0]);
    assert_eq!(res, Err(PayoutError::Code(ErrorCode::MissingSecp256k1Instruction)));
    assert_eq!(c, ceiling);
    let res = payout::try_handler(&config(), &token(true, "usdt"), &mut c, args(u64::MAX, 1_000), RECEIVER, MINT, &signed_sysvar(5, 1_000));
    assert_eq!(res, Some(Err(PayoutError::Code(ErrorCode::SigVerificationFailed))));
    assert_eq!(c, ceiling);
}

#[test]
fn try_payout_stops_where_the_counter_cannot_move_on() {
    let ceiling = ChainConfig { payout_nonce: u64::MAX, ..chain() };
    let mut c = ceiling;
    let res = payout::try_handler(&config(), &token(true, "usdt"), &mut c, args(u64::MAX, 1_000), RECEIVER, MINT, &signed_sysvar(u64::MAX, 1_000));
    assert_eq!(res, None);
    assert_eq!(c, ceiling);
    let mut c = chain();
    let res = payout::try_handler(&config(), &token(true, "usdt"), &mut c, args(7, 1_000), RECEIVER, MINT, &signed_sysvar(7, 1_000));
    assert!(matches!(res, Some(Ok(Some(_)))));
    assert_eq!(c.payout_nonce, 8);
}

#[test]
fn try_payout_sol_stops_where_the_counter_cannot_move_on() {
    let ceiling = ChainConfig { payout_nonce: u64::MAX, ..chain() };
    let mut c = ceiling;
    let msg = message(b"sol", u64::MAX, 2_000);
    let data = sysvar(&secp256k1_program::ID, &secp_data(0, &SIGNER, &msg, &[0x5c; 64], 1), 1);
    let a = PayoutSolArgs { from_chain_id: 56, amount: 2_000, magic: MAGIC, nonce: u64::MAX, signature: [0x5c; 64], recovery_id: 1 };
    assert_eq!(payout_sol::try_handler(&config(), &token(true, "sol"), &mut c, a.clone(), RECEIVER, &data), None);
    assert_eq!(c, ceiling);
    let res = payout_sol::try_handler(&config(), &token(true, "sol"), &mut c, a, RECEIVER, &[0, 0]);
    assert_eq!(res, Some(Err(PayoutError::Code(ErrorCode::MissingSecp256k1Instruction))));
}
