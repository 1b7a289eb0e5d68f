use crate::solana_bridge::error::{ErrorCode, PayoutError};
use crate::solana_bridge::instructions_sysvar::{
    current_index_in,
    load_current_index,
    load_instruction_at,
    sysvar_instruction_at,
    SysvarReadError,
};
use crate::solana_bridge::state::{ChainConfig, SystemConfig, TokenConfig};
use crate::solana_bridge::utils::{
    payout_message,
    secp256k1_ix_data,
    SECP256K1_PROGRAM_ID,
    payout_message_bytes,
    secp256k1_ix_matches,
    verify_secp256k1_ix,
};
use vstd::prelude::*;
use vstd::utf8::encode_utf8;

verus! {

/// A payout request: `amount` of `token_name` arriving from chain
/// `from_chain_id`, with the manager's secp256k1 signature over the payout
/// message.
#[derive(Debug, Clone, PartialEq, Eq)]
pub struct PayoutArgs {
    pub token_name: String,
    pub from_chain_id: u64,
    pub amount: u64,
    pub magic: [u8; 8],
    pub nonce: u64,
    pub signature: [u8; 64],
    pub recovery_id: u8,
}

/// Published for every payout made.
#[derive(Debug, Clone, PartialEq, Eq)]
pub struct PayoutEvent {
    pub nonce: u64,
    pub token_name: String,
    pub target: [u8; 32],
    pub token_mint: [u8; 32],
    pub amount: u64,
    pub from_chain_id: u64,
}

/// An approved token payout: mint `mint_amount` to the receiver's token
/// account, then publish `event`.
#[derive(Debug, Clone, PartialEq, Eq)]
pub struct Payout {
    pub mint_amount: u64,
    pub event: PayoutEvent,
}

/// The checks that gate a payout, in the order they are made: a disabled
/// token ends the instruction quietly (`Ok(false)`); the request must carry
/// the chain's next payout nonce; an instruction must precede the running
/// one; and that instruction must be the secp256k1 check, by the manager's
/// address, of `signature` over exactly `message` (`Ok(true)`).
pub open spec fn payout_check(
    enabled: bool,
    payout_nonce: u64,
    nonce: u64,
    sysvar: Seq<u8>,
    signer: Seq<u8>,
    message: Seq<u8>,
    signature: Seq<u8>,
    recovery_id: u8,
) -> Result<bool, PayoutError> {
    if !enabled {
        Ok(false)
    } else if payout_nonce != nonce {
        Err(PayoutError::Code(ErrorCode::InvalidPayoutNonce))
    } else if current_index_in(sysvar) == 0 {
        Err(PayoutError::Code(ErrorCode::MissingSecp256k1Instruction))
    } else {
        let index = current_index_in(sysvar) - 1;
        match sysvar_instruction_at(index, sysvar) {
            Err(SysvarReadError::IndexOutOfBounds) => Err(PayoutError::InvalidArgument),
            Err(SysvarReadError::ValueOutOfBounds) => Err(PayoutError::InvalidInstructionData),
            Err(SysvarReadError::InvalidValue) => Err(PayoutError::InvalidInstructionData),
            Ok((program_id, num_accounts, data)) => if secp256k1_ix_matches(
                program_id,
                num_accounts,
                data,
                (index % 256) as u8,
                signer,
                message,
                signature,
                recovery_id,
            ) {
                Ok(true)
            } else {
                Err(PayoutError::Code(ErrorCode::SigVerificationFailed))
            },
        }
    }
}

/// Makes the checks of `payout_check` against the instructions sysvar data.
/// The index of the secp256k1 instruction, taken as a byte, is the one its
/// data must refer to.
pub fn check_payout(
    enabled: bool,
    payout_nonce: u64,
    nonce: u64,
    sysvar: &[u8],
    signer: &[u8; 20],
    message: &[u8],
    signature: &[u8; 64],
    recovery_id: u8,
) -> (res: Result<bool, PayoutError>)
    requires
        enabled && payout_nonce == nonce ==> sysvar@.len() >= 2,
    ensures
        res == payout_check(
            enabled,
            payout_nonce,
            nonce,
            sysvar@,
            signer@,
            message@,
            signature@,
            recovery_id,
        ),
{
    if !enabled {
        return Ok(false);
    }
    if payout_nonce != nonce {
        return Err(PayoutError::Code(ErrorCode::InvalidPayoutNonce));
    }
    let current_index = load_current_index(sysvar);
    if current_index == 0 {
        return Err(PayoutError::Code(ErrorCode::MissingSecp256k1Instruction));
    }
    let index = current_index - 1;
    match load_instruction_at(index, sysvar) {
        Err(SysvarReadError::IndexOutOfBounds) => Err(PayoutError::InvalidArgument),
        Err(SysvarReadError::ValueOutOfBounds) => Err(PayoutError::InvalidInstructionData),
        Err(SysvarReadError::InvalidValue) => Err(PayoutError::InvalidInstructionData),
        Ok(ix) => {
            match verify_secp256k1_ix(
                &ix,
                (index % 256) as u8,
                signer,
                message,
                signature,
                recovery_id,
            ) {
                Ok(()) => Ok(true),
                Err(code) => Err(PayoutError::Code(code)),
            }
        },
    }
}

/// The message the manager signs for `args` paid to `receiver`.
pub open spec fn payout_message_of(args: PayoutArgs, receiver: [u8; 32]) -> Seq<u8> {
    payout_message_bytes(
        args.magic@,
        args.nonce,
        encode_utf8(args.token_name@),
        receiver@,
        args.amount,
        args.from_chain_id,
    )
}

/// The outcome of the payout checks for `args` against `chain`.
pub open spec fn payout_check_of(
    config: SystemConfig,
    token_config: TokenConfig,
    chain: ChainConfig,
    args: PayoutArgs,
    receiver: [u8; 32],
    sysvar: Seq<u8>,
) -> Result<bool, PayoutError> {
    payout_check(
        token_config.enabled,
        chain.payout_nonce,
        args.nonce,
        sysvar,
        config.secp256k1_manager@,
        payout_message_of(args, receiver),
        args.signature@,
        args.recovery_id,
    )
}

/// The chain state after a payout was made.
pub open spec fn after_payout(chain: ChainConfig) -> ChainConfig {
    ChainConfig { payout_nonce: (chain.payout_nonce + 1) as u64, ..chain }
}

/// What a token payout does with the checks' outcome: a refusal is returned
/// with the chain unchanged, a disabled token does nothing, and a payout
/// that passes mints `amount` to `receiver`, publishes its event and moves
/// the payout nonce on by one.
pub open spec fn payout_outcome(
    config: SystemConfig,
    token_config: TokenConfig,
    chain: ChainConfig,
    args: PayoutArgs,
    receiver: [u8; 32],
    token_mint: [u8; 32],
    sysvar: Seq<u8>,
    res: Result<Option<Payout>, PayoutError>,
    new_chain: ChainConfig,
) -> bool {
    match payout_check_of(config, token_config, chain, args, receiver, sysvar) {
        Err(e) => res == Err::<Option<Payout>, PayoutError>(e) && new_chain == chain,
        Ok(false) => res == Ok::<Option<Payout>, PayoutError>(None) && new_chain == chain,
        Ok(true) => {
            &&& res matches Ok(Some(p))
            &&& p.mint_amount == args.amount
            &&& p.event.nonce == args.nonce
            &&& p.event.token_name@ == args.token_name@
            &&& p.event.target == receiver
            &&& p.event.token_mint == token_mint
            &&& p.event.amount == args.amount
            &&& p.event.from_chain_id == args.from_chain_id
            &&& new_chain == after_payout(chain)
        },
    }
}

/// Pays out bridged tokens. When the checks pass, `amount` is to be minted
/// to `receiver` and the chain's payout nonce has moved on by one; when the
/// token is disabled nothing happens; otherwise the refusal is returned and
/// the chain state is unchanged.
pub fn handler(
    config: &SystemConfig,
    token_config: &TokenConfig,
    chain_config: &mut ChainConfig,
    args: PayoutArgs,
    receiver: [u8; 32],
    token_mint: [u8; 32],
    sysvar: &[u8],
) -> (res: Result<Option<Payout>, PayoutError>)
    requires
        token_config.enabled && old(chain_config).payout_nonce == args.nonce ==> sysvar@.len()
            >= 2,
        payout_check_of(*config, *token_config, *old(chain_config), args, receiver, sysvar@) == Ok::<
            bool,
            PayoutError,
        >(true) ==> old(chain_config).payout_nonce < u64::MAX,
    ensures
        payout_outcome(
            *config,
            *token_config,
            *old(chain_config),
            args,
            receiver,
            token_mint,
            sysvar@,
            res,
            *final(chain_config),
        ),
{
    let message = payout_message(
        &args.magic,
        args.nonce,
        args.token_name.as_str().as_bytes(),
        &receiver,
        args.amount,
        args.from_chain_id,
    );
    let checked = check_payout(
        token_config.enabled,
        chain_config.payout_nonce,
        args.nonce,
        sysvar,
        &config.secp256k1_manager,
        message.as_slice(),
        &args.signature,
        args.recovery_id,
    );
    match checked {
        Err(e) => Err(e),
        Ok(false) => Ok(None),
        Ok(true) => {
            chain_config.increase_payout_nonce();
            let event = PayoutEvent {
                nonce: args.nonce,
                token_name: args.token_name,
                target: receiver,
                token_mint,
                amount: args.amount,
                from_chain_id: args.from_chain_id,
            };
            Ok(Some(Payout { mint_amount: args.amount, event }))
        },
    }
}

/// Pays out bridged tokens like `handler`, except where the request passes
/// every check while the chain's payout nonce is already `u64::MAX`, so that
/// it cannot move on: then `None`, with the chain state unchanged.
pub fn try_handler(
    config: &SystemConfig,
    token_config: &TokenConfig,
    chain_config: &mut ChainConfig,
    args: PayoutArgs,
    receiver: [u8; 32],
    token_mint: [u8; 32],
    sysvar: &[u8],
) -> (res: Option<Result<Option<Payout>, PayoutError>>)
    requires
        token_config.enabled && old(chain_config).payout_nonce == args.nonce ==> sysvar@.len()
            >= 2,
    ensures
        res is None <==> (payout_check_of(
            *config,
            *token_config,
            *old(chain_config),
            args,
            receiver,
            sysvar@,
        ) == Ok::<bool, PayoutError>(true) && old(chain_config).payout_nonce == u64::MAX),
        res is None ==> *final(chain_config) == *old(chain_config),
        res matches Some(r) ==> payout_outcome(
            *config,
            *token_config,
            *old(chain_config),
            args,
            receiver,
            token_mint,
            sysvar@,
            r,
            *final(chain_config),
        ),
{
    if chain_config.payout_nonce == u64::MAX {
        let message = payout_message(
            &args.magic,
            args.nonce,
            args.token_name.as_str().as_bytes(),
            &receiver,
            args.amount,
            args.from_chain_id,
        );
        let checked = check_payout(
            token_config.enabled,
            chain_config.payout_nonce,
            args.nonce,
            sysvar,
            &config.secp256k1_manager,
            message.as_slice(),
            &args.signature,
            args.recovery_id,
        );
        if let Ok(true) = checked {
            return None;
        }
    }
    Some(handler(config, token_config, chain_config, args, receiver, token_mint, sysvar))
}

/// A payout cannot be made twice: once a request went through, the same
/// request against the chain state it left behind is refused with
/// `InvalidPayoutNonce`, whatever instructions accompany it then.
pub proof fn lemma_payout_not_replayable(
    config: SystemConfig,
    token_config: TokenConfig,
    chain: ChainConfig,
    args: PayoutArgs,
    receiver: [u8; 32],
    sysvar: Seq<u8>,
    later_sysvar: Seq<u8>,
)
    requires
        payout_check_of(config, token_config, chain, args, receiver, sysvar) == Ok::<
            bool,
            PayoutError,
        >(true),
    ensures
        payout_check_of(config, token_config, after_payout(chain), args, receiver, later_sysvar)
            == Err::<bool, PayoutError>(PayoutError::Code(ErrorCode::InvalidPayoutNonce)),
{
    let n = chain.payout_nonce;
    assert((n + 1) as u64 != n) by (bit_vector);
}

/// Only the request carrying the chain's payout nonce can be paid: any
/// other nonce for an enabled token is refused with `InvalidPayoutNonce`
/// before the signature is looked at.
pub proof fn lemma_payout_needs_current_nonce(
    config: SystemConfig,
    token_config: TokenConfig,
    chain: ChainConfig,
    args: PayoutArgs,
    receiver: [u8; 32],
    sysvar: Seq<u8>,
)
    requires
        token_config.enabled,
        args.nonce != chain.payout_nonce,
    ensures
        payout_check_of(config, token_config, chain, args, receiver, sysvar) == Err::<
            bool,
            PayoutError,
        >(PayoutError::Code(ErrorCode::InvalidPayoutNonce)),
{
}

/// Payouts from one chain are numbered consecutively: after a payout the
/// chain expects the next nonce, and payouts leave the cash-out counter and
/// everything else alone.
pub proof fn lemma_payouts_numbered_consecutively(chain: ChainConfig)
    requires
        chain.payout_nonce < u64::MAX,
    ensures
        after_payout(chain).payout_nonce == chain.payout_nonce + 1,
        after_payout(chain).cash_out_nonce == chain.cash_out_nonce,
        after_payout(chain).chain_id == chain.chain_id,
        after_payout(chain).enabled == chain.enabled,
{
}

/// The secp256k1 instruction is checked against its own position: whatever
/// instruction `k` precedes the payout, the checks pass when it is the
/// secp256k1 program's check, by the manager's address, of the signature
/// over the message, with every part taken from instruction `k` (as a byte).
pub proof fn lemma_payout_check_accepts_preceding_signature_check(
    nonce: u64,
    sysvar: Seq<u8>,
    signer: Seq<u8>,
    message: Seq<u8>,
    signature: Seq<u8>,
    recovery_id: u8,
    k: int,
)
    requires
        0 <= k,
        current_index_in(sysvar) == k + 1,
        message.len() <= u16::MAX,
        sysvar_instruction_at(k, sysvar) == Ok::<(Seq<u8>, int, Seq<u8>), SysvarReadError>(
            (
                SECP256K1_PROGRAM_ID@,
                0,
                secp256k1_ix_data((k % 256) as u8, signer, message, signature, recovery_id),
            ),
        ),
    ensures
        payout_check(true, nonce, nonce, sysvar, signer, message, signature, recovery_id) == Ok::<
            bool,
            PayoutError,
        >(true),
{
}

/// A payout passes its checks only when the instruction right before it is
/// the secp256k1 program's check, naming no account, of the manager's
/// signature over exactly the message, with every part taken from that
/// instruction's own position.
pub proof fn lemma_payout_check_requires_preceding_signature_check(
    enabled: bool,
    payout_nonce: u64,
    nonce: u64,
    sysvar: Seq<u8>,
    signer: Seq<u8>,
    message: Seq<u8>,
    signature: Seq<u8>,
    recovery_id: u8,
)
    requires
        payout_check(
            enabled,
            payout_nonce,
            nonce,
            sysvar,
            signer,
            message,
            signature,
            recovery_id,
        ) == Ok::<bool, PayoutError>(true),
    ensures
        enabled,
        payout_nonce == nonce,
        current_index_in(sysvar) >= 1,
        sysvar_instruction_at(current_index_in(sysvar) - 1, sysvar) == Ok::<
            (Seq<u8>, int, Seq<u8>),
            SysvarReadError,
        >(
            (
                SECP256K1_PROGRAM_ID@,
                0,
                secp256k1_ix_data(
                    ((current_index_in(sysvar) - 1) % 256) as u8,
                    signer,
                    message,
                    signature,
                    recovery_id,
                ),
            ),
        ),
{
    let index = current_index_in(sysvar) - 1;
    assert(sysvar_instruction_at(index, sysvar) is Ok);
}

/// A token payout is signed over the payout message of the request's own
/// magic, nonce, UTF-8 token name, amount and source chain with the
/// receiver, checked by the manager's address with the request's own
/// signature and recovery id against the chain's payout nonce.
pub proof fn lemma_payout_signs_its_own_request(
    config: SystemConfig,
    token_config: TokenConfig,
    chain: ChainConfig,
    args: PayoutArgs,
    receiver: [u8; 32],
    sysvar: Seq<u8>,
)
    ensures
        payout_message_of(args, receiver) == payout_message_bytes(
            args.magic@,
            args.nonce,
            encode_utf8(args.token_name@),
            receiver@,
            args.amount,
            args.from_chain_id,
        ),
        payout_check_of(config, token_config, chain, args, receiver, sysvar) == payout_check(
            token_config.enabled,
            chain.payout_nonce,
            args.nonce,
            sysvar,
            config.secp256k1_manager@,
            payout_message_of(args, receiver),
            args.signature@,
            args.recovery_id,
        ),
{
}

} // verus!
