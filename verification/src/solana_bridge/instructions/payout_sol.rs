use crate::solana_bridge::error::{ErrorCode, PayoutError};
use crate::solana_bridge::instructions::cash_out_sol::SOL_TOKEN_NAME;
use crate::solana_bridge::instructions::payout::{after_payout, check_payout, payout_check, PayoutEvent};
use crate::solana_bridge::state::{ChainConfig, SystemConfig, TokenConfig};
use crate::solana_bridge::utils::{payout_message, payout_message_bytes};
use vstd::prelude::*;
use vstd::utf8::encode_utf8;

verus! {

/// Address of the system program, which stands for the native coin's mint
/// in payout events.
pub const SYSTEM_PROGRAM_ID: [u8; 32] = [
    0, 0, 0, 0, 0, 0, 0, 0, 0, 0, 0, 0, 0, 0, 0, 0,
    0, 0, 0, 0, 0, 0, 0, 0, 0, 0, 0, 0, 0, 0, 0, 0,
];

/// A native payout request, signed by the manager like a token payout.
#[derive(Debug, Clone, PartialEq, Eq)]
pub struct PayoutSolArgs {
    pub from_chain_id: u64,
    pub amount: u64,
    pub magic: [u8; 8],
    pub nonce: u64,
    pub signature: [u8; 64],
    pub recovery_id: u8,
}

/// An approved native payout: move `lamports` from the native vault to the
/// receiver, then publish `event`.
#[derive(Debug, Clone, PartialEq, Eq)]
pub struct PayoutSol {
    pub lamports: u64,
    pub event: PayoutEvent,
}

/// The message the manager signs for a native payout of `args` to
/// `receiver`: the token name in it is that of the native coin.
pub open spec fn payout_sol_message_of(args: PayoutSolArgs, receiver: [u8; 32]) -> Seq<u8> {
    payout_message_bytes(
        args.magic@,
        args.nonce,
        encode_utf8(SOL_TOKEN_NAME@),
        receiver@,
        args.amount,
        args.from_chain_id,
    )
}

/// The outcome of the payout checks for a native payout.
pub open spec fn payout_sol_check_of(
    config: SystemConfig,
    token_config: TokenConfig,
    chain: ChainConfig,
    args: PayoutSolArgs,
    receiver: [u8; 32],
    sysvar: Seq<u8>,
) -> Result<bool, PayoutError> {
    payout_check(
        token_config.enabled,
        chain.payout_nonce,
        args.nonce,
        sysvar,
        config.secp256k1_manager@,
        payout_sol_message_of(args, receiver),
        args.signature@,
        args.recovery_id,
    )
}

/// What a native payout does with the checks' outcome: a refusal is
/// returned with the chain unchanged, a disabled native token does nothing,
/// and a payout that passes moves `amount` lamports to `receiver`,
/// publishes its event and moves the payout nonce on by one.
pub open spec fn payout_sol_outcome(
    config: SystemConfig,
    token_config: TokenConfig,
    chain: ChainConfig,
    args: PayoutSolArgs,
    receiver: [u8; 32],
    sysvar: Seq<u8>,
    res: Result<Option<PayoutSol>, PayoutError>,
    new_chain: ChainConfig,
) -> bool {
    match payout_sol_check_of(config, token_config, chain, args, receiver, sysvar) {
        Err(e) => res == Err::<Option<PayoutSol>, PayoutError>(e) && new_chain == chain,
        Ok(false) => res == Ok::<Option<PayoutSol>, PayoutError>(None) && new_chain == chain,
        Ok(true) => {
            &&& res matches Ok(Some(p))
            &&& p.lamports == args.amount
            &&& p.event.nonce == args.nonce
            &&& p.event.token_name@ == SOL_TOKEN_NAME@
            &&& p.event.target == receiver
            &&& p.event.token_mint == SYSTEM_PROGRAM_ID
            &&& p.event.amount == args.amount
            &&& p.event.from_chain_id == args.from_chain_id
            &&& new_chain == after_payout(chain)
        },
    }
}

/// Pays out native coin from the vault, under the same checks as a token
/// payout. When they pass, `amount` lamports are to move to `receiver` and
/// the chain's payout nonce has moved on by one; when the native token is
/// disabled nothing happens; otherwise the refusal is returned and the chain
/// state is unchanged.
pub fn handler(
    config: &SystemConfig,
    token_config: &TokenConfig,
    chain_config: &mut ChainConfig,
    args: PayoutSolArgs,
    receiver: [u8; 32],
    sysvar: &[u8],
) -> (res: Result<Option<PayoutSol>, PayoutError>)
    requires
        token_config.enabled && old(chain_config).payout_nonce == args.nonce ==> sysvar@.len()
            >= 2,
        payout_sol_check_of(*config, *token_config, *old(chain_config), args, receiver, sysvar@) == Ok::<
            bool,
            PayoutError,
        >(true) ==> old(chain_config).payout_nonce < u64::MAX,
    ensures
        payout_sol_outcome(
            *config,
            *token_config,
            *old(chain_config),
            args,
            receiver,
            sysvar@,
            res,
            *final(chain_config),
        ),
{
    let message = payout_message(
        &args.magic,
        args.nonce,
        SOL_TOKEN_NAME.as_bytes(),
        &receiver,
        args.amount,
        args.from_chain_id,
    );
    let checked = check_payout(
        token_config.enabled,
        chain_config.payout_nonce,
        args.nonce,
        sysvar,
        &config.secp256k1_manager,
        message.as_slice(),
        &args.signature,
        args.recovery_id,
    );
    match checked {
        Err(e) => Err(e),
        Ok(false) => Ok(None),
        Ok(true) => {
            chain_config.increase_payout_nonce();
            let event = PayoutEvent {
                nonce: args.nonce,
                token_name: SOL_TOKEN_NAME.to_owned(),
                target: receiver,
                token_mint: SYSTEM_PROGRAM_ID,
                amount: args.amount,
                from_chain_id: args.from_chain_id,
            };
            Ok(Some(PayoutSol { lamports: args.amount, event }))
        },
    }
}

/// Pays out native coin like `handler`, except where the request passes
/// every check while the chain's payout nonce is already `u64::MAX`, so that
/// it cannot move on: then `None`, with the chain state unchanged.
pub fn try_handler(
    config: &SystemConfig,
    token_config: &TokenConfig,
    chain_config: &mut ChainConfig,
    args: PayoutSolArgs,
    receiver: [u8; 32],
    sysvar: &[u8],
) -> (res: Option<Result<Option<PayoutSol>, PayoutError>>)
    requires
        token_config.enabled && old(chain_config).payout_nonce == args.nonce ==> sysvar@.len()
            >= 2,
    ensures
        res is None <==> (payout_sol_check_of(
            *config,
            *token_config,
            *old(chain_config),
            args,
            receiver,
            sysvar@,
        ) == Ok::<bool, PayoutError>(true) && old(chain_config).payout_nonce == u64::MAX),
        res is None ==> *final(chain_config) == *old(chain_config),
        res matches Some(r) ==> payout_sol_outcome(
            *config,
            *token_config,
            *old(chain_config),
            args,
            receiver,
            sysvar@,
            r,
            *final(chain_config),
        ),
{
    if chain_config.payout_nonce == u64::MAX {
        let message = payout_message(
            &args.magic,
            args.nonce,
            SOL_TOKEN_NAME.as_bytes(),
            &receiver,
            args.amount,
            args.from_chain_id,
        );
        let checked = check_payout(
            token_config.enabled,
            chain_config.payout_nonce,
            args.nonce,
            sysvar,
            &config.secp256k1_manager,
            message.as_slice(),
            &args.signature,
            args.recovery_id,
        );
        if let Ok(true) = checked {
            return None;
        }
    }
    Some(handler(config, token_config, chain_config, args, receiver, sysvar))
}

/// Moves `amount` lamports out of the native vault into the receiver. The
/// vault must hold them and the receiver's balance must not overflow; the
/// two balances together are unchanged.
pub fn transfer_vault_lamports(vault: &mut u64, receiver: &mut u64, amount: u64)
    requires
        amount <= *old(vault),
        *old(receiver) + amount <= u64::MAX,
    ensures
        *final(vault) == *old(vault) - amount,
        *final(receiver) == *old(receiver) + amount,
        *final(vault) + *final(receiver) == *old(vault) + *old(receiver),
{
    *vault = *vault - amount;
    *receiver = *receiver + amount;
}

/// A native payout cannot be made twice: the same request against the
/// chain state it left behind is refused with `InvalidPayoutNonce`.
pub proof fn lemma_payout_sol_not_replayable(
    config: SystemConfig,
    token_config: TokenConfig,
    chain: ChainConfig,
    args: PayoutSolArgs,
    receiver: [u8; 32],
    sysvar: Seq<u8>,
    later_sysvar: Seq<u8>,
)
    requires
        payout_sol_check_of(config, token_config, chain, args, receiver, sysvar) == Ok::<
            bool,
            PayoutError,
        >(true),
    ensures
        payout_sol_check_of(config, token_config, after_payout(chain), args, receiver, later_sysvar)
            == Err::<bool, PayoutError>(PayoutError::Code(ErrorCode::InvalidPayoutNonce)),
{
    let n = chain.payout_nonce;
    assert((n + 1) as u64 != n) by (bit_vector);
}

/// Lamports the native vault pays the receiver on an outcome of a native
/// payout: the approved amount, nothing when it was refused or skipped.
pub open spec fn vault_payout_of(res: Result<Option<PayoutSol>, PayoutError>) -> int {
    match res {
        Ok(Some(p)) => p.lamports as int,
        _ => 0,
    }
}

/// Lamports are moved, never made: whatever a native payout's outcome, the
/// vault and the receiver together hold as much after it as before; exactly
/// the requested amount moves when the checks pass, and nothing otherwise.
pub proof fn lemma_payout_sol_conserves_lamports(
    config: SystemConfig,
    token_config: TokenConfig,
    chain: ChainConfig,
    args: PayoutSolArgs,
    receiver: [u8; 32],
    sysvar: Seq<u8>,
    res: Result<Option<PayoutSol>, PayoutError>,
    new_chain: ChainConfig,
    vault_lamports: int,
    receiver_lamports: int,
)
    requires
        payout_sol_outcome(config, token_config, chain, args, receiver, sysvar, res, new_chain),
    ensures
        (vault_lamports - vault_payout_of(res)) + (receiver_lamports + vault_payout_of(res))
            == vault_lamports + receiver_lamports,
        vault_payout_of(res) == if payout_sol_check_of(
            config,
            token_config,
            chain,
            args,
            receiver,
            sysvar,
        ) == Ok::<bool, PayoutError>(true) {
            args.amount as int
        } else {
            0
        },
{
}

/// A native payout is signed over the payout message whose token name is
/// the three bytes `sol`, checked by the manager's address with the
/// request's own signature and recovery id.
pub proof fn lemma_payout_sol_signs_native_name(
    config: SystemConfig,
    token_config: TokenConfig,
    chain: ChainConfig,
    args: PayoutSolArgs,
    receiver: [u8; 32],
    sysvar: Seq<u8>,
)
    ensures
        payout_sol_message_of(args, receiver) == payout_message_bytes(
            args.magic@,
            args.nonce,
            seq![115u8, 111u8, 108u8],
            receiver@,
            args.amount,
            args.from_chain_id,
        ),
        payout_sol_check_of(config, token_config, chain, args, receiver, sysvar) == payout_check(
            token_config.enabled,
            chain.payout_nonce,
            args.nonce,
            sysvar,
            config.secp256k1_manager@,
            payout_sol_message_of(args, receiver),
            args.signature@,
            args.recovery_id,
        ),
{
    reveal_strlit("sol");
    assert(vstd::string::is_ascii(SOL_TOKEN_NAME));
    vstd::string::is_ascii_spec_bytes(SOL_TOKEN_NAME);
    assert(encode_utf8(SOL_TOKEN_NAME@) =~= seq![115u8, 111u8, 108u8]);
}

} // verus!
