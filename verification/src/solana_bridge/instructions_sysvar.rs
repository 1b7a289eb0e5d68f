use crate::solana_bridge::utils::LoadedInstruction;
use anchor_lang::solana_program::sanitize::SanitizeError;
use anchor_lang::solana_program::sysvar::instructions as sysvar_instructions;
use vstd::prelude::*;

verus! {

/// Why an instruction could not be read out of the instructions sysvar:
/// the index is past the transaction's instructions or the data ends early,
/// or a value read from it is out of range or invalid.
#[derive(Debug, Clone, Copy, PartialEq, Eq, Structural)]
pub enum SysvarReadError {
    IndexOutOfBounds,
    ValueOutOfBounds,
    InvalidValue,
}

/// The index of the running instruction: the last two bytes of the
/// instructions sysvar data, little-endian.
pub open spec fn current_index_in(data: Seq<u8>) -> u16 {
    (data[data.len() - 2] + 256 * data[data.len() - 1]) as u16
}

/// The instruction at `index` as the instructions sysvar data `data`
/// describes it: its program id, its number of accounts and its data.
pub uninterp spec fn sysvar_instruction_at(index: int, data: Seq<u8>) -> Result<
    (Seq<u8>, int, Seq<u8>),
    SysvarReadError,
>;

/// Reads the index of the running instruction (solana-program's
/// `sysvar::instructions::load_current_index`). Claimed: the result is the
/// little-endian value of the last two bytes; the function slices the last
/// two bytes, so shorter data is excluded.
#[verifier::external_body]
#[allow(deprecated)]
pub(crate) fn load_current_index(data: &[u8]) -> (index: u16)
    requires
        data@.len() >= 2,
    ensures
        index == current_index_in(data@),
{
    sysvar_instructions::load_current_index(data)
}

/// Reads the instruction at `index` (solana-program's
/// `sysvar::instructions::load_instruction_at`, which deserializes it from
/// the sysvar data). Claimed: the outcome is a function of `index` and the
/// data alone, named `sysvar_instruction_at`, with the crate's error
/// variants carried over one for one.
#[verifier::external_body]
#[allow(deprecated)]
pub(crate) fn load_instruction_at(index: u16, data: &[u8]) -> (res: Result<
    LoadedInstruction,
    SysvarReadError,
>)
    ensures
        match res {
            Ok(ix) => sysvar_instruction_at(index as int, data@) == Ok::<
                (Seq<u8>, int, Seq<u8>),
                SysvarReadError,
            >((ix.program_id@, ix.num_accounts as int, ix.data@)),
            Err(e) => sysvar_instruction_at(index as int, data@) == Err::<
                (Seq<u8>, int, Seq<u8>),
                SysvarReadError,
            >(e),
        },
{
    match sysvar_instructions::load_instruction_at(index as usize, data) {
        Ok(ix) => Ok(
            LoadedInstruction {
                program_id: ix.program_id.to_bytes(),
                num_accounts: ix.accounts.len(),
                data: ix.data,
            },
        ),
        Err(SanitizeError::IndexOutOfBounds) => Err(SysvarReadError::IndexOutOfBounds),
        Err(SanitizeError::ValueOutOfBounds) => Err(SysvarReadError::ValueOutOfBounds),
        Err(SanitizeError::InvalidValue) => Err(SysvarReadError::InvalidValue),
    }
}

} // verus!
