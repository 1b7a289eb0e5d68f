use vstd::prelude::*;

verus! {

/// A bridged token: its name (the seed of the account), its mint and
/// whether cash-outs and payouts of it are processed.
#[derive(Debug, Clone, PartialEq, Eq)]
pub struct TokenConfig {
    pub enabled: bool,
    pub token_name: String,
    pub token_mint: [u8; 32],
}

impl TokenConfig {
    /// Largest token name, in bytes, that the account is sized for.
    pub const MAX_NAME_LEN: usize = 10;

    /// Serialized size of the account body for the largest name:
    /// flag, length-prefixed name, mint.
    pub const INIT_SPACE: usize = 47;

    /// Enables the token with the given mint and name.
    pub fn initialize(&mut self, token_mint: [u8; 32], token_name: String)
        ensures
            final(self).enabled,
            final(self).token_mint == token_mint,
            final(self).token_name@ == token_name@,
    {
        self.enabled = true;
        self.token_mint = token_mint;
        self.token_name = token_name;
    }
}

} // verus!
