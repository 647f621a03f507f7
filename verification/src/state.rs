//! The adapter's one persisted record and its audit events.
//!
//! The configuration record is a singleton: created exactly once, read by
//! every later swap-and-forward call, never mutated afterwards.

use vstd::prelude::*;

use crate::error::SwapError;
use crate::ids::AccountId;

verus! {

/// The singleton configuration record: the fixed forwarding destination, the
/// seed-verifier bytes of the two program-derived addresses, and the
/// exactly-once initialization flag.
#[derive(Clone, Copy, Debug)]
pub struct ProgramState {
    /// Identity of the account that performed initialization.
    pub owner: AccountId,
    /// Token account that receives all swap proceeds. Fixed for the life of
    /// the deployment.
    pub forward_address: AccountId,
    /// Mint of the token accepted as swap input.
    pub input_mint: AccountId,
    /// Placeholder pool identity, recorded as zero at initialization.
    pub pool_id: AccountId,
    /// Identity of the program-derived authority account.
    pub pool_authority: AccountId,
    /// Placeholder vault identity, recorded as zero at initialization.
    pub pool_input_vault: AccountId,
    /// Placeholder vault identity, recorded as zero at initialization.
    pub pool_output_vault: AccountId,
    /// Placeholder program-held token account, recorded as zero at initialization.
    pub program_token_account: AccountId,
    /// Verifier byte of the derived signing authority.
    pub authority_bump: u8,
    /// Verifier byte of the record's own derived address.
    pub bump: u8,
    /// True once initialization has run; never reset.
    pub initialized: bool,
}

impl ProgramState {
    /// Populates the record if and only if it has never been initialized.
    ///
    /// The `initialized` flag is checked before any field is written, so a
    /// second attempt fails with `AlreadyInitialized` and leaves the record
    /// byte-for-byte unchanged.
    pub fn initialize(
        &mut self,
        owner: AccountId,
        forward_address: AccountId,
        input_mint: AccountId,
        pool_id: AccountId,
        pool_authority: AccountId,
        pool_input_vault: AccountId,
        pool_output_vault: AccountId,
        program_token_account: AccountId,
        authority_bump: u8,
        bump: u8,
    ) -> (r: Result<(), SwapError>)
        ensures
            old(self).initialized ==> r == Err::<(), SwapError>(SwapError::AlreadyInitialized)
                && *final(self) == *old(self),
            !old(self).initialized ==> r == Ok::<(), SwapError>(())
                && *final(self) == (ProgramState {
                    owner,
                    forward_address,
                    input_mint,
                    pool_id,
                    pool_authority,
                    pool_input_vault,
                    pool_output_vault,
                    program_token_account,
                    authority_bump,
                    bump,
                    initialized: true,
                }),
    {
        if self.initialized {
            return Err(SwapError::AlreadyInitialized);
        }

        self.owner = owner;
        self.forward_address = forward_address;
        self.input_mint = input_mint;
        self.pool_id = pool_id;
        self.pool_authority = pool_authority;
        self.pool_input_vault = pool_input_vault;
        self.pool_output_vault = pool_output_vault;
        self.program_token_account = program_token_account;
        self.authority_bump = authority_bump;
        self.bump = bump;
        self.initialized = true;

        Ok(())
    }
}

/// Audit record emitted after the external swap has completed.
#[derive(Clone, Debug, PartialEq, Eq)]
pub struct SwapEvent {
    pub user: AccountId,
    pub amount_in: u64,
    pub amount_out: u64,
    pub timestamp: i64,
    pub slippage: u64,
    pub pool_id: AccountId,
}

/// Audit record emitted after the proceeds have been forwarded.
#[derive(Clone, Debug, PartialEq, Eq)]
pub struct ForwardEvent {
    pub to_address: AccountId,
    pub amount: u64,
    pub timestamp: i64,
    pub tx_signature: String,
}

} // verus!
