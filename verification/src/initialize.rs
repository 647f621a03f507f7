//! The one-time initialization call: creates the configuration record,
//! fixing the forwarding destination and the derived-address verifier bytes
//! for the life of the deployment.

use vstd::prelude::*;

use crate::error::SwapError;
use crate::ids::AccountId;
use crate::state::ProgramState;

verus! {

/// The accounts of one initialization call, as plain values: the caller, the
/// record being created, the input mint, the derived authority, and the two
/// verifier bytes the platform derived for the record and the authority.
#[derive(Clone, Copy, Debug)]
pub struct Initialize {
    pub owner: AccountId,
    pub state: ProgramState,
    pub input_mint: AccountId,
    pub authority: AccountId,
    pub state_bump: u8,
    pub authority_bump: u8,
}

/// What one initialization call does: nothing but the record changes; a
/// record that is already initialized is left byte-for-byte unchanged and the
/// call fails; otherwise the record is populated — owner, forward address and
/// input mint from the call, the authority and the two verifier bytes from
/// the derivation, zero placeholders for the pool fields — and marked
/// initialized.
pub open spec fn init_post(
    pre: Initialize,
    forward_address: AccountId,
    post: Initialize,
    r: Result<(), SwapError>,
) -> bool {
    &&& post.owner == pre.owner
    &&& post.input_mint == pre.input_mint
    &&& post.authority == pre.authority
    &&& post.state_bump == pre.state_bump
    &&& post.authority_bump == pre.authority_bump
    &&& pre.state.initialized ==> r == Err::<(), SwapError>(SwapError::AlreadyInitialized)
        && post.state == pre.state
    &&& !pre.state.initialized ==> r == Ok::<(), SwapError>(()) && post.state.owner == pre.owner
        && post.state.forward_address == forward_address && post.state.input_mint == pre.input_mint
        && post.state.pool_id.is_zero() && post.state.pool_authority == pre.authority
        && post.state.pool_input_vault.is_zero() && post.state.pool_output_vault.is_zero()
        && post.state.program_token_account.is_zero() && post.state.authority_bump
        == pre.authority_bump && post.state.bump == pre.state_bump && post.state.initialized
}

/// Creates the configuration record if and only if it does not already exist.
pub fn handler(ctx: &mut Initialize, forward_address: AccountId) -> (r: Result<(), SwapError>)
    ensures
        init_post(*old(ctx), forward_address, *final(ctx), r),
{
    let owner = ctx.owner;
    let input_mint = ctx.input_mint;
    let authority = ctx.authority;
    let state_bump = ctx.state_bump;
    let authority_bump = ctx.authority_bump;
    let zero = AccountId::zero();
    ctx.state.initialize(
        owner,
        forward_address,
        input_mint,
        zero,
        authority,
        zero,
        zero,
        zero,
        authority_bump,
        state_bump,
    )
}

/// Initialization is exactly once: a first call on an uninitialized record
/// succeeds and marks it initialized, and any later call, whatever its
/// argument, fails with `AlreadyInitialized` and leaves the record unchanged.
pub proof fn lemma_initialize_exactly_once(
    pre: Initialize,
    forward_address_1: AccountId,
    mid: Initialize,
    r1: Result<(), SwapError>,
    forward_address_2: AccountId,
    post: Initialize,
    r2: Result<(), SwapError>,
)
    requires
        !pre.state.initialized,
        init_post(pre, forward_address_1, mid, r1),
        init_post(mid, forward_address_2, post, r2),
    ensures
        r1 == Ok::<(), SwapError>(()),
        mid.state.initialized,
        r2 == Err::<(), SwapError>(SwapError::AlreadyInitialized),
        post.state == mid.state,
{
}

} // verus!
