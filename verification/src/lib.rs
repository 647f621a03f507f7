//! A verified model of an on-chain settlement adapter: it accepts one deposit,
//! routes it through an external liquidity pool to execute a swap, and forwards
//! the entire proceeds to a fixed, program-configured destination in the same
//! atomic call. It never custodies value across calls.
//!
//! The platform edges — account loading, the cross-program calls into the
//! exchange and the token ledger, event transport — live outside this crate;
//! every decision the adapter makes, and the balance transition of one whole
//! call for every possible report of those collaborators, is verified here.

use vstd::prelude::*;

pub mod authority;
pub mod error;
pub mod ids;
pub mod initialize;
pub mod state;
pub mod swap;
pub mod utils;

use crate::error::SwapError;
use crate::ids::AccountId;
use crate::state::ForwardEvent;
use crate::state::SwapEvent;

verus! {

/// Minimum native balance each pool vault must hold before a swap is attempted.
pub const MINIMUM_LIQUIDITY: u64 = 1000;

/// The program facade: one instruction to initialize, one to swap and
/// forward.
pub struct Jaja;

impl Jaja {
    /// The initialization entry point.
    pub fn initialize(ctx: &mut initialize::Initialize, forward_address: AccountId) -> (r: Result<
        (),
        SwapError,
    >)
        ensures
            initialize::init_post(*old(ctx), forward_address, *final(ctx), r),
    {
        initialize::handler(ctx, forward_address)
    }

    /// The swap-and-forward entry point.
    pub fn swap_and_forward(
        a: &swap::SwapAndForward,
        amount_in: u64,
        minimum_amount_out: u64,
        outcome: &swap::SwapOutcome,
        forward_delivered: bool,
        now: i64,
    ) -> (r: (swap::SwapAndForward, Result<(SwapEvent, ForwardEvent), swap::AbortReason>))
        ensures
            swap::swap_call_post(*a, amount_in, *outcome, forward_delivered, now, r.0, r.1),
    {
        swap::handler(a, amount_in, minimum_amount_out, outcome, forward_delivered, now)
    }
}

} // verus!
