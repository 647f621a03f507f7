//! The swap-and-forward call: account binding, precondition checks, and the
//! ledger transition of one completed call.
//!
//! The external exchange and the token ledger perform the actual value
//! movement; what they report back (`SwapOutcome`, the delivery flag) is an
//! input here, and this module decides, for every possible report, what the
//! call's result and the resulting balances are.

use vstd::prelude::*;

use crate::authority::authority_binding_holds;
use crate::authority::check_authority_binding;
use crate::authority::check_state_binding;
use crate::authority::state_binding_holds;
use crate::error::SwapError;
use crate::ids::AccountId;
use crate::state::ForwardEvent;
use crate::state::ProgramState;
use crate::state::SwapEvent;
use crate::utils::validate_pool_liquidity;
use crate::MINIMUM_LIQUIDITY;

verus! {

/// A token account as the adapter reads it: its address, its mint, its token
/// balance and its native balance.
#[derive(Clone, Copy, Debug)]
pub struct TokenAccount {
    pub id: AccountId,
    pub mint: AccountId,
    pub amount: u64,
    pub lamports: u64,
}

/// The pool-state fields the adapter validates the supplied accounts against.
#[derive(Clone, Copy, Debug)]
pub struct Pool {
    pub id: AccountId,
    pub amm_config: AccountId,
    pub token_0_vault: AccountId,
    pub token_1_vault: AccountId,
    pub observation_key: AccountId,
}

/// The accounts of one swap-and-forward call, as plain values: the caller, the
/// configuration record, the derived authority, the pool and its vaults, the
/// three token accounts value moves through, and the program identity the
/// derived addresses are checked under.
#[derive(Clone, Copy, Debug)]
pub struct SwapAndForward {
    pub user: AccountId,
    pub state: ProgramState,
    pub state_id: AccountId,
    pub authority: AccountId,
    pub pool: Pool,
    pub input_token_account: TokenAccount,
    pub output_token_account: TokenAccount,
    pub forward_token_account: TokenAccount,
    pub input_vault: TokenAccount,
    pub output_vault: TokenAccount,
    pub input_token_mint: AccountId,
    pub output_token_mint: AccountId,
    pub amm_config_id: AccountId,
    pub observation_id: AccountId,
    pub program_id: AccountId,
}

/// Why one call aborted. Every abort is terminal: the surrounding transaction
/// boundary rolls back any token movement attempted so far.
#[derive(Clone, Copy, Debug, PartialEq, Eq, Structural)]
pub enum AbortReason {
    /// A supplied account does not match the binding recorded in pool state or
    /// the program's derived addresses.
    AccountMismatch,
    /// One of the adapter's own precondition checks failed.
    Rejected(SwapError),
    /// The external exchange refused or could not complete the swap.
    SwapFailed,
    /// The forwarding transfer could not be completed.
    ForwardFailed,
}

/// What the external exchange reported for one swap attempt.
#[derive(Clone, Copy, Debug, PartialEq, Eq, Structural)]
pub enum SwapOutcome {
    /// The swap completed and deposited this many output tokens into the
    /// staging account.
    Completed { amount_out: u64 },
    /// The exchange aborted the whole call.
    Refused,
}

/// The reported output of an outcome; zero for a refused swap.
pub open spec fn amount_out_of(o: SwapOutcome) -> u64 {
    match o {
        SwapOutcome::Completed { amount_out } => amount_out,
        SwapOutcome::Refused => 0u64,
    }
}

/// The structural bindings checked before any value moves: the record and the
/// authority re-derive from their stored verifier bytes, the forwarding
/// destination is the one fixed in the record at initialization, the vaults
/// are the ones the pool itself records, the mints match the vaults, and the
/// exchange-configuration and observation accounts are the ones recorded in
/// pool state.
pub open spec fn accounts_bound(a: SwapAndForward) -> bool {
    &&& state_binding_holds(a.state_id, a.state.bump, a.program_id)
    &&& authority_binding_holds(a.authority, a.state.authority_bump, a.program_id)
    &&& a.forward_token_account.id == a.state.forward_address
    &&& (a.input_vault.id == a.pool.token_0_vault || a.input_vault.id == a.pool.token_1_vault)
    &&& (a.output_vault.id == a.pool.token_0_vault || a.output_vault.id == a.pool.token_1_vault)
    &&& a.input_token_mint == a.input_vault.mint
    &&& a.output_token_mint == a.output_vault.mint
    &&& a.amm_config_id == a.pool.amm_config
    &&& a.observation_id == a.pool.observation_key
}

/// The first precondition the request violates, in the order the call checks
/// them, or `None` when all hold.
pub open spec fn precondition_error(a: SwapAndForward, amount_in: u64) -> Option<SwapError> {
    if amount_in == 0 {
        Some(SwapError::InvalidAmount)
    } else if a.input_token_account.amount < amount_in {
        Some(SwapError::InsufficientBalance)
    } else if a.input_vault.lamports < MINIMUM_LIQUIDITY || a.output_vault.lamports
        < MINIMUM_LIQUIDITY {
        Some(SwapError::InsufficientLiquidity)
    } else {
        None
    }
}

/// All preconditions hold.
pub open spec fn preconditions_hold(a: SwapAndForward, amount_in: u64) -> bool {
    precondition_error(a, amount_in) is None
}

/// The swap's own movements stay within the 64-bit ledger: the user can pay
/// `amount_in`, the vaults can absorb and supply the amounts, and the staging
/// balance fits.
pub open spec fn swap_fits(a: SwapAndForward, amount_in: u64, amount_out: u64) -> bool {
    &&& amount_in <= a.input_token_account.amount
    &&& a.input_vault.amount + amount_in <= u64::MAX
    &&& amount_out <= a.output_vault.amount
    &&& a.output_token_account.amount + amount_out <= u64::MAX
}

/// The forwarding transfer stays within the 64-bit ledger.
pub open spec fn forward_fits(a: SwapAndForward, amount_out: u64) -> bool {
    a.forward_token_account.amount + a.output_token_account.amount + amount_out <= u64::MAX
}

/// The balances after one completed call: the user paid `amount_in` into the
/// input vault, the output vault paid `amount_out` into the staging account,
/// and the staging account's entire balance moved on to the forward
/// destination, leaving it empty.
pub open spec fn settled(a: SwapAndForward, amount_in: u64, amount_out: u64) -> SwapAndForward {
    SwapAndForward {
        input_token_account: TokenAccount {
            amount: (a.input_token_account.amount - amount_in) as u64,
            ..a.input_token_account
        },
        input_vault: TokenAccount {
            amount: (a.input_vault.amount + amount_in) as u64,
            ..a.input_vault
        },
        output_vault: TokenAccount {
            amount: (a.output_vault.amount - amount_out) as u64,
            ..a.output_vault
        },
        output_token_account: TokenAccount { amount: 0u64, ..a.output_token_account },
        forward_token_account: TokenAccount {
            amount: (a.forward_token_account.amount + a.output_token_account.amount
                + amount_out) as u64,
            ..a.forward_token_account
        },
        ..a
    }
}

/// The audit record of a completed swap: the forwarded amount is the staging
/// account's entire post-swap balance, not the caller's minimum.
pub open spec fn swap_event_of(a: SwapAndForward, amount_in: u64, amount_out: u64, now: i64) -> SwapEvent {
    SwapEvent {
        user: a.user,
        amount_in: amount_in,
        amount_out: (a.output_token_account.amount + amount_out) as u64,
        timestamp: now,
        slippage: 0u64,
        pool_id: a.pool.id,
    }
}

/// Runs the account-binding checks and the precondition checks in the order
/// the call performs them, before any value moves.
pub fn validate(a: &SwapAndForward, amount_in: u64) -> (r: Result<(), AbortReason>)
    ensures
        !accounts_bound(*a) ==> r == Err::<(), AbortReason>(AbortReason::AccountMismatch),
        accounts_bound(*a) ==> r == (match precondition_error(*a, amount_in) {
            Some(e) => Err::<(), AbortReason>(AbortReason::Rejected(e)),
            None => Ok::<(), AbortReason>(()),
        }),
{
    let bound = check_state_binding(&a.state_id, a.state.bump, &a.program_id)
        && check_authority_binding(&a.authority, a.state.authority_bump, &a.program_id)
        && a.forward_token_account.id.eq_id(&a.state.forward_address)
        && (a.input_vault.id.eq_id(&a.pool.token_0_vault) || a.input_vault.id.eq_id(
            &a.pool.token_1_vault,
        ))
        && (a.output_vault.id.eq_id(&a.pool.token_0_vault) || a.output_vault.id.eq_id(
            &a.pool.token_1_vault,
        ))
        && a.input_token_mint.eq_id(&a.input_vault.mint)
        && a.output_token_mint.eq_id(&a.output_vault.mint)
        && a.amm_config_id.eq_id(&a.pool.amm_config)
        && a.observation_id.eq_id(&a.pool.observation_key);
    if !bound {
        return Err(AbortReason::AccountMismatch);
    }
    if amount_in == 0 {
        return Err(AbortReason::Rejected(SwapError::InvalidAmount));
    }
    if a.input_token_account.amount < amount_in {
        return Err(AbortReason::Rejected(SwapError::InsufficientBalance));
    }
    match validate_pool_liquidity(a.input_vault.lamports, a.output_vault.lamports) {
        Err(e) => Err(AbortReason::Rejected(e)),
        Ok(()) => Ok(()),
    }
}

/// Applies a completed swap's movements and drains the staging account to the
/// forward destination, or says which stage a 64-bit ledger could not carry
/// out.
pub fn settle_swap(a: &SwapAndForward, amount_in: u64, amount_out: u64, now: i64) -> (r: Result<
    (SwapAndForward, SwapEvent, ForwardEvent),
    AbortReason,
>)
    ensures
        !swap_fits(*a, amount_in, amount_out) ==> r == Err::<
            (SwapAndForward, SwapEvent, ForwardEvent),
            AbortReason,
        >(AbortReason::SwapFailed),
        swap_fits(*a, amount_in, amount_out) && !forward_fits(*a, amount_out) ==> r == Err::<
            (SwapAndForward, SwapEvent, ForwardEvent),
            AbortReason,
        >(AbortReason::ForwardFailed),
        swap_fits(*a, amount_in, amount_out) && forward_fits(*a, amount_out) ==> (r matches Ok(t)
            && t.0 == settled(*a, amount_in, amount_out)
            && t.1 == swap_event_of(*a, amount_in, amount_out, now)
            && t.2.to_address == a.forward_token_account.id
            && t.2.amount == swap_event_of(*a, amount_in, amount_out, now).amount_out
            && t.2.timestamp == now
            && t.2.tx_signature@.len() == 0),
{
    if amount_in > a.input_token_account.amount {
        return Err(AbortReason::SwapFailed);
    }
    if a.input_vault.amount > u64::MAX - amount_in {
        return Err(AbortReason::SwapFailed);
    }
    if amount_out > a.output_vault.amount {
        return Err(AbortReason::SwapFailed);
    }
    if a.output_token_account.amount > u64::MAX - amount_out {
        return Err(AbortReason::SwapFailed);
    }
    let staging_total = a.output_token_account.amount + amount_out;
    if a.forward_token_account.amount > u64::MAX - staging_total {
        return Err(AbortReason::ForwardFailed);
    }
    let post = SwapAndForward {
        input_token_account: TokenAccount {
            amount: a.input_token_account.amount - amount_in,
            ..a.input_token_account
        },
        input_vault: TokenAccount { amount: a.input_vault.amount + amount_in, ..a.input_vault },
        output_vault: TokenAccount { amount: a.output_vault.amount - amount_out, ..a.output_vault },
        output_token_account: TokenAccount { amount: 0u64, ..a.output_token_account },
        forward_token_account: TokenAccount {
            amount: a.forward_token_account.amount + staging_total,
            ..a.forward_token_account
        },
        ..*a
    };
    let swap_event = SwapEvent {
        user: a.user,
        amount_in,
        amount_out: staging_total,
        timestamp: now,
        slippage: 0u64,
        pool_id: a.pool.id,
    };
    let forward_event = ForwardEvent {
        to_address: a.forward_token_account.id,
        amount: staging_total,
        timestamp: now,
        tx_signature: "".to_owned(),
    };
    proof {
        reveal_strlit("");
    }
    Ok((post, swap_event, forward_event))
}

/// What one whole swap-and-forward call does, for every possible report of
/// the external collaborators.
///
/// On every abort the post-call balances are exactly the pre-call ones — the
/// transaction boundary rolls back — and the abort reason is pinned down:
/// account mismatches abort first, then the precondition checks in order,
/// then a refused or unaffordable swap, then an undeliverable forward. A call
/// succeeds exactly when the accounts are bound, the preconditions hold, the
/// exchange completed the swap, every movement fits the 64-bit ledger and the
/// forward was delivered; the balances are then `settled`, the staging
/// account is empty, the events carry the forwarded total, the destination
/// is the forward address fixed in the record, and the authority binding
/// held.
pub open spec fn swap_call_post(
    a: SwapAndForward,
    amount_in: u64,
    outcome: SwapOutcome,
    forward_delivered: bool,
    now: i64,
    post: SwapAndForward,
    res: Result<(SwapEvent, ForwardEvent), AbortReason>,
) -> bool {
    &&& res is Err ==> post == a
    &&& !accounts_bound(a) ==> res == Err::<(SwapEvent, ForwardEvent), AbortReason>(
        AbortReason::AccountMismatch,
    )
    &&& accounts_bound(a) && amount_in == 0 ==> res == Err::<
        (SwapEvent, ForwardEvent),
        AbortReason,
    >(AbortReason::Rejected(SwapError::InvalidAmount))
    &&& accounts_bound(a) && amount_in > 0 && a.input_token_account.amount < amount_in ==> res
        == Err::<(SwapEvent, ForwardEvent), AbortReason>(AbortReason::Rejected(
        SwapError::InsufficientBalance,
    ))
    &&& accounts_bound(a) && amount_in > 0 && a.input_token_account.amount >= amount_in
        && (a.input_vault.lamports < MINIMUM_LIQUIDITY || a.output_vault.lamports
        < MINIMUM_LIQUIDITY) ==> res == Err::<(SwapEvent, ForwardEvent), AbortReason>(
        AbortReason::Rejected(SwapError::InsufficientLiquidity),
    )
    &&& accounts_bound(a) && preconditions_hold(a, amount_in) && outcome is Refused ==> res
        == Err::<(SwapEvent, ForwardEvent), AbortReason>(AbortReason::SwapFailed)
    &&& accounts_bound(a) && preconditions_hold(a, amount_in) && outcome is Completed
        && !swap_fits(a, amount_in, amount_out_of(outcome)) ==> res == Err::<
        (SwapEvent, ForwardEvent),
        AbortReason,
    >(AbortReason::SwapFailed)
    &&& accounts_bound(a) && preconditions_hold(a, amount_in) && outcome is Completed
        && swap_fits(a, amount_in, amount_out_of(outcome)) && !forward_fits(
        a,
        amount_out_of(outcome),
    ) ==> res == Err::<(SwapEvent, ForwardEvent), AbortReason>(AbortReason::ForwardFailed)
    &&& accounts_bound(a) && preconditions_hold(a, amount_in) && outcome is Completed
        && swap_fits(a, amount_in, amount_out_of(outcome)) && forward_fits(
        a,
        amount_out_of(outcome),
    ) && !forward_delivered ==> res == Err::<(SwapEvent, ForwardEvent), AbortReason>(
        AbortReason::ForwardFailed,
    )
    &&& accounts_bound(a) && preconditions_hold(a, amount_in) && outcome is Completed
        && swap_fits(a, amount_in, amount_out_of(outcome)) && forward_fits(
        a,
        amount_out_of(outcome),
    ) && forward_delivered ==> post == settled(a, amount_in, amount_out_of(outcome)) && (res
        matches Ok(ev) && ev.0 == swap_event_of(a, amount_in, amount_out_of(outcome), now)
        && ev.1.to_address == a.forward_token_account.id && ev.1.amount == swap_event_of(
        a,
        amount_in,
        amount_out_of(outcome),
        now,
    ).amount_out && ev.1.timestamp == now && ev.1.tx_signature@.len() == 0)
    &&& res is Ok ==> authority_binding_holds(a.authority, a.state.authority_bump, a.program_id)
    &&& res is Ok ==> a.forward_token_account.id == a.state.forward_address
    &&& res is Ok ==> post.output_token_account.amount == 0
}

/// One whole swap-and-forward call, for every possible report of the external
/// collaborators: `outcome` is what the exchange did with the request, and
/// `forward_delivered` is whether the ledger carried out the forwarding
/// transfer. The result is the post-call balances and either the two audit
/// events or the abort reason; on every abort the balances are exactly the
/// pre-call ones.
///
/// `minimum_amount_out` is handed to the exchange unmodified and enforced by
/// the exchange alone; the contract deliberately states no relation between
/// it and the reported output.
pub fn handler(
    a: &SwapAndForward,
    amount_in: u64,
    minimum_amount_out: u64,
    outcome: &SwapOutcome,
    forward_delivered: bool,
    now: i64,
) -> (r: (SwapAndForward, Result<(SwapEvent, ForwardEvent), AbortReason>))
    ensures
        swap_call_post(*a, amount_in, *outcome, forward_delivered, now, r.0, r.1),
{
    match validate(a, amount_in) {
        Err(reason) => (*a, Err(reason)),
        Ok(()) => match outcome {
            SwapOutcome::Refused => (*a, Err(AbortReason::SwapFailed)),
            SwapOutcome::Completed { amount_out } => {
                match settle_swap(a, amount_in, *amount_out, now) {
                    Err(reason) => (*a, Err(reason)),
                    Ok((post, swap_event, forward_event)) => {
                        if forward_delivered {
                            (post, Ok((swap_event, forward_event)))
                        } else {
                            (*a, Err(AbortReason::ForwardFailed))
                        }
                    },
                }
            },
        },
    }
}

/// Liquidity floor: whatever amount an affordable request asks for, a vault
/// below the configured floor is rejected with `InsufficientLiquidity`.
pub proof fn lemma_liquidity_floor(a: SwapAndForward, amount_in: u64)
    requires
        amount_in > 0,
        a.input_token_account.amount >= amount_in,
        a.input_vault.lamports < MINIMUM_LIQUIDITY || a.output_vault.lamports
            < MINIMUM_LIQUIDITY,
    ensures
        precondition_error(a, amount_in) == Some(SwapError::InsufficientLiquidity),
{
}

/// Forward completeness: after a completed call the staging account holds
/// exactly zero and the forward destination gained exactly the total the swap
/// reported as output — the staging account's entire post-swap balance.
pub proof fn lemma_forward_completeness(a: SwapAndForward, amount_in: u64, amount_out: u64)
    requires
        swap_fits(a, amount_in, amount_out),
        forward_fits(a, amount_out),
    ensures
        settled(a, amount_in, amount_out).output_token_account.amount == 0,
        settled(a, amount_in, amount_out).forward_token_account.amount
            == a.forward_token_account.amount + a.output_token_account.amount + amount_out,
{
}

/// No value is created or destroyed by a completed call: the input-side total
/// (user account plus input vault) and the output-side total (staging account,
/// forward destination and output vault) are both preserved.
pub proof fn lemma_conservation(a: SwapAndForward, amount_in: u64, amount_out: u64)
    requires
        swap_fits(a, amount_in, amount_out),
        forward_fits(a, amount_out),
    ensures
        settled(a, amount_in, amount_out).input_token_account.amount + settled(
            a,
            amount_in,
            amount_out,
        ).input_vault.amount == a.input_token_account.amount + a.input_vault.amount,
        settled(a, amount_in, amount_out).output_token_account.amount + settled(
            a,
            amount_in,
            amount_out,
        ).forward_token_account.amount + settled(a, amount_in, amount_out).output_vault.amount
            == a.output_token_account.amount + a.forward_token_account.amount
            + a.output_vault.amount,
{
}

} // verus!
