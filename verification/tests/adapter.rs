use anchor_lang::prelude::Pubkey;

use jaja::error::SwapError;
use jaja::ids::AccountId;
use jaja::initialize::Initialize;
use jaja::state::ProgramState;
use jaja::swap::AbortReason;
use jaja::swap::Pool;
use jaja::swap::SwapAndForward;
use jaja::swap::SwapOutcome;
use jaja::swap::TokenAccount;
use jaja::swap::{settle_swap, validate};
use jaja::authority::{check_authority_binding, check_state_binding};
use jaja::utils::validate_pool_liquidity;
use jaja::Jaja;
use jaja::MINIMUM_LIQUIDITY;

fn id(n: u8) -> AccountId {
    AccountId { bytes: [n; 32] }
}

/// The program identity used throughout, plus the two derived addresses and
/// verifier bytes that the real platform derivation produces for it.
fn derived() -> (AccountId, AccountId, u8, AccountId, u8) {
    let program_id = id(9);
    let pk = Pubkey::new_from_array(program_id.bytes);
    let (state_addr, state_bump) = Pubkey::find_program_address(&[b"state"], &pk);
    let (auth_addr, auth_bump) = Pubkey::find_program_address(&[b"authority"], &pk);
    (
        program_id,
        AccountId { bytes: state_addr.to_bytes() },
        state_bump,
        AccountId { bytes: auth_addr.to_bytes() },
        auth_bump,
    )
}

fn initialized_state() -> (AccountId, ProgramState, AccountId, AccountId) {
    let (program_id, state_id, state_bump, authority, authority_bump) = derived();
    let state = ProgramState {
        owner: id(1),
        forward_address: id(2),
        input_mint: id(3),
        pool_id: id(4),
        pool_authority: authority,
        pool_input_vault: AccountId { bytes: [0; 32] },
        pool_output_vault: AccountId { bytes: [0; 32] },
        program_token_account: AccountId { bytes: [0; 32] },
        authority_bump,
        bump: state_bump,
        initialized: true,
    };
    (program_id, state, state_id, authority)
}

/// A fully bound, precondition-satisfying call with user balance 500,
/// staging balance 7 and forward balance 10.
fn valid_accounts() -> SwapAndForward {
    let (program_id, state, state_id, authority) = initialized_state();
    let input_mint = id(3);
    let output_mint = id(5);
    SwapAndForward {
        user: id(6),
        state,
        state_id,
        authority,
        pool: Pool {
            id: id(4),
            amm_config: id(14),
            token_0_vault: id(11),
            token_1_vault: id(12),
            observation_key: id(13),
        },
        input_token_account: TokenAccount { id: id(21), mint: input_mint, amount: 500, lamports: 1 },
        output_token_account: TokenAccount { id: id(22), mint: output_mint, amount: 7, lamports: 1 },
        forward_token_account: TokenAccount { id: id(2), mint: output_mint, amount: 10, lamports: 1 },
        input_vault: TokenAccount { id: id(11), mint: input_mint, amount: 2000, lamports: 5000 },
        output_vault: TokenAccount { id: id(12), mint: output_mint, amount: 1000, lamports: 5000 },
        input_token_mint: input_mint,
        output_token_mint: output_mint,
        amm_config_id: id(14),
        observation_id: id(13),
        program_id,
    }
}

fn fresh_init() -> Initialize {
    let (_, _, state_bump, authority, authority_bump) = derived();
    Initialize {
        owner: id(1),
        state: ProgramState {
            owner: AccountId { bytes: [0; 32] },
            forward_address: AccountId { bytes: [0; 32] },
            input_mint: AccountId { bytes: [0; 32] },
            pool_id: AccountId { bytes: [0; 32] },
            pool_authority: AccountId { bytes: [0; 32] },
            pool_input_vault: AccountId { bytes: [0; 32] },
            pool_output_vault: AccountId { bytes: [0; 32] },
            program_token_account: AccountId { bytes: [0; 32] },
            authority_bump: 0,
            bump: 0,
            initialized: false,
        },
        input_mint: id(3),
        authority,
        state_bump,
        authority_bump,
    }
}

#[test]
fn initialize_first_call_succeeds() {
    let mut ctx = fresh_init();
    let r = Jaja::initialize(&mut ctx, id(2));
    assert_eq!(r, Ok(()));
    assert!(ctx.state.initialized);
    assert_eq!(ctx.state.owner.bytes, id(1).bytes);
    assert_eq!(ctx.state.forward_address.bytes, id(2).bytes);
    assert_eq!(ctx.state.input_mint.bytes, id(3).bytes);
    assert_eq!(ctx.state.pool_authority.bytes, ctx.authority.bytes);
    assert_eq!(ctx.state.pool_id.bytes, [0u8; 32]);
    assert_eq!(ctx.state.pool_input_vault.bytes, [0u8; 32]);
    assert_eq!(ctx.state.pool_output_vault.bytes, [0u8; 32]);
    assert_eq!(ctx.state.program_token_account.bytes, [0u8; 32]);
    assert_eq!(ctx.state.authority_bump, ctx.authority_bump);
    assert_eq!(ctx.state.bump, ctx.state_bump);
}

#[test]
fn initialize_second_call_rejected() {
    let mut ctx = fresh_init();
    assert_eq!(Jaja::initialize(&mut ctx, id(2)), Ok(()));
    let before = ctx.state;
    let r = Jaja::initialize(&mut ctx, id(77));
    assert_eq!(r, Err(SwapError::AlreadyInitialized));
    assert_eq!(ctx.state.forward_address.bytes, before.forward_address.bytes);
    assert_eq!(ctx.state.owner.bytes, before.owner.bytes);
    assert_eq!(ctx.state.authority_bump, before.authority_bump);
    assert_eq!(ctx.state.bump, before.bump);
    assert!(ctx.state.initialized);
}

fn assert_unchanged(a: &SwapAndForward, b: &SwapAndForward) {
    assert_eq!(a.input_token_account.amount, b.input_token_account.amount);
    assert_eq!(a.output_token_account.amount, b.output_token_account.amount);
    assert_eq!(a.forward_token_account.amount, b.forward_token_account.amount);
    assert_eq!(a.input_vault.amount, b.input_vault.amount);
    assert_eq!(a.output_vault.amount, b.output_vault.amount);
}

#[test]
fn zero_amount_rejected() {
    let a = valid_accounts();
    let (post, r) = Jaja::swap_and_forward(
        &a,
        0,
        1,
        &SwapOutcome::Completed { amount_out: 40 },
        true,
        1234,
    );
    assert_eq!(r, Err(AbortReason::Rejected(SwapError::InvalidAmount)));
    assert_unchanged(&post, &a);
}

#[test]
fn insufficient_balance_rejected() {
    let mut a = valid_accounts();
    a.input_token_account.amount = 50;
    let (post, r) = Jaja::swap_and_forward(
        &a,
        100,
        1,
        &SwapOutcome::Completed { amount_out: 40 },
        true,
        1234,
    );
    assert_eq!(r, Err(AbortReason::Rejected(SwapError::InsufficientBalance)));
    assert_unchanged(&post, &a);
}

#[test]
fn liquidity_floor_rejected() {
    let mut a = valid_accounts();
    a.output_vault.lamports = MINIMUM_LIQUIDITY - 1;
    for amount_in in [1u64, 100, 500] {
        let (post, r) = Jaja::swap_and_forward(
            &a,
            amount_in,
            1,
            &SwapOutcome::Completed { amount_out: 40 },
            true,
            1234,
        );
        assert_eq!(r, Err(AbortReason::Rejected(SwapError::InsufficientLiquidity)));
        assert_unchanged(&post, &a);
    }
}

#[test]
fn forced_forward_failure_rolls_back() {
    let a = valid_accounts();
    let (post, r) = Jaja::swap_and_forward(
        &a,
        100,
        1,
        &SwapOutcome::Completed { amount_out: 40 },
        false,
        1234,
    );
    assert_eq!(r, Err(AbortReason::ForwardFailed));
    assert_unchanged(&post, &a);
}

#[test]
fn swap_refusal_rolls_back() {
    let a = valid_accounts();
    let (post, r) = Jaja::swap_and_forward(&a, 100, 1, &SwapOutcome::Refused, true, 1234);
    assert_eq!(r, Err(AbortReason::SwapFailed));
    assert_unchanged(&post, &a);
}

#[test]
fn forward_completeness() {
    let a = valid_accounts();
    let (post, r) = Jaja::swap_and_forward(
        &a,
        100,
        1,
        &SwapOutcome::Completed { amount_out: 40 },
        true,
        1234,
    );
    let (swap_event, forward_event) = r.expect("call should succeed");
    assert_eq!(post.output_token_account.amount, 0);
    assert_eq!(post.forward_token_account.amount, 10 + 7 + 40);
    assert_eq!(post.input_token_account.amount, 400);
    assert_eq!(post.input_vault.amount, 2100);
    assert_eq!(post.output_vault.amount, 960);
    assert_eq!(swap_event.amount_in, 100);
    assert_eq!(swap_event.amount_out, 47);
    assert_eq!(swap_event.timestamp, 1234);
    assert_eq!(swap_event.slippage, 0);
    assert_eq!(swap_event.user.bytes, a.user.bytes);
    assert_eq!(swap_event.pool_id.bytes, a.pool.id.bytes);
    assert_eq!(forward_event.to_address.bytes, a.forward_token_account.id.bytes);
    assert_eq!(forward_event.amount, 47);
    assert_eq!(forward_event.timestamp, 1234);
    assert_eq!(forward_event.tx_signature, "");
}

#[test]
fn wrong_authority_rejected() {
    let mut a = valid_accounts();
    a.authority = id(99);
    let (post, r) = Jaja::swap_and_forward(
        &a,
        100,
        1,
        &SwapOutcome::Completed { amount_out: 40 },
        true,
        1234,
    );
    assert_eq!(r, Err(AbortReason::AccountMismatch));
    assert_unchanged(&post, &a);
}

#[test]
fn wrong_authority_bump_rejected() {
    let mut a = valid_accounts();
    a.state.authority_bump = a.state.authority_bump.wrapping_sub(1);
    let (_, r) = Jaja::swap_and_forward(
        &a,
        100,
        1,
        &SwapOutcome::Completed { amount_out: 40 },
        true,
        1234,
    );
    assert_eq!(r, Err(AbortReason::AccountMismatch));
}

#[test]
fn authority_binding_matches_platform_derivation() {
    let (program_id, _, _, authority, authority_bump) = derived();
    assert!(check_authority_binding(&authority, authority_bump, &program_id));
    assert!(!check_authority_binding(&id(99), authority_bump, &program_id));
    assert!(!check_authority_binding(&authority, authority_bump, &id(42)));
}

#[test]
fn state_binding_matches_platform_derivation() {
    let (program_id, state_id, state_bump, _, _) = derived();
    assert!(check_state_binding(&state_id, state_bump, &program_id));
    assert!(!check_state_binding(&id(99), state_bump, &program_id));
}

#[test]
fn mismatched_vault_rejected() {
    let mut a = valid_accounts();
    a.input_vault.id = id(66);
    let (_, r) = Jaja::swap_and_forward(
        &a,
        100,
        1,
        &SwapOutcome::Completed { amount_out: 40 },
        true,
        1234,
    );
    assert_eq!(r, Err(AbortReason::AccountMismatch));
}

#[test]
fn mismatched_forward_destination_rejected() {
    let mut a = valid_accounts();
    a.forward_token_account.id = id(88);
    let (post, r) = Jaja::swap_and_forward(
        &a,
        100,
        1,
        &SwapOutcome::Completed { amount_out: 40 },
        true,
        1234,
    );
    assert_eq!(r, Err(AbortReason::AccountMismatch));
    assert_unchanged(&post, &a);
}

#[test]
fn mismatched_amm_config_rejected() {
    let mut a = valid_accounts();
    a.amm_config_id = id(88);
    assert_eq!(validate(&a, 100), Err(AbortReason::AccountMismatch));
}

#[test]
fn mismatched_mint_rejected() {
    let mut a = valid_accounts();
    a.input_token_mint = id(66);
    assert_eq!(validate(&a, 100), Err(AbortReason::AccountMismatch));
}

#[test]
fn mismatched_observation_rejected() {
    let mut a = valid_accounts();
    a.observation_id = id(66);
    assert_eq!(validate(&a, 100), Err(AbortReason::AccountMismatch));
}

#[test]
fn binding_checked_before_amount() {
    let mut a = valid_accounts();
    a.observation_id = id(66);
    assert_eq!(validate(&a, 0), Err(AbortReason::AccountMismatch));
}

#[test]
fn validate_accepts_valid_request() {
    let a = valid_accounts();
    assert_eq!(validate(&a, 500), Ok(()));
}

#[test]
fn liquidity_boundary() {
    assert_eq!(validate_pool_liquidity(MINIMUM_LIQUIDITY, MINIMUM_LIQUIDITY), Ok(()));
    assert_eq!(
        validate_pool_liquidity(MINIMUM_LIQUIDITY - 1, MINIMUM_LIQUIDITY),
        Err(SwapError::InsufficientLiquidity)
    );
    assert_eq!(
        validate_pool_liquidity(MINIMUM_LIQUIDITY, MINIMUM_LIQUIDITY - 1),
        Err(SwapError::InsufficientLiquidity)
    );
    assert_eq!(validate_pool_liquidity(0, 0), Err(SwapError::InsufficientLiquidity));
}

#[test]
fn staging_overflow_aborts_swap() {
    let mut a = valid_accounts();
    a.output_token_account.amount = u64::MAX;
    let (post, r) = Jaja::swap_and_forward(
        &a,
        100,
        1,
        &SwapOutcome::Completed { amount_out: 1 },
        true,
        1234,
    );
    assert_eq!(r, Err(AbortReason::SwapFailed));
    assert_unchanged(&post, &a);
}

#[test]
fn forward_overflow_aborts_forward() {
    let mut a = valid_accounts();
    a.forward_token_account.amount = u64::MAX;
    let (post, r) = Jaja::swap_and_forward(
        &a,
        100,
        1,
        &SwapOutcome::Completed { amount_out: 1 },
        true,
        1234,
    );
    assert_eq!(r, Err(AbortReason::ForwardFailed));
    assert_unchanged(&post, &a);
}

#[test]
fn output_exceeding_vault_aborts_swap() {
    let mut a = valid_accounts();
    a.output_vault.amount = 39;
    let (_, r) = Jaja::swap_and_forward(
        &a,
        100,
        1,
        &SwapOutcome::Completed { amount_out: 40 },
        true,
        1234,
    );
    assert_eq!(r, Err(AbortReason::SwapFailed));
}

#[test]
fn settle_swap_exact_movements() {
    let a = valid_accounts();
    let (post, swap_event, forward_event) =
        settle_swap(&a, 250, 30, 77).expect("movements fit");
    assert_eq!(post.input_token_account.amount, 250);
    assert_eq!(post.input_vault.amount, 2250);
    assert_eq!(post.output_vault.amount, 970);
    assert_eq!(post.output_token_account.amount, 0);
    assert_eq!(post.forward_token_account.amount, 10 + 7 + 30);
    assert_eq!(swap_event.amount_out, 37);
    assert_eq!(forward_event.amount, 37);
    assert_eq!(forward_event.timestamp, 77);
}

#[test]
fn error_messages() {
    assert_eq!(SwapError::AlreadyInitialized.message(), "Program is already initialized");
    assert_eq!(SwapError::InvalidAmount.message(), "Amount must be greater than 0");
    assert_eq!(SwapError::InsufficientBalance.message(), "Insufficient balance");
    assert_eq!(SwapError::SlippageExceeded.message(), "Slippage tolerance exceeded");
    assert_eq!(SwapError::InsufficientLiquidity.message(), "Pool has insufficient liquidity");
    assert_eq!(SwapError::InvalidForwardAddress.message(), "Invalid forward address");
    assert_eq!(SwapError::SwapTimeout.message(), "Swap timeout exceeded");
}

#[test]
fn account_id_equality() {
    assert!(id(5).eq_id(&id(5)));
    assert!(!id(5).eq_id(&id(6)));
    let zero = AccountId::zero();
    assert_eq!(zero.bytes, [0u8; 32]);
    let mut nearly = AccountId { bytes: [0u8; 32] };
    nearly.bytes[31] = 1;
    assert!(!zero.eq_id(&nearly));
}
