//! Coarse pool-health checks.

use vstd::prelude::*;

use crate::error::SwapError;
use crate::MINIMUM_LIQUIDITY;

verus! {

/// Checks the anti-drained-pool floor: both vaults must hold at least
/// `MINIMUM_LIQUIDITY` native value. A coarse heuristic, not a price-impact
/// check.
pub fn validate_pool_liquidity(input_vault_lamports: u64, output_vault_lamports: u64) -> (r:
    Result<(), SwapError>)
    ensures
        input_vault_lamports >= MINIMUM_LIQUIDITY && output_vault_lamports >= MINIMUM_LIQUIDITY
            ==> r == Ok::<(), SwapError>(()),
        input_vault_lamports < MINIMUM_LIQUIDITY || output_vault_lamports < MINIMUM_LIQUIDITY
            ==> r == Err::<(), SwapError>(SwapError::InsufficientLiquidity),
{
    if input_vault_lamports >= MINIMUM_LIQUIDITY && output_vault_lamports >= MINIMUM_LIQUIDITY {
        Ok(())
    } else {
        Err(SwapError::InsufficientLiquidity)
    }
}

} // verus!
