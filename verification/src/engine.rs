use vstd::prelude::*;

use crate::error::SwapError;
use crate::fees::FeeSchedule;
use crate::pool::{CurveVariant, PoolState, SwapDirection, SwapRequest, SwapResult};

verus! {

/// What pool initialization does to an uninitialized pool slot, or the
/// exact error it is rejected with: a slot that is already set up, then
/// an empty starting reserve, then an invalid fee schedule.
pub open spec fn spec_initialize_pool(
    pool: PoolState,
    x_mint_id: u64,
    y_mint_id: u64,
    reserve_x: u64,
    reserve_y: u64,
    lp_supply: u64,
    fee_schedule: FeeSchedule,
) -> Result<PoolState, SwapError> {
    if pool.initialized {
        Err(SwapError::AlreadyInitialized)
    } else if reserve_x == 0 || reserve_y == 0 {
        Err(SwapError::InsufficientLiquidity)
    } else if !fee_schedule.valid() {
        Err(SwapError::InvalidFeeRate)
    } else {
        Ok(
            PoolState {
                initialized: true,
                x_mint_id,
                y_mint_id,
                reserve_x,
                reserve_y,
                lp_supply,
                fee_schedule,
                curve: CurveVariant::ConstantProduct,
            },
        )
    }
}

/// What a slippage-guarded swap returns: the computed swap, unless its
/// output falls below the caller's stated minimum.
pub open spec fn spec_execute_swap(
    pool: PoolState,
    direction: SwapDirection,
    amount_in: u64,
    min_amount_out: u64,
) -> Result<SwapResult, SwapError> {
    match pool.spec_compute_swap(SwapRequest { direction, amount_in }) {
        Err(e) => Err(e),
        Ok(res) => if res.amount_out < min_amount_out {
            Err(SwapError::SlippageExceeded)
        } else {
            Ok(res)
        },
    }
}

/// Sets up a pool slot with its mint identities, starting reserves,
/// liquidity-token supply and fee schedule. Fails on a slot that is
/// already initialized, on an empty starting reserve, and on an invalid
/// fee schedule; on failure the slot is left exactly as it was.
pub fn initialize_pool(
    pool: &mut PoolState,
    x_mint_id: u64,
    y_mint_id: u64,
    reserve_x: u64,
    reserve_y: u64,
    lp_supply: u64,
    fee_schedule: FeeSchedule,
) -> (r: Result<(), SwapError>)
    ensures
        spec_initialize_pool(
            *old(pool),
            x_mint_id,
            y_mint_id,
            reserve_x,
            reserve_y,
            lp_supply,
            fee_schedule,
        ) matches Ok(p) ==> (r == Ok::<(), SwapError>(()) && *final(pool) == p),
        spec_initialize_pool(
            *old(pool),
            x_mint_id,
            y_mint_id,
            reserve_x,
            reserve_y,
            lp_supply,
            fee_schedule,
        ) matches Err(e) ==> (r == Err::<(), SwapError>(e) && *final(pool) == *old(pool)),
        r matches Ok(_) ==> (final(pool).initialized && final(pool).wf()),
        old(pool).wf() ==> final(pool).wf(),
{
    if pool.initialized {
        return Err(SwapError::AlreadyInitialized);
    }
    if reserve_x == 0 || reserve_y == 0 {
        return Err(SwapError::InsufficientLiquidity);
    }
    if !fee_schedule.validate() {
        return Err(SwapError::InvalidFeeRate);
    }
    *pool = PoolState {
        initialized: true,
        x_mint_id,
        y_mint_id,
        reserve_x,
        reserve_y,
        lp_supply,
        fee_schedule,
        curve: CurveVariant::ConstantProduct,
    };
    Ok(())
}

/// Computes a swap, rejects it if the output falls below the caller's
/// minimum, and only then commits the updated reserves; on any failure,
/// slippage included, the pool is left exactly as it was.
pub fn execute_swap(
    pool: &mut PoolState,
    direction: SwapDirection,
    amount_in: u64,
    min_amount_out: u64,
) -> (r: Result<SwapResult, SwapError>)
    ensures
        r == spec_execute_swap(*old(pool), direction, amount_in, min_amount_out),
        r matches Err(_) ==> *final(pool) == *old(pool),
        r matches Ok(res) ==> (*final(pool) == old(pool).after_swap(res) && res.amount_out
            >= min_amount_out),
        r matches Ok(res) ==> (final(pool).reserve_x * final(pool).reserve_y >= old(
            pool,
        ).reserve_x * old(pool).reserve_y),
        old(pool).wf() ==> final(pool).wf(),
{
    let res = match pool.compute_swap(SwapRequest { direction, amount_in }) {
        Ok(res) => res,
        Err(e) => { return Err(e) },
    };
    if res.amount_out < min_amount_out {
        return Err(SwapError::SlippageExceeded);
    }
    pool.reserve_x = res.new_reserve_x;
    pool.reserve_y = res.new_reserve_y;
    Ok(res)
}

} // verus!
