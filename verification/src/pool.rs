use vstd::prelude::*;

use crate::curve::{
    cp_amount_out, lemma_cp_out_lt_reserve_out, lemma_cp_product_monotone, lemma_cp_round_trip,
    spec_swap_output, swap_output,
};
use crate::error::SwapError;
use crate::fees::{lemma_fees_bounded, FeeBreakdown, FeeSchedule};

verus! {

/// Which token the swapper pays in.
#[derive(Clone, Copy, Debug, PartialEq, Eq, Structural)]
pub enum SwapDirection {
    XToY,
    YToX,
}

/// The direction of the reverse trade.
pub open spec fn opposite(direction: SwapDirection) -> SwapDirection {
    match direction {
        SwapDirection::XToY => SwapDirection::YToX,
        SwapDirection::YToX => SwapDirection::XToY,
    }
}

/// The pricing rule a pool trades on. Only the constant-product curve is
/// implemented.
#[derive(Clone, Copy, Debug, PartialEq, Eq, Structural)]
pub enum CurveVariant {
    ConstantProduct,
}

/// A swap request: a direction and a positive input amount.
#[derive(Clone, Copy, Debug, PartialEq, Eq, Structural)]
pub struct SwapRequest {
    pub direction: SwapDirection,
    pub amount_in: u64,
}

/// What a successful swap computed: the output amount owed to the
/// swapper, both updated reserves, and the fee amounts attributed to
/// their destinations.
#[derive(Clone, Copy, Debug, PartialEq, Eq, Structural)]
pub struct SwapResult {
    pub amount_out: u64,
    pub new_reserve_x: u64,
    pub new_reserve_y: u64,
    pub fees: FeeBreakdown,
}

/// A pool: the identities of its two token mints, its two reserves, the
/// outstanding liquidity-token supply, its fee schedule and its curve.
/// Token custody lives with the host; the pool holds only amounts and
/// identities.
#[derive(Clone, Copy, Debug, PartialEq, Eq, Structural)]
pub struct PoolState {
    pub initialized: bool,
    pub x_mint_id: u64,
    pub y_mint_id: u64,
    pub reserve_x: u64,
    pub reserve_y: u64,
    pub lp_supply: u64,
    pub fee_schedule: FeeSchedule,
    pub curve: CurveVariant,
}

impl PoolState {
    /// An initialized pool always has positive reserves and a valid fee
    /// schedule; swaps keep it that way.
    pub open spec fn wf(self) -> bool {
        self.initialized ==> (self.reserve_x > 0 && self.reserve_y > 0
            && self.fee_schedule.valid())
    }

    /// The reserve the swapper pays into.
    pub open spec fn spec_reserve_in(self, direction: SwapDirection) -> u64 {
        match direction {
            SwapDirection::XToY => self.reserve_x,
            SwapDirection::YToX => self.reserve_y,
        }
    }

    /// The reserve the swapper is paid out of.
    pub open spec fn spec_reserve_out(self, direction: SwapDirection) -> u64 {
        match direction {
            SwapDirection::XToY => self.reserve_y,
            SwapDirection::YToX => self.reserve_x,
        }
    }

    /// The result a successful swap commits: the input reserve grows by
    /// the net amount, the output reserve shrinks by the output amount.
    pub open spec fn spec_swap_result(
        self,
        direction: SwapDirection,
        fees: FeeBreakdown,
        amount_out: u64,
    ) -> SwapResult {
        let new_in = (self.spec_reserve_in(direction) + fees.net_amount) as u64;
        let new_out = (self.spec_reserve_out(direction) - amount_out) as u64;
        match direction {
            SwapDirection::XToY => SwapResult {
                amount_out,
                new_reserve_x: new_in,
                new_reserve_y: new_out,
                fees,
            },
            SwapDirection::YToX => SwapResult {
                amount_out,
                new_reserve_x: new_out,
                new_reserve_y: new_in,
                fees,
            },
        }
    }

    /// Everything a swap request computes, or the exact error it is
    /// rejected with: an uninitialized pool, then a zero amount, then the
    /// fee computation, then the curve, then the width of the reserve
    /// field.
    pub open spec fn spec_compute_swap(self, request: SwapRequest) -> Result<
        SwapResult,
        SwapError,
    > {
        if !self.initialized {
            Err(SwapError::PoolUninitialized)
        } else if request.amount_in == 0 {
            Err(SwapError::ZeroAmount)
        } else {
            match self.fee_schedule.spec_compute_fees(request.amount_in) {
                Err(e) => Err(e),
                Ok(fees) => match spec_swap_output(
                    fees.net_amount,
                    self.spec_reserve_in(request.direction),
                    self.spec_reserve_out(request.direction),
                ) {
                    Err(e) => Err(e),
                    Ok(amount_out) => {
                        if self.spec_reserve_in(request.direction) + fees.net_amount
                            > u64::MAX {
                            Err(SwapError::ArithmeticOverflow)
                        } else {
                            Ok(self.spec_swap_result(request.direction, fees, amount_out))
                        }
                    },
                },
            }
        }
    }

    /// The pool after a swap result is committed: only the reserves move.
    pub open spec fn after_swap(self, res: SwapResult) -> PoolState {
        PoolState { reserve_x: res.new_reserve_x, reserve_y: res.new_reserve_y, ..self }
    }

    /// A fresh, uninitialized pool slot, as a host persists it before the
    /// pool is set up.
    pub fn new() -> (r: PoolState)
        ensures
            r == (PoolState {
                initialized: false,
                x_mint_id: 0,
                y_mint_id: 0,
                reserve_x: 0,
                reserve_y: 0,
                lp_supply: 0,
                fee_schedule: FeeSchedule::spec_disabled(),
                curve: CurveVariant::ConstantProduct,
            }),
            !r.initialized,
            r.wf(),
    {
        PoolState {
            initialized: false,
            x_mint_id: 0,
            y_mint_id: 0,
            reserve_x: 0,
            reserve_y: 0,
            lp_supply: 0,
            fee_schedule: FeeSchedule::disabled(),
            curve: CurveVariant::ConstantProduct,
        }
    }

    /// Computes a swap without committing it: validates the request,
    /// splits the fees, prices the trade on the curve, and reports the
    /// updated reserves. The pool itself is not changed.
    pub fn compute_swap(&self, request: SwapRequest) -> (r: Result<SwapResult, SwapError>)
        ensures
            r == self.spec_compute_swap(request),
            r matches Ok(res) ==> (res.new_reserve_x >= 1 && res.new_reserve_y >= 1),
            r matches Ok(res) ==> res.amount_out < self.spec_reserve_out(request.direction),
            r matches Ok(res) ==> (res.new_reserve_x * res.new_reserve_y >= self.reserve_x
                * self.reserve_y),
    {
        if !self.initialized {
            return Err(SwapError::PoolUninitialized);
        }
        if request.amount_in == 0 {
            return Err(SwapError::ZeroAmount);
        }
        let fees = match self.fee_schedule.compute_fees(request.amount_in) {
            Ok(b) => b,
            Err(e) => { return Err(e) },
        };
        let (reserve_in, reserve_out) = match request.direction {
            SwapDirection::XToY => (self.reserve_x, self.reserve_y),
            SwapDirection::YToX => (self.reserve_y, self.reserve_x),
        };
        let amount_out = match swap_output(fees.net_amount, reserve_in, reserve_out) {
            Ok(a) => a,
            Err(e) => { return Err(e) },
        };
        if fees.net_amount > u64::MAX - reserve_in {
            return Err(SwapError::ArithmeticOverflow);
        }
        proof {
            lemma_swap_never_drains(*self, request);
            lemma_swap_product_monotone(*self, request);
        }
        let new_reserve_in = reserve_in + fees.net_amount;
        let new_reserve_out = reserve_out - amount_out;
        match request.direction {
            SwapDirection::XToY => Ok(
                SwapResult {
                    amount_out,
                    new_reserve_x: new_reserve_in,
                    new_reserve_y: new_reserve_out,
                    fees,
                },
            ),
            SwapDirection::YToX => Ok(
                SwapResult {
                    amount_out,
                    new_reserve_x: new_reserve_out,
                    new_reserve_y: new_reserve_in,
                    fees,
                },
            ),
        }
    }

    /// Computes a swap and, on success, commits the updated reserves; on
    /// any failure the pool is left exactly as it was. The committed
    /// reserve product never falls below the old one.
    pub fn apply_swap(&mut self, request: SwapRequest) -> (r: Result<SwapResult, SwapError>)
        ensures
            r == old(self).spec_compute_swap(request),
            r matches Err(_) ==> *final(self) == *old(self),
            r matches Ok(res) ==> *final(self) == old(self).after_swap(res),
            r matches Ok(res) ==> (final(self).reserve_x * final(self).reserve_y >= old(
                self,
            ).reserve_x * old(self).reserve_y),
            old(self).wf() ==> final(self).wf(),
    {
        let r = self.compute_swap(request);
        match r {
            Ok(res) => {
                self.reserve_x = res.new_reserve_x;
                self.reserve_y = res.new_reserve_y;
                Ok(res)
            },
            Err(e) => Err(e),
        }
    }
}

/// The pool is never drained: whatever a successful swap pays out, both
/// committed reserves stay positive and the payout stays below the
/// reserve it is taken from.
pub proof fn lemma_swap_never_drains(pool: PoolState, request: SwapRequest)
    ensures
        pool.spec_compute_swap(request) matches Ok(res) ==> (res.amount_out < pool.spec_reserve_out(
            request.direction,
        ) && res.new_reserve_x >= 1 && res.new_reserve_y >= 1),
{
    match pool.spec_compute_swap(request) {
        Ok(res) => {
            let ri = pool.spec_reserve_in(request.direction) as int;
            let ro = pool.spec_reserve_out(request.direction) as int;
            let net = res.fees.net_amount as int;
            lemma_cp_out_lt_reserve_out(net, ri, ro);
        },
        Err(_) => {},
    }
}

/// The product of the reserves never shrinks: a successful swap commits
/// reserves whose product is at least the old one's.
pub proof fn lemma_swap_product_monotone(pool: PoolState, request: SwapRequest)
    ensures
        pool.spec_compute_swap(request) matches Ok(res) ==> (res.new_reserve_x * res.new_reserve_y
            >= pool.reserve_x * pool.reserve_y),
{
    match pool.spec_compute_swap(request) {
        Ok(res) => {
            let ri = pool.spec_reserve_in(request.direction) as int;
            let ro = pool.spec_reserve_out(request.direction) as int;
            let net = res.fees.net_amount as int;
            lemma_cp_out_lt_reserve_out(net, ri, ro);
            lemma_cp_product_monotone(net, ri, ro);
            let new_in = ri + net;
            let new_out = ro - res.amount_out;
            assert(new_in * new_out >= ri * ro);
            assert(new_out * new_in >= ro * ri) by (nonlinear_arith)
                requires
                    new_in * new_out >= ri * ro,
            ;
        },
        Err(_) => {},
    }
}

/// Round trip: swapping an amount one way and then swapping the whole
/// proceeds back never yields more than the original amount; fees and
/// floor rounding can only lose value for the swapper.
pub proof fn lemma_round_trip(
    pool: PoolState,
    direction: SwapDirection,
    amount_in: u64,
    res1: SwapResult,
    res2: SwapResult,
)
    requires
        pool.spec_compute_swap(SwapRequest { direction, amount_in }) == Ok::<
            SwapResult,
            SwapError,
        >(res1),
        pool.after_swap(res1).spec_compute_swap(
            SwapRequest { direction: opposite(direction), amount_in: res1.amount_out },
        ) == Ok::<SwapResult, SwapError>(res2),
    ensures
        res2.amount_out <= amount_in,
{
    let fees1 = res1.fees;
    let fees2 = res2.fees;
    let ri = pool.spec_reserve_in(direction) as int;
    let ro = pool.spec_reserve_out(direction) as int;
    let net1 = fees1.net_amount as int;
    let net2 = fees2.net_amount as int;
    let pool1 = pool.after_swap(res1);

    // The first swap went through every guard: positive reserves, valid
    // fees, a net amount of at most the input, and an output below the
    // output reserve.
    assert(pool.initialized && amount_in > 0);
    assert(pool.fee_schedule.spec_compute_fees(amount_in) == Ok::<FeeBreakdown, SwapError>(fees1));
    lemma_fees_bounded(pool.fee_schedule, amount_in);
    assert(net1 <= amount_in);
    assert(ri >= 1 && ro >= 1);
    let ao1 = cp_amount_out(net1, ri, ro);
    lemma_cp_out_lt_reserve_out(net1, ri, ro);
    assert(res1.amount_out == ao1);

    // The reverse trade runs on the updated reserves: the old output
    // reserve less the payout is now paid into, the old input reserve
    // plus the net amount is now paid out of.
    assert(pool1.spec_reserve_in(opposite(direction)) == ro - ao1);
    assert(pool1.spec_reserve_out(opposite(direction)) == ri + net1);
    lemma_fees_bounded(pool.fee_schedule, res1.amount_out);
    assert(0 <= net2 <= ao1);
    let ao2 = cp_amount_out(net2, ro - ao1, ri + net1);
    lemma_cp_round_trip(amount_in as int, net1, ri, ro, net2);
    lemma_cp_out_lt_reserve_out(net2, ro - ao1, ri + net1);
    assert(res2.amount_out == ao2);
}

} // verus!
