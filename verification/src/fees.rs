use vstd::arithmetic::div_mod::{lemma_div_is_ordered, lemma_div_multiples_vanish};
use vstd::arithmetic::mul::lemma_mul_upper_bound;
use vstd::prelude::*;

use crate::error::SwapError;

verus! {

/// Floor of `amount * numerator / denominator`. A disabled rate
/// (denominator zero) charges nothing.
pub open spec fn fee_floor(amount: int, numerator: int, denominator: int) -> int {
    if denominator == 0 {
        0
    } else {
        amount * numerator / denominator
    }
}

/// A rate is valid when it is disabled (both parts zero) or a fraction of
/// at most one: numerator at most denominator, denominator positive.
pub open spec fn rate_valid(numerator: u64, denominator: u64) -> bool {
    if denominator == 0 {
        numerator == 0
    } else {
        numerator <= denominator
    }
}

/// A valid rate never charges more than the amount it is applied to.
pub proof fn lemma_fee_floor_bounds(amount: int, numerator: u64, denominator: u64)
    requires
        amount >= 0,
        rate_valid(numerator, denominator),
    ensures
        0 <= fee_floor(amount, numerator as int, denominator as int) <= amount,
{
    if denominator != 0 {
        let n = numerator as int;
        let d = denominator as int;
        assert(0 <= amount * n) by (nonlinear_arith)
            requires
                amount >= 0,
                n >= 0,
        ;
        assert(amount * n <= d * amount) by (nonlinear_arith)
            requires
                amount >= 0,
                0 <= n <= d,
        ;
        lemma_div_is_ordered(0, amount * n, d);
        lemma_div_is_ordered(amount * n, d * amount, d);
        lemma_div_multiples_vanish(amount, d);
    }
}

/// Fee computation never takes more than the amount it splits: on
/// success the swapper's fees sum to at most the amount, the host share
/// stays within the trade fee, and the net amount is exactly what the
/// fees leave over.
pub proof fn lemma_fees_bounded(schedule: FeeSchedule, amount: u64)
    ensures
        schedule.spec_compute_fees(amount) matches Ok(b) ==> (b.trade_fee + b.owner_fee <= amount
            && b.host_fee <= b.trade_fee && b.net_amount == amount - b.trade_fee - b.owner_fee),
{
    if schedule.valid() {
        lemma_fee_floor_bounds(
            amount as int,
            schedule.trade_fee_numerator,
            schedule.trade_fee_denominator,
        );
        lemma_fee_floor_bounds(
            amount as int,
            schedule.owner_trade_fee_numerator,
            schedule.owner_trade_fee_denominator,
        );
        lemma_fee_floor_bounds(
            schedule.spec_trade_fee(amount as int),
            schedule.host_fee_numerator,
            schedule.host_fee_denominator,
        );
    }
}

/// Rational fee rates for a pool: a trading fee, an owner trading fee, an
/// owner withdrawal fee, and a host fee that is carved out of the trading
/// fee. A rate with denominator zero is disabled.
#[derive(Clone, Copy, Debug, PartialEq, Eq, Structural)]
pub struct FeeSchedule {
    pub trade_fee_numerator: u64,
    pub trade_fee_denominator: u64,
    pub owner_trade_fee_numerator: u64,
    pub owner_trade_fee_denominator: u64,
    pub owner_withdraw_fee_numerator: u64,
    pub owner_withdraw_fee_denominator: u64,
    pub host_fee_numerator: u64,
    pub host_fee_denominator: u64,
}

/// The amounts a fee computation splits a raw swap amount into. The host
/// fee is carved out of the trade fee, not added on top, so the amounts
/// owed by the swapper are the trade fee and the owner fee alone.
#[derive(Clone, Copy, Debug, PartialEq, Eq, Structural)]
pub struct FeeBreakdown {
    pub trade_fee: u64,
    pub owner_fee: u64,
    pub host_fee: u64,
    pub net_amount: u64,
}

impl FeeSchedule {
    /// Every rate is disabled or a fraction of at most one.
    pub open spec fn valid(self) -> bool {
        &&& rate_valid(self.trade_fee_numerator, self.trade_fee_denominator)
        &&& rate_valid(self.owner_trade_fee_numerator, self.owner_trade_fee_denominator)
        &&& rate_valid(self.owner_withdraw_fee_numerator, self.owner_withdraw_fee_denominator)
        &&& rate_valid(self.host_fee_numerator, self.host_fee_denominator)
    }

    /// A schedule with every rate disabled: no fees at all.
    pub open spec fn spec_disabled() -> FeeSchedule {
        FeeSchedule {
            trade_fee_numerator: 0,
            trade_fee_denominator: 0,
            owner_trade_fee_numerator: 0,
            owner_trade_fee_denominator: 0,
            owner_withdraw_fee_numerator: 0,
            owner_withdraw_fee_denominator: 0,
            host_fee_numerator: 0,
            host_fee_denominator: 0,
        }
    }

    pub open spec fn spec_trade_fee(self, amount: int) -> int {
        fee_floor(amount, self.trade_fee_numerator as int, self.trade_fee_denominator as int)
    }

    pub open spec fn spec_owner_fee(self, amount: int) -> int {
        fee_floor(
            amount,
            self.owner_trade_fee_numerator as int,
            self.owner_trade_fee_denominator as int,
        )
    }

    /// The host fee is a fraction of the trade fee, not of the raw amount.
    pub open spec fn spec_host_fee(self, trade_fee: int) -> int {
        fee_floor(trade_fee, self.host_fee_numerator as int, self.host_fee_denominator as int)
    }

    /// What a fee computation returns: a rejection of an invalid schedule,
    /// a rejection of fees that would exceed the amount itself, or the
    /// exact floor-division fee amounts.
    pub open spec fn spec_compute_fees(self, amount: u64) -> Result<FeeBreakdown, SwapError> {
        if !self.valid() {
            Err(SwapError::InvalidFeeRate)
        } else {
            let trade = self.spec_trade_fee(amount as int);
            let owner = self.spec_owner_fee(amount as int);
            if trade + owner > amount {
                Err(SwapError::ArithmeticOverflow)
            } else {
                Ok(
                    FeeBreakdown {
                        trade_fee: trade as u64,
                        owner_fee: owner as u64,
                        host_fee: self.spec_host_fee(trade) as u64,
                        net_amount: (amount - trade - owner) as u64,
                    },
                )
            }
        }
    }

    /// Whether every rate of the schedule is valid.
    pub fn validate(&self) -> (r: bool)
        ensures
            r == self.valid(),
    {
        let trade_ok = if self.trade_fee_denominator == 0 {
            self.trade_fee_numerator == 0
        } else {
            self.trade_fee_numerator <= self.trade_fee_denominator
        };
        let owner_ok = if self.owner_trade_fee_denominator == 0 {
            self.owner_trade_fee_numerator == 0
        } else {
            self.owner_trade_fee_numerator <= self.owner_trade_fee_denominator
        };
        let withdraw_ok = if self.owner_withdraw_fee_denominator == 0 {
            self.owner_withdraw_fee_numerator == 0
        } else {
            self.owner_withdraw_fee_numerator <= self.owner_withdraw_fee_denominator
        };
        let host_ok = if self.host_fee_denominator == 0 {
            self.host_fee_numerator == 0
        } else {
            self.host_fee_numerator <= self.host_fee_denominator
        };
        trade_ok && owner_ok && withdraw_ok && host_ok
    }

    /// A schedule with every rate disabled: no fees at all.
    pub fn disabled() -> (r: FeeSchedule)
        ensures
            r == FeeSchedule::spec_disabled(),
            r.valid(),
    {
        FeeSchedule {
            trade_fee_numerator: 0,
            trade_fee_denominator: 0,
            owner_trade_fee_numerator: 0,
            owner_trade_fee_denominator: 0,
            owner_withdraw_fee_numerator: 0,
            owner_withdraw_fee_denominator: 0,
            host_fee_numerator: 0,
            host_fee_denominator: 0,
        }
    }

    /// Splits `amount` into the trade fee, the owner fee, the host share of
    /// the trade fee, and the net amount left for the curve. The fees owed
    /// by the swapper never exceed the amount itself.
    pub fn compute_fees(&self, amount: u64) -> (r: Result<FeeBreakdown, SwapError>)
        ensures
            r == self.spec_compute_fees(amount),
            r matches Ok(b) ==> b.trade_fee + b.owner_fee <= amount,
            r matches Ok(b) ==> b.host_fee <= b.trade_fee,
            r matches Ok(b) ==> b.net_amount == amount - b.trade_fee - b.owner_fee,
    {
        if !self.validate() {
            return Err(SwapError::InvalidFeeRate);
        }
        let trade = fee_amount(amount, self.trade_fee_numerator, self.trade_fee_denominator);
        let owner = fee_amount(
            amount,
            self.owner_trade_fee_numerator,
            self.owner_trade_fee_denominator,
        );
        if owner > amount - trade {
            return Err(SwapError::ArithmeticOverflow);
        }
        let host = fee_amount(trade, self.host_fee_numerator, self.host_fee_denominator);
        Ok(
            FeeBreakdown {
                trade_fee: trade,
                owner_fee: owner,
                host_fee: host,
                net_amount: amount - trade - owner,
            },
        )
    }
}

/// Floor of `amount * numerator / denominator`, computed in 128-bit
/// intermediate precision so the multiplication cannot overflow.
fn fee_amount(amount: u64, numerator: u64, denominator: u64) -> (r: u64)
    requires
        rate_valid(numerator, denominator),
    ensures
        r == fee_floor(amount as int, numerator as int, denominator as int),
        r <= amount,
{
    if denominator == 0 {
        0
    } else {
        proof {
            lemma_mul_upper_bound(amount as int, u64::MAX as int, numerator as int, u64::MAX as int);
            lemma_fee_floor_bounds(amount as int, numerator, denominator);
        }
        let prod: u128 = (amount as u128) * (numerator as u128);
        let q: u128 = prod / (denominator as u128);
        q as u64
    }
}

} // verus!
