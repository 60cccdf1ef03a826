use vstd::prelude::*;
use crate::error::{ClearingResult, ErrorCode};
use crate::math::{checked_pow10, fits_i128, lemma_pow10_monotone, pow10, trunc_div};

verus! {

/// Scale of mark prices: one unit of price is this many raw units.
pub const MARK_PRICE_PRECISION: u128 = 10_000_000_000;

/// `MARK_PRICE_PRECISION` as a signed value.
pub const MARK_PRICE_PRECISION_I128: i128 = 10_000_000_000;

/// Ten basis points at mark-price precision: the baseline price deviation
/// that a filler incentive is measured against, and its cap.
pub const TEN_BPS_PCT_DIFF: i128 = 10_000_000;

/// Side of an order or position.
#[derive(Clone, Copy, Debug, PartialEq, Eq, Structural)]
pub enum PositionDirection {
    Long,
    Short,
}

/// A resting or incoming order, as far as matching reads it.
#[derive(Clone, Copy, Debug, PartialEq, Eq, Structural)]
pub struct Order {
    pub market_index: u64,
    pub direction: PositionDirection,
    pub price: u128,
    pub base_asset_amount: u128,
    pub ts: i64,
    pub post_only: bool,
}

/// Whether the maker order of a pair is really the maker, given that the taker
/// may not be post-only.
pub open spec fn maker_for_taker(maker: Order, taker: Order) -> ClearingResult<bool> {
    if taker.post_only {
        Err(ErrorCode::CantMatchTwoPostOnlys)
    } else if maker.post_only {
        Ok(true)
    } else {
        Ok(maker.ts < taker.ts)
    }
}

/// Decides by post-only flags and then by time priority whether `maker_order`
/// takes the maker's role against `taker_order`.
pub fn is_maker_for_taker(maker_order: &Order, taker_order: &Order) -> (r: ClearingResult<bool>)
    ensures
        r == maker_for_taker(*maker_order, *taker_order),
        taker_order.post_only ==> r == Err::<bool, ErrorCode>(ErrorCode::CantMatchTwoPostOnlys),
{
    if taker_order.post_only {
        Err(ErrorCode::CantMatchTwoPostOnlys)
    } else if maker_order.post_only && !taker_order.post_only {
        Ok(true)
    } else {
        Ok(maker_order.ts < taker_order.ts)
    }
}

/// Two orders may be examined for crossing only when they are on the same
/// market and on opposite sides.
pub fn are_orders_same_market_but_different_sides(maker_order: &Order, taker_order: &Order) -> (r:
    bool)
    ensures
        r == (maker_order.market_index == taker_order.market_index && maker_order.direction
            != taker_order.direction),
{
    maker_order.market_index == taker_order.market_index && maker_order.direction
        != taker_order.direction
}

/// The taker's price satisfies the maker: at or below a long maker's price,
/// at or above a short maker's.
pub open spec fn orders_cross(maker_direction: PositionDirection, maker_price: u128, taker_price: u128) -> bool {
    match maker_direction {
        PositionDirection::Long => taker_price <= maker_price,
        PositionDirection::Short => taker_price >= maker_price,
    }
}

/// Whether the taker's price satisfies a maker on the given side.
pub fn do_orders_cross(maker_direction: &PositionDirection, maker_price: u128, taker_price: u128) -> (r: bool)
    ensures
        r == orders_cross(*maker_direction, maker_price, taker_price),
{
    match maker_direction {
        PositionDirection::Long => taker_price <= maker_price,
        PositionDirection::Short => taker_price >= maker_price,
    }
}

/// The exponent of the factor that brings a base quantity at
/// `base_precision` down to quote precision.
pub open spec fn precision_decrease_exponent(base_precision: u32) -> nat {
    (base_precision + 4) as nat
}

/// Fill quantity and quote value of two matched orders, or the arithmetic
/// error where a step leaves its range.
pub open spec fn fill_for_matched_orders(
    maker_base_asset_amount: u128,
    maker_price: u128,
    taker_base_asset_amount: u128,
    base_precision: u32,
) -> ClearingResult<(u128, u128)> {
    let base = if maker_base_asset_amount <= taker_base_asset_amount {
        maker_base_asset_amount
    } else {
        taker_base_asset_amount
    };
    let factor = pow10(precision_decrease_exponent(base_precision)) as int;
    if 10 + base_precision > u32::MAX || factor > u128::MAX || base * maker_price > u128::MAX {
        Err(ErrorCode::MathError)
    } else {
        Ok((base, ((base * maker_price) as int / factor) as u128))
    }
}

/// Fill quantity (the smaller of the two orders) and its quote value at the
/// maker's price, brought from base precision down to quote precision.
pub fn calculate_fill_for_matched_orders(
    maker_base_asset_amount: u128,
    maker_price: u128,
    taker_base_asset_amount: u128,
    base_precision: u32,
) -> (r: ClearingResult<(u128, u128)>)
    ensures
        r == fill_for_matched_orders(
            maker_base_asset_amount,
            maker_price,
            taker_base_asset_amount,
            base_precision,
        ),
{
    let base_asset_amount = if maker_base_asset_amount <= taker_base_asset_amount {
        maker_base_asset_amount
    } else {
        taker_base_asset_amount
    };
    if base_precision > u32::MAX - 10 {
        return Err(ErrorCode::MathError);
    }
    let precision_decrease = match checked_pow10(10 + base_precision - 6) {
        Some(p) => p,
        None => {
            return Err(ErrorCode::MathError);
        },
    };
    let product = match base_asset_amount.checked_mul(maker_price) {
        Some(p) => p,
        None => {
            return Err(ErrorCode::MathError);
        },
    };
    proof {
        assert(pow10(0) == 1);
        lemma_pow10_monotone(0, precision_decrease_exponent(base_precision));
    }
    let quote_asset_amount = product / precision_decrease;
    Ok((base_asset_amount, quote_asset_amount))
}

/// The filler multiplier: the oracle's deviation from the maker's price in
/// mark-price precision, measured against ten basis points on the maker's
/// side, capped at ten basis points, and an error where it is negative or a
/// step leaves its range.
pub open spec fn filler_multiplier(
    maker_price: u128,
    maker_direction: PositionDirection,
    oracle_price: i128,
) -> ClearingResult<u128> {
    let diff = oracle_price - maker_price;
    let scaled = diff * MARK_PRICE_PRECISION_I128;
    let pct = trunc_div(scaled, oracle_price as int);
    let raw = match maker_direction {
        PositionDirection::Long => TEN_BPS_PCT_DIFF - pct,
        PositionDirection::Short => pct - TEN_BPS_PCT_DIFF,
    };
    let capped = if raw <= TEN_BPS_PCT_DIFF {
        raw
    } else {
        TEN_BPS_PCT_DIFF as int
    };
    if maker_price > i128::MAX || !fits_i128(diff) || !fits_i128(scaled) || oracle_price == 0
        || !fits_i128(pct) || !fits_i128(raw) || capped < 0 {
        Err(ErrorCode::MathError)
    } else {
        Ok(capped as u128)
    }
}

/// Multiplier on a filler's reward: grows as the maker's price gets worse
/// for the maker relative to the oracle, and never exceeds ten basis points.
pub fn calculate_filler_multiplier_for_matched_orders(
    maker_price: u128,
    maker_direction: &PositionDirection,
    oracle_price: i128,
) -> (r: ClearingResult<u128>)
    ensures
        r == filler_multiplier(maker_price, *maker_direction, oracle_price),
        r matches Ok(m) ==> m <= TEN_BPS_PCT_DIFF,
{
    if maker_price > i128::MAX as u128 {
        return Err(ErrorCode::MathError);
    }
    let diff = match oracle_price.checked_sub(maker_price as i128) {
        Some(d) => d,
        None => {
            return Err(ErrorCode::MathError);
        },
    };
    let scaled = match diff.checked_mul(MARK_PRICE_PRECISION_I128) {
        Some(s) => s,
        None => {
            return Err(ErrorCode::MathError);
        },
    };
    let price_pct_diff = match scaled.checked_div(oracle_price) {
        Some(p) => p,
        None => {
            return Err(ErrorCode::MathError);
        },
    };
    let raw = match maker_direction {
        PositionDirection::Long => TEN_BPS_PCT_DIFF.checked_sub(price_pct_diff),
        PositionDirection::Short => price_pct_diff.checked_sub(TEN_BPS_PCT_DIFF),
    };
    let raw = match raw {
        Some(v) => v,
        None => {
            return Err(ErrorCode::MathError);
        },
    };
    let multiplier = if raw <= TEN_BPS_PCT_DIFF {
        raw
    } else {
        TEN_BPS_PCT_DIFF
    };
    if multiplier < 0 {
        return Err(ErrorCode::MathError);
    }
    Ok(multiplier as u128)
}

} // verus!
