//! Normalizing an oracle price to a fixed number of decimals.

use vstd::prelude::*;
use crate::constants::ASSET_PRICE_DECIMALS;
use crate::error::GoldRushError;
use crate::utils::math::{checked_pow10, pow10, spec_trunc_div, trunc_div};

verus! {

/// The power of ten an oracle price with exponent `expo` is scaled by.
pub open spec fn price_scale(expo: int) -> int {
    ASSET_PRICE_DECIMALS + expo
}

/// The oracle price `price * 10^expo` with `ASSET_PRICE_DECIMALS` decimals:
/// multiplied by a power of ten where the scale is not negative, else
/// divided by one, rounding toward zero.
pub open spec fn scaled_price(price: int, expo: int) -> int {
    let scale = price_scale(expo);
    if scale >= 0 {
        price * pow10(scale as nat)
    } else {
        spec_trunc_div(price, pow10((-scale) as nat))
    }
}

/// The normalized price, or why there is none: `Overflow` when the scale,
/// the power of ten or the scaled price leaves the range of the machine
/// integers, `InvalidAssetPrice` when the scaled price is negative.
pub open spec fn spec_normalize_price(price: i64, expo: i32) -> Result<u64, GoldRushError> {
    let scale = price_scale(expo as int);
    let v = scaled_price(price as int, expo as int);
    if scale > i32::MAX {
        Err(GoldRushError::Overflow)
    } else if pow10((if scale >= 0 { scale } else { -scale }) as nat) > i128::MAX {
        Err(GoldRushError::Overflow)
    } else if v > i128::MAX || v < i128::MIN {
        Err(GoldRushError::Overflow)
    } else if v < 0 {
        Err(GoldRushError::InvalidAssetPrice)
    } else if v > u64::MAX {
        Err(GoldRushError::Overflow)
    } else {
        Ok(v as u64)
    }
}

/// Normalizes the oracle price `price * 10^expo`.
pub fn normalize_price_to_u64(price: i64, expo: i32) -> (r: Result<u64, GoldRushError>)
    ensures
        r == spec_normalize_price(price, expo),
{
    let scale: i32 = match ASSET_PRICE_DECIMALS.checked_add(expo) {
        Some(s) => s,
        None => {
            return Err(GoldRushError::Overflow);
        },
    };
    let v: i128 = if scale >= 0 {
        let mul: i128 = match checked_pow10(scale as u32) {
            Some(m) => m,
            None => {
                return Err(GoldRushError::Overflow);
            },
        };
        match (price as i128).checked_mul(mul) {
            Some(v) => v,
            None => {
                return Err(GoldRushError::Overflow);
            },
        }
    } else {
        let exp: u32 = (-(scale as i64)) as u32;
        let div: i128 = match checked_pow10(exp) {
            Some(d) => d,
            None => {
                return Err(GoldRushError::Overflow);
            },
        };
        let q = trunc_div(price as i128, div);
        proof {
            let p = price as int;
            let d = div as int;
            assert(-(i64::MAX + 1) <= spec_trunc_div(p, d) <= i64::MAX) by (nonlinear_arith)
                requires
                    -(i64::MAX + 1) <= p <= i64::MAX,
                    d >= 1,
            ;
        }
        q
    };
    if v < 0 {
        return Err(GoldRushError::InvalidAssetPrice);
    }
    if v > u64::MAX as i128 {
        return Err(GoldRushError::Overflow);
    }
    Ok(v as u64)
}

} // verus!
