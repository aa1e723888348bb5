//! Integer helpers: division that truncates toward zero and powers of ten.

use vstd::prelude::*;
use vstd::arithmetic::power::{pow, lemma_pow0, lemma_pow1, lemma_pow_adds, lemma_pow_increases, lemma_pow_positive};

verus! {

/// `x / d` rounded toward zero, for a positive `d`.
pub open spec fn spec_trunc_div(x: int, d: int) -> int {
    if x >= 0 {
        x / d
    } else {
        -((-x) / d)
    }
}

/// Divides `x` by a positive `d`, rounding toward zero.
pub fn trunc_div(x: i128, d: i128) -> (q: i128)
    requires
        d > 0,
    ensures
        q == spec_trunc_div(x as int, d as int),
{
    x / d
}

/// Ten to the power `n`.
pub open spec fn pow10(n: nat) -> int {
    pow(10, n)
}

/// Computes ten to the power `n`, or `None` when it exceeds `i128::MAX`.
pub fn checked_pow10(n: u32) -> (r: Option<i128>)
    ensures
        match r {
            Some(p) => p == pow10(n as nat) && p > 0,
            None => pow10(n as nat) > i128::MAX,
        },
{
    let mut acc: i128 = 1;
    let mut i: u32 = 0;
    proof {
        lemma_pow0(10);
    }
    while i < n
        invariant
            i <= n,
            acc == pow10(i as nat),
            acc > 0,
        decreases n - i,
    {
        proof {
            lemma_pow_adds(10, i as nat, 1);
            lemma_pow1(10);
        }
        match acc.checked_mul(10) {
            Some(next) => {
                acc = next;
            },
            None => {
                proof {
                    lemma_pow_increases(10, (i + 1) as nat, n as nat);
                }
                return None;
            },
        }
        i += 1;
    }
    Some(acc)
}

} // verus!
