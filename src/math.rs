//! Checked fixed-point arithmetic shared by the components.
use vstd::prelude::*;

verus! {

/// Ten to the power `e`.
pub open spec fn pow10(e: nat) -> nat
    decreases e,
{
    if e == 0 {
        1
    } else {
        10 * pow10((e - 1) as nat)
    }
}

/// Powers of ten grow with the exponent.
pub proof fn lemma_pow10_monotone(a: nat, b: nat)
    requires
        a <= b,
    ensures
        pow10(a) <= pow10(b),
    decreases b - a,
{
    if a < b {
        lemma_pow10_monotone(a, (b - 1) as nat);
    }
}

/// Ten to the power `e`, or `None` where that leaves `u128`.
pub fn checked_pow10(e: u32) -> (r: Option<u128>)
    ensures
        r == (if pow10(e as nat) <= u128::MAX {
            Some(pow10(e as nat) as u128)
        } else {
            None::<u128>
        }),
{
    let mut acc: u128 = 1;
    let mut i: u32 = 0;
    while i < e
        invariant
            i <= e,
            acc == pow10(i as nat),
        decreases e - i,
    {
        match acc.checked_mul(10) {
            Some(next) => {
                acc = next;
                i = i + 1;
            },
            None => {
                proof {
                    lemma_pow10_monotone((i + 1) as nat, e as nat);
                }
                return None;
            },
        }
    }
    Some(acc)
}

/// Integer division rounding toward zero, as Rust's `/` on signed integers does.
pub open spec fn trunc_div(x: int, d: int) -> int {
    if x == 0 {
        0
    } else if x > 0 && d > 0 {
        x / d
    } else if x < 0 && d < 0 {
        (-x) / (-d)
    } else if x < 0 {
        -((-x) / d)
    } else {
        -(x / (-d))
    }
}

/// Whether a value fits `i128`.
pub open spec fn fits_i128(x: int) -> bool {
    i128::MIN <= x <= i128::MAX
}

/// The magnitude of a signed value.
pub open spec fn unsigned_abs(x: int) -> int {
    if x < 0 {
        -x
    } else {
        x
    }
}

/// The magnitude of a signed value, which always fits the unsigned type.
pub fn abs_i128(x: i128) -> (r: u128)
    ensures
        r == unsigned_abs(x as int),
{
    if x < 0 {
        ((-(x + 1)) as u128) + 1
    } else {
        x as u128
    }
}

} // verus!
