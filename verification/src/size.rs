//! Sizes of files in words.
//!
//! A size is first rounded to the 53 significant bits that a double-precision
//! number holds, then to the decimals shown; both times to the nearest value, and
//! half-way cases to the even one.

use crate::text::{cat2, cat3, dec, decimal};
use vstd::prelude::*;

verus! {

pub const KB: u64 = 1_024;

pub const MB: u64 = 1_048_576;

pub const GB: u64 = 1_073_741_824;

/// `n / d` to the nearest whole number, half-way cases to the even one.
pub open spec fn nearest(n: nat, d: nat) -> nat {
    let q = n / d;
    let r = n % d;
    if 2 * r > d || (2 * r == d && q % 2 == 1) {
        q + 1
    } else {
        q
    }
}

/// The smallest doubling of `unit` in which `n` has at most 53 bits.
pub open spec fn float_step(n: nat, unit: nat) -> nat
    decreases n / unit,
{
    if unit == 0 || n / unit < 9_007_199_254_740_992 {
        unit
    } else {
        proof {
            lemma_half(n, unit);
        }
        float_step(n, 2 * unit)
    }
}

/// Doubling the unit lowers the count.
pub proof fn lemma_half(n: nat, unit: nat)
    requires
        unit > 0,
        n / unit > 0,
    ensures
        n / (2 * unit) < n / unit,
{
    vstd::arithmetic::div_mod::lemma_div_denominator(n as int, unit as int, 2);
    assert(unit * 2 == 2 * unit);
}

/// `n` in double precision.
pub open spec fn as_float(n: nat) -> nat {
    nearest(n, float_step(n, 1)) * float_step(n, 1)
}

/// Rounding moves a number by at most half a unit.
pub proof fn nearest_is_near(n: nat, d: nat)
    requires
        d > 0,
    ensures
        2 * nearest(n, d) * d <= 2 * n + d,
        2 * n <= 2 * nearest(n, d) * d + d,
{
    let q = n / d;
    let r = n % d;
    vstd::arithmetic::div_mod::lemma_fundamental_div_mod(n as int, d as int);
    assert(n == d * q + r);
    assert(2 * q * d == 2 * (d * q)) by (nonlinear_arith);
    assert(2 * (q + 1) * d == 2 * (d * q) + 2 * d) by (nonlinear_arith);
}

proof fn lemma_step(n: nat, unit: nat)
    requires
        0 < unit,
        unit <= n || unit == 1,
    ensures
        0 < float_step(n, unit),
        float_step(n, unit) <= n || float_step(n, unit) == 1,
    decreases n / unit,
{
    if n / unit >= 9_007_199_254_740_992 {
        lemma_half(n, unit);
        vstd::arithmetic::div_mod::lemma_fundamental_div_mod(n as int, unit as int);
        assert(2 * unit <= n) by (nonlinear_arith)
            requires
                n == unit * (n / unit) + n % unit,
                n / unit >= 2,
                n % unit >= 0,
                unit > 0,
        ;
        lemma_step(n, 2 * unit);
    }
}

fn round_even(n: u128, d: u128) -> (r: u128)
    requires
        0 < d < 0x1_0000_0000_0000_0000_0000,
    ensures
        r == nearest(n as nat, d as nat),
{
    let q: u128 = n / d;
    let rest: u128 = n % d;
    if 2 * rest > d || (2 * rest == d && q % 2 == 1) {
        proof {
            if d == 1 {
                assert(rest == 0);
            }
            assert(q <= n / 2) by (nonlinear_arith)
                requires
                    q == n / d,
                    d >= 2,
            ;
        }
        q + 1
    } else {
        q
    }
}

fn to_float(n: u64) -> (r: u128)
    ensures
        r == as_float(n as nat),
        r <= 2 * n,
{
    let wide: u128 = n as u128;
    let mut unit: u128 = 1;
    proof {
        lemma_step(n as nat, 1);
    }
    while wide / unit >= 9_007_199_254_740_992
        invariant
            wide == n,
            0 < unit <= 0x1_0000_0000_0000_0000,
            float_step(n as nat, unit as nat) == float_step(n as nat, 1),
        decreases wide / unit,
    {
        proof {
            lemma_half(n as nat, unit as nat);
            assert(unit <= wide) by (nonlinear_arith)
                requires
                    wide / unit >= 2,
                    unit > 0,
            ;
            assert(2 * unit <= wide) by (nonlinear_arith)
                requires
                    wide / unit >= 2,
                    unit > 0,
            ;
        }
        unit = 2 * unit;
    }
    let q: u128 = round_even(wide, unit);
    proof {
        nearest_is_near(n as nat, unit as nat);
        let q2 = nearest(n as nat, unit as nat);
        assert(2 * q2 * unit == 2 * (q2 * unit)) by (nonlinear_arith);
    }
    q * unit
}

/// `n / unit` with one decimal.
pub open spec fn one_decimal(n: nat, unit: nat) -> Seq<char> {
    let tenths = nearest(as_float(n) * 10, unit);
    decimal(tenths / 10) + "."@ + decimal(tenths % 10)
}

/// `n / unit` without decimals.
pub open spec fn no_decimals(n: nat, unit: nat) -> Seq<char> {
    decimal(nearest(as_float(n), unit))
}

fn fixed1(n: u64, unit: u64) -> (r: String)
    requires
        1024 <= unit,
    ensures
        r@ == one_decimal(n as nat, unit as nat),
{
    let v: u128 = to_float(n);
    let tenths: u128 = round_even(v * 10, unit as u128);
    proof {
        nearest_is_near((v * 10) as nat, unit as nat);
        assert(tenths <= v * 10) by (nonlinear_arith)
            requires
                2 * tenths * unit <= 2 * (v * 10) + unit,
                unit >= 1024,
        ;
        assert(tenths * 1024 <= tenths * unit) by (nonlinear_arith)
            requires
                unit >= 1024,
        ;
        assert(2 * tenths * unit == 2 * (tenths * unit)) by (nonlinear_arith);
        assert(tenths <= u64::MAX) by (nonlinear_arith)
            requires
                2 * (tenths * unit) <= 2 * (v * 10) + unit,
                v <= 2 * 0xffff_ffff_ffff_ffff,
                1024 <= unit <= 0xffff_ffff_ffff_ffff,
        {
            if tenths > u64::MAX {
                assert(tenths * unit >= 0x1_0000_0000_0000_0000 * unit) by (nonlinear_arith)
                    requires
                        tenths >= 0x1_0000_0000_0000_0000,
                        unit >= 1024,
                ;
            }
        }
    }
    let whole = dec((tenths / 10) as u64);
    let part = dec((tenths % 10) as u64);
    cat3(whole.as_str(), ".", part.as_str())
}

fn fixed0(n: u64, unit: u64) -> (r: String)
    requires
        1024 <= unit,
    ensures
        r@ == no_decimals(n as nat, unit as nat),
{
    let v: u128 = to_float(n);
    let whole: u128 = round_even(v, unit as u128);
    proof {
        nearest_is_near(v as nat, unit as nat);
        assert(2 * whole * unit == 2 * (whole * unit)) by (nonlinear_arith);
        assert(whole <= u64::MAX) by (nonlinear_arith)
            requires
                2 * (whole * unit) <= 2 * v + unit,
                v <= 2 * 0xffff_ffff_ffff_ffff,
                1024 <= unit <= 0xffff_ffff_ffff_ffff,
        {
            if whole > u64::MAX {
                assert(whole * unit >= 0x1_0000_0000_0000_0000 * unit) by (nonlinear_arith)
                    requires
                        whole >= 0x1_0000_0000_0000_0000,
                        unit >= 1024,
                ;
            }
        }
    }
    dec(whole as u64)
}

/// The size of a file, in the largest unit that it reaches.
pub open spec fn size_text(bytes: nat) -> Seq<char> {
    if bytes >= GB {
        one_decimal(bytes, GB as nat) + " GB"@
    } else if bytes >= MB {
        one_decimal(bytes, MB as nat) + " MB"@
    } else if bytes >= KB {
        one_decimal(bytes, KB as nat) + " KB"@
    } else {
        decimal(bytes) + " B"@
    }
}

/// Format a file size for display.
pub fn size_str(bytes: u64) -> (r: String)
    ensures
        r@ == size_text(bytes as nat),
{
    if bytes >= GB {
        cat2(fixed1(bytes, GB).as_str(), " GB")
    } else if bytes >= MB {
        cat2(fixed1(bytes, MB).as_str(), " MB")
    } else if bytes >= KB {
        cat2(fixed1(bytes, KB).as_str(), " KB")
    } else {
        cat2(dec(bytes).as_str(), " B")
    }
}

/// An estimated size: coarser than [`size_text`] below a gigabyte.
pub open spec fn estimate_text(bytes: nat) -> Seq<char> {
    if bytes >= GB {
        "~"@ + one_decimal(bytes, GB as nat) + " GB"@
    } else if bytes >= MB {
        "~"@ + no_decimals(bytes, MB as nat) + " MB"@
    } else if bytes >= KB {
        "~"@ + no_decimals(bytes, KB as nat) + " KB"@
    } else {
        "~"@ + decimal(bytes) + " B"@
    }
}

/// Format an estimated size for display.
pub fn format_size_estimate(bytes: u64) -> (r: String)
    ensures
        r@ == estimate_text(bytes as nat),
{
    if bytes >= GB {
        cat3("~", fixed1(bytes, GB).as_str(), " GB")
    } else if bytes >= MB {
        cat3("~", fixed0(bytes, MB).as_str(), " MB")
    } else if bytes >= KB {
        cat3("~", fixed0(bytes, KB).as_str(), " KB")
    } else {
        cat3("~", dec(bytes).as_str(), " B")
    }
}

} // verus!
