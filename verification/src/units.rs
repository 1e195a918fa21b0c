//! Byte counts as human-readable text (`1.5 KB`, `2.0 GiB`).
//!
//! The screens print sizes the way a 64-bit float prints with one decimal:
//! the byte count is first rounded to the nearest float (53 significant
//! bits, ties to even), divided by a power of 1024 (exact), and the quotient
//! is rounded to one decimal (ties to even). All of it is done here in
//! integer arithmetic.

use vstd::prelude::*;
use crate::text::{decimal, digit, digit_char, push_char, push_decimal, push_str};

verus! {

/// 2^53, the first integer past a float's 53-bit significand.
pub open spec fn significand_limit() -> nat {
    0x20_0000_0000_0000
}

/// Halve `m` (doubling the scale `p`, collecting the dropped bits in `r`)
/// until it fits a float's significand: `(m, p, r)` with the invariant
/// `m * p + r` unchanged.
pub open spec fn float_truncate(m: nat, p: nat, r: nat) -> (nat, nat, nat)
    decreases m,
{
    if m < significand_limit() {
        (m, p, r)
    } else {
        float_truncate(m / 2, 2 * p, r + (m % 2) * p)
    }
}

/// The value of `n / d` rounded to the nearest integer, ties to even.
pub open spec fn round_half_even(n: nat, d: nat) -> nat {
    let q = n / d;
    let r = n % d;
    if 2 * r > d || (2 * r == d && q % 2 == 1) {
        q + 1
    } else {
        q
    }
}

/// The integer value of the float nearest to `b` (`b as f64`): `b` rounded
/// to 53 significant bits, ties to even.
pub open spec fn float_value(b: nat) -> nat {
    let t = float_truncate(b, 1, 0);
    let m = t.0;
    let p = t.1;
    let r = t.2;
    if 2 * r > p || (2 * r == p && m % 2 == 1) {
        (m + 1) * p
    } else {
        m * p
    }
}

/// `1024^k`.
pub open spec fn kibi_power(k: nat) -> nat
    decreases k,
{
    if k == 0 {
        1
    } else {
        1024 * kibi_power((k - 1) as nat)
    }
}

/// `v / 1024^k` printed with one decimal, ties to even.
pub open spec fn one_decimal(v: nat, k: nat) -> Seq<char> {
    let q = round_half_even(10 * v, kibi_power(k));
    decimal(q / 10) + "."@ + seq![digit_char(q % 10)]
}

/// Number of times `v` is divided by 1024 before it drops under 1024, at
/// most `max` times in all.
pub open spec fn unit_steps(v: nat, k: nat, max: nat) -> nat
    decreases max - k,
{
    if k < max && v >= kibi_power(k + 1) {
        unit_steps(v, k + 1, max)
    } else {
        k
    }
}

/// Unit names for sizes: B, KB, MB, GB, TB.
pub open spec fn decimal_unit(k: nat) -> Seq<char> {
    if k == 0 {
        "B"@
    } else if k == 1 {
        "KB"@
    } else if k == 2 {
        "MB"@
    } else if k == 3 {
        "GB"@
    } else {
        "TB"@
    }
}

/// A size in bytes as text: plain bytes under 1 KB, else one decimal of
/// the largest unit up to TB that keeps the number at least 1.
pub open spec fn bytes_text(b: nat) -> Seq<char> {
    let v = float_value(b);
    let k = unit_steps(v, 0, 4);
    if k == 0 {
        decimal(v) + " B"@
    } else {
        one_decimal(v, k) + " "@ + decimal_unit(k)
    }
}

/// A size in bytes with binary unit names: bytes under 1 KiB, then KiB,
/// MiB and GiB with one decimal.
pub open spec fn binary_bytes_text(b: nat) -> Seq<char> {
    if b >= kibi_power(3) {
        one_decimal(float_value(b), 3) + " GiB"@
    } else if b >= kibi_power(2) {
        one_decimal(float_value(b), 2) + " MiB"@
    } else if b >= kibi_power(1) {
        one_decimal(float_value(b), 1) + " KiB"@
    } else {
        decimal(b) + " B"@
    }
}

proof fn lemma_kibi_values()
    ensures
        kibi_power(0) == 1,
        kibi_power(1) == 1024,
        kibi_power(2) == 1048576,
        kibi_power(3) == 1073741824,
        kibi_power(4) == 1099511627776,
        kibi_power(5) == 1125899906842624,
{
    reveal_with_fuel(kibi_power, 6);
}

/// `b as f64`, as an integer: returns `float_value(b)`.
fn nearest_float(b: u64) -> (v: u128)
    ensures
        v == float_value(b as nat),
        v < 0x4_0000_0000_0000_0000,
{
    let mut m: u128 = b as u128;
    let mut p: u128 = 1;
    let mut r: u128 = 0;
    while m >= 0x20_0000_0000_0000
        invariant
            float_truncate(m as nat, p as nat, r as nat) == float_truncate(b as nat, 1, 0),
            m * p + r == b,
            r < p,
            1 <= p < 4096,
        decreases m,
    {
        let bit = m % 2;
        proof {
            assert(m * p == (m / 2) * (2 * p) + (m % 2) * p) by (nonlinear_arith)
                requires
                    m >= 0,
                    p >= 0,
            ;
            assert(m * p >= 0x20_0000_0000_0000 * p) by (nonlinear_arith)
                requires
                    m >= 0x20_0000_0000_0000,
                    p >= 0,
            ;
            assert(p < 2048);
        }
        if bit == 0 {
            assert(bit * p == 0);
        } else {
            assert(bit * p == p);
            r = r + p;
        }
        m = m / 2;
        p = 2 * p;
    }
    if 2 * r > p || (2 * r == p && m % 2 == 1) {
        proof {
            assert((m + 1) * p <= 0x20_0000_0000_0000 * 4096) by (nonlinear_arith)
                requires
                    m + 1 <= 0x20_0000_0000_0000,
                    p < 4096,
                    m >= 0,
                    p >= 0,
            ;
        }
        (m + 1) * p
    } else {
        proof {
            assert(m * p <= b);
        }
        m * p
    }
}

/// Append `v / 1024^k` with one decimal, ties to even.
fn push_one_decimal(s: &mut String, v: u128, k: u32, scale: u128)
    requires
        v < 0x4_0000_0000_0000_0000,
        1 <= k <= 4,
        scale == kibi_power(k as nat),
    ensures
        final(s)@ == old(s)@ + one_decimal(v as nat, k as nat),
{
    proof {
        lemma_kibi_values();
        assert(scale >= 1024) by {
            if k == 2 {
            } else if k == 3 {
            } else if k == 4 {
            }
        }
    }
    let n = 10 * v;
    let q0 = n / scale;
    let rem = n % scale;
    let q = if 2 * rem > scale || (2 * rem == scale && q0 % 2 == 1) {
        q0 + 1
    } else {
        q0
    };
    proof {
        assert(q0 <= n / 1024) by {
            vstd::arithmetic::div_mod::lemma_div_is_ordered_by_denominator(n as int, 1024, scale as int);
        }
        assert(q == round_half_even((10 * v) as nat, kibi_power(k as nat)));
    }
    push_decimal(s, (q / 10) as u64);
    push_str(s, ".");
    push_char(s, digit((q % 10) as u64));
    proof {
        reveal_strlit(".");
        assert(final(s)@ =~= old(s)@ + one_decimal(v as nat, k as nat));
    }
}


/// Format bytes as a human-readable string: `512 B`, `1.5 KB`, `1.0 MB`,
/// up to TB.
pub fn format_bytes(bytes: u64) -> (s: String)
    ensures
        s@ == bytes_text(bytes as nat),
{
    proof {
        lemma_kibi_values();
    }
    let v = nearest_float(bytes);
    let mut k: u32 = 0;
    let mut scale: u128 = 1;
    while k < 4 && v >= scale * 1024
        invariant
            0 <= k <= 4,
            scale == kibi_power(k as nat),
            scale <= 1099511627776,
            unit_steps(v as nat, k as nat, 4) == unit_steps(v as nat, 0, 4),
        decreases 4 - k,
    {
        proof {
            reveal_with_fuel(kibi_power, 2);
        }
        scale = scale * 1024;
        k = k + 1;
        proof {
            if k == 1 {
            } else if k == 2 {
            } else if k == 3 {
            } else {
                assert(k == 4);
            }
        }
    }
    proof {
        reveal_with_fuel(kibi_power, 2);
        assert(unit_steps(v as nat, k as nat, 4) == k);
    }
    let mut s = String::new();
    if k == 0 {
        push_decimal(&mut s, v as u64);
        push_str(&mut s, " B");
        proof {
            assert(v < 1024);
            assert(s@ =~= bytes_text(bytes as nat));
        }
    } else {
        push_one_decimal(&mut s, v, k, scale);
        push_str(&mut s, " ");
        let unit = if k == 1 {
            "KB"
        } else if k == 2 {
            "MB"
        } else if k == 3 {
            "GB"
        } else {
            "TB"
        };
        push_str(&mut s, unit);
        proof {
            assert(unit@ == decimal_unit(k as nat));
            assert(s@ =~= bytes_text(bytes as nat));
        }
    }
    s
}

/// Format bytes with binary unit names: `500 B`, `2.0 KiB`, `5.0 MiB`,
/// `2.0 GiB`.
pub fn human_bytes(bytes: u64) -> (s: String)
    ensures
        s@ == binary_bytes_text(bytes as nat),
{
    proof {
        lemma_kibi_values();
    }
    let mut s = String::new();
    if bytes >= 1073741824 {
        let v = nearest_float(bytes);
        push_one_decimal(&mut s, v, 3, 1073741824);
        push_str(&mut s, " GiB");
    } else if bytes >= 1048576 {
        let v = nearest_float(bytes);
        push_one_decimal(&mut s, v, 2, 1048576);
        push_str(&mut s, " MiB");
    } else if bytes >= 1024 {
        let v = nearest_float(bytes);
        push_one_decimal(&mut s, v, 1, 1024);
        push_str(&mut s, " KiB");
    } else {
        push_decimal(&mut s, bytes);
        push_str(&mut s, " B");
    }
    assert(s@ =~= binary_bytes_text(bytes as nat));
    s
}

} // verus!
