//! The size of a file as a short text: a count of bytes below one kibibyte,
//! otherwise a figure with two decimals in KB, MB or GB.
//!
//! The figure is the one that binary floating point yields: the byte count is
//! first rounded to the 53 significant bits of a double, then divided by the
//! unit, and the quotient is rounded to hundredths. Both roundings go to the
//! nearest value and settle a tie on the even neighbour. Below 2^53 bytes the
//! first rounding changes nothing.

use vstd::prelude::*;
use vstd::string::*;
use vstd::arithmetic::div_mod::{lemma_div_is_ordered_by_denominator, lemma_fundamental_div_mod};
use crate::text::{decimal, decimal_string, digit_char, digit_str};

verus! {

/// Bytes in a kibibyte.
pub const KIB: u64 = 1024;

/// Bytes in a mebibyte.
pub const MIB: u64 = 1_048_576;

/// Bytes in a gibibyte.
pub const GIB: u64 = 1_073_741_824;

/// The least count that has more than 53 significant bits to its name: 2^53.
pub const EXACT_LIMIT: u64 = 0x20_0000_0000_0000;

/// `n / d` rounded to the nearest whole number; exactly halfway goes to the
/// even one.
pub open spec fn round_half_even(n: nat, d: nat) -> nat {
    let q = n / d;
    let r = n % d;
    if 2 * r > d || (2 * r == d && q % 2 == 1) {
        q + 1
    } else {
        q
    }
}

/// The weight of the last of the 53 leading bits of `n`: 1 below 2^53, and
/// doubling with each further bit.
pub open spec fn last_place(n: nat) -> nat
    decreases n,
{
    if n < EXACT_LIMIT {
        1
    } else {
        2 * last_place(n / 2)
    }
}

/// `n` rounded to 53 significant bits.
pub open spec fn to_double(n: nat) -> nat {
    round_half_even(n, last_place(n)) * last_place(n)
}

/// The hundredths of `unit` in `bytes`, rounded.
pub open spec fn hundredths(bytes: nat, unit: nat) -> nat {
    round_half_even(to_double(bytes) * 100, unit)
}

/// `bytes / unit` with two decimals.
pub open spec fn scaled_text(bytes: nat, unit: nat) -> Seq<char> {
    let h = hundredths(bytes, unit);
    decimal(h / 100) + seq!['.', digit_char((h % 100 / 10) as int), digit_char((h % 10) as int)]
}

/// The text for a file of `bytes` bytes: the largest unit that the size
/// reaches, from bytes through KB and MB to GB.
pub open spec fn file_size_text(bytes: nat) -> Seq<char> {
    if bytes >= GIB {
        scaled_text(bytes, GIB as nat) + seq![' ', 'G', 'B']
    } else if bytes >= MIB {
        scaled_text(bytes, MIB as nat) + seq![' ', 'M', 'B']
    } else if bytes >= KIB {
        scaled_text(bytes, KIB as nat) + seq![' ', 'K', 'B']
    } else {
        decimal(bytes) + seq![' ', 'B']
    }
}

/// Rounding goes to a nearest whole number: the rounded quotient, times the
/// divisor, is off the dividend by half the divisor at most.
pub proof fn lemma_round_is_nearest(n: nat, d: nat)
    requires
        d > 0,
    ensures
        2 * (n - round_half_even(n, d) * d) <= d,
        2 * (round_half_even(n, d) * d - n) <= d,
{
    let q = (n / d) as int;
    let r = (n % d) as int;
    lemma_fundamental_div_mod(n as int, d as int);
    assert((q + 1) * d == q * d + d) by (nonlinear_arith);
}

/// A count below 2^53 is a double as it stands.
pub proof fn lemma_small_sizes_are_exact(bytes: nat)
    requires
        bytes < EXACT_LIMIT,
    ensures
        to_double(bytes) == bytes,
{
    assert(last_place(bytes) == 1);
    assert(round_half_even(bytes, 1) == bytes);
    assert(bytes * 1 == bytes) by (nonlinear_arith);
}

/// Divides and rounds to the nearest whole number, ties to even.
fn rounded_quotient(n: u128, d: u128) -> (r: u128)
    requires
        d > 0,
        n / d < u128::MAX,
    ensures
        r == round_half_even(n as nat, d as nat),
{
    let q = n / d;
    let rest = n % d;
    if rest > d - rest || (rest == d - rest && q % 2 == 1) {
        q + 1
    } else {
        q
    }
}

/// Rounds a byte count to 53 significant bits.
fn nearest_double(bytes: u64) -> (r: u128)
    ensures
        r == to_double(bytes as nat),
        r <= 0x1_0000_0000_0000_1000,
{
    let mut place: u64 = 1;
    let mut top: u64 = bytes;
    while top >= EXACT_LIMIT
        invariant
            1 <= place <= 0x1000,
            place * top <= bytes,
            place == 1 || top >= EXACT_LIMIT / 2,
            last_place(bytes as nat) == place * last_place(top as nat),
        decreases top,
    {
        proof {
            let p = place as int;
            let t = top as int;
            let l = last_place((top / 2) as nat) as int;
            assert((2 * p) * (t / 2) <= p * t) by (nonlinear_arith)
                requires
                    p >= 1,
                    t >= 0,
            ;
            assert(2 * p <= 0x1000) by (nonlinear_arith)
                requires
                    p >= 1,
                    (2 * p) * (t / 2) <= 0xffff_ffff_ffff_ffff,
                    t / 2 >= 0x10_0000_0000_0000,
            ;
            assert(p * (2 * l) == (2 * p) * l) by (nonlinear_arith);
        }
        top = top / 2;
        place = place * 2;
    }
    let count = rounded_quotient(bytes as u128, place as u128);
    proof {
        let b = bytes as int;
        let p = place as int;
        assert(last_place(bytes as nat) == p) by (nonlinear_arith)
            requires
                last_place(bytes as nat) == p * last_place(top as nat),
                last_place(top as nat) == 1,
        ;
        lemma_fundamental_div_mod(b, p);
        assert(count * p <= b + p) by (nonlinear_arith)
            requires
                count <= b / p + 1,
                p >= 1,
                b == p * (b / p) + b % p,
                b % p >= 0,
        ;
    }
    count * (place as u128)
}

/// `bytes / unit` with two decimals, as text.
fn scaled_string(bytes: u64, unit: u64) -> (r: String)
    requires
        unit >= KIB,
    ensures
        r@ == scaled_text(bytes as nat, unit as nat),
{
    let size = nearest_double(bytes);
    proof {
        lemma_div_is_ordered_by_denominator(size * 100, KIB as int, unit as int);
    }
    let h = rounded_quotient(size * 100, unit as u128);
    let whole = (h / 100) as u64;
    let cents = (h % 100) as u64;
    let mut text = decimal_string(whole);
    proof {
        reveal_strlit(".");
    }
    text.append(".");
    text.append(digit_str(cents / 10));
    text.append(digit_str(cents % 10));
    text
}

/// Renders a file size for display: `"<n> B"` below one kibibyte, otherwise
/// the size in the largest unit it reaches (KB from 1024 bytes, MB from
/// 1024 KB, GB from 1024 MB) with exactly two decimals.
pub fn format_file_size(bytes: u64) -> (r: String)
    ensures
        r@ == file_size_text(bytes as nat),
{
    proof {
        reveal_strlit(" GB");
        reveal_strlit(" MB");
        reveal_strlit(" KB");
        reveal_strlit(" B");
    }
    if bytes >= GIB {
        let mut text = scaled_string(bytes, GIB);
        text.append(" GB");
        text
    } else if bytes >= MIB {
        let mut text = scaled_string(bytes, MIB);
        text.append(" MB");
        text
    } else if bytes >= KIB {
        let mut text = scaled_string(bytes, KIB);
        text.append(" KB");
        text
    } else {
        let mut text = decimal_string(bytes);
        text.append(" B");
        text
    }
}

} // verus!
