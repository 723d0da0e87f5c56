//! Sizes in bytes as people read them: kilobytes, megabytes, gigabytes.
//!
//! A size is divided by a power of two and rounded to a fixed number of decimal places, a tie
//! going to the even last digit. Sizes that need more than 53 significant bits are first rounded
//! to 53, as a double holds them.

use vstd::prelude::*;
use vstd::arithmetic::div_mod::lemma_fundamental_div_mod;
use vstd::arithmetic::mul::lemma_mul_is_commutative;
use vstd::arithmetic::power2::{lemma2_to64, lemma_pow2_unfold, pow2};
use crate::text::{append_digits, digit_char, digits};

verus! {

/// Bytes in a kilobyte.
pub const KIB: u64 = 1024;

/// Bytes in a megabyte.
pub const MIB: u64 = 1024 * 1024;

/// Bytes in a gigabyte.
pub const GIB: u64 = 1024 * 1024 * 1024;

/// The first integer of which a double skips its successor.
pub const F64_EXACT: u64 = 0x20_0000_0000_0000;

/// The integer closest to `n / d`; of two equally close ones, the even one.
pub open spec fn round_half_even(n: nat, d: nat) -> nat
    recommends
        d > 0,
{
    let q = n / d;
    let r = n % d;
    if 2 * r > d || (2 * r == d && q % 2 == 1) {
        q + 1
    } else {
        q
    }
}

/// The distance between neighbouring doubles at the magnitude of `n`, among those that are
/// integers.
pub open spec fn f64_spacing(n: nat) -> nat
    decreases n,
{
    if n < F64_EXACT {
        1
    } else {
        2 * f64_spacing(n / 2)
    }
}

/// The double closest to `n`; of two equally close ones, the one with the even significand.
pub open spec fn nearest_f64(n: nat) -> nat {
    round_half_even(n, f64_spacing(n)) * f64_spacing(n)
}

/// The text of `tenths / 10` with one decimal place.
pub open spec fn one_place(tenths: nat) -> Seq<char> {
    digits(tenths / 10) + seq!['.', digit_char(tenths % 10)]
}

/// The text of `hundredths / 100` with two decimal places.
pub open spec fn two_places(hundredths: nat) -> Seq<char> {
    digits(hundredths / 100) + seq![
        '.',
        digit_char(hundredths / 10 % 10),
        digit_char(hundredths % 10),
    ]
}

/// A size in megabytes with one decimal place, or in whole kilobytes below one megabyte.
pub open spec fn size_text(size: nat) -> Seq<char> {
    if size >= MIB {
        one_place(round_half_even(size * 10, MIB as nat)) + "MB"@
    } else {
        digits(round_half_even(size, KIB as nat)) + "KB"@
    }
}

/// A total in gigabytes with two decimal places, or as `size_text` has it below one gigabyte.
pub open spec fn total_size_text(size: nat) -> Seq<char> {
    let v = nearest_f64(size);
    if v >= GIB {
        two_places(round_half_even(v * 100, GIB as nat)) + "GB"@
    } else {
        size_text(v)
    }
}

/// Rounds `n / d` to the closest integer, ties to even.
fn rounded(n: u128, d: u128) -> (r: u128)
    requires
        d > 0,
        2 * d <= u128::MAX,
    ensures
        r == round_half_even(n as nat, d as nat),
{
    let q: u128 = n / d;
    let r: u128 = n % d;
    if 2 * r > d || (2 * r == d && q % 2 == 1) {
        proof {
            if q == u128::MAX {
                assert(d == 1) by (nonlinear_arith)
                    requires
                        q == n / d,
                        q == u128::MAX,
                        d > 0,
                        n <= u128::MAX,
                ;
            }
        }
        q + 1
    } else {
        q
    }
}

proof fn lemma_spacing_bounds(n: nat)
    ensures
        1 <= f64_spacing(n),
        n > 0 ==> f64_spacing(n) <= n,
    decreases n,
{
    if n >= F64_EXACT {
        lemma_spacing_bounds(n / 2);
    }
}

proof fn lemma_spacing_small(n: nat)
    requires
        n <= u64::MAX,
    ensures
        f64_spacing(n) <= 2048,
{
    reveal_with_fuel(f64_spacing, 13);
}

fn spacing(n: u64) -> (s: u64)
    ensures
        s == f64_spacing(n as nat),
    decreases n,
{
    if n < F64_EXACT {
        1
    } else {
        proof {
            lemma_spacing_bounds(n as nat);
        }
        2 * spacing(n / 2)
    }
}

/// The value that a double takes for `n`.
pub fn to_nearest_f64(n: u64) -> (v: u128)
    ensures
        v == nearest_f64(n as nat),
        v <= n + 2048,
{
    let s: u64 = spacing(n);
    proof {
        lemma_spacing_bounds(n as nat);
        lemma_spacing_small(n as nat);
        law_rounding_is_nearest(n as nat, s as nat);
        lemma_mul_is_commutative(round_half_even(n as nat, s as nat) as int, s as int);
    }
    let q: u128 = rounded(n as u128, s as u128);
    proof {
        assert(q * s <= n + 2048);
    }
    q * (s as u128)
}

/// The size as a message shows it.
pub fn format_size(size: u32) -> (r: String)
    ensures
        r@ == size_text(size as nat),
{
    format_small(size as u64)
}

/// The text of a size in megabytes or kilobytes.
fn format_small(size: u64) -> (r: String)
    requires
        size <= u32::MAX,
    ensures
        r@ == size_text(size as nat),
{
    let mut out: String = String::new();
    if size >= MIB {
        proof {
            lemma_quotient_fits(size as nat * 10, MIB as nat);
        }
        let tenths: u64 = rounded(size as u128 * 10, MIB as u128) as u64;
        append_digits(&mut out, tenths / 10);
        out.append(".");
        append_digits(&mut out, tenths % 10);
        out.append("MB");
        proof {
            reveal_strlit(".");
            assert(out@ =~= size_text(size as nat));
        }
    } else {
        proof {
            lemma_quotient_fits(size as nat, KIB as nat);
        }
        let kb: u64 = rounded(size as u128, KIB as u128) as u64;
        append_digits(&mut out, kb);
        out.append("KB");
        assert(out@ =~= size_text(size as nat));
    }
    out
}

/// A size times a hundred, in kilobytes or more, fits in a machine word.
proof fn lemma_quotient_fits(n: nat, d: nat)
    requires
        n <= 100 * (u64::MAX + 2048),
        d >= KIB,
    ensures
        round_half_even(n, d) <= u64::MAX,
{
    lemma_fundamental_div_mod(n as int, d as int);
    assert(n / d <= u64::MAX - 1) by (nonlinear_arith)
        requires
            n == d * (n / d) + n % d,
            n % d >= 0,
            d >= 1024,
            n <= 100 * (u64::MAX + 2048),
    ;
}

/// A running total as the status message shows it.
pub fn format_size_u64(size: u64) -> (r: String)
    ensures
        r@ == total_size_text(size as nat),
{
    let v: u128 = to_nearest_f64(size);
    if v >= GIB as u128 {
        let scaled: u128 = rounded(v * 100, GIB as u128);
        proof {
            lemma_quotient_fits(v as nat * 100, GIB as nat);
        }
        let hundredths: u64 = scaled as u64;
        let mut out: String = String::new();
        append_digits(&mut out, hundredths / 100);
        out.append(".");
        append_digits(&mut out, hundredths / 10 % 10);
        append_digits(&mut out, hundredths % 10);
        out.append("GB");
        proof {
            reveal_strlit(".");
            assert(out@ =~= total_size_text(size as nat));
        }
        out
    } else {
        format_small(v as u64)
    }
}

/// Rounding moves a quotient by at most one half: `n` lies within `d / 2` of the result times `d`.
pub proof fn law_rounding_is_nearest(n: nat, d: nat)
    requires
        d > 0,
    ensures
        2 * (round_half_even(n, d) * d) <= 2 * n + d,
        2 * n <= 2 * (round_half_even(n, d) * d) + d,
{
    let q = n / d;
    let r = n % d;
    lemma_fundamental_div_mod(n as int, d as int);
    assert((q + 1) * d == q * d + d) by (nonlinear_arith);
    assert(q * d == d * q) by (nonlinear_arith);
}

/// Every integer below two to the power of 53 is a double, so rounding keeps it.
pub proof fn law_small_totals_are_exact(n: nat)
    requires
        n < 0x20_0000_0000_0000,
    ensures
        nearest_f64(n) == n,
{
    assert(f64_spacing(n) == 1);
    assert(n % 1 == 0 && n / 1 == n) by (nonlinear_arith);
    assert(round_half_even(n, 1) == n);
}

/// Below one gigabyte a total reads as the size of a single file does.
pub proof fn law_totals_read_like_sizes(n: nat)
    requires
        n < GIB,
    ensures
        total_size_text(n) == size_text(n),
{
    law_small_totals_are_exact(n);
}

/// Of two equally close integers, rounding takes the even one.
pub proof fn law_rounding_ties_to_even(n: nat, d: nat)
    requires
        d > 0,
        ({
            let distance = 2 * n - 2 * (round_half_even(n, d) * d);
            distance == d || distance == -d
        }),
    ensures
        round_half_even(n, d) % 2 == 0,
{
    let q = n / d;
    let r = n % d;
    lemma_fundamental_div_mod(n as int, d as int);
    assert((q + 1) * d == q * d + d) by (nonlinear_arith);
    assert(q * d == d * q) by (nonlinear_arith);
}

/// Below one megabyte a size reads in whole kilobytes, above with one decimal place in megabytes.
/// What it reads is as close to the size as these places allow, and even where two texts are
/// equally close.
pub proof fn law_sizes_read_to_the_nearest(size: nat)
    ensures
        size < 1048576 ==> exists|k: nat|
            {
                &&& size_text(size) == #[trigger] digits(k) + "KB"@
                &&& -1024 <= 2 * size - 2048 * k <= 1024
                &&& (2 * size - 2048 * k == 1024 || 2 * size - 2048 * k == -1024) ==> k % 2 == 0
            },
        size >= 1048576 ==> exists|whole: nat, tenths: nat|
            {
                let distance = 2 * (10 * size) - 2097152 * (10 * whole + tenths);
                &&& tenths < 10
                &&& size_text(size) == #[trigger] digits(whole) + "."@ + #[trigger] digits(tenths)
                    + "MB"@
                &&& -1048576 <= distance <= 1048576
                &&& (distance == 1048576 || distance == -1048576) ==> tenths % 2 == 0
            },
{
    reveal_strlit(".");
    if size < 1048576 {
        let k = round_half_even(size, 1024);
        law_rounding_is_nearest(size, 1024);
        if 2 * size - 2048 * k == 1024 || 2 * size - 2048 * k == -1024 {
            law_rounding_ties_to_even(size, 1024);
        }
        assert(size_text(size) == digits(k) + "KB"@);
    } else {
        let t = round_half_even(size * 10, 1048576);
        let whole = t / 10;
        let tenths = t % 10;
        law_rounding_is_nearest(size * 10, 1048576);
        let distance = 2 * (10 * size) - 2097152 * (10 * whole + tenths);
        if distance == 1048576 || distance == -1048576 {
            law_rounding_ties_to_even(size * 10, 1048576);
        }
        assert(size_text(size) =~= digits(whole) + "."@ + digits(tenths) + "MB"@);
    }
}

/// From one gigabyte on a total reads with two decimal places in gigabytes, as close as these
/// allow to the double that it is held in.
pub proof fn law_large_totals_read_to_the_nearest(size: nat)
    requires
        nearest_f64(size) >= 1073741824,
    ensures
        exists|whole: nat, tenths: nat, hundredths: nat|
            {
                let distance = 2 * (100 * nearest_f64(size)) - 2147483648 * (100 * whole + 10
                    * tenths + hundredths);
                &&& tenths < 10
                &&& hundredths < 10
                &&& total_size_text(size) == #[trigger] digits(whole) + "."@ + #[trigger] digits(
                    tenths,
                ) + #[trigger] digits(hundredths) + "GB"@
                &&& -1073741824 <= distance <= 1073741824
                &&& (distance == 1073741824 || distance == -1073741824) ==> hundredths % 2 == 0
            },
{
    reveal_strlit(".");
    let v = nearest_f64(size);
    let h = round_half_even(v * 100, 1073741824);
    let whole = h / 100;
    let tenths = h / 10 % 10;
    let hundredths = h % 10;
    assert(h == 100 * whole + 10 * tenths + hundredths);
    law_rounding_is_nearest(v * 100, 1073741824);
    let distance = 2 * (100 * v) - 2147483648 * h;
    if distance == 1073741824 || distance == -1073741824 {
        law_rounding_ties_to_even(v * 100, 1073741824);
    }
    assert(total_size_text(size) =~= digits(whole) + "."@ + digits(tenths) + digits(hundredths)
        + "GB"@);
}

/// A total that a double holds as less than one gigabyte reads as that size.
pub proof fn law_small_totals_read_as_sizes(size: nat)
    requires
        nearest_f64(size) < 1073741824,
    ensures
        total_size_text(size) == size_text(nearest_f64(size)),
{
}

proof fn lemma_spacing_is_power(n: nat) -> (k: nat)
    requires
        n >= 0x10_0000_0000_0000,
    ensures
        f64_spacing(n) == pow2(k),
        pow2(k) * 0x10_0000_0000_0000 <= n < pow2(k) * 0x20_0000_0000_0000,
    decreases n,
{
    lemma2_to64();
    if n < F64_EXACT {
        0
    } else {
        let k = lemma_spacing_is_power(n / 2);
        lemma_pow2_unfold(k + 1);
        k + 1
    }
}

/// From two to the power of 53 on, a total is held to 53 significant bits: as the multiple of the
/// matching power of two that is closest to it, the even one of two.
pub proof fn law_large_totals_round_as_doubles(n: nat)
    requires
        n >= 0x20_0000_0000_0000,
    ensures
        exists|k: nat|
            {
                let s = #[trigger] pow2(k);
                let distance = 2 * n - 2 * nearest_f64(n);
                &&& s * 0x10_0000_0000_0000 <= n < s * 0x20_0000_0000_0000
                &&& exists|m: nat|
                    {
                        &&& nearest_f64(n) == #[trigger] (m * s)
                        &&& (distance == s || distance == -s) ==> m % 2 == 0
                    }
                &&& -s <= distance <= s
            },
{
    let k = lemma_spacing_is_power(n);
    let s = pow2(k);
    lemma_spacing_bounds(n);
    let m = round_half_even(n, s);
    law_rounding_is_nearest(n, s);
    let distance = 2 * n - 2 * nearest_f64(n);
    if distance == s || distance == -s {
        law_rounding_ties_to_even(n, s);
    }
    assert(nearest_f64(n) == m * s);
}

} // verus!
