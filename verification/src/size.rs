//! Sizes of directories, shown in gibibytes with one decimal.
use vstd::prelude::*;

use crate::text::{decimal, decimal_text};

verus! {

/// A quotient, rounded to the nearest integer, and to the even one of two that
/// are equally near.
pub open spec fn nearest_even(n: nat, unit: nat) -> nat {
    let down = n / unit;
    let rest = n % unit;
    if 2 * rest < unit || (2 * rest == unit && down % 2 == 0) {
        down
    } else {
        down + 1
    }
}

/// The distance of the binary numbers with fifty-three digits around `n`.
pub open spec fn spacing(n: nat) -> nat
    decreases n,
{
    if n < 0x20_0000_0000_0000 {
        1
    } else {
        2 * spacing(n / 2)
    }
}

/// The nearest binary number with fifty-three digits.
pub open spec fn as_double(n: nat) -> nat {
    nearest_even(n, spacing(n)) * spacing(n)
}

/// A number of bytes in tenths of a gibibyte (1024 * 1024 * 1024 bytes).
pub open spec fn gib_tenths(bytes: nat) -> nat {
    nearest_even(10 * as_double(bytes), 0x4000_0000)
}

/// A number of bytes in gibibytes, with one decimal.
pub open spec fn gib_text(bytes: nat) -> Seq<char> {
    decimal(gib_tenths(bytes) / 10) + "."@ + decimal(gib_tenths(bytes) % 10) + " GiB"@
}

/// The distance of the binary numbers with fifty-three digits around `n`.
fn double_spacing(n: u64) -> (r: u64)
    ensures
        r == spacing(n as nat),
        r >= 1,
        r == 1 || r * 0x10_0000_0000_0000 <= n,
    decreases n,
{
    if n < 0x20_0000_0000_0000 {
        1
    } else {
        2 * double_spacing(n / 2)
    }
}

/// A quotient, rounded to the nearest integer, and to the even one of two that
/// are equally near.
fn round_even(n: u128, unit: u128) -> (r: u128)
    requires
        0 < unit <= 0x4000_0000,
        n <= 0x100_0000_0000_0000_0000,
    ensures
        r == nearest_even(n as nat, unit as nat),
{
    let down: u128 = n / unit;
    let rest: u128 = n % unit;
    proof {
        assert(down <= n) by (nonlinear_arith)
            requires
                down == n / unit,
                0 < unit,
        ;
    }
    if 2 * rest < unit || (2 * rest == unit && down % 2 == 0) {
        down
    } else {
        down + 1
    }
}

/// Shows a number of bytes in gibibytes, with one decimal.
pub fn format_dir_size(total_bytes: u64) -> (r: String)
    ensures
        r@ == gib_text(total_bytes as nat),
{
    let unit: u64 = double_spacing(total_bytes);
    let steps: u128 = round_even(total_bytes as u128, unit as u128);
    proof {
        assert(steps <= total_bytes as int / unit as int + 1);
        assert((total_bytes as int / unit as int) * unit <= total_bytes) by (nonlinear_arith)
            requires
                unit > 0,
        ;
        assert(steps * unit <= (total_bytes as int / unit as int) * unit + unit)
            by (nonlinear_arith)
            requires
                steps <= total_bytes as int / unit as int + 1,
                unit > 0,
        ;
    }
    let double: u128 = steps * unit as u128;
    let tenths: u128 = round_even(10 * double, 0x4000_0000);
    proof {
        assert(tenths <= 10 * double / 0x4000_0000 + 1);
    }
    let whole: u64 = (tenths / 10) as u64;
    let tenth: u64 = (tenths % 10) as u64;
    decimal_text(whole).concat(".").concat(decimal_text(tenth).as_str()).concat(" GiB")
}

/// The sum of some sizes.
pub open spec fn total(sizes: Seq<u64>) -> nat
    decreases sizes.len(),
{
    if sizes.len() == 0 {
        0
    } else {
        total(sizes.drop_last()) + sizes.last() as nat
    }
}

proof fn lemma_total_prefix(sizes: Seq<u64>, n: int)
    requires
        0 <= n <= sizes.len(),
    ensures
        total(sizes.take(n)) <= total(sizes),
    decreases sizes.len() - n,
{
    if n < sizes.len() {
        lemma_total_prefix(sizes, n + 1);
        assert(sizes.take(n + 1).drop_last() =~= sizes.take(n));
    } else {
        assert(sizes.take(n) =~= sizes);
    }
}

/// The sum of some sizes, where it fits.
pub fn total_size(sizes: &[u64]) -> (r: Option<u64>)
    ensures
        match r {
            Some(sum) => sum == total(sizes@),
            None => total(sizes@) > u64::MAX,
        },
{
    let mut sum: u64 = 0;
    for i in 0..sizes.len()
        invariant
            sum == total(sizes@.take(i as int)),
    {
        proof {
            assert(sizes@.take(i + 1).drop_last() =~= sizes@.take(i as int));
            lemma_total_prefix(sizes@, i + 1);
        }
        if sizes[i] > u64::MAX - sum {
            return None;
        }
        sum = sum + sizes[i];
    }
    proof {
        assert(sizes@.take(sizes@.len() as int) =~= sizes@);
    }
    Some(sum)
}

/// Shows the size of a directory, given the sizes of its files.
pub fn dir_size_display(sizes: &[u64]) -> (r: String)
    requires
        total(sizes@) <= u64::MAX,
    ensures
        r@ == gib_text(total(sizes@)),
{
    match total_size(sizes) {
        Some(sum) => format_dir_size(sum),
        None => String::new(),
    }
}

/// Up to eight pebibytes, the tenth of a gibibyte that is shown is the nearest.
pub proof fn shown_size_is_nearest(bytes: nat)
    requires
        bytes < 0x20_0000_0000_0000,
    ensures
        2 * (gib_tenths(bytes) * 0x4000_0000 - 10 * bytes) <= 0x4000_0000,
        2 * (10 * bytes - gib_tenths(bytes) * 0x4000_0000) <= 0x4000_0000,
{
    assert(spacing(bytes) == 1);
    assert(nearest_even(bytes, 1) == bytes);
    assert(as_double(bytes) == bytes);
}

} // verus!
