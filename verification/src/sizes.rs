//! File sizes as they are shown to the user: in the largest fitting unit,
//! to one decimal place.

use vstd::prelude::*;
use vstd::string::*;
use crate::text::{decimal, decimal_text};

verus! {

/// The number of bytes in one unit: 1024 to the power of the unit's index.
pub open spec fn unit_bytes(unit: nat) -> nat {
    if unit == 0 {
        1
    } else if unit == 1 {
        1024
    } else if unit == 2 {
        1048576
    } else {
        1073741824
    }
}

/// The name of a unit.
pub open spec fn unit_name(unit: nat) -> Seq<char> {
    if unit == 0 {
        "B"@
    } else if unit == 1 {
        "KB"@
    } else if unit == 2 {
        "MB"@
    } else {
        "GB"@
    }
}

/// The index of the unit in which a size is shown: the largest of bytes,
/// kilobytes, megabytes and gigabytes of which the size holds at least one.
pub open spec fn unit_of(bytes: nat) -> nat {
    if bytes < 1024 {
        0
    } else if bytes < 1048576 {
        1
    } else if bytes < 1073741824 {
        2
    } else {
        3
    }
}

/// `num / den` rounded to the nearest whole number, a half to the even
/// neighbour.
pub open spec fn rounded_quotient(num: nat, den: nat) -> nat {
    let q = num / den;
    let r = num % den;
    if 2 * r < den {
        q
    } else if 2 * r > den {
        q + 1
    } else if q % 2 == 0 {
        q
    } else {
        q + 1
    }
}

/// The step by which sizes of the magnitude of `bytes` are told apart: 1
/// below 2^53, and from there on the power of two that leaves 53
/// significant bits. `step` is the step tried, and `tries` bounds the
/// search.
pub open spec fn precision_step(bytes: nat, step: nat, tries: nat) -> nat
    decreases tries,
{
    if tries == 0 || step == 0 || bytes / step < 0x20_0000_0000_0000 {
        step
    } else {
        precision_step(bytes, step * 2, (tries - 1) as nat)
    }
}

/// The size as it is held with 53 significant bits: the nearest multiple
/// of its precision step, a half going to the even neighbour.
pub open spec fn held_size(bytes: nat) -> nat {
    let step = precision_step(bytes, 1, 11);
    rounded_quotient(bytes, step) * step
}

/// The size in tenths of its unit, rounded to the nearest tenth, a half to
/// the even neighbour.
pub open spec fn size_tenths(bytes: nat) -> nat {
    rounded_quotient(held_size(bytes) * 10, unit_bytes(unit_of(bytes)))
}

/// The size as text: its whole units, a point, one decimal digit, a space
/// and the unit's name.
pub open spec fn size_text(bytes: nat) -> Seq<char> {
    decimal(size_tenths(bytes) / 10) + "."@ + decimal(size_tenths(bytes) % 10) + " "@ + unit_name(
        unit_of(bytes),
    )
}

/// Two to the power of `n`.
spec fn power_of_two(n: nat) -> nat
    decreases n,
{
    if n == 0 {
        1
    } else {
        2 * power_of_two((n - 1) as nat)
    }
}

proof fn lemma_power_of_two_positive(n: nat)
    ensures
        power_of_two(n) >= 1,
    decreases n,
{
    if n > 0 {
        lemma_power_of_two_positive((n - 1) as nat);
    }
}

fn round_quotient(num: u128, den: u128) -> (q: u128)
    requires
        den > 0,
        num / den < u128::MAX,
        den <= u128::MAX / 2,
    ensures
        q == rounded_quotient(num as nat, den as nat),
{
    let q = num / den;
    let r = num % den;
    if 2 * r < den {
        q
    } else if 2 * r > den {
        q + 1
    } else if q % 2 == 0 {
        q
    } else {
        q + 1
    }
}

/// The size `bytes` for the user to read, such as `1.5 KB`.
pub fn format_file_size(bytes: u64) -> (text: String)
    ensures
        text@ == size_text(bytes as nat),
{
    let unit: usize = if bytes < 1024 {
        0
    } else if bytes < 1048576 {
        1
    } else if bytes < 1073741824 {
        2
    } else {
        3
    };
    let per_unit: u128 = if unit == 0 {
        1
    } else if unit == 1 {
        1024
    } else if unit == 2 {
        1048576
    } else {
        1073741824
    };
    let name = if unit == 0 {
        "B"
    } else if unit == 1 {
        "KB"
    } else if unit == 2 {
        "MB"
    } else {
        "GB"
    };
    let wide: u128 = bytes as u128;
    let mut step: u128 = 1;
    let mut tries: usize = 11;
    proof {
        reveal_with_fuel(power_of_two, 12);
        assert(power_of_two(11) == 2048);
    }
    while tries > 0 && wide / step >= 0x20_0000_0000_0000
        invariant
            0 < step,
            step * power_of_two(tries as nat) == 2048,
            tries <= 11,
            precision_step(wide as nat, step as nat, tries as nat) == precision_step(
                wide as nat,
                1,
                11,
            ),
        decreases tries,
    {
        proof {
            reveal_with_fuel(power_of_two, 2);
            assert(step * power_of_two(tries as nat) == (step * 2) * power_of_two((tries - 1) as nat))
                by (nonlinear_arith)
                requires
                    power_of_two(tries as nat) == 2 * power_of_two((tries - 1) as nat),
            ;
            lemma_power_of_two_positive((tries - 1) as nat);
            assert(step * 2 <= 2048) by (nonlinear_arith)
                requires
                    (step * 2) * power_of_two((tries - 1) as nat) == 2048,
                    power_of_two((tries - 1) as nat) >= 1,
                    step > 0,
            ;
        }
        step = step * 2;
        tries = tries - 1;
    }
    proof {
        lemma_power_of_two_positive(tries as nat);
        assert(step <= 2048) by (nonlinear_arith)
            requires
                step * power_of_two(tries as nat) == 2048,
                power_of_two(tries as nat) >= 1,
                step > 0,
        ;
        lemma_rounded_quotient_bound(wide as nat, step as nat);
    }
    let units = round_quotient(wide, step);
    let held: u128 = units * step;
    proof {
        lemma_rounded_quotient_bound((held * 10) as nat, per_unit as nat);
        lemma_whole_units_fit(wide as nat, held as nat, per_unit as nat);
    }
    let tenths = round_quotient(held * 10, per_unit);
    let whole: u128 = tenths / 10;
    let part: u128 = tenths % 10;
    let mut text = decimal_text(whole as u64);
    text.append(".");
    text.append(decimal_text(part as u64).as_str());
    text.append(" ");
    text.append(name);
    text
}

/// A rounded quotient, taken back to the scale of what was divided, lies
/// within one divisor of it.
proof fn lemma_rounded_quotient_bound(num: nat, den: nat)
    requires
        den > 0,
    ensures
        rounded_quotient(num, den) <= num / den + 1,
        rounded_quotient(num, den) * den <= num + den,
        num / den <= num,
{
    let q = num / den;
    assert(q * den <= num) by (nonlinear_arith)
        requires
            q == num / den,
            den > 0,
    ;
    assert((q + 1) * den == q * den + den) by (nonlinear_arith);
    assert(rounded_quotient(num, den) * den <= (q + 1) * den) by (nonlinear_arith)
        requires
            rounded_quotient(num, den) <= q + 1,
    ;
    assert(q <= num) by (nonlinear_arith)
        requires
            q == num / den,
            den >= 1,
    ;
}

/// The whole units of a size fit 64 bits, whatever its unit.
proof fn lemma_whole_units_fit(bytes: nat, held: nat, per_unit: nat)
    requires
        bytes < 0x1_0000_0000_0000_0000,
        held <= bytes + 2048,
        per_unit == unit_bytes(unit_of(bytes)),
    ensures
        held * 10 / per_unit < 0xffff_ffff_ffff,
        per_unit > 0,
        per_unit <= 1073741824,
{
    assert(held * 10 / per_unit <= held * 10) by (nonlinear_arith)
        requires
            per_unit >= 1,
    ;
    if bytes >= 1073741824 {
        assert(held * 10 / 1073741824 < 0xffff_ffff_ffff) by (nonlinear_arith)
            requires
                held <= 0x1_0000_0000_0000_0000 + 2048,
        ;
    }
}

} // verus!
