//! Sizes in bytes, as people read them.

use vstd::arithmetic::div_mod::{lemma_div_denominator, lemma_fundamental_div_mod};
use vstd::prelude::*;
use vstd::string::StringExecFns;

verus! {

/// Bytes in a kibibyte.
pub const KIB: u64 = 1024;

/// Bytes in a mebibyte.
pub const MIB: u64 = 1024 * 1024;

/// Bytes in a gibibyte.
pub const GIB: u64 = 1024 * 1024 * 1024;

/// The least whole number that a 64-bit float no longer tells from its neighbours: 2^53.
pub const FLOAT_EXACT_LIMIT: u64 = 0x20_0000_0000_0000;

/// The character of a decimal digit.
pub open spec fn digit_char(d: nat) -> char
    recommends
        d < 10,
{
    if d == 0 {
        '0'
    } else if d == 1 {
        '1'
    } else if d == 2 {
        '2'
    } else if d == 3 {
        '3'
    } else if d == 4 {
        '4'
    } else if d == 5 {
        '5'
    } else if d == 6 {
        '6'
    } else if d == 7 {
        '7'
    } else if d == 8 {
        '8'
    } else {
        '9'
    }
}

/// `n` in decimal digits, without leading zeros.
pub open spec fn decimal(n: nat) -> Seq<char>
    decreases n,
{
    if n < 10 {
        seq![digit_char(n)]
    } else {
        decimal(n / 10).push(digit_char(n % 10))
    }
}

/// `n / d` rounded to the nearest whole number, a tie going to the even one.
pub open spec fn div_round_half_even(n: nat, d: nat) -> nat
    recommends
        d > 0,
{
    let q = n / d;
    let r = n % d;
    if 2 * r > d || (2 * r == d && q % 2 == 1) {
        q + 1
    } else {
        q
    }
}

/// The distance between neighbouring 64-bit floats around `n`: 1 below 2^53,
/// and twice as much each time `n` doubles from there.
pub open spec fn float_granule(n: nat) -> nat
    decreases n,
{
    if n < FLOAT_EXACT_LIMIT {
        1
    } else {
        2 * float_granule(n / 2)
    }
}

/// The whole number that `n` becomes as a 64-bit float: `n` itself below 2^53,
/// from there on the nearest multiple of the granule, a tie going to the even
/// multiple.
pub open spec fn nearest_float(n: nat) -> nat {
    if n < FLOAT_EXACT_LIMIT {
        n
    } else {
        div_round_half_even(n, float_granule(n)) * float_granule(n)
    }
}

/// `size / unit` in hundredths, as a 64-bit float division shown with two
/// decimals gives them.
pub open spec fn hundredths(size: nat, unit: nat) -> nat
    recommends
        unit > 0,
{
    div_round_half_even(nearest_float(size) * 100, unit)
}

/// `size / unit` with two decimals, followed by `suffix`.
pub open spec fn scaled_text(size: nat, unit: nat, suffix: Seq<char>) -> Seq<char>
    recommends
        unit > 0,
{
    let h = hundredths(size, unit);
    decimal(h / 100) + seq!['.', digit_char(h / 10 % 10), digit_char(h % 10)] + suffix
}

/// A size as text: whole bytes below 1 KiB, else the largest of KiB, MiB and
/// GiB that the size reaches, with two decimals.
pub open spec fn size_text(size: nat) -> Seq<char> {
    if size >= GIB {
        scaled_text(size, GIB as nat, " GiB"@)
    } else if size >= MIB {
        scaled_text(size, MIB as nat, " MiB"@)
    } else if size >= KIB {
        scaled_text(size, KIB as nat, " KiB"@)
    } else {
        decimal(size) + " B"@
    }
}

/// The text of one decimal digit.
fn digit_str(d: u64) -> (text: &'static str)
    requires
        d < 10,
    ensures
        text@ == seq![digit_char(d as nat)],
{
    proof {
        reveal_strlit("0");
        reveal_strlit("1");
        reveal_strlit("2");
        reveal_strlit("3");
        reveal_strlit("4");
        reveal_strlit("5");
        reveal_strlit("6");
        reveal_strlit("7");
        reveal_strlit("8");
        reveal_strlit("9");
    }
    let text = if d == 0 {
        "0"
    } else if d == 1 {
        "1"
    } else if d == 2 {
        "2"
    } else if d == 3 {
        "3"
    } else if d == 4 {
        "4"
    } else if d == 5 {
        "5"
    } else if d == 6 {
        "6"
    } else if d == 7 {
        "7"
    } else if d == 8 {
        "8"
    } else {
        "9"
    };
    assert(text@ =~= seq![digit_char(d as nat)]);
    text
}

/// Appends `n` in decimal to `out`.
pub fn push_decimal(out: &mut String, n: u64)
    ensures
        final(out)@ == old(out)@ + decimal(n as nat),
    decreases n,
{
    if n >= 10 {
        push_decimal(out, n / 10);
    }
    out.append(digit_str(n % 10));
    proof {
        if n >= 10 {
            assert(old(out)@ + decimal((n / 10) as nat) + seq![digit_char((n % 10) as nat)] =~= old(
                out,
            )@ + decimal((n / 10) as nat).push(digit_char((n % 10) as nat)));
        }
    }
}

/// `n / d` rounded half to even.
fn round_half_even(n: u128, d: u128) -> (q: u128)
    requires
        0 < d <= u64::MAX,
        n / d < u64::MAX,
    ensures
        q == div_round_half_even(n as nat, d as nat),
{
    let q = n / d;
    let r = n % d;
    if 2 * r > d || (2 * r == d && q % 2 == 1) {
        q + 1
    } else {
        q
    }
}

/// `size` as a 64-bit float holds it.
fn to_nearest_float(size: u64) -> (value: u128)
    ensures
        value == nearest_float(size as nat),
        value <= 0x1_0000_0000_0000_1000,
{
    if size < FLOAT_EXACT_LIMIT {
        return size as u128;
    }
    let mut g: u64 = 1;
    while size / g >= FLOAT_EXACT_LIMIT
        invariant
            1 <= g <= 4096,
            float_granule(size as nat) == g * float_granule((size / g) as nat),
        decreases size / g,
    {
        proof {
            lemma_div_denominator(size as int, g as int, 2);
            assert(size as int / (g * 2) == (size / g) as int / 2);
            assert(g < 2048) by (nonlinear_arith)
                requires
                    size / g >= 0x20_0000_0000_0000,
                    size <= 0xffff_ffff_ffff_ffff,
                    g >= 1,
            ;
            assert(g * (2 * float_granule(((size / g) / 2) as nat)) == (g * 2) * float_granule(
                ((size / g) / 2) as nat,
            )) by (nonlinear_arith);
        }
        g = g * 2;
    }
    let q = size / g;
    let r = size % g;
    let m = if 2 * r > g || (2 * r == g && q % 2 == 1) {
        q + 1
    } else {
        q
    };
    proof {
        assert(float_granule((size / g) as nat) == 1);
        assert(float_granule(size as nat) == g * 1);
        lemma_fundamental_div_mod(size as int, g as int);
        assert(m * g <= 0x1_0000_0000_0000_1000) by (nonlinear_arith)
            requires
                m <= q + 1,
                size == g * q + r,
                0 <= r,
                size <= 0xffff_ffff_ffff_ffff,
                1 <= g <= 4096,
        ;
    }
    (m as u128) * (g as u128)
}

/// `size / unit` with two decimals and the unit's name.
fn format_scaled(size: u64, unit: u64, suffix: &str) -> (text: String)
    requires
        unit >= 1024,
    ensures
        text@ == scaled_text(size as nat, unit as nat, suffix@),
{
    let value = to_nearest_float(size);
    let scaled: u128 = value * 100;
    assert(scaled / (unit as u128) <= 0x40_0000_0000_0004 * 100) by (nonlinear_arith)
        requires
            scaled <= 0x1_0000_0000_0000_1000 * 100,
            unit >= 1024,
    ;
    let h = round_half_even(scaled, unit as u128);
    let whole = (h / 100) as u64;
    let tenths = (h / 10 % 10) as u64;
    let last = (h % 10) as u64;
    let mut text = String::new();
    push_decimal(&mut text, whole);
    text.append(".");
    text.append(digit_str(tenths));
    text.append(digit_str(last));
    text.append(suffix);
    proof {
        reveal_strlit(".");
        let hn = hundredths(size as nat, unit as nat);
        assert(hn == h);
        assert(text@ =~= decimal(hn / 100) + seq!['.', digit_char(hn / 10 % 10), digit_char(hn % 10)]
            + suffix@);
    }
    text
}

/// Formats a size in bytes for people: `0 B`, `1.50 KiB`, `3.00 MiB`.
///
/// From 1 KiB on the number is the size divided by the unit as a 64-bit float
/// division gives it, rounded to two decimals, a tie going to the even digit.
pub fn format_size(size: u64) -> (text: String)
    ensures
        text@ == size_text(size as nat),
{
    if size >= GIB {
        format_scaled(size, GIB, " GiB")
    } else if size >= MIB {
        format_scaled(size, MIB, " MiB")
    } else if size >= KIB {
        format_scaled(size, KIB, " KiB")
    } else {
        let mut text = String::new();
        push_decimal(&mut text, size);
        text.append(" B");
        text
    }
}

} // verus!
