//! Decimal rendering of numbers and human-scaled byte sizes.
use vstd::prelude::*;

verus! {

/// The character of a decimal digit.
pub open spec fn digit_char(d: nat) -> char {
    ((d as u8) + 48u8) as char
}

/// The decimal digits of `n`, without leading zeros.
pub open spec fn dec(n: nat) -> Seq<char>
    decreases n,
{
    if n < 10 {
        seq![digit_char(n)]
    } else {
        dec(n / 10).push(digit_char(n % 10))
    }
}

fn digit_text(d: u64) -> (r: &'static str)
    requires
        d < 10,
    ensures
        r@ == seq![digit_char(d as nat)],
{
    proof {
        reveal_strlit("0");
        reveal_strlit("1");
        reveal_strlit("2");
        reveal_strlit("3");
        reveal_strlit("4");
        reveal_strlit("5");
        reveal_strlit("6");
        reveal_strlit("7");
        reveal_strlit("8");
        reveal_strlit("9");
    }
    let r = if d == 0 {
        "0"
    } else if d == 1 {
        "1"
    } else if d == 2 {
        "2"
    } else if d == 3 {
        "3"
    } else if d == 4 {
        "4"
    } else if d == 5 {
        "5"
    } else if d == 6 {
        "6"
    } else if d == 7 {
        "7"
    } else if d == 8 {
        "8"
    } else {
        "9"
    };
    assert(r@ =~= seq![digit_char(d as nat)]);
    r
}

/// The decimal text of `n`.
pub fn decimal(n: u64) -> (r: String)
    ensures
        r@ == dec(n as nat),
    decreases n,
{
    if n < 10 {
        String::from_str(digit_text(n))
    } else {
        let mut s = decimal(n / 10);
        s.append(digit_text(n % 10));
        s
    }
}

/// `num / den` rounded to the nearest integer, ties to the even neighbour.
pub open spec fn round_div(num: nat, den: nat) -> nat
    recommends
        den > 0,
{
    let q = num / den;
    let r = num % den;
    if 2 * r > den {
        q + 1
    } else if 2 * r < den {
        q
    } else if q % 2 == 0 {
        q
    } else {
        q + 1
    }
}

/// `tenths` written with one decimal place, then the unit.
pub open spec fn scaled(tenths: nat, unit: Seq<char>) -> Seq<char> {
    dec(tenths / 10) + seq!['.'] + dec(tenths % 10) + unit
}

/// One kilobyte.
pub open spec fn kib() -> nat {
    1024
}

/// One megabyte.
pub open spec fn mib() -> nat {
    1024 * 1024
}

/// One gigabyte.
pub open spec fn gib() -> nat {
    1024 * 1024 * 1024
}

/// A byte count in human-scaled units: whole bytes below one KB, else the exact
/// quotient by the unit rounded to one decimal place (ties to even).
pub open spec fn size_text(size: nat) -> Seq<char> {
    if size < kib() {
        dec(size) + " B"@
    } else if size < mib() {
        scaled(round_div(size * 10, kib()), " KB"@)
    } else if size < gib() {
        scaled(round_div(size * 10, mib()), " MB"@)
    } else {
        scaled(round_div(size * 10, gib()), " GB"@)
    }
}

fn round_div_exec(num: u128, den: u128) -> (r: u128)
    requires
        den > 0,
        den <= u64::MAX as u128,
        num <= u64::MAX as u128 * 10,
    ensures
        r == round_div(num as nat, den as nat),
        r <= num + 1,
{
    let q = num / den;
    assert(q <= num) by (nonlinear_arith)
        requires
            q == num / den,
            den > 0,
    ;
    let r = num % den;
    if 2 * r > den {
        q + 1
    } else if 2 * r < den {
        q
    } else if q % 2 == 0 {
        q
    } else {
        q + 1
    }
}

fn scaled_exec(size: u64, unit_bytes: u128, unit: &str) -> (r: String)
    requires
        1024 <= unit_bytes <= u64::MAX as u128,
    ensures
        r@ == scaled(round_div(size as nat * 10, unit_bytes as nat), unit@),
{
    let tenths = round_div_exec(size as u128 * 10, unit_bytes);
    let whole = (tenths / 10) as u64;
    let frac = (tenths % 10) as u64;
    let mut s = decimal(whole);
    s.append(".");
    s.append(digit_text(frac));
    s.append(unit);
    proof {
        reveal_strlit(".");
        assert(dec(frac as nat) == seq![digit_char(frac as nat)]);
    }
    s
}

/// Renders a byte count in B, KB, MB or GB.
pub fn format_size(size: u64) -> (r: String)
    ensures
        r@ == size_text(size as nat),
{
    if size < 1024 {
        let mut s = decimal(size);
        s.append(" B");
        s
    } else if size < 1024 * 1024 {
        scaled_exec(size, 1024, " KB")
    } else if size < 1024 * 1024 * 1024 {
        scaled_exec(size, 1024 * 1024, " MB")
    } else {
        scaled_exec(size, 1024 * 1024 * 1024, " GB")
    }
}

} // verus!
