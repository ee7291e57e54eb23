//! Decimal rendering of unsigned values and of fixed-point fractions,
//! with the rounding and trimming rules the display paths share.

use vstd::prelude::*;

verus! {

/// The decimal digit character for `d` in `0..10`.
pub open spec fn digit_char(d: nat) -> char {
    if d == 0 {
        '0'
    } else if d == 1 {
        '1'
    } else if d == 2 {
        '2'
    } else if d == 3 {
        '3'
    } else if d == 4 {
        '4'
    } else if d == 5 {
        '5'
    } else if d == 6 {
        '6'
    } else if d == 7 {
        '7'
    } else if d == 8 {
        '8'
    } else {
        '9'
    }
}

/// The decimal digit string of `n`, most significant digit first, with
/// no leading zeros (a single `'0'` for zero).
pub open spec fn dec_spec(n: nat) -> Seq<char>
    decreases n,
{
    if n < 10 {
        seq![digit_char(n)]
    } else {
        dec_spec(n / 10).push(digit_char(n % 10))
    }
}

/// Ten to the `k`.
pub open spec fn pow10(k: nat) -> nat
    decreases k,
{
    if k == 0 {
        1
    } else {
        10 * pow10((k - 1) as nat)
    }
}

/// `a / b` rounded to the nearest integer, ties to the even neighbour.
pub open spec fn round_half_even(a: nat, b: nat) -> nat {
    let q = a / b;
    let r = a % b;
    if 2 * r > b {
        q + 1
    } else if 2 * r == b && q % 2 == 1 {
        q + 1
    } else {
        q
    }
}

/// The last `d` decimal digits of `m`, zero-padded to exactly `d` characters.
pub open spec fn frac_digits(m: nat, d: nat) -> Seq<char>
    decreases d,
{
    if d == 0 {
        Seq::<char>::empty()
    } else {
        frac_digits(m / 10, (d - 1) as nat).push(digit_char(m % 10))
    }
}

/// `m` read as a fixed-point value with `d` decimal places, rendered with
/// the trailing zeros of the fraction trimmed and the point dropped when
/// nothing follows it.
pub open spec fn fixed_text(m: nat, d: nat) -> Seq<char>
    decreases d,
{
    if d == 0 {
        dec_spec(m)
    } else if m % 10 == 0 {
        fixed_text(m / 10, (d - 1) as nat)
    } else {
        dec_spec(m / pow10(d)).push('.') + frac_digits(m, d)
    }
}

/// The digit character for `d`, as a one-character string.
fn digit_str(d: u64) -> (r: &'static str)
    requires
        d < 10,
    ensures
        r@ == seq![digit_char(d as nat)],
{
    proof {
        reveal_strlit("0");
        reveal_strlit("1");
        reveal_strlit("2");
        reveal_strlit("3");
        reveal_strlit("4");
        reveal_strlit("5");
        reveal_strlit("6");
        reveal_strlit("7");
        reveal_strlit("8");
        reveal_strlit("9");
    }
    let r: &'static str = match d {
        0 => "0",
        1 => "1",
        2 => "2",
        3 => "3",
        4 => "4",
        5 => "5",
        6 => "6",
        7 => "7",
        8 => "8",
        _ => "9",
    };
    proof {
        assert(r@ =~= seq![digit_char(d as nat)]);
    }
    r
}

/// A power of ten is at least one.
pub proof fn lemma_pow10_pos(k: nat)
    ensures
        pow10(k) >= 1,
    decreases k,
{
    if k > 0 {
        lemma_pow10_pos((k - 1) as nat);
    }
}

/// Ten to the `k`, for the small powers the renderers need.
pub fn pow10_small(k: u64) -> (r: u128)
    requires
        k <= 6,
    ensures
        r == pow10(k as nat),
{
    proof {
        reveal_with_fuel(pow10, 7);
    }
    match k {
        0 => 1,
        1 => 10,
        2 => 100,
        3 => 1000,
        4 => 10000,
        5 => 100000,
        _ => 1000000,
    }
}

/// `a / b` rounded to the nearest integer, ties to the even neighbour.
pub fn round_div_half_even(a: u128, b: u128) -> (r: u128)
    requires
        b >= 1,
    ensures
        r == round_half_even(a as nat, b as nat),
{
    let q = a / b;
    let rem = a % b;
    proof {
        vstd::arithmetic::div_mod::lemma_fundamental_div_mod(a as int, b as int);
        assert(a == b * q + rem);
        assert(q <= b * q) by (nonlinear_arith)
            requires
                b >= 1,
                q >= 0,
        ;
        assert(rem >= 1 ==> q < u128::MAX);
    }
    if rem > b - rem {
        q + 1
    } else if rem == b - rem && q % 2 == 1 {
        q + 1
    } else {
        q
    }
}

/// The last `d` decimal digits of `m`, zero-padded to exactly `d` characters.
pub fn frac_digits_string(m: u128, d: u64) -> (r: String)
    ensures
        r@ == frac_digits(m as nat, d as nat),
    decreases d,
{
    if d == 0 {
        String::new()
    } else {
        let r = frac_digits_string(m / 10, d - 1).concat(digit_str((m % 10) as u64));
        proof {
            assert(r@ =~= frac_digits((m / 10) as nat, (d - 1) as nat).push(
                digit_char((m % 10) as nat),
            ));
        }
        r
    }
}

/// `m` read as a fixed-point value with `d` decimal places, rendered with
/// the trailing zeros of the fraction trimmed.
pub fn fixed_string(m: u128, d: u64) -> (r: String)
    requires
        d <= 6,
    ensures
        r@ == fixed_text(m as nat, d as nat),
    decreases d,
{
    if d == 0 {
        dec_string(m)
    } else if m % 10 == 0 {
        fixed_string(m / 10, d - 1)
    } else {
        proof {
            lemma_pow10_pos(d as nat);
        }
        let whole = dec_string(m / pow10_small(d));
        let r = whole.concat(".").concat(frac_digits_string(m, d).as_str());
        proof {
            reveal_strlit(".");
            assert(r@ =~= dec_spec((m as nat) / pow10(d as nat)).push('.') + frac_digits(
                m as nat,
                d as nat,
            ));
        }
        r
    }
}

/// The decimal digit string of `n`, without leading zeros.
pub fn dec_string(n: u128) -> (r: String)
    ensures
        r@ == dec_spec(n as nat),
    decreases n,
{
    let last = digit_str((n % 10) as u64);
    if n < 10 {
        String::from_str(last)
    } else {
        let r = dec_string(n / 10).concat(last);
        proof {
            assert(r@ =~= dec_spec((n / 10) as nat).push(digit_char((n % 10) as nat)));
        }
        r
    }
}

} // verus!
