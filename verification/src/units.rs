//! Rendering a count of seconds as a human-readable duration, cascading
//! through minutes, hours, days and year multiples.
//!
//! The host keeps magnitudes as floating significand/exponent pairs; the
//! cascade itself is a rule of this library, stated and verified here
//! for whole second counts.  Values too extreme to collapse to a number
//! at all fall back to scientific notation on the host side.

use vstd::prelude::*;

use crate::text::dec_spec;
use crate::text::dec_string;
use crate::text::fixed_string;
use crate::text::fixed_text;
use crate::text::pow10;
use crate::text::pow10_small;
use crate::text::round_div_half_even;
use crate::text::round_half_even;

verus! {

pub const MINUTE: u128 = 60;

pub const HOUR: u128 = 3600;

pub const DAY: u128 = 86400;

/// Seconds of a Julian year.
pub const YEAR: u128 = 31556952;

pub const MEGA: u128 = 1000000;

pub const GIGA: u128 = 1000000000;

pub const TERA: u128 = 1000000000000;

pub const PETA: u128 = 1000000000000000;

/// How many decimal places to keep of the quotient `p / q`: enough for
/// five significant digits, but never coarser than whole units.
pub open spec fn quotient_decimals(p: nat, q: nat) -> nat {
    if p < q * 10 {
        4
    } else if p < q * 100 {
        3
    } else if p < q * 1000 {
        2
    } else if p < q * 10000 {
        1
    } else {
        0
    }
}

/// The quotient `p / q` rounded to `quotient_decimals` decimal places,
/// ties to even, rendered with the fraction's trailing zeros trimmed.
pub open spec fn quotient_text(p: nat, q: nat) -> Seq<char> {
    let d = quotient_decimals(p, q);
    fixed_text(round_half_even(p * pow10(d), q), d)
}

/// `"M m"`, with `" S s"` appended when the seconds do not divide evenly.
pub open spec fn minutes_text(secs: nat) -> Seq<char> {
    dec_spec(secs / 60) + " m"@ + if secs % 60 == 0 {
        Seq::<char>::empty()
    } else {
        " "@ + dec_spec(secs % 60) + " s"@
    }
}

/// `"H h"`, with `" M m"` appended when the hours do not divide evenly;
/// the leftover minutes are rounded to the nearest whole minute.
pub open spec fn hours_text(secs: nat) -> Seq<char> {
    dec_spec(secs / 3600) + " h"@ + if secs % 3600 == 0 {
        Seq::<char>::empty()
    } else {
        " "@ + dec_spec(round_half_even(secs % 3600, 60)) + " m"@
    }
}

/// The duration cascade for a whole count of seconds: plain seconds up
/// to a minute, then minutes, hours, days, and years escalating through
/// mega-, giga- and tera-year units.
pub open spec fn duration_text_spec(secs: nat) -> Seq<char> {
    if secs <= 60 {
        dec_spec(secs) + " s"@
    } else if secs <= 3600 {
        minutes_text(secs)
    } else if secs <= 86400 {
        hours_text(secs)
    } else if secs <= YEAR {
        quotient_text(secs, 86400) + " d"@
    } else if secs < MEGA * YEAR {
        quotient_text(secs, YEAR as nat) + " y"@
    } else if secs < GIGA * YEAR {
        quotient_text(secs, (MEGA * YEAR) as nat) + " My"@
    } else if secs < TERA * YEAR {
        quotient_text(secs, (GIGA * YEAR) as nat) + " Gy"@
    } else {
        quotient_text(secs, (TERA * YEAR) as nat) + " Ty"@
    }
}

/// The quotient `p / q` to five significant digits, as the duration
/// cascade displays day and year counts.
fn quotient_string(p: u128, q: u128) -> (r: String)
    requires
        q >= 1,
        p * 10000 <= u128::MAX,
        q * 10000 <= u128::MAX,
    ensures
        r@ == quotient_text(p as nat, q as nat),
{
    proof {
        assert(q * 10 <= q * 10000 && q * 100 <= q * 10000 && q * 1000 <= q * 10000)
            by (nonlinear_arith)
            requires
                q >= 0,
        ;
    }
    let d: u64 = if p < q * 10 {
        4
    } else if p < q * 100 {
        3
    } else if p < q * 1000 {
        2
    } else if p < q * 10000 {
        1
    } else {
        0
    };
    proof {
        reveal_with_fuel(pow10, 5);
        assert(pow10(d as nat) <= 10000);
        assert(p * pow10(d as nat) <= p * 10000) by (nonlinear_arith)
            requires
                p >= 0,
                pow10(d as nat) <= 10000,
        ;
        vstd::arithmetic::div_mod::lemma_div_is_ordered(
            (p * pow10(d as nat)) as int,
            u128::MAX as int,
            q as int,
        );
    }
    let scaled = round_div_half_even(p * pow10_small(d), q);
    fixed_string(scaled, d)
}

/// The duration cascade for a whole count of seconds; `duration_text_spec`
/// says exactly which unit each range takes.  Counts of a petayear and up
/// are shown in scientific notation by the host instead and are outside
/// this renderer's domain.
pub fn duration_text(secs: u128) -> (r: String)
    requires
        secs < YEAR * PETA,
    ensures
        r@ == duration_text_spec(secs as nat),
{
    if secs <= 60 {
        dec_string(secs).concat(" s")
    } else if secs <= 3600 {
        let m: u128 = secs / 60;
        let s: u128 = secs % 60;
        let mut r = dec_string(m);
        r.append(" m");
        if s != 0 {
            r.append(" ");
            r.append(dec_string(s).as_str());
            r.append(" s");
        }
        proof {
            assert(r@ =~= minutes_text(secs as nat));
        }
        r
    } else if secs <= 86400 {
        let h: u128 = secs / 3600;
        let rem: u128 = secs % 3600;
        let mut r = dec_string(h);
        r.append(" h");
        if rem != 0 {
            let m = round_div_half_even(rem, 60);
            r.append(" ");
            r.append(dec_string(m).as_str());
            r.append(" m");
        }
        proof {
            assert(r@ =~= hours_text(secs as nat));
        }
        r
    } else if secs <= YEAR {
        quotient_string(secs, DAY).concat(" d")
    } else if secs < MEGA * YEAR {
        quotient_string(secs, YEAR).concat(" y")
    } else if secs < GIGA * YEAR {
        quotient_string(secs, MEGA * YEAR).concat(" My")
    } else if secs < TERA * YEAR {
        quotient_string(secs, GIGA * YEAR).concat(" Gy")
    } else {
        quotient_string(secs, TERA * YEAR).concat(" Ty")
    }
}


} // verus!
