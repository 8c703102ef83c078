//! Small verified helpers for text handling shared by the configuration
//! lookup and the command protocol: string comparison and decimal
//! rendering of counters and fixed-point temperatures.

use vstd::prelude::*;
use vstd::string::StringExecFns;

verus! {

/// Character-by-character string comparison, proved equivalent to equality
/// of the two views.
pub fn str_eq(a: &str, b: &str) -> (r: bool)
    ensures
        r == (a@ == b@),
{
    let a_len = a.unicode_len();
    let b_len = b.unicode_len();
    if a_len != b_len {
        return false;
    }
    let mut i: usize = 0;
    while i < a_len
        invariant
            i <= a_len,
            a_len == a@.len(),
            a_len == b@.len(),
            forall|j: int| 0 <= j < i ==> a@[j] == b@[j],
        decreases a_len - i,
    {
        if a.get_char(i) != b.get_char(i) {
            return false;
        }
        i = i + 1;
    }
    proof {
        assert(a@ =~= b@);
    }
    true
}

/// The character of a single decimal digit.
pub open spec fn dec_digit(d: int) -> char {
    if d == 0 {
        '0'
    } else if d == 1 {
        '1'
    } else if d == 2 {
        '2'
    } else if d == 3 {
        '3'
    } else if d == 4 {
        '4'
    } else if d == 5 {
        '5'
    } else if d == 6 {
        '6'
    } else if d == 7 {
        '7'
    } else if d == 8 {
        '8'
    } else {
        '9'
    }
}

/// The usual decimal rendering of a non-negative integer, most significant
/// digit first and without leading zeroes.
pub open spec fn dec_str(n: nat) -> Seq<char>
    decreases n,
{
    if n < 10 {
        seq![dec_digit(n as int)]
    } else {
        dec_str(n / 10).push(dec_digit((n % 10) as int))
    }
}

fn digit_str(d: u64) -> (r: &'static str)
    requires
        d < 10,
    ensures
        r@ =~= seq![dec_digit(d as int)],
{
    proof {
        reveal_strlit("0");
        reveal_strlit("1");
        reveal_strlit("2");
        reveal_strlit("3");
        reveal_strlit("4");
        reveal_strlit("5");
        reveal_strlit("6");
        reveal_strlit("7");
        reveal_strlit("8");
        reveal_strlit("9");
    }
    match d {
        0 => "0",
        1 => "1",
        2 => "2",
        3 => "3",
        4 => "4",
        5 => "5",
        6 => "6",
        7 => "7",
        8 => "8",
        _ => "9",
    }
}

/// Renders an unsigned counter in decimal.
pub fn u64_to_string(n: u64) -> (r: String)
    ensures
        r@ == dec_str(n as nat),
    decreases n,
{
    if n < 10 {
        String::from_str(digit_str(n))
    } else {
        let mut r = u64_to_string(n / 10);
        r.append(digit_str(n % 10));
        r
    }
}

/// The rendering of a temperature in hundredths of a degree: the integer
/// part, then the fractional digits with a trailing zero (and an all-zero
/// fraction) left off, as an exact binary fraction of the same value would
/// print.
pub open spec fn centi_str(c: int) -> Seq<char> {
    if c < 0 {
        seq!['-'] + centi_mag_str((-c) as nat)
    } else {
        centi_mag_str(c as nat)
    }
}

/// Rendering of the magnitude of a fixed-point hundredths value.
pub open spec fn centi_mag_str(m: nat) -> Seq<char> {
    let units = m / 100;
    let frac = m % 100;
    if frac == 0 {
        dec_str(units)
    } else if frac % 10 == 0 {
        dec_str(units).push('.').push(dec_digit(frac as int / 10))
    } else {
        dec_str(units).push('.').push(dec_digit(frac as int / 10)).push(
            dec_digit(frac as int % 10),
        )
    }
}

/// Renders a temperature held in hundredths of a degree.
pub fn centi_to_string(c: i64) -> (r: String)
    ensures
        r@ == centi_str(c as int),
{
    let neg = c < 0;
    let m: u64 = if neg {
        (-(c as i128)) as u64
    } else {
        c as u64
    };
    let units = m / 100;
    let frac = m % 100;
    let mut mag = u64_to_string(units);
    if frac != 0 {
        proof {
            reveal_strlit(".");
        }
        mag.append(".");
        mag.append(digit_str(frac / 10));
        if frac % 10 != 0 {
            mag.append(digit_str(frac % 10));
        }
    }
    proof {
        assert(mag@ =~= centi_mag_str(m as nat));
    }
    if neg {
        proof {
            reveal_strlit("-");
        }
        let mut r = String::from_str("-");
        r.append(mag.as_str());
        proof {
            assert(r@ =~= centi_str(c as int));
        }
        r
    } else {
        mag
    }
}

} // verus!
