//! Deterministic decimal rendering of scalars for diagnostics.
//!
//! The textual form is not part of any functional contract; it only has to
//! be deterministic. A scalar `n / d` is rendered in fixed-point form with
//! a chosen number of fractional digits, by exact long division, truncating
//! toward zero.

use vstd::prelude::*;
use vstd::string::StringExecFns;

use crate::rat::Rat;

verus! {

fn digit_str(dg: u8) -> &'static str {
    match dg {
        0 => "0",
        1 => "1",
        2 => "2",
        3 => "3",
        4 => "4",
        5 => "5",
        6 => "6",
        7 => "7",
        8 => "8",
        _ => "9",
    }
}

/// Renders `v` with `frac_digits` digits after the decimal point,
/// truncating toward zero.
pub fn decimal_string(v: Rat, frac_digits: usize) -> String
    requires
        v.wf(),
{
    let neg = v.n < 0;
    let n_abs: u128 = if v.n < 0 {
        (-(v.n as i128)) as u128
    } else {
        v.n as u128
    };
    let den: u128 = v.d as u128;
    let q: u128 = n_abs / den;
    let mut rem: u128 = n_abs % den;
    let mut s = String::new();
    if neg {
        s.append("-");
    }
    let mut int_digits: Vec<u8> = Vec::new();
    let mut qq = q;
    while qq > 0
        decreases qq,
    {
        int_digits.push((qq % 10) as u8);
        qq = qq / 10;
    }
    if int_digits.len() == 0 {
        s.append("0");
    }
    let mut i = int_digits.len();
    while i > 0
        invariant
            i <= int_digits@.len(),
        decreases i,
    {
        i = i - 1;
        s.append(digit_str(int_digits[i]));
    }
    if frac_digits > 0 {
        s.append(".");
        let mut k: usize = 0;
        while k < frac_digits
            invariant
                rem < den,
                1 <= den <= i64::MAX as u128,
            decreases frac_digits - k,
        {
            let scaled = rem * 10;
            proof {
                assert(scaled / den < 10) by (nonlinear_arith)
                    requires
                        scaled < 10 * den,
                        den >= 1,
                ;
            }
            let dg = (scaled / den) as u8;
            rem = scaled % den;
            s.append(digit_str(dg));
            k = k + 1;
        }
    }
    s
}

} // verus!
