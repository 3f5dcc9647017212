use vstd::prelude::*;

use vstd::arithmetic::div_mod::lemma_div_plus_one;

verus! {

/// The year of the computation: January and February count as months 13
/// and 14 of the year before.
pub open spec fn spec_shifted_year(year: int, month: int) -> int {
    if month <= 2 {
        year - 1
    } else {
        year
    }
}

/// The month of the computation, January and February being 13 and 14.
pub open spec fn spec_shifted_month(month: int) -> int {
    if month <= 2 {
        month + 12
    } else {
        month
    }
}

/// The Julian date of a Gregorian date plus 1524.5:
/// `floor(365.25 (y + 4716)) + floor(30.6001 (m + 1)) + day + b`, with `y`
/// and `m` the shifted year and month and `b = 2 - a + floor(a / 4)` the
/// Gregorian correction, `a = floor(y / 100)`.
pub open spec fn spec_julian_day_offset(year: int, month: int, day: int) -> int {
    let y = spec_shifted_year(year, month);
    let m = spec_shifted_month(month);
    let a = y / 100;
    (1461 * (y + 4716)) / 4 + (306001 * (m + 1)) / 10000 + day + 2 - a + a / 4
}

/// Twice the Julian date of a Gregorian date. The Julian date itself always
/// ends in one half, so twice it is an odd integer.
pub open spec fn spec_julian_half_days(year: int, month: int, day: int) -> int {
    2 * spec_julian_day_offset(year, month, day) - 3049
}

/// Twice the Julian date (in days) of the Gregorian `year`, `month` and
/// `day`. Out-of-range months and days are not rejected: they give the value
/// of the same formula.
pub fn julian_half_days(year: usize, month: usize, day: usize) -> (r: i128)
    ensures
        r == spec_julian_half_days(year as int, month as int, day as int),
{
    let (y, m): (i128, i128) = if month <= 2 {
        (year as i128 - 1, month as i128 + 12)
    } else {
        (year as i128, month as i128)
    };
    let a: i128 = (y + 100) / 100 - 1;
    proof {
        lemma_div_plus_one(y as int, 100);
    }
    let b: i128 = (a + 4) / 4 - 1;
    proof {
        lemma_div_plus_one(a as int, 4);
    }
    let days: i128 = (1461 * (y + 4716)) / 4 + (306001 * (m + 1)) / 10000 + day as i128 + 2 - a
        + b;
    2 * days - 3049
}

} // verus!
