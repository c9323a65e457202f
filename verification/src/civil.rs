//! Proleptic Gregorian calendar arithmetic: dates and day numbers counted
//! from 1970-01-01, for turning UNIX timestamps into calendar dates.
use vstd::prelude::*;

verus! {

pub open spec fn is_leap_year(y: int) -> bool {
    y % 4 == 0 && (y % 100 != 0 || y % 400 == 0)
}

pub open spec fn days_in_month(y: int, m: int) -> int {
    if m == 2 {
        if is_leap_year(y) { 29 } else { 28 }
    } else if m == 4 || m == 6 || m == 9 || m == 11 {
        30
    } else {
        31
    }
}

pub open spec fn is_valid_date(y: int, m: int, d: int) -> bool {
    1 <= m <= 12 && 1 <= d <= days_in_month(y, m)
}

/// Day offset, within a March-based year, of the first day of month index
/// `mp` (0 = March, ..., 11 = February).
pub open spec fn month_start(mp: int) -> int {
    (153 * mp + 2) / 5
}

pub open spec fn year_start(k: int) -> int {
    365 * k + k / 4 - k / 100
}

/// The day number of a date, counted from 1970-01-01, by March-based years
/// in 400-year eras.
pub open spec fn days_from_civil(y: int, m: int, d: int) -> int {
    let yy = if m <= 2 { y - 1 } else { y };
    let era = yy / 400;
    let yoe = yy - era * 400;
    let mp = if m > 2 { m - 3 } else { m + 9 };
    let doy = month_start(mp) + d - 1;
    let doe = year_start(yoe) + doy;
    era * 146097 + doe - 719468
}

pub open spec fn yoe_of(doe: int) -> int {
    (doe - doe / 1460 + doe / 36524 - doe / 146096) / 365
}

pub open spec fn civil_in_era(era: int, doe: int) -> (int, int, int) {
    let yoe = yoe_of(doe);
    let doy = doe - year_start(yoe);
    let mp = (5 * doy + 2) / 153;
    let d = doy - month_start(mp) + 1;
    let m = if mp < 10 { mp + 3 } else { mp - 9 };
    let y = yoe + era * 400 + if m <= 2 { 1int } else { 0int };
    (y, m, d)
}

pub open spec fn civil_alg(z: int) -> (int, int, int) {
    let zz = z + 719468;
    civil_in_era(zz / 146097, zz % 146097)
}

proof fn lemma_yoe(doe: int)
    requires
        0 <= doe < 146097,
    ensures
        0 <= yoe_of(doe) <= 399,
        year_start(yoe_of(doe)) <= doe,
        yoe_of(doe) < 399 ==> doe < year_start(yoe_of(doe) + 1),
{
}

proof fn lemma_year_len(k: int)
    requires
        0 <= k < 399,
    ensures
        year_start(k + 1) - year_start(k) == if is_leap_year(k + 1) { 366int } else { 365int },
{
}

proof fn lemma_month(doy: int)
    requires
        0 <= doy <= 365,
    ensures
        0 <= (5 * doy + 2) / 153 <= 11,
        month_start((5 * doy + 2) / 153) <= doy,
        (5 * doy + 2) / 153 < 11 ==> doy < month_start((5 * doy + 2) / 153 + 1),
{
}

proof fn lemma_leap_shift(a: int, e: int)
    ensures
        is_leap_year(a + 400 * e) == is_leap_year(a),
{
    assert((a + 400 * e) % 4 == a % 4) by {
        vstd::arithmetic::div_mod::lemma_mod_multiples_vanish(100 * e, a, 4);
    }
    assert((a + 400 * e) % 100 == a % 100) by {
        vstd::arithmetic::div_mod::lemma_mod_multiples_vanish(4 * e, a, 100);
    }
    assert((a + 400 * e) % 400 == a % 400) by {
        vstd::arithmetic::div_mod::lemma_mod_multiples_vanish(e, a, 400);
    }
}

proof fn lemma_civil_in_era_valid(era: int, doe: int)
    requires
        0 <= doe < 146097,
    ensures
        is_valid_date(civil_in_era(era, doe).0, civil_in_era(era, doe).1, civil_in_era(era, doe).2),
        days_from_civil(civil_in_era(era, doe).0, civil_in_era(era, doe).1, civil_in_era(era, doe).2)
            == era * 146097 + doe - 719468,
{
    lemma_yoe(doe);
    let yoe = yoe_of(doe);
    let doy = doe - year_start(yoe);
    if yoe < 399 {
        lemma_year_len(yoe);
    }
    lemma_month(doy);
    lemma_leap_shift(yoe + 1, era);
    let (y, m, d) = civil_in_era(era, doe);
    let yy = if m <= 2 { y - 1 } else { y };
    assert(yy == yoe + era * 400);
    assert(yy / 400 == era && yy - (yy / 400) * 400 == yoe) by {
        vstd::arithmetic::div_mod::lemma_fundamental_div_mod_converse(yy, 400, era, yoe);
    }
}

proof fn lemma_civil_alg_valid(z: int)
    ensures
        is_valid_date(civil_alg(z).0, civil_alg(z).1, civil_alg(z).2),
        days_from_civil(civil_alg(z).0, civil_alg(z).1, civil_alg(z).2) == z,
{
    let zz = z + 719468;
    lemma_civil_in_era_valid(zz / 146097, zz % 146097);
}

proof fn lemma_year_start_mono(i: int, j: int)
    requires
        0 <= i <= j,
    ensures
        year_start(i) <= year_start(j),
{
}

/// Within an era, the shifted year containing day `doe` is `yoe_of(doe)`.
proof fn lemma_yoe_unique(doe: int, k: int)
    requires
        0 <= k <= 399,
        year_start(k) <= doe,
        k < 399 ==> doe < year_start(k + 1),
        doe < 146097,
    ensures
        yoe_of(doe) == k,
{
    lemma_yoe(doe);
    let j = yoe_of(doe);
    if j < k {
        lemma_year_start_mono(j + 1, k);
    } else if k < j {
        lemma_year_start_mono(k + 1, j);
    }
}

proof fn lemma_month_unique(mp: int, d: int, leap: bool)
    requires
        0 <= mp <= 11,
        1 <= d,
        mp < 11 ==> month_start(mp) + d - 1 < month_start(mp + 1),
        mp == 11 ==> d <= if leap { 29int } else { 28int },
    ensures
        (5 * (month_start(mp) + d - 1) + 2) / 153 == mp,
{
}

proof fn lemma_era_split(era: int, doe: int)
    requires
        0 <= doe < 146097,
    ensures
        (era * 146097 + doe) / 146097 == era,
        (era * 146097 + doe) % 146097 == doe,
{
    vstd::arithmetic::div_mod::lemma_fundamental_div_mod_converse(era * 146097 + doe, 146097, era, doe);
}

proof fn lemma_civil_alg_inverse(y: int, m: int, d: int)
    requires
        is_valid_date(y, m, d),
    ensures
        civil_alg(days_from_civil(y, m, d)) == (y, m, d),
{
    let yy = if m <= 2 { y - 1 } else { y };
    let era = yy / 400;
    let yoe = yy - era * 400;
    let mp = if m > 2 { m - 3 } else { m + 9 };
    let doy = month_start(mp) + d - 1;
    let doe = year_start(yoe) + doy;
    assert(0 <= yoe <= 399);
    lemma_leap_shift(yoe + 1, era);
    assert(m <= 2 ==> y == yoe + 1 + era * 400);
    lemma_month_unique(mp, d, is_leap_year(yoe + 1));
    if yoe < 399 {
        lemma_year_len(yoe);
    }
    assert(0 <= doe < 146097);
    lemma_yoe_unique(doe, yoe);
    lemma_era_split(era, doe);
    assert(days_from_civil(y, m, d) + 719468 == era * 146097 + doe);
    assert(civil_in_era(era, doe) == (y, m, d));
}

/// Two valid dates with the same day number are the same date.
pub proof fn lemma_civil_date_unique(y1: int, m1: int, d1: int, y2: int, m2: int, d2: int)
    requires
        is_valid_date(y1, m1, d1),
        is_valid_date(y2, m2, d2),
        days_from_civil(y1, m1, d1) == days_from_civil(y2, m2, d2),
    ensures
        y1 == y2 && m1 == m2 && d1 == d2,
{
    lemma_civil_alg_inverse(y1, m1, d1);
    lemma_civil_alg_inverse(y2, m2, d2);
}

/// The calendar date (proleptic Gregorian) of day number `z`, counted from
/// 1970-01-01: the one valid date whose day number is `z`.
pub open spec fn civil_from_days(z: int) -> (int, int, int) {
    choose|t: (int, int, int)| is_valid_date(t.0, t.1, t.2) && days_from_civil(t.0, t.1, t.2) == z
}

pub(crate) proof fn lemma_civil_from_days_is_alg(z: int)
    ensures
        civil_from_days(z) == civil_alg(z),
        is_valid_date(civil_from_days(z).0, civil_from_days(z).1, civil_from_days(z).2),
        days_from_civil(civil_from_days(z).0, civil_from_days(z).1, civil_from_days(z).2) == z,
{
    lemma_civil_alg_valid(z);
    let t = civil_alg(z);
    assert(is_valid_date(t.0, t.1, t.2) && days_from_civil(t.0, t.1, t.2) == z);
    let c = civil_from_days(z);
    lemma_civil_date_unique(c.0, c.1, c.2, t.0, t.1, t.2);
}

pub(crate) proof fn lemma_yoe_bounds(doe: int)
    requires
        0 <= doe < 146097,
    ensures
        0 <= yoe_of(doe) <= 399,
        0 <= doe - year_start(yoe_of(doe)) <= 365,
{
    lemma_yoe(doe);
    if yoe_of(doe) < 399 {
        lemma_year_len(yoe_of(doe));
    }
}

/// The calendar day after `(y, m, d)`.
pub open spec fn next_date(y: int, m: int, d: int) -> (int, int, int) {
    if d < days_in_month(y, m) {
        (y, m, d + 1)
    } else if m < 12 {
        (y, m + 1, 1)
    } else {
        (y + 1, 1, 1)
    }
}

/// Days from the era origin to March 1 of the March-based year `yy`.
pub open spec fn march_first(yy: int) -> int {
    (yy / 400) * 146097 + year_start(yy - (yy / 400) * 400)
}

proof fn lemma_march_first_step(yy: int)
    ensures
        march_first(yy + 1) == march_first(yy) + if is_leap_year(yy + 1) { 366int } else { 365int },
{
    let era = yy / 400;
    let yoe = yy - era * 400;
    assert(0 <= yoe <= 399);
    lemma_leap_shift(yoe + 1, era);
    assert(yy + 1 == (yoe + 1) + 400 * era);
    if yoe < 399 {
        lemma_year_len(yoe);
        vstd::arithmetic::div_mod::lemma_fundamental_div_mod_converse(yy + 1, 400, era, yoe + 1);
    } else {
        vstd::arithmetic::div_mod::lemma_fundamental_div_mod_converse(yy + 1, 400, era + 1, 0);
    }
}

proof fn lemma_days_from_civil_split(y: int, m: int, d: int)
    ensures
        days_from_civil(y, m, d) == march_first(if m <= 2 { y - 1 } else { y })
            + month_start(if m > 2 { m - 3 } else { m + 9 }) + d - 1 - 719468,
{
}

/// Day numbers count calendar days from 1970-01-01: that date is day 0, and
/// the day after any valid date is a valid date whose number is one more.
pub proof fn law_day_numbers_count_days(y: int, m: int, d: int)
    requires
        is_valid_date(y, m, d),
    ensures
        days_from_civil(1970, 1, 1) == 0,
        is_valid_date(next_date(y, m, d).0, next_date(y, m, d).1, next_date(y, m, d).2),
        days_from_civil(next_date(y, m, d).0, next_date(y, m, d).1, next_date(y, m, d).2)
            == days_from_civil(y, m, d) + 1,
{
    lemma_days_from_civil_split(y, m, d);
    let (y2, m2, d2) = next_date(y, m, d);
    lemma_days_from_civil_split(y2, m2, d2);
    if d == days_in_month(y, m) && m == 2 {
        lemma_march_first_step(y - 1);
    }
    assert(march_first(1969) == 719468 - 306) by {
        vstd::arithmetic::div_mod::lemma_fundamental_div_mod_converse(1969, 400, 4, 369);
    }
}

} // verus!
