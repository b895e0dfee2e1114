use vstd::prelude::*;

verus! {

/// Zeller's congruence on a `yyyymmdd` date, shifted so that Monday is 0 and
/// Sunday is 6.
pub open spec fn weekday_of(date: u32) -> int {
    let y0 = date / 10000;
    let m0 = (date / 100) % 100;
    let d = date % 100;
    let m = if m0 < 3 { m0 + 12 } else { m0 as int };
    let y = if m0 < 3 { y0 - 1 } else { y0 as int };
    let k = y % 100;
    let j = y / 100;
    let h = (d + (13 * (m + 1)) / 5 + k + k / 4 + j / 4 + 5 * j) % 7;
    (h + 5) % 7
}

/// Dates in January or February of year 0 have no preceding year to count from.
pub open spec fn has_weekday(date: u32) -> bool {
    (date / 100) % 100 < 3 ==> date / 10000 >= 1
}

/// The week day of a `yyyymmdd` date, Monday = 0 through Sunday = 6.
pub fn day_of_week(date: u32) -> (res: u32)
    requires
        has_weekday(date),
    ensures
        res == weekday_of(date),
        res < 7,
{
    let mut y = date / 10000;
    let mut m = (date / 100) % 100;
    let d = date % 100;

    if m < 3 {
        m += 12;
        y -= 1;
    }

    let k = y % 100;
    let j = y / 100;
    let h = (d + (13 * (m + 1)) / 5 + k + k / 4 + j / 4 + 5 * j) % 7;
    (h + 5) % 7
}

/// Within one month the week day moves on by one from day to day.
pub proof fn lemma_next_day_same_month(date: u32)
    requires
        has_weekday(date),
        date % 100 < 99,
        date < u32::MAX,
    ensures
        has_weekday((date + 1) as u32),
        weekday_of((date + 1) as u32) == (weekday_of(date) + 1) % 7,
{
    let n = (date + 1) as u32;
    assert(n / 10000 == date / 10000);
    assert(n / 100 == date / 100);
    assert(n % 100 == date % 100 + 1);
}

/// A leap year of the Gregorian calendar.
pub open spec fn is_leap_year(y: int) -> bool {
    y % 4 == 0 && (y % 100 != 0 || y % 400 == 0)
}

/// The number of days of the month `m` (1 to 12) of the year `y`.
pub open spec fn days_in_month(y: int, m: int) -> int {
    if m == 2 {
        if is_leap_year(y) { 29 } else { 28 }
    } else if m == 4 || m == 6 || m == 9 || m == 11 {
        30
    } else {
        31
    }
}

/// `y`-`m`-`d` is a day of the Gregorian calendar from the year 1 on.
pub open spec fn is_valid_date(y: int, m: int, d: int) -> bool {
    &&& 1 <= y
    &&& 1 <= m <= 12
    &&& 1 <= d <= days_in_month(y, m)
}

/// The days of the years before the year `y`, from the year 1 on.
pub open spec fn days_before_year(y: int) -> int
    decreases y,
{
    if y <= 1 {
        0
    } else {
        days_before_year(y - 1) + if is_leap_year(y - 1) { 366int } else { 365int }
    }
}

/// The days of the months of the year `y` before the month `m`.
pub open spec fn days_before_month(y: int, m: int) -> int
    decreases m,
{
    if m <= 1 {
        0
    } else {
        days_before_month(y, m - 1) + days_in_month(y, m - 1)
    }
}

/// The days from 1 January of the year 1 to `y`-`m`-`d`, counted on the
/// Gregorian calendar: 0 for that first day.
pub open spec fn day_number(y: int, m: int, d: int) -> int {
    days_before_year(y) + days_before_month(y, m) + d - 1
}

proof fn lemma_days_before_year(y: int)
    requires
        1 <= y,
    ensures
        days_before_year(y) == 365 * (y - 1) + (y - 1) / 4 - (y - 1) / 100 + (y - 1) / 400,
    decreases y,
{
    if y > 1 {
        lemma_days_before_year(y - 1);
        let x = y - 1;
        assert(x / 4 == (x - 1) / 4 + if x % 4 == 0 { 1int } else { 0int });
        assert(x / 100 == (x - 1) / 100 + if x % 100 == 0 { 1int } else { 0int });
        assert(x / 400 == (x - 1) / 400 + if x % 400 == 0 { 1int } else { 0int });
        assert(x % 100 == 0 ==> x % 4 == 0);
        assert(x % 400 == 0 ==> x % 100 == 0);
    }
}

proof fn lemma_days_before_month(y: int, m: int)
    requires
        1 <= m <= 12,
    ensures
        days_before_month(y, m) == (if m == 1 { 0int } else if m == 2 { 31int } else if m == 3 { 59int }
        else if m == 4 { 90int } else if m == 5 { 120int } else if m == 6 { 151int } else if m == 7 { 181int }
        else if m == 8 { 212int } else if m == 9 { 243int } else if m == 10 { 273int } else if m == 11 { 304int }
        else { 334int }) + if m > 2 && is_leap_year(y) { 1int } else { 0int },
    decreases m,
{
    if m > 1 {
        lemma_days_before_month(y, m - 1);
    }
}

proof fn lemma_mod7_shift(b: int, q: int)
    ensures
        (b + 7 * q) % 7 == b % 7,
{
}

/// The fields of a `yyyymmdd` date.
proof fn lemma_date_fields(y: int, m: int, d: int)
    requires
        0 <= y,
        1 <= m <= 12,
        1 <= d <= 31,
        y * 10000 + m * 100 + d <= u32::MAX,
    ensures
        ((y * 10000 + m * 100 + d) as u32) / 10000 == y,
        (((y * 10000 + m * 100 + d) as u32) / 100) % 100 == m,
        ((y * 10000 + m * 100 + d) as u32) % 100 == d,
{
    let date = y * 10000 + m * 100 + d;
    assert(date / 100 == y * 100 + m);
}

/// Zeller's sum over a year `yy` cut into centuries `j` and the rest `k`,
/// written over the whole year.
proof fn lemma_century_split(yy: int)
    requires
        0 <= yy,
    ensures
        (yy % 100) + (yy % 100) / 4 + (yy / 100) / 4 + 5 * (yy / 100) == yy + yy / 4 - yy / 100 + yy / 400
            - 119 * (yy / 100),
{
    let k = yy % 100;
    let j = yy / 100;
    assert(yy == 100 * j + k);
    assert(yy / 4 == 25 * j + k / 4);
    assert(yy / 400 == j / 4);
}

/// The leap days up to the year `y` against those up to the year before.
proof fn lemma_leap_count(y: int)
    requires
        1 <= y,
    ensures
        y / 4 - y / 100 + y / 400 == (y - 1) / 4 - (y - 1) / 100 + (y - 1) / 400 + if is_leap_year(y) { 1int } else { 0int },
{
    let x = y - 1;
    assert(y / 4 == x / 4 + if y % 4 == 0 { 1int } else { 0int });
    assert(y / 100 == x / 100 + if y % 100 == 0 { 1int } else { 0int });
    assert(y / 400 == x / 400 + if y % 400 == 0 { 1int } else { 0int });
    assert(y % 100 == 0 ==> y % 4 == 0);
    assert(y % 400 == 0 ==> y % 100 == 0);
}

/// Zeller's formula on the fields of a date, with the year taken whole.
proof fn lemma_zeller_whole_year(date: u32, yy: int, mm: int, d: int)
    requires
        0 <= yy,
        3 <= mm <= 14,
        0 <= d,
        yy == (if (date / 100) % 100 < 3 { date / 10000 - 1 } else { (date / 10000) as int }),
        mm == (if (date / 100) % 100 < 3 { (date / 100) % 100 + 12 } else { ((date / 100) % 100) as int }),
        d == date % 100,
    ensures
        weekday_of(date) == (d + (13 * (mm + 1)) / 5 + yy + yy / 4 - yy / 100 + yy / 400 - 119 * (yy / 100) + 5) % 7,
{
    lemma_century_split(yy);
    let k = yy % 100;
    let j = yy / 100;
    let z = d + (13 * (mm + 1)) / 5 + k + k / 4 + j / 4 + 5 * j;
    assert(weekday_of(date) == ((z % 7) + 5) % 7);
    vstd::arithmetic::div_mod::lemma_add_mod_noop(z, 5, 7);
    assert(5int % 7 == 5);
}

/// The month tables: Zeller's month term against the days before the month.
proof fn lemma_month_terms(y: int, m: int)
    requires
        1 <= m <= 12,
    ensures
        ({
            let mm = if m < 3 { m + 12 } else { m };
            let l = if m > 2 && is_leap_year(y) { 1int } else { 0int };
            ((13 * (mm + 1)) / 5 + 6 - (days_before_month(y, m) - l)) % 7 == (if m < 3 { 0int } else { 6int })
        }),
{
    lemma_days_before_month(y, m);
}

/// On every day of the Gregorian calendar from the year 1 on that fits the
/// `yyyymmdd` form in a `u32`, the week day is the number of days since
/// 1 January of the year 1, a Monday, modulo 7.
pub proof fn lemma_weekday_is_gregorian(y: int, m: int, d: int)
    requires
        is_valid_date(y, m, d),
        y * 10000 + m * 100 + d <= u32::MAX,
    ensures
        has_weekday((y * 10000 + m * 100 + d) as u32),
        weekday_of((y * 10000 + m * 100 + d) as u32) == day_number(y, m, d) % 7,
{
    let date = (y * 10000 + m * 100 + d) as u32;
    lemma_date_fields(y, m, d);
    let x = y - 1;
    let yy = if m < 3 { x } else { y };
    let mm = if m < 3 { m + 12 } else { m };
    lemma_zeller_whole_year(date, yy, mm, d);
    lemma_days_before_year(y);
    lemma_month_terms(y, m);
    let p = x / 4 - x / 100 + x / 400;
    let j = yy / 100;
    let c = (13 * (mm + 1)) / 5;
    let l = if m > 2 && is_leap_year(y) { 1int } else { 0int };
    let t = days_before_month(y, m);
    let n = day_number(y, m, d);
    assert(n == 365 * x + p + t + d - 1);
    let e = c + 6 - (t - l);
    assert(yy + yy / 4 - yy / 100 + yy / 400 == x + p + (if m < 3 { 0int } else { 1 + l })) by {
        if m >= 3 {
            lemma_leap_count(y);
        }
    }
    let arg = d + c + yy + yy / 4 - yy / 100 + yy / 400 - 119 * j + 5;
    assert(arg == n + e - 7 * (17 * j + 52 * x) + (if m < 3 { 0int } else { 1int }));
    assert(e % 7 == (if m < 3 { 0int } else { 6int }));
    let q = e / 7 + (if m < 3 { 0int } else { 1int }) - (17 * j + 52 * x);
    assert(arg == n + 7 * q);
    lemma_mod7_shift(n, q);
}

} // verus!
