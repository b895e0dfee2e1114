use vstd::prelude::*;
use chrono::Datelike;
use crate::text::{parse_u32, parse_u32_spec, int_error_message, int_error_text};
use crate::untis::types::{PeriodObject, Holidays};
use crate::error::Error;

verus! {

/// What `chrono::NaiveDate::parse_from_str(&ymd.to_string(), "%Y%m%d")` gives:
/// the date as `num_days_from_ce`, or the message of chrono's `ParseError`.
pub uninterp spec fn chrono_parse_ymd(ymd: u32) -> Result<i32, Seq<char>>;

/// What `NaiveDate::checked_add_days(Days::new(n))` gives on the date with day
/// number `days` (counted by `num_days_from_ce`): the day number of the result,
/// `None` when it leaves chrono's range or `days` is no date.
pub uninterp spec fn chrono_add_days(days: i32, n: u64) -> Option<i32>;

/// What `NaiveDate::checked_sub_days(Days::new(n))` gives on the date with day
/// number `days`: the day number of the result, `None` when it leaves chrono's
/// range or `days` is no date.
pub uninterp spec fn chrono_sub_days(days: i32, n: u64) -> Option<i32>;

/// What `format("%Y%m%d")` writes for the date with day number `days`; `None`
/// when `days` is no date.
pub uninterp spec fn chrono_format_ymd(days: i32) -> Option<Seq<char>>;

pub open spec fn result_view(r: Result<i32, String>) -> Result<i32, Seq<char>> {
    match r {
        Ok(v) => Ok(v),
        Err(s) => Err(s@),
    }
}

pub open spec fn opt_str_view(r: Option<String>) -> Option<Seq<char>> {
    match r {
        Some(s) => Some(s@),
        None => None,
    }
}

/// Wraps `chrono::NaiveDate::parse_from_str` on the decimal text of `ymd` with the
/// format `%Y%m%d`; the date comes back as its `num_days_from_ce`, an error as
/// its message. Claimed: the result is [`chrono_parse_ymd`] of `ymd`.
#[verifier::external_body]
fn parse_ymd(ymd: u32) -> (res: Result<i32, String>)
    ensures
        result_view(res) == chrono_parse_ymd(ymd),
{
    match chrono::NaiveDate::parse_from_str(&ymd.to_string(), "%Y%m%d") {
        Ok(d) => Ok(d.num_days_from_ce()),
        Err(e) => Err(e.to_string()),
    }
}

/// Wraps `chrono::NaiveDate::checked_add_days` on the date whose day number is
/// `days` (made by `NaiveDate::from_num_days_from_ce_opt`). Claimed: the result
/// is [`chrono_add_days`] of the arguments, and a date it gives is `n` days
/// after `days`.
#[verifier::external_body]
fn add_days(days: i32, n: u64) -> (res: Option<i32>)
    ensures
        res == chrono_add_days(days, n),
        res matches Some(r) ==> r == days + n,
{
    match chrono::NaiveDate::from_num_days_from_ce_opt(days) {
        Some(d) => match d.checked_add_days(chrono::Days::new(n)) {
            Some(e) => Some(e.num_days_from_ce()),
            None => None,
        },
        None => None,
    }
}

/// Wraps `chrono::NaiveDate::checked_sub_days` on the date whose day number is
/// `days`. Claimed: the result is [`chrono_sub_days`] of the arguments, and a
/// date it gives is `n` days before `days`.
#[verifier::external_body]
fn sub_days(days: i32, n: u64) -> (res: Option<i32>)
    ensures
        res == chrono_sub_days(days, n),
        res matches Some(r) ==> r == days - n,
{
    match chrono::NaiveDate::from_num_days_from_ce_opt(days) {
        Some(d) => match d.checked_sub_days(chrono::Days::new(n)) {
            Some(e) => Some(e.num_days_from_ce()),
            None => None,
        },
        None => None,
    }
}

/// Wraps `chrono::NaiveDate::format` with `%Y%m%d` on the date whose day number
/// is `days`. Claimed: the result is [`chrono_format_ymd`] of `days`.
#[verifier::external_body]
fn format_ymd(days: i32) -> (res: Option<String>)
    ensures
        opt_str_view(res) == chrono_format_ymd(days),
{
    match chrono::NaiveDate::from_num_days_from_ce_opt(days) {
        Some(d) => Some(d.format("%Y%m%d").to_string()),
        None => None,
    }
}

/// The week day of the day with number `days` (counted by
/// `num_days_from_ce`, on which 1 January of the year 1, a Monday, is day 1),
/// Monday = 0 through Sunday = 6.
pub open spec fn weekday_of_day(days: int) -> int {
    (days - 1) % 7
}

/// Today in the local time zone, as day number and week day (Monday = 0).
/// Wraps `chrono::Local::now`; which day it is depends on the clock. Claimed:
/// the week day is the one of the day (chrono's `num_days_from_monday` of the
/// date whose `num_days_from_ce` is returned).
#[verifier::external_body]
fn local_today() -> (res: (i32, u32))
    ensures
        res.1 == weekday_of_day(res.0 as int),
{
    let today = chrono::Local::now().date_naive();
    (today.num_days_from_ce(), today.weekday().num_days_from_monday())
}

/// The text of a number followed by a space and a code, as the error
/// messages of the Untis client carry them.
pub open spec fn with_code(m: Seq<char>, code: Seq<char>) -> Seq<char> {
    m + " "@ + code
}

/// A holiday in the period: it covers its start, or it starts before its end
/// and ends after its start.
pub open spec fn overlaps(h: Holidays, start: u32, end: u32) -> bool {
    (h.start_date <= start && h.end_date >= start) || (h.start_date <= end && h.end_date >= start)
}

pub open spec fn holiday_text(h: Holidays) -> Seq<char> {
    match h.longname {
        Some(l) => l@,
        None => h.name@,
    }
}

/// Step `i` of the walk through the days of the period for the holiday `h`,
/// starting at day number `s`: the days found so far and whether the walk
/// stopped (the holiday ended), or an error message.
pub open spec fn holiday_step(
    h: Holidays,
    s: i32,
    i: int,
    out: Seq<(u32, Seq<char>)>,
) -> Result<(Seq<(u32, Seq<char>)>, bool), Seq<char>> {
    match chrono_add_days(s, i as u64) {
        None => Ok((out, false)),
        Some(date) => match chrono_parse_ymd(h.start_date) {
            Err(m) => Err(with_code(m, "195"@)),
            Ok(hs) => if hs > date {
                Ok((out, false))
            } else {
                match chrono_parse_ymd(h.end_date) {
                    Err(m) => Err(with_code(m, "201"@)),
                    Ok(he) => if he < date {
                        Ok((out, true))
                    } else {
                        match chrono_format_ymd(date) {
                            None => Err(with_code("date out of range"@, "208"@)),
                            Some(txt) => match parse_u32_spec(txt) {
                                Err(k) => Err(with_code(int_error_text(k), "208"@)),
                                Ok(v) => Ok((out.push((v, holiday_text(h))), false)),
                            },
                        }
                    },
                }
            },
        },
    }
}

/// The first `k` steps of the walk for holiday `h`.
pub open spec fn holiday_walk(h: Holidays, s: i32, k: nat) -> Result<
    (Seq<(u32, Seq<char>)>, bool),
    Seq<char>,
>
    decreases k,
{
    if k == 0 {
        Ok((Seq::empty(), false))
    } else {
        match holiday_walk(h, s, (k - 1) as nat) {
            Err(m) => Err(m),
            Ok((out, true)) => Ok((out, true)),
            Ok((out, false)) => holiday_step(h, s, k - 1, out),
        }
    }
}

/// The days of the period `start..=end` that the holiday `h` covers, as
/// (`yyyymmdd`, holiday name), or an error message.
pub open spec fn holiday_days(h: Holidays, start: u32, end: u32) -> Result<
    Seq<(u32, Seq<char>)>,
    Seq<char>,
> {
    match chrono_parse_ymd(start) {
        Err(m) => Err(with_code(m, "187"@)),
        Ok(s) => match chrono_parse_ymd(end) {
            Err(m) => Err(with_code(m, "188"@)),
            Ok(e) => {
                let len = e - s;
                let count: nat = if len >= 0 {
                    (len + 1) as nat
                } else {
                    0
                };
                match holiday_walk(h, s, count) {
                    Err(m) => Err(m),
                    Ok((out, _stopped)) => Ok(out),
                }
            },
        },
    }
}

/// The holiday days of the period for the holidays `hs`, holiday by holiday.
pub open spec fn period_holiday_days(hs: Seq<Holidays>, start: u32, end: u32) -> Result<
    Seq<(u32, Seq<char>)>,
    Seq<char>,
>
    decreases hs.len(),
{
    if hs.len() == 0 {
        Ok(Seq::empty())
    } else {
        match period_holiday_days(hs.drop_last(), start, end) {
            Err(m) => Err(m),
            Ok(out) => if overlaps(hs.last(), start, end) {
                match holiday_days(hs.last(), start, end) {
                    Err(m) => Err(m),
                    Ok(o2) => Ok(out + o2),
                }
            } else {
                Ok(out)
            },
        }
    }
}

/// A holiday shown as a period: the whole school day (07:55 to 16:25), no
/// class, teacher, subject or room, the holiday's name as lesson text.
pub open spec fn is_holiday_period(p: PeriodObject, date: u32, text: Seq<char>) -> bool {
    &&& p.id == 1
    &&& p.date == date
    &&& p.start_time == 755
    &&& p.end_time == 1625
    &&& p.kl@.len() == 0
    &&& p.te@.len() == 0
    &&& p.su@.len() == 0
    &&& p.ro@.len() == 0
    &&& p.activity_type is None
    &&& p.subst_text is None
    &&& p.lstext matches Some(t) && t@ == text
    &&& p.code is None
    &&& p.sg is None
}

pub open spec fn holiday_periods_match(v: Seq<PeriodObject>, d: Seq<(u32, Seq<char>)>) -> bool {
    &&& v.len() == d.len()
    &&& forall|i: int| 0 <= i < v.len() ==> is_holiday_period(#[trigger] v[i], d[i].0, d[i].1)
}

fn holiday_period(date: u32, h: &Holidays) -> (res: PeriodObject)
    ensures
        is_holiday_period(res, date, holiday_text(*h)),
{
    let text = match &h.longname {
        Some(l) => l.clone(),
        None => h.name.clone(),
    };
    PeriodObject {
        id: 1,
        date,
        start_time: 755,
        end_time: 1625,
        kl: Vec::new(),
        te: Vec::new(),
        su: Vec::new(),
        ro: Vec::new(),
        activity_type: None,
        subst_text: None,
        lstext: Some(text),
        code: None,
        sg: None,
    }
}

fn coded(m: String, code: &str) -> (res: Error)
    ensures
        res matches Error::UntisError(t) && t@ == with_code(m@, code@),
{
    let mut t = m;
    t.append(" ");
    t.append(code);
    Error::UntisError(t)
}

/// Adds the days of the period that the holiday `h` covers to `out`.
fn push_holiday_days(h: &Holidays, start_date: u32, end_date: u32, out: &mut Vec<PeriodObject>) -> (res: Result<(), Error>)
    ensures
        match holiday_days(*h, start_date, end_date) {
            Ok(d) => res is Ok && final(out)@.len() == old(out)@.len() + d.len()
                && final(out)@.take(old(out)@.len() as int) == old(out)@
                && holiday_periods_match(final(out)@.skip(old(out)@.len() as int), d),
            Err(m) => res matches Err(Error::UntisError(t)) && t@ == m,
        },
{
    let s = match parse_ymd(start_date) {
        Ok(s) => s,
        Err(m) => {
            proof { reveal_strlit("187"); }
            return Err(coded(m, "187"));
        },
    };
    let e = match parse_ymd(end_date) {
        Ok(e) => e,
        Err(m) => {
            return Err(coded(m, "188"));
        },
    };
    let len: i64 = (e as i64) - (s as i64);
    let ghost count: nat = if len >= 0 {
        (len + 1) as nat
    } else {
        0
    };
    let ghost out0 = out@;
    let ghost text = holiday_text(*h);
    let mut i: i64 = 0;
    let mut done = false;
    assert(out@.skip(out0.len() as int) =~= Seq::<PeriodObject>::empty());
    while i <= len && !done
        invariant
            0 <= i,
            len == e - s,
            chrono_parse_ymd(start_date) == Ok::<i32, Seq<char>>(s),
            chrono_parse_ymd(end_date) == Ok::<i32, Seq<char>>(e),
            out0 == old(out)@,
            count == (if len >= 0 {
                (len + 1) as nat
            } else {
                0nat
            }),
            i <= count,
            out@.take(out0.len() as int) == out0,
            out@.len() >= out0.len(),
            holiday_walk(*h, s, i as nat) matches Ok((d, stopped)) && stopped == done
                && holiday_periods_match(out@.skip(out0.len() as int), d),
            text == holiday_text(*h),
        decreases count - i, (if done { 0int } else { 1int }),
    {
        let ghost d_before = holiday_walk(*h, s, i as nat)->Ok_0.0;
        let ghost v_before = out@;
        match add_days(s, i as u64) {
            None => {},
            Some(date) => {
                let hs = match parse_ymd(h.start_date) {
                    Ok(v) => v,
                    Err(m) => {
                        proof {
                            lemma_walk_err(*h, s, (i + 1) as nat, count);
                        }
                        return Err(coded(m, "195"));
                    },
                };
                if hs > date {
                } else {
                    let he = match parse_ymd(h.end_date) {
                        Ok(v) => v,
                        Err(m) => {
                            proof {
                                lemma_walk_err(*h, s, (i + 1) as nat, count);
                            }
                            return Err(coded(m, "201"));
                        },
                    };
                    if he < date {
                        done = true;
                    } else {
                        let txt = match format_ymd(date) {
                            Some(t) => t,
                            None => {
                                proof {
                                    lemma_walk_err(*h, s, (i + 1) as nat, count);
                                }
                                return Err(coded(String::from_str("date out of range"), "208"));
                            },
                        };
                        match parse_u32(txt.as_str()) {
                            Err(k) => {
                                proof {
                                    lemma_walk_err(*h, s, (i + 1) as nat, count);
                                }
                                return Err(coded(int_error_message(k), "208"));
                            },
                            Ok(v) => {
                                let p = holiday_period(v, h);
                                out.push(p);
                                proof {
                                    let nd = d_before.push((v, text));
                                    let tail = out@.skip(out0.len() as int);
                                    assert(tail =~= v_before.skip(out0.len() as int).push(p));
                                    assert forall|j: int| 0 <= j < tail.len() implies is_holiday_period(
                                        #[trigger] tail[j],
                                        nd[j].0,
                                        nd[j].1,
                                    ) by {
                                        if j < tail.len() - 1 {
                                            assert(tail[j] == v_before.skip(out0.len() as int)[j]);
                                        }
                                    }
                                    assert(out@.take(out0.len() as int) =~= out0);
                                }
                            },
                        }
                    }
                }
            },
        }
        i = i + 1;
    }
    proof {
        if done {
            lemma_walk_stopped(*h, s, i as nat, count);
        }
    }
    Ok(())
}

/// Once the walk failed, it stays failed.
proof fn lemma_walk_err(h: Holidays, s: i32, k: nat, n: nat)
    requires
        k <= n,
        holiday_walk(h, s, k) is Err,
    ensures
        holiday_walk(h, s, n) == holiday_walk(h, s, k),
    decreases n - k,
{
    if k < n {
        lemma_walk_err(h, s, k + 1, n);
    }
}

/// Once the walk stopped, further steps change nothing.
proof fn lemma_walk_stopped(h: Holidays, s: i32, k: nat, n: nat)
    requires
        k <= n,
        holiday_walk(h, s, k) matches Ok((_d, true)),
    ensures
        holiday_walk(h, s, n) == holiday_walk(h, s, k),
    decreases n - k,
{
    if k < n {
        lemma_walk_stopped(h, s, k + 1, n);
    }
}

} // verus!

verus! {

proof fn lemma_period_err(hs: Seq<Holidays>, start: u32, end: u32, k: int)
    requires
        0 <= k <= hs.len(),
        period_holiday_days(hs.take(k), start, end) is Err,
    ensures
        period_holiday_days(hs, start, end) == period_holiday_days(hs.take(k), start, end),
    decreases hs.len() - k,
{
    if k < hs.len() {
        assert(hs.take(k + 1).drop_last() =~= hs.take(k));
        lemma_period_err(hs, start, end, k + 1);
    } else {
        assert(hs.take(k) =~= hs);
    }
}

/// The school days of the period `start_date..=end_date` (`yyyymmdd`) that fall
/// into one of the holidays, each as a period showing the holiday's name;
/// holiday by holiday, day by day. Errors of date parsing end the computation.
pub fn get_period_holidays(all_holidays: &Vec<Holidays>, start_date: u32, end_date: u32) -> (res:
    Result<Vec<PeriodObject>, Error>)
    ensures
        match period_holiday_days(all_holidays@, start_date, end_date) {
            Ok(d) => res is Ok && holiday_periods_match(res->Ok_0@, d),
            Err(m) => res matches Err(Error::UntisError(t)) && t@ == m,
        },
{
    let mut out: Vec<PeriodObject> = Vec::new();
    let n = all_holidays.len();
    let mut i: usize = 0;
    let ghost hs = all_holidays@;
    assert(hs.take(0) =~= Seq::<Holidays>::empty());
    while i < n
        invariant
            n == hs.len(),
            hs == all_holidays@,
            i <= n,
            period_holiday_days(hs.take(i as int), start_date, end_date) matches Ok(d)
                && holiday_periods_match(out@, d),
        decreases n - i,
    {
        let h = &all_holidays[i];
        proof {
            assert(hs.take(i + 1).drop_last() =~= hs.take(i as int));
            assert(hs.take(i + 1).last() == *h);
        }
        let ghost d0 = period_holiday_days(hs.take(i as int), start_date, end_date)->Ok_0;
        let ghost v0 = out@;
        if (h.start_date <= start_date && h.end_date >= start_date) || (h.start_date <= end_date
            && h.end_date >= start_date) {
            match push_holiday_days(h, start_date, end_date, &mut out) {
                Ok(()) => {
                    proof {
                        let d2 = holiday_days(*h, start_date, end_date)->Ok_0;
                        let nd = d0 + d2;
                        assert forall|j: int| 0 <= j < out@.len() implies is_holiday_period(
                            #[trigger] out@[j],
                            nd[j].0,
                            nd[j].1,
                        ) by {
                            if j < v0.len() {
                                assert(out@[j] == out@.take(v0.len() as int)[j]);
                                assert(is_holiday_period(v0[j], d0[j].0, d0[j].1));
                            } else {
                                assert(out@[j] == out@.skip(v0.len() as int)[j - v0.len()]);
                                assert(is_holiday_period(out@.skip(v0.len() as int)[j - v0.len()], d2[j - v0.len()].0, d2[j - v0.len()].1));
                            }
                        }
                    }
                },
                Err(e) => {
                    proof {
                        lemma_period_err(hs, start_date, end_date, i + 1);
                    }
                    return Err(e);
                },
            }
        }
        i = i + 1;
    }
    assert(hs.take(n as int) =~= hs);
    Ok(out)
}

/// Monday of the week of the day `today` whose week day is `wd` (Monday = 0):
/// `wd` days before it, as chrono subtracts them.
pub fn monday_of(today: i32, wd: u32) -> (res: Option<i32>)
    requires
        wd < 7,
    ensures
        res == chrono_sub_days(today, wd as u64),
        res matches Some(m) ==> m == today - wd,
{
    sub_days(today, wd as u64)
}

/// The Friday of the week of the day numbered `days` whose week day is `wd`,
/// as chrono counts it forwards (up to Friday) or back (at the weekend).
pub open spec fn friday_days(days: i32, wd: u32) -> Option<i32> {
    if wd <= 4 {
        chrono_add_days(days, (4 - wd) as u64)
    } else {
        chrono_sub_days(days, (wd - 4) as u64)
    }
}

/// Friday of the week of the day `today` whose week day is `wd` (Monday = 0):
/// up to four days later, or, at the weekend, one or two days before.
pub fn friday_of(today: i32, wd: u32) -> (res: Option<i32>)
    requires
        wd < 7,
    ensures
        res == friday_days(today, wd),
        res matches Some(f) ==> f == today + 4 - wd,
{
    if wd <= 4 {
        add_days(today, (4 - wd) as u64)
    } else {
        sub_days(today, (wd - 4) as u64)
    }
}

/// The Monday of the week of the day numbered `today`, as chrono counts back
/// to it.
pub open spec fn monday_days(today: i32) -> Option<i32> {
    chrono_sub_days(today, weekday_of_day(today as int) as u64)
}

/// The Friday of the week of the day numbered `today` (the Friday before, at
/// the weekend), as chrono counts to it.
pub open spec fn friday_of_week(today: i32) -> Option<i32> {
    friday_days(today, weekday_of_day(today as int) as u32)
}

/// Counting `k` days on from the Monday of the week of `today` gives week day `k`.
proof fn lemma_week_day_after_monday(today: int, k: int)
    requires
        0 <= k < 7,
    ensures
        weekday_of_day(today - weekday_of_day(today) + k) == k,
{
    let x = today - 1;
    vstd::arithmetic::div_mod::lemma_fundamental_div_mod(x, 7);
    vstd::arithmetic::div_mod::lemma_mod_multiples_vanish(x / 7, k, 7);
    vstd::arithmetic::div_mod::lemma_small_mod(k as nat, 7);
}

/// Monday of the current week in the local time zone, as day number
/// (`num_days_from_ce`); `None` where chrono cannot represent it.
pub fn get_this_monday() -> (res: Option<i32>)
    ensures
        exists|today: i32| res == #[trigger] monday_days(today),
        res matches Some(m) ==> weekday_of_day(m as int) == 0,
{
    let (today, wd) = local_today();
    proof {
        lemma_week_day_after_monday(today as int, 0);
    }
    let res = monday_of(today, wd);
    assert(res == monday_days(today));
    res
}

/// Friday of the current week in the local time zone, as day number; at the
/// weekend the Friday before. `None` where chrono cannot represent it.
pub fn get_this_friday() -> (res: Option<i32>)
    ensures
        exists|today: i32| res == #[trigger] friday_of_week(today),
        res matches Some(f) ==> weekday_of_day(f as int) == 4,
{
    let (today, wd) = local_today();
    proof {
        lemma_week_day_after_monday(today as int, 4);
    }
    let res = friday_of(today, wd);
    assert(res == friday_of_week(today));
    res
}

/// The date with day number `days` as Untis writes it, `yyyymmdd`.
pub fn format_for_untis(days: i32) -> (res: Option<String>)
    ensures
        opt_str_view(res) == chrono_format_ymd(days),
{
    format_ymd(days)
}

/// The Untis date (`yyyymmdd`) of the Monday of the week of the day numbered
/// `today`.
pub open spec fn monday_text(today: i32) -> Option<Seq<char>> {
    match monday_days(today) {
        Some(d) => chrono_format_ymd(d),
        None => None,
    }
}

/// The Untis date of the Friday of that week (the Friday before, at the
/// weekend).
pub open spec fn friday_text(today: i32) -> Option<Seq<char>> {
    match friday_of_week(today) {
        Some(d) => chrono_format_ymd(d),
        None => None,
    }
}

/// `t` is the Untis date of a Monday.
pub open spec fn is_monday_text(t: Seq<char>) -> bool {
    exists|d: i32| weekday_of_day(d as int) == 0 && #[trigger] chrono_format_ymd(d) == Some(t)
}

/// `t` is the Untis date of a Friday.
pub open spec fn is_friday_text(t: Seq<char>) -> bool {
    exists|d: i32| weekday_of_day(d as int) == 4 && #[trigger] chrono_format_ymd(d) == Some(t)
}

/// The Untis date of the Monday of the current week; `None` where chrono
/// cannot represent or write it.
pub fn this_monday_text() -> (res: Option<String>)
    ensures
        exists|today: i32| opt_str_view(res) == #[trigger] monday_text(today),
        res matches Some(t) ==> is_monday_text(t@),
{
    let day = get_this_monday();
    let ghost today = choose|today: i32| day == #[trigger] monday_days(today);
    match day {
        Some(d) => {
            let r = format_for_untis(d);
            proof {
                assert(opt_str_view(r) == monday_text(today));
                if r is Some {
                    assert(chrono_format_ymd(d) == Some(r->0@));
                }
            }
            r
        },
        None => {
            proof {
                assert(opt_str_view(None) == monday_text(today));
            }
            None
        },
    }
}

/// The Untis date of the Friday of the current week; `None` where chrono
/// cannot represent or write it.
pub fn this_friday_text() -> (res: Option<String>)
    ensures
        exists|today: i32| opt_str_view(res) == #[trigger] friday_text(today),
        res matches Some(t) ==> is_friday_text(t@),
{
    let day = get_this_friday();
    let ghost today = choose|today: i32| day == #[trigger] friday_of_week(today);
    match day {
        Some(d) => {
            let r = format_for_untis(d);
            proof {
                assert(opt_str_view(r) == friday_text(today));
                if r is Some {
                    assert(chrono_format_ymd(d) == Some(r->0@));
                }
            }
            r
        },
        None => {
            proof {
                assert(opt_str_view(None) == friday_text(today));
            }
            None
        },
    }
}

} // verus!
