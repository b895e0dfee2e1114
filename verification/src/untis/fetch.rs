use vstd::prelude::*;
use crate::error::{Error, error_message};
use crate::untis::types::{TimetableParameter, PeriodObject, Holidays, TimegridUnits, FormattedLesson};
use crate::untis::calendar::with_code;
use crate::untis::client::{
    names_unique, class_selected, select_class, date_result, parse_date, timetable_periods,
    timetable_periods_result, format_timetable, format_result, fetched_holidays, with_error_code,
};
use crate::untis::format::{all_ok, formatted_lessons, slot_error_message};
use crate::untis::types::lessons_view;
use crate::untis::calendar::{period_holiday_days, holiday_periods_match};
use crate::untis::client::{flat_lessons, collect_lernbueros, lernbuero_dates, lernbuero_holidays, finish_lernbueros};
use crate::untis::lernbueros::{lb_filter, without_overwritten, expand_teachers, merged_lernbueros,
    manual_overwrite_lbs, expand_lernbueros};
use crate::models::lb::{Teacher, ManualLBOverwrite};

verus! {

/// Where fetching a timetable from Untis stands.
pub enum TimetableFetch {
    /// The request for these days, for the class named, if any.
    Start(TimetableParameter, Option<String>),
    /// Waiting for the periods of this request.
    Periods(TimetableParameter),
    /// Waiting for the holidays; carries the periods and the request.
    Holidays(Vec<PeriodObject>, TimetableParameter),
    /// Waiting for the time grid; carries the periods with the holidays and
    /// the first requested day.
    Timegrid(Vec<PeriodObject>, u32),
    Finished,
}

/// What fetching a timetable asks to be done next.
pub enum FetchAction {
    /// The timetable, or why there is none; fetching is done.
    Answer(Result<Vec<FormattedLesson>, Error>),
    /// Ask Untis for the periods of the request that the state
    /// [`TimetableFetch::Periods`] holds. `FetchEvent::Periods`.
    RequestPeriods,
    /// Ask Untis for the holidays. `FetchEvent::Holidays`.
    RequestHolidays,
    /// Ask Untis for the time grid. `FetchEvent::Timegrid`.
    RequestTimegrid,
}

/// What came of a [`FetchAction`].
pub enum FetchEvent {
    Start,
    Periods(Result<Vec<PeriodObject>, Error>),
    Holidays(Result<Vec<Holidays>, Error>),
    Timegrid(Result<Vec<TimegridUnits>, Error>),
}

/// The event each state waits for. Class names are unique; every period
/// falls on a day of the time grid that Untis sends.
pub open spec fn fetch_awaits(s: TimetableFetch, e: FetchEvent, ids: Seq<(String, u16)>) -> bool {
    match s {
        TimetableFetch::Start(..) => e is Start && names_unique(ids),
        TimetableFetch::Periods(_) => e is Periods,
        TimetableFetch::Holidays(..) => e is Holidays,
        TimetableFetch::Timegrid(all, _) => match e {
            FetchEvent::Timegrid(Ok(tg)) => all_ok(all@, tg@),
            FetchEvent::Timegrid(Err(_)) => true,
            _ => false,
        },
        TimetableFetch::Finished => false,
    }
}

/// Fetching ends with the Untis error `m`.
pub open spec fn fails_with(res: (TimetableFetch, FetchAction), m: Seq<char>) -> bool {
    res.0 is Finished && (res.1 matches FetchAction::Answer(Err(Error::UntisError(t))) && t@ == m)
}

/// One step of fetching a timetable: the class is looked up before anything
/// is asked; the periods are asked for, the requested days parsed (steps 164
/// and 165), the holidays asked for and added (a failed request is passed on
/// through steps 172 and 168), the time grid asked for (step 258), and all is
/// formatted. A failed request for the periods is passed on as it is.
pub open spec fn fetch_next(
    s: TimetableFetch,
    e: FetchEvent,
    ids: Seq<(String, u16)>,
    res: (TimetableFetch, FetchAction),
) -> bool {
    match s {
        TimetableFetch::Start(p, class_name) => (res.0 matches TimetableFetch::Periods(q) && res.1 is RequestPeriods
            && class_selected(p, ids, class_name, Ok(q)))
            || (res.0 is Finished && (res.1 matches FetchAction::Answer(Err(err)) && class_selected(p, ids, class_name, Err(err)))),
        TimetableFetch::Periods(p) => match e {
            FetchEvent::Periods(Err(err)) => res.0 is Finished && res.1 == FetchAction::Answer(Err(err)),
            FetchEvent::Periods(Ok(ps)) => match date_result(p.options.start_date@, "164"@) {
                Err(m) => fails_with(res, m),
                Ok(_) => match date_result(p.options.end_date@, "165"@) {
                    Err(m) => fails_with(res, m),
                    Ok(_) => res.0 == TimetableFetch::Holidays(ps, p) && res.1 is RequestHolidays,
                },
            },
            _ => false,
        },
        TimetableFetch::Holidays(ps, p) => match e {
            FetchEvent::Holidays(Err(err)) => fails_with(res, with_code(with_code(error_message(err), "172"@), "168"@)),
            FetchEvent::Holidays(Ok(h)) => (res.0 matches TimetableFetch::Timegrid(all, first) && res.1 is RequestTimegrid
                && timetable_periods_result(ps@, p.options.start_date@, p.options.end_date@, h@, Ok((all, first))))
                || (res.0 is Finished && (res.1 matches FetchAction::Answer(Err(err)) && timetable_periods_result(
                ps@,
                p.options.start_date@,
                p.options.end_date@,
                h@,
                Err(err),
            ))),
            _ => false,
        },
        TimetableFetch::Timegrid(all, first) => match e {
            FetchEvent::Timegrid(Err(err)) => fails_with(res, with_code(error_message(err), "258"@)),
            FetchEvent::Timegrid(Ok(tg)) => res.0 is Finished && (res.1 matches FetchAction::Answer(r) && format_result(
                all@,
                first,
                tg@,
                r,
            )),
            _ => false,
        },
        TimetableFetch::Finished => false,
    }
}

fn answer(r: Result<Vec<FormattedLesson>, Error>) -> (res: (TimetableFetch, FetchAction))
    ensures
        res.0 is Finished,
        res.1 == FetchAction::Answer(r),
{
    (TimetableFetch::Finished, FetchAction::Answer(r))
}

/// One step of fetching a timetable; `ids` are the class names of the school
/// and their ids.
pub fn fetch_step(s: TimetableFetch, e: FetchEvent, ids: &Vec<(String, u16)>) -> (res: (TimetableFetch, FetchAction))
    requires
        fetch_awaits(s, e, ids@),
    ensures
        fetch_next(s, e, ids@, res),
{
    match s {
        TimetableFetch::Start(p, class_name) => match select_class(p, ids, class_name) {
            Ok(q) => (TimetableFetch::Periods(q), FetchAction::RequestPeriods),
            Err(err) => answer(Err(err)),
        },
        TimetableFetch::Periods(p) => match e {
            FetchEvent::Periods(Err(err)) => answer(Err(err)),
            FetchEvent::Periods(Ok(ps)) => {
                if let Err(err) = parse_date(p.options.start_date.as_str(), "164") {
                    return answer(Err(err));
                }
                if let Err(err) = parse_date(p.options.end_date.as_str(), "165") {
                    return answer(Err(err));
                }
                (TimetableFetch::Holidays(ps, p), FetchAction::RequestHolidays)
            },
            _ => answer(Err(Error::UntisError(String::from_str("unexpected answer")))),
        },
        TimetableFetch::Holidays(ps, p) => match e {
            FetchEvent::Holidays(r) => match fetched_holidays(r, "168") {
                Err(err) => answer(Err(err)),
                Ok(h) => match timetable_periods(ps, &p, &h) {
                    Ok((all, first)) => (TimetableFetch::Timegrid(all, first), FetchAction::RequestTimegrid),
                    Err(err) => answer(Err(err)),
                },
            },
            _ => answer(Err(Error::UntisError(String::from_str("unexpected answer")))),
        },
        TimetableFetch::Timegrid(all, first) => match e {
            FetchEvent::Timegrid(Err(err)) => answer(Err(with_error_code(err, "258"))),
            FetchEvent::Timegrid(Ok(tg)) => match format_timetable(all, first, &tg) {
                Some(r) => answer(r),
                None => answer(Err(Error::UntisError(String::from_str("unexpected answer")))),
            },
            _ => answer(Err(Error::UntisError(String::from_str("unexpected answer")))),
        },
        TimetableFetch::Finished => answer(Err(Error::UntisError(String::from_str("unexpected answer")))),
    }
}

/// Where fetching the Lernbüros of a week stands; each state holds the
/// request.
pub enum LernbueroFetch {
    Start(TimetableParameter),
    /// Waiting for the timetables of the classes.
    Classes(TimetableParameter),
    /// Waiting for the hand-entered overwrites; carries the Lernbüros found.
    Overwrites(TimetableParameter, Vec<FormattedLesson>),
    /// Waiting for the teacher of each Lernbüro, by its short name.
    Teachers(TimetableParameter, Vec<FormattedLesson>),
    /// Waiting for the hand-entered Lernbüros.
    Manual(TimetableParameter, Vec<FormattedLesson>),
    /// Waiting for the holidays; carries the Lernbüros and the first and last
    /// requested day.
    Holidays(Vec<FormattedLesson>, u32, u32),
    /// Waiting for the time grid; carries the Lernbüros, the holidays of the
    /// week as periods and the first requested day.
    Timegrid(Vec<FormattedLesson>, Vec<PeriodObject>, u32),
    Finished,
}

/// What fetching the Lernbüros asks to be done next.
pub enum LernbueroAction {
    /// The Lernbüros, or why there are none; fetching is done.
    Answer(Result<Vec<FormattedLesson>, Error>),
    /// Fetch the timetables of the classes EF, Q1, Q2 and LB_OS for the
    /// request. `LernbueroEvent::Classes`.
    RequestClasses,
    /// Read the hand-entered overwrites. `LernbueroEvent::Overwrites`.
    ReadOverwrites,
    /// Read the teacher of each of the Lernbüros the state holds, in order,
    /// by its short name. `LernbueroEvent::Teachers`.
    ReadTeachers,
    /// Read the hand-entered Lernbüros. `LernbueroEvent::Manual`.
    ReadManual,
    /// Ask Untis for the holidays. `LernbueroEvent::Holidays`.
    RequestHolidays,
    /// Ask Untis for the time grid. `LernbueroEvent::Timegrid`.
    RequestTimegrid,
}

/// What came of a [`LernbueroAction`].
pub enum LernbueroEvent {
    Start,
    Classes(Result<Vec<Vec<FormattedLesson>>, Error>),
    Overwrites(Vec<ManualLBOverwrite>),
    Teachers(Vec<Option<Teacher>>),
    Manual(Result<Vec<FormattedLesson>, Error>),
    Holidays(Result<Vec<Holidays>, Error>),
    Timegrid(Result<Vec<TimegridUnits>, Error>),
}

/// The event each state waits for: one teacher for each Lernbüro, and
/// holidays that fall on days of the time grid.
pub open spec fn lernbuero_awaits(s: LernbueroFetch, e: LernbueroEvent) -> bool {
    match s {
        LernbueroFetch::Start(_) => e is Start,
        LernbueroFetch::Classes(_) => e is Classes,
        LernbueroFetch::Overwrites(..) => e is Overwrites,
        LernbueroFetch::Teachers(_, lbs) => e matches LernbueroEvent::Teachers(ts) && ts@.len() == lbs@.len(),
        LernbueroFetch::Manual(..) => e is Manual,
        LernbueroFetch::Holidays(..) => e is Holidays,
        LernbueroFetch::Timegrid(_, hol, _) => match e {
            LernbueroEvent::Timegrid(Ok(tg)) => all_ok(hol@, tg@),
            LernbueroEvent::Timegrid(Err(_)) => true,
            _ => false,
        },
        LernbueroFetch::Finished => false,
    }
}

/// Fetching the Lernbüros ends with the Untis error `m`.
pub open spec fn lb_fails_with(res: (LernbueroFetch, LernbueroAction), m: Seq<char>) -> bool {
    res.0 is Finished && (res.1 matches LernbueroAction::Answer(Err(Error::UntisError(t))) && t@ == m)
}

/// One step of fetching the Lernbüros of a week: the timetables of the
/// classes are fetched (a failure passed on with step 478) and their
/// Lernbüros kept; those overwritten by hand are dropped; each is shown with
/// every subject of its teacher; the hand-entered ones are added (a failed
/// read leaves them out); the requested days are parsed (steps 529 and 530);
/// the holidays of the week are added (a failed request passed on through
/// steps 172 and 533, a failed computation with step 533); all is merged and
/// the holidays formatted with the time grid (a failed request passed on
/// through steps 258 and 631).
pub open spec fn lernbuero_next(s: LernbueroFetch, e: LernbueroEvent, res: (LernbueroFetch, LernbueroAction)) -> bool {
    match s {
        LernbueroFetch::Start(p) => res.0 == LernbueroFetch::Classes(p) && res.1 is RequestClasses,
        LernbueroFetch::Classes(p) => match e {
            LernbueroEvent::Classes(Err(err)) => lb_fails_with(res, with_code(error_message(err), "478"@)),
            LernbueroEvent::Classes(Ok(tts)) => res.1 is ReadOverwrites && (res.0 matches LernbueroFetch::Overwrites(q, lbs)
                && q == p && lessons_view(lbs@) == lb_filter(flat_lessons(tts@))),
            _ => false,
        },
        LernbueroFetch::Overwrites(p, lbs) => match e {
            LernbueroEvent::Overwrites(ows) => res.1 is ReadTeachers && (res.0 matches LernbueroFetch::Teachers(q, kept)
                && q == p && lessons_view(kept@) == without_overwritten(lessons_view(lbs@), ows@)),
            _ => false,
        },
        LernbueroFetch::Teachers(p, lbs) => match e {
            LernbueroEvent::Teachers(ts) => res.1 is ReadManual && (res.0 matches LernbueroFetch::Manual(q, all)
                && q == p && lessons_view(all@) == expand_teachers(lessons_view(lbs@), ts@)),
            _ => false,
        },
        LernbueroFetch::Manual(p, all) => match e {
            LernbueroEvent::Manual(m) => {
                let with_manual = match m {
                    Ok(v) => lessons_view(all@) + lessons_view(v@),
                    Err(_) => lessons_view(all@),
                };
                match date_result(p.options.start_date@, "529"@) {
                    Err(t) => lb_fails_with(res, t),
                    Ok(first) => match date_result(p.options.end_date@, "530"@) {
                        Err(t) => lb_fails_with(res, t),
                        Ok(last) => res.1 is RequestHolidays && (res.0 matches LernbueroFetch::Holidays(lbs, f, l)
                            && f == first && l == last && lessons_view(lbs@) == with_manual),
                    },
                }
            },
            _ => false,
        },
        LernbueroFetch::Holidays(lbs, first, last) => match e {
            LernbueroEvent::Holidays(Err(err)) => lb_fails_with(res, with_code(with_code(error_message(err), "172"@), "533"@)),
            LernbueroEvent::Holidays(Ok(h)) => match period_holiday_days(h@, first, last) {
                Err(m) => lb_fails_with(res, with_code(m, "533"@)),
                Ok(d) => res.1 is RequestTimegrid && (res.0 matches LernbueroFetch::Timegrid(kept, hol, f)
                    && kept == lbs && f == first && holiday_periods_match(hol@, d)),
            },
            _ => false,
        },
        LernbueroFetch::Timegrid(lbs, hol, first) => match e {
            LernbueroEvent::Timegrid(Err(err)) => lb_fails_with(res, with_code(with_code(error_message(err), "258"@), "631"@)),
            LernbueroEvent::Timegrid(Ok(tg)) => match formatted_lessons(hol@, first, tg@) {
                Ok(v) => res.0 is Finished && (res.1 matches LernbueroAction::Answer(Ok(r))
                    && lessons_view(r@) == merged_lernbueros(lessons_view(lbs@)) + v),
                Err(_) => lb_fails_with(res, with_code(slot_error_message(), "631"@)),
            },
            _ => false,
        },
        LernbueroFetch::Finished => false,
    }
}

fn lb_answer(r: Result<Vec<FormattedLesson>, Error>) -> (res: (LernbueroFetch, LernbueroAction))
    ensures
        res.0 is Finished,
        res.1 == LernbueroAction::Answer(r),
{
    (LernbueroFetch::Finished, LernbueroAction::Answer(r))
}

fn lb_unexpected() -> (res: (LernbueroFetch, LernbueroAction))
    ensures
        res.0 is Finished,
{
    lb_answer(Err(Error::UntisError(String::from_str("unexpected answer"))))
}

/// One step of fetching the Lernbüros of a week.
pub fn lernbuero_step(s: LernbueroFetch, e: LernbueroEvent) -> (res: (LernbueroFetch, LernbueroAction))
    requires
        lernbuero_awaits(s, e),
    ensures
        lernbuero_next(s, e, res),
{
    match s {
        LernbueroFetch::Start(p) => (LernbueroFetch::Classes(p), LernbueroAction::RequestClasses),
        LernbueroFetch::Classes(p) => match e {
            LernbueroEvent::Classes(Err(err)) => {
                proof {
                    reveal_strlit("478");
                }
                lb_answer(Err(with_error_code(err, "478")))
            },
            LernbueroEvent::Classes(Ok(tts)) => {
                let lbs = collect_lernbueros(&tts);
                (LernbueroFetch::Overwrites(p, lbs), LernbueroAction::ReadOverwrites)
            },
            _ => lb_unexpected(),
        },
        LernbueroFetch::Overwrites(p, lbs) => match e {
            LernbueroEvent::Overwrites(ows) => {
                let kept = manual_overwrite_lbs(lbs, ows);
                (LernbueroFetch::Teachers(p, kept), LernbueroAction::ReadTeachers)
            },
            _ => lb_unexpected(),
        },
        LernbueroFetch::Teachers(p, lbs) => match e {
            LernbueroEvent::Teachers(ts) => {
                let all = expand_lernbueros(&lbs, &ts);
                (LernbueroFetch::Manual(p, all), LernbueroAction::ReadManual)
            },
            _ => lb_unexpected(),
        },
        LernbueroFetch::Manual(p, all) => match e {
            LernbueroEvent::Manual(m) => {
                let mut all = all;
                let ghost before = lessons_view(all@);
                match m {
                    Ok(v) => {
                        let mut v = v;
                        let ghost vv = lessons_view(v@);
                        all.append(&mut v);
                        assert(lessons_view(all@) =~= before + vv);
                    },
                    Err(_) => {},
                }
                match lernbuero_dates(&p) {
                    Err(err) => lb_answer(Err(err)),
                    Ok((first, last)) => (LernbueroFetch::Holidays(all, first, last), LernbueroAction::RequestHolidays),
                }
            },
            _ => lb_unexpected(),
        },
        LernbueroFetch::Holidays(lbs, first, last) => match e {
            LernbueroEvent::Holidays(r) => match fetched_holidays(r, "533") {
                Err(err) => lb_answer(Err(err)),
                Ok(h) => match lernbuero_holidays(&h, first, last) {
                    Err(err) => lb_answer(Err(err)),
                    Ok(hol) => (LernbueroFetch::Timegrid(lbs, hol, first), LernbueroAction::RequestTimegrid),
                },
            },
            _ => lb_unexpected(),
        },
        LernbueroFetch::Timegrid(lbs, hol, first) => match e {
            LernbueroEvent::Timegrid(Err(err)) => {
                proof {
                    reveal_strlit("258");
                    reveal_strlit("631");
                }
                lb_answer(Err(with_error_code(with_error_code(err, "258"), "631")))
            },
            LernbueroEvent::Timegrid(Ok(tg)) => match finish_lernbueros(&lbs, hol, first, &tg) {
                Some(r) => lb_answer(r),
                None => lb_unexpected(),
            },
            _ => lb_unexpected(),
        },
        LernbueroFetch::Finished => lb_unexpected(),
    }
}

} // verus!
