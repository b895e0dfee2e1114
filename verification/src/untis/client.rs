use vstd::prelude::*;
use crate::error::{Error, error_message};
use crate::text::{parse_u32, parse_u32_spec, int_error_message, int_error_text};
use crate::untis::types::{
    Klasse, TimetableParameter, TimetableOptions, TimetableElement, PeriodObject, Holidays,
    TimegridUnits, FormattedLesson, FormattedFreeRoom, LessonView, lessons_view, clone_lesson,
};
use crate::untis::calendar::{with_code, period_holiday_days, holiday_periods_match, get_period_holidays};
use crate::untis::dates::day_of_week;
use crate::untis::format::{period_ok, all_ok, formatted_lessons, slot_error_message, format_lessons};
use crate::untis::lernbueros::{lb_filter, filter_lernbueros, merged_lernbueros, merge_lernbueros};
use crate::untis::free_rooms::{grid_ok, free_view, free_rooms_of, free_rooms};
use crate::models::lb::Room;

verus! {

/// The class ids of the school, by class name. Like a map, it holds each name
/// once; a later class of the same name replaces the id of an earlier one.
pub open spec fn names_unique(p: Seq<(String, u16)>) -> bool {
    forall|i: int, j: int| 0 <= i < p.len() && 0 <= j < p.len() && #[trigger] p[i].0@ == #[trigger] p[j].0@ ==> i == j
}

/// The id that the pairs `p` give for `name`.
pub open spec fn pairs_lookup(p: Seq<(String, u16)>, name: Seq<char>) -> Option<u16> {
    if exists|i: int| 0 <= i < p.len() && #[trigger] p[i].0@ == name {
        Some(p[choose|i: int| 0 <= i < p.len() && #[trigger] p[i].0@ == name].1)
    } else {
        None
    }
}

/// The id of the last class named `name`, as a map filled class by class keeps it.
pub open spec fn class_lookup(k: Seq<Klasse>, name: Seq<char>) -> Option<u16>
    decreases k.len(),
{
    if k.len() == 0 {
        None
    } else if k.last().name@ == name {
        Some(k.last().id)
    } else {
        class_lookup(k.drop_last(), name)
    }
}

proof fn lemma_lookup_at(p: Seq<(String, u16)>, j: int)
    requires
        names_unique(p),
        0 <= j < p.len(),
    ensures
        pairs_lookup(p, p[j].0@) == Some(p[j].1),
{
    let name = p[j].0@;
    assert(p[j].0@ == name);
    let i = choose|i: int| 0 <= i < p.len() && #[trigger] p[i].0@ == name;
    assert(p[i].0@ == p[j].0@);
}

fn find_name(p: &Vec<(String, u16)>, name: &str) -> (res: Option<usize>)
    ensures
        match res {
            Some(j) => j < p@.len() && p@[j as int].0@ == name@,
            None => forall|i: int| 0 <= i < p@.len() ==> p@[i].0@ != name@,
        },
{
    let n = p.len();
    let mut i: usize = 0;
    while i < n
        invariant
            n == p@.len(),
            i <= n,
            forall|k: int| 0 <= k < i ==> p@[k].0@ != name@,
        decreases n - i,
    {
        if crate::text::str_eq(p[i].0.as_str(), name) {
            return Some(i);
        }
        i = i + 1;
    }
    None
}

/// The class ids by name, as `get_ids` collects them from the class list.
pub fn get_ids(klassen: &Vec<Klasse>) -> (res: Vec<(String, u16)>)
    ensures
        names_unique(res@),
        forall|name: Seq<char>| pairs_lookup(res@, name) == class_lookup(klassen@, name),
{
    let mut ids: Vec<(String, u16)> = Vec::new();
    let n = klassen.len();
    let mut i: usize = 0;
    while i < n
        invariant
            n == klassen@.len(),
            i <= n,
            names_unique(ids@),
            forall|name: Seq<char>| pairs_lookup(ids@, name) == class_lookup(klassen@.take(i as int), name),
        decreases n - i,
    {
        let k = &klassen[i];
        let ghost old_ids = ids@;
        let ghost kn = k.name@;
        proof {
            assert(klassen@.take(i + 1).drop_last() =~= klassen@.take(i as int));
            assert(klassen@.take(i + 1).last() == *k);
        }
        match find_name(&ids, k.name.as_str()) {
            Some(j) => {
                let entry = (k.name.clone(), k.id);
                ids.set(j, entry);
                proof {
                    assert forall|a: int, b: int|
                        0 <= a < ids@.len() && 0 <= b < ids@.len() && #[trigger] ids@[a].0@
                            == #[trigger] ids@[b].0@ implies a == b by {
                        assert(old_ids[a].0@ == ids@[a].0@);
                        assert(old_ids[b].0@ == ids@[b].0@);
                    }
                    assert forall|name: Seq<char>|
                        pairs_lookup(ids@, name) == class_lookup(klassen@.take(i + 1), name) by {
                        if name == kn {
                            assert(ids@[j as int].0@ == kn);
                            lemma_lookup_at(ids@, j as int);
                            assert(pairs_lookup(ids@, name) == Some(k.id));
                            assert(class_lookup(klassen@.take(i + 1), name) == Some(k.id));
                        } else {
                            assert(class_lookup(klassen@.take(i + 1), name) == class_lookup(klassen@.take(i as int), name));
                            assert(pairs_lookup(old_ids, name) == class_lookup(klassen@.take(i as int), name));
                            if exists|x: int| 0 <= x < old_ids.len() && #[trigger] old_ids[x].0@ == name {
                                let x = choose|x: int| 0 <= x < old_ids.len() && #[trigger] old_ids[x].0@ == name;
                                lemma_lookup_at(old_ids, x);
                                assert(old_ids[j as int].0@ == kn);
                                assert(x != j);
                                assert(ids@[x] == old_ids[x]);
                                lemma_lookup_at(ids@, x);
                            } else {
                                assert forall|x: int| 0 <= x < ids@.len() implies #[trigger] ids@[x].0@ != name by {
                                    if x != j {
                                        assert(ids@[x] == old_ids[x]);
                                    }
                                }
                            }
                        }
                    }
                }
            },
            None => {
                let entry = (k.name.clone(), k.id);
                ids.push(entry);
                proof {
                    assert forall|a: int, b: int|
                        0 <= a < ids@.len() && 0 <= b < ids@.len() && #[trigger] ids@[a].0@
                            == #[trigger] ids@[b].0@ implies a == b by {
                        if a < old_ids.len() {
                            assert(ids@[a] == old_ids[a]);
                        }
                        if b < old_ids.len() {
                            assert(ids@[b] == old_ids[b]);
                        }
                    }
                    assert forall|name: Seq<char>|
                        pairs_lookup(ids@, name) == class_lookup(klassen@.take(i + 1), name) by {
                        if name == kn {
                            assert(ids@[old_ids.len() as int].0@ == kn);
                            lemma_lookup_at(ids@, old_ids.len() as int);
                            assert(pairs_lookup(ids@, name) == Some(k.id));
                            assert(class_lookup(klassen@.take(i + 1), name) == Some(k.id));
                        } else {
                            assert(class_lookup(klassen@.take(i + 1), name) == class_lookup(klassen@.take(i as int), name));
                            assert(pairs_lookup(old_ids, name) == class_lookup(klassen@.take(i as int), name));
                            if exists|x: int| 0 <= x < old_ids.len() && #[trigger] old_ids[x].0@ == name {
                                let x = choose|x: int| 0 <= x < old_ids.len() && #[trigger] old_ids[x].0@ == name;
                                lemma_lookup_at(old_ids, x);
                                assert(ids@[x] == old_ids[x]);
                                lemma_lookup_at(ids@, x);
                            } else {
                                assert forall|x: int| 0 <= x < ids@.len() implies #[trigger] ids@[x].0@ != name by {
                                    if x < old_ids.len() {
                                        assert(ids@[x] == old_ids[x]);
                                    }
                                }
                            }
                        }
                    }
                }
            },
        }
        i = i + 1;
    }
    assert(klassen@.take(n as int) =~= klassen@);
    ids
}

/// The id of the class `name`, if the school has one.
pub fn class_id(ids: &Vec<(String, u16)>, name: &str) -> (res: Option<u16>)
    requires
        names_unique(ids@),
    ensures
        res == pairs_lookup(ids@, name@),
{
    match find_name(ids, name) {
        Some(j) => {
            proof {
                lemma_lookup_at(ids@, j as int);
            }
            Some(ids[j].1)
        },
        None => None,
    }
}

/// The three fields asked for of classes, rooms, subjects and teachers.
pub open spec fn default_fields(v: Seq<String>) -> bool {
    &&& v.len() == 3
    &&& v[0]@ == "id"@
    &&& v[1]@ == "name"@
    &&& v[2]@ == "longname"@
}

fn field_list() -> (res: Vec<String>)
    ensures
        default_fields(res@),
{
    vec![String::from_str("id"), String::from_str("name"), String::from_str("longname")]
}

impl TimetableParameter {
    /// The timetable request for the element `person_id` of type `person_type`
    /// from `start_date` to `end_date`: with lesson texts, substitution texts,
    /// lesson numbers and info, without bookings and student groups, not only
    /// the base timetable; ids, names and long names of all related elements.
    pub fn default(person_id: u16, person_type: u16, start_date: String, end_date: String) -> (res: Self)
        ensures
            res.options.element.id == person_id,
            res.options.element.element_type == person_type,
            res.options.element.key_type@ == "id"@,
            res.options.start_date == start_date,
            res.options.end_date == end_date,
            !res.options.only_base_timetable,
            !res.options.show_booking,
            res.options.show_info,
            res.options.show_subst_text,
            res.options.show_ls_text,
            res.options.show_ls_number,
            !res.options.show_studentgroup,
            default_fields(res.options.klasse_fields@),
            default_fields(res.options.room_fields@),
            default_fields(res.options.subject_fields@),
            default_fields(res.options.teacher_fields@),
    {
        TimetableParameter {
            options: TimetableOptions {
                element: TimetableElement {
                    id: person_id,
                    element_type: person_type,
                    key_type: String::from_str("id"),
                },
                start_date,
                end_date,
                only_base_timetable: false,
                show_booking: false,
                show_info: true,
                show_subst_text: true,
                show_ls_text: true,
                show_ls_number: true,
                show_studentgroup: false,
                klasse_fields: field_list(),
                room_fields: field_list(),
                subject_fields: field_list(),
                teacher_fields: field_list(),
            },
        }
    }
}

/// The request unchanged but for the element it asks for.
pub open spec fn same_but_element(a: TimetableParameter, b: TimetableParameter) -> bool {
    &&& a.options.start_date == b.options.start_date
    &&& a.options.end_date == b.options.end_date
    &&& a.options.only_base_timetable == b.options.only_base_timetable
    &&& a.options.show_booking == b.options.show_booking
    &&& a.options.show_info == b.options.show_info
    &&& a.options.show_subst_text == b.options.show_subst_text
    &&& a.options.show_ls_text == b.options.show_ls_text
    &&& a.options.show_ls_number == b.options.show_ls_number
    &&& a.options.show_studentgroup == b.options.show_studentgroup
    &&& a.options.klasse_fields == b.options.klasse_fields
    &&& a.options.room_fields == b.options.room_fields
    &&& a.options.subject_fields == b.options.subject_fields
    &&& a.options.teacher_fields == b.options.teacher_fields
    &&& a.options.element.key_type == b.options.element.key_type
}

/// The request `res` is `parameter` pointed at the class `class_name` of
/// `ids` (element type 1), when one is given; a class the school does not
/// have is an error.
pub open spec fn class_selected(
    parameter: TimetableParameter,
    ids: Seq<(String, u16)>,
    class_name: Option<String>,
    res: Result<TimetableParameter, Error>,
) -> bool {
    match class_name {
        None => res == Ok::<TimetableParameter, Error>(parameter),
        Some(name) => match pairs_lookup(ids, name@) {
            None => res matches Err(Error::UntisError(m)) && m@ == "Could not find field "@ + name@,
            Some(id) => res matches Ok(p) && p.options.element.id == id && p.options.element.element_type
                == 1 && same_but_element(p, parameter),
        },
    }
}

/// Points a timetable request at the class `class_name` (element type 1),
/// when one is given; a class the school does not have is an error.
pub fn select_class(parameter: TimetableParameter, ids: &Vec<(String, u16)>, class_name: Option<String>) -> (res:
    Result<TimetableParameter, Error>)
    requires
        names_unique(ids@),
    ensures
        class_selected(parameter, ids@, class_name, res),
{
    match class_name {
        None => Ok(parameter),
        Some(name) => match class_id(ids, name.as_str()) {
            None => {
                let mut m = String::from_str("Could not find field ");
                m.append(name.as_str());
                Err(Error::UntisError(m))
            },
            Some(id) => {
                let mut p = parameter;
                p.options.element.id = id;
                p.options.element.element_type = 1;
                Ok(p)
            },
        },
    }
}

/// An error of the Untis client that passed through the step `code`: its text
/// followed by a space and the code, as an Untis error.
pub fn with_error_code(e: Error, code: &str) -> (res: Error)
    ensures
        res matches Error::UntisError(m) && m@ == with_code(error_message(e), code@),
{
    let mut m = e.message();
    m.append(" ");
    m.append(code);
    Error::UntisError(m)
}

/// The holidays as the holiday request gave them. A failed request is passed
/// on through the step 172 and then through the step `outer` of the caller.
pub fn fetched_holidays(fetched: Result<Vec<Holidays>, Error>, outer: &str) -> (res: Result<Vec<Holidays>, Error>)
    ensures
        match fetched {
            Ok(h) => res == Ok::<Vec<Holidays>, Error>(h),
            Err(e) => res matches Err(Error::UntisError(m)) && m@ == with_code(with_code(error_message(e), "172"@), outer@),
        },
{
    match fetched {
        Ok(h) => Ok(h),
        Err(e) => {
            proof {
                reveal_strlit("172");
            }
            let inner = with_error_code(e, "172");
            Err(with_error_code(inner, outer))
        },
    }
}

/// The result of parsing a request date, `yyyymmdd`, in the step `code`.
pub open spec fn date_result(s: Seq<char>, code: Seq<char>) -> Result<u32, Seq<char>> {
    match parse_u32_spec(s) {
        Ok(v) => Ok(v),
        Err(k) => Err(with_code(int_error_text(k), code)),
    }
}

/// Whether `r` is the outcome `expected` (a date or the text of an Untis error).
pub open spec fn matches_date(r: Result<u32, Error>, expected: Result<u32, Seq<char>>) -> bool {
    match expected {
        Ok(v) => r == Ok::<u32, Error>(v),
        Err(m) => r matches Err(Error::UntisError(t)) && t@ == m,
    }
}

/// Parses a request date, `yyyymmdd`; an error names the step `code`.
pub fn parse_date(s: &str, code: &str) -> (res: Result<u32, Error>)
    ensures
        matches_date(res, date_result(s@, code@)),
{
    match parse_u32(s) {
        Ok(v) => Ok(v),
        Err(k) => {
            let mut m = int_error_message(k);
            m.append(" ");
            m.append(code);
            Err(Error::UntisError(m))
        },
    }
}

/// Whether a period can be formatted with the time grid `tg`.
pub fn period_fits(l: &PeriodObject, tg: &Vec<TimegridUnits>) -> (res: bool)
    ensures
        res == period_ok(*l, tg@),
{
    let y = l.date / 10000;
    let m = (l.date / 100) % 100;
    if m < 3 && y < 1 {
        return false;
    }
    let wd = day_of_week(l.date);
    if wd as usize >= tg.len() {
        return false;
    }
    true
}

/// Whether every period can be formatted with the time grid `tg`.
pub fn periods_fit(v: &Vec<PeriodObject>, tg: &Vec<TimegridUnits>) -> (res: bool)
    ensures
        res == all_ok(v@, tg@),
{
    let n = v.len();
    let mut i: usize = 0;
    while i < n
        invariant
            n == v@.len(),
            i <= n,
            forall|j: int| 0 <= j < i ==> period_ok(#[trigger] v@[j], tg@),
        decreases n - i,
    {
        if !period_fits(&v[i], tg) {
            return false;
        }
        i = i + 1;
    }
    true
}

/// The outcome of the first part of a timetable request: `all` holds the
/// periods Untis sent, then the holidays of the requested days; `first` is
/// the requested first day.
pub open spec fn timetable_periods_result(
    periods: Seq<PeriodObject>,
    start: Seq<char>,
    end: Seq<char>,
    holidays: Seq<Holidays>,
    res: Result<(Vec<PeriodObject>, u32), Error>,
) -> bool {
    match date_result(start, "164"@) {
        Err(m) => res matches Err(Error::UntisError(t)) && t@ == m,
        Ok(s) => match date_result(end, "165"@) {
            Err(m) => res matches Err(Error::UntisError(t)) && t@ == m,
            Ok(e) => match period_holiday_days(holidays, s, e) {
                Err(m) => res matches Err(Error::UntisError(t)) && t@ == with_code(m, "168"@),
                Ok(d) => res matches Ok((all, first)) && first == s && all@.len() == periods.len() + d.len()
                    && all@.take(periods.len() as int) == periods && holiday_periods_match(
                    all@.skip(periods.len() as int),
                    d,
                ),
            },
        },
    }
}

/// The periods of a timetable request with the holidays of the requested days
/// added, and the first requested day. The dates of the request are parsed
/// first (steps 164 and 165); an error of the holiday computation is passed on
/// with step 168.
pub fn timetable_periods(
    periods: Vec<PeriodObject>,
    parameter: &TimetableParameter,
    holidays: &Vec<Holidays>,
) -> (res: Result<(Vec<PeriodObject>, u32), Error>)
    ensures
        timetable_periods_result(
            periods@,
            parameter.options.start_date@,
            parameter.options.end_date@,
            holidays@,
            res,
        ),
{
    proof {
        reveal_strlit("164");
        reveal_strlit("165");
        reveal_strlit("168");
    }
    let start = parse_date(parameter.options.start_date.as_str(), "164")?;
    let end = parse_date(parameter.options.end_date.as_str(), "165")?;
    let hol = match get_period_holidays(holidays, start, end) {
        Ok(h) => h,
        Err(e) => return Err(with_error_code(e, "168")),
    };
    let ghost p0 = periods@;
    let mut all = periods;
    let mut h = hol;
    all.append(&mut h);
    proof {
        assert(all@.take(p0.len() as int) =~= p0);
        assert(all@.skip(p0.len() as int) =~= hol@);
    }
    Ok((all, start))
}

/// The outcome of formatting `all` from the day `start`.
pub open spec fn format_result(
    all: Seq<PeriodObject>,
    start: u32,
    tg: Seq<TimegridUnits>,
    r: Result<Vec<FormattedLesson>, Error>,
) -> bool {
    match formatted_lessons(all, start, tg) {
        Ok(v) => r is Ok && lessons_view(r->Ok_0@) == v,
        Err(_) => r matches Err(Error::UntisError(m)) && m@ == slot_error_message(),
    }
}

/// Formats the periods of a timetable from its first day `start`, when every
/// period fits the time grid; `None` when one does not, where formatting
/// cannot go on.
pub fn format_timetable(all: Vec<PeriodObject>, start: u32, tg: &Vec<TimegridUnits>) -> (res: Option<
    Result<Vec<FormattedLesson>, Error>,
>)
    ensures
        res is None <==> !all_ok(all@, tg@),
        res matches Some(r) ==> format_result(all@, start, tg@, r),
{
    if !periods_fit(&all, tg) {
        return None;
    }
    Some(format_lessons(all, start, tg))
}

/// A timetable as the frontend shows it: the periods Untis sent for the
/// request and the holidays of the requested days, formatted with the time
/// grid `tg`. `None` where a period does not fit the time grid.
pub fn get_timetable(
    periods: Vec<PeriodObject>,
    parameter: &TimetableParameter,
    holidays: &Vec<Holidays>,
    tg: &Vec<TimegridUnits>,
) -> (res: Option<Result<Vec<FormattedLesson>, Error>>)
    ensures
        ({
            let start = parameter.options.start_date@;
            let end = parameter.options.end_date@;
            match date_result(start, "164"@) {
                Err(m) => res matches Some(Err(Error::UntisError(t))) && t@ == m,
                Ok(s) => match date_result(end, "165"@) {
                    Err(m) => res matches Some(Err(Error::UntisError(t))) && t@ == m,
                    Ok(e) => match period_holiday_days(holidays@, s, e) {
                        Err(m) => res matches Some(Err(Error::UntisError(t))) && t@ == with_code(m, "168"@),
                        Ok(d) => exists|all: Seq<PeriodObject>|
                            #[trigger] holiday_periods_match(all.skip(periods@.len() as int), d)
                                && all.len() == periods@.len() + d.len() && all.take(periods@.len() as int)
                                == periods@ && (match res {
                                None => !all_ok(all, tg@),
                                Some(r) => all_ok(all, tg@) && format_result(all, s, tg@, r),
                            }),
                    },
                },
            }
        }),
{
    let ghost p0 = periods@;
    let (all, start) = match timetable_periods(periods, parameter, holidays) {
        Ok(x) => x,
        Err(e) => return Some(Err(e)),
    };
    let ghost a = all@;
    let res = format_timetable(all, start, tg);
    proof {
        let s = parameter.options.start_date@;
        let e = parameter.options.end_date@;
        let d = period_holiday_days(holidays@, date_result(s, "164"@)->Ok_0, date_result(e, "165"@)->Ok_0)->Ok_0;
        assert(holiday_periods_match(a.skip(p0.len() as int), d));
    }
    res
}

/// The lessons of several timetables, one after the other.
pub open spec fn flat_lessons(tts: Seq<Vec<FormattedLesson>>) -> Seq<LessonView>
    decreases tts.len(),
{
    if tts.len() == 0 {
        Seq::empty()
    } else {
        flat_lessons(tts.drop_last()) + lessons_view(tts.last()@)
    }
}

/// The lessons of several timetables in one list, timetable by timetable.
pub fn flatten_lessons(tts: &Vec<Vec<FormattedLesson>>) -> (res: Vec<FormattedLesson>)
    ensures
        lessons_view(res@) == flat_lessons(tts@),
{
    let mut out: Vec<FormattedLesson> = Vec::new();
    let n = tts.len();
    let mut i: usize = 0;
    assert(tts@.take(0) =~= Seq::<Vec<FormattedLesson>>::empty());
    assert(lessons_view(out@) =~= Seq::<LessonView>::empty());
    while i < n
        invariant
            n == tts@.len(),
            i <= n,
            lessons_view(out@) == flat_lessons(tts@.take(i as int)),
        decreases n - i,
    {
        let tt = &tts[i];
        let ghost before = lessons_view(out@);
        let m = tt.len();
        let mut j: usize = 0;
        assert(lessons_view(tt@).take(0) =~= Seq::<LessonView>::empty());
        assert(before + lessons_view(tt@).take(0) =~= before);
        while j < m
            invariant
                m == tt@.len(),
                j <= m,
                lessons_view(out@) == before + lessons_view(tt@).take(j as int),
            decreases m - j,
        {
            let l = clone_lesson(&tt[j]);
            let ghost o0 = out@;
            out.push(l);
            proof {
                assert(lessons_view(out@) =~= lessons_view(o0).push(tt@[j as int]@));
                assert(lessons_view(tt@).take(j + 1) =~= lessons_view(tt@).take(j as int).push(tt@[j as int]@));
            }
            j = j + 1;
        }
        proof {
            assert(lessons_view(tt@).take(m as int) =~= lessons_view(tt@));
            assert(tts@.take(i + 1).drop_last() =~= tts@.take(i as int));
            assert(tts@.take(i + 1).last() == *tt);
        }
        i = i + 1;
    }
    assert(tts@.take(n as int) =~= tts@);
    out
}

/// The lernbueros of the timetables of the year groups: their lessons that
/// are lernbueros and not of the excluded subjects, timetable by timetable.
pub fn collect_lernbueros(tts: &Vec<Vec<FormattedLesson>>) -> (res: Vec<FormattedLesson>)
    ensures
        lessons_view(res@) == lb_filter(flat_lessons(tts@)),
{
    let all = flatten_lessons(tts);
    filter_lernbueros(&all)
}

/// The first and last requested day of a lernbuero request (steps 529 and 530).
pub fn lernbuero_dates(parameter: &TimetableParameter) -> (res: Result<(u32, u32), Error>)
    ensures
        match date_result(parameter.options.start_date@, "529"@) {
            Err(m) => res matches Err(Error::UntisError(t)) && t@ == m,
            Ok(s) => match date_result(parameter.options.end_date@, "530"@) {
                Err(m) => res matches Err(Error::UntisError(t)) && t@ == m,
                Ok(e) => res == Ok::<(u32, u32), Error>((s, e)),
            },
        },
{
    proof {
        reveal_strlit("529");
        reveal_strlit("530");
    }
    let start = parse_date(parameter.options.start_date.as_str(), "529")?;
    let end = parse_date(parameter.options.end_date.as_str(), "530")?;
    Ok((start, end))
}

/// The holidays of the requested days of a lernbuero request, as periods; an
/// error is passed on with step 533.
pub fn lernbuero_holidays(holidays: &Vec<Holidays>, start: u32, end: u32) -> (res: Result<
    Vec<PeriodObject>,
    Error,
>)
    ensures
        match period_holiday_days(holidays@, start, end) {
            Ok(d) => res is Ok && holiday_periods_match(res->Ok_0@, d),
            Err(m) => res matches Err(Error::UntisError(t)) && t@ == with_code(m, "533"@),
        },
{
    proof {
        reveal_strlit("533");
    }
    match get_period_holidays(holidays, start, end) {
        Ok(h) => Ok(h),
        Err(e) => Err(with_error_code(e, "533")),
    }
}

/// The lernbueros of a week: `lbs` merged slot by slot and subject by subject,
/// followed by the holidays of the week formatted from its first day `start`.
/// An error of the formatting is passed on with step 631; `None` where a
/// holiday does not fit the time grid.
pub fn finish_lernbueros(
    lbs: &Vec<FormattedLesson>,
    holidays: Vec<PeriodObject>,
    start: u32,
    tg: &Vec<TimegridUnits>,
) -> (res: Option<Result<Vec<FormattedLesson>, Error>>)
    ensures
        res is None <==> !all_ok(holidays@, tg@),
        res matches Some(r) ==> match formatted_lessons(holidays@, start, tg@) {
            Ok(v) => r is Ok && lessons_view(r->Ok_0@) == merged_lernbueros(lessons_view(lbs@)) + v,
            Err(_) => r matches Err(Error::UntisError(m)) && m@ == with_code(slot_error_message(), "631"@),
        },
{
    proof {
        reveal_strlit("631");
    }
    let mut merged = merge_lernbueros(lbs);
    let ghost m0 = merged@;
    match format_timetable(holidays, start, tg) {
        None => None,
        Some(Err(e)) => Some(Err(with_error_code(e, "631"))),
        Some(Ok(f)) => {
            let mut f = f;
            let ghost f0 = f@;
            merged.append(&mut f);
            proof {
                assert(merged@ =~= m0 + f0);
                assert(lessons_view(merged@) =~= lessons_view(m0) + lessons_view(f0));
            }
            Some(Ok(merged))
        },
    }
}

/// Whether every lesson fits the room grid of the week.
pub fn lessons_fit_grid(v: &Vec<FormattedLesson>) -> (res: bool)
    ensures
        res == forall|i: int| 0 <= i < v@.len() ==> grid_ok(#[trigger] v@[i]@),
{
    let n = v.len();
    let mut i: usize = 0;
    while i < n
        invariant
            n == v@.len(),
            i <= n,
            forall|j: int| 0 <= j < i ==> grid_ok(#[trigger] v@[j]@),
        decreases n - i,
    {
        let l = &v[i];
        let st = l.start as u16;
        let ln = l.length as u16;
        let ok = l.day < 5 && 1 <= st && st - 1 + ln >= 1 && st - 1 + ln <= 255 && (ln < 1 || st + ln
            <= 11);
        if !ok {
            assert(!grid_ok(v@[i as int]@));
            return false;
        }
        i = i + 1;
    }
    true
}

/// The free rooms of a week, given the timetables of the year groups and the
/// lernbueros entered by hand (`tts`) and all rooms of the school; `None`
/// where a lesson does not fit the room grid of the week.
pub fn room_plan(tts: &Vec<Vec<FormattedLesson>>, rooms: &Vec<Room>) -> (res: Option<Vec<FormattedFreeRoom>>)
    ensures
        res is None <==> !(forall|i: int| 0 <= i < flat_lessons(tts@).len() ==> grid_ok(#[trigger] flat_lessons(tts@)[i])),
        res matches Some(v) ==> free_view(v@) == free_rooms_of(flat_lessons(tts@), rooms@),
{
    let all = flatten_lessons(tts);
    if !lessons_fit_grid(&all) {
        proof {
            let i = choose|i: int| 0 <= i < all@.len() && !grid_ok(#[trigger] all@[i]@);
            assert(flat_lessons(tts@)[i] == all@[i]@);
        }
        return None;
    }
    proof {
        assert forall|i: int| 0 <= i < flat_lessons(tts@).len() implies grid_ok(#[trigger] flat_lessons(tts@)[i]) by {
            assert(flat_lessons(tts@)[i] == lessons_view(all@)[i]);
            assert(grid_ok(all@[i]@));
        }
    }
    Some(free_rooms(&all, rooms))
}

/// The JSON-RPC address of the Untis server of a school.
pub open spec fn rpc_url(subdomain: Seq<char>, school: Seq<char>) -> Seq<char> {
    "https://"@ + subdomain + ".webuntis.com/WebUntis/jsonrpc.do?school="@ + school
}

/// The address the requests of the client go to.
pub fn request_url(subdomain: &str, school: &str) -> (res: String)
    ensures
        res@ == rpc_url(subdomain@, school@),
{
    let mut u = String::from_str("https://");
    u.append(subdomain);
    u.append(".webuntis.com/WebUntis/jsonrpc.do?school=");
    u.append(school);
    u
}

/// The cookie that carries the Untis session of a request.
pub fn session_cookie(jsessionid: &str) -> (res: String)
    ensures
        res@ == "JSESSIONID="@ + jsessionid@,
{
    let mut c = String::from_str("JSESSIONID=");
    c.append(jsessionid);
    c
}

/// A request of the client: the JSON-RPC version is 2.0.
pub fn untis_body(school: String, id: String, method: String, params: crate::untis::types::Parameter) -> (res:
    crate::untis::types::UntisBody)
    ensures
        res.school == school,
        res.id == id,
        res.method == method,
        res.params == params,
        res.jsonrpc@ == "2.0"@,
{
    crate::untis::types::UntisBody { school, id, method, params, jsonrpc: String::from_str("2.0") }
}

} // verus!
