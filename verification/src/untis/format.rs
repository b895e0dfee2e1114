use vstd::prelude::*;
use std::collections::HashMap;
use crate::text::{has_substr, has_prefix, before_char, words, join, drop_two, str_eq, starts_with,
    contains_str, contains_char, first_piece, drop_two_words};
use crate::untis::types::{PeriodObject, TimeUnit, TimegridUnits, FormattedLesson, Substitution,
    SubstitutionView, LessonView, opt_view, clone_opt, lessons_view};
use crate::untis::dates::{weekday_of, has_weekday, day_of_week};
use crate::untis::sorting::{sorted_by, day_groups, groups_view, sort_periods, group_by_day};

verus! {

broadcast use vstd::std_specs::hash::group_hash_axioms;

pub open spec fn has_subject(l: PeriodObject) -> bool {
    l.su@.len() > 0
}

pub open spec fn subject_id(l: PeriodObject) -> u16 {
    l.su@[0].id
}

/// An exam: its student group starts with `EXAM`.
pub open spec fn is_exam(l: PeriodObject) -> bool {
    match l.sg {
        Some(sg) => has_prefix(sg@, "EXAM"@),
        None => false,
    }
}

/// The inputs on which formatting a period does not panic: a date with a week
/// day that the time grid covers.
pub open spec fn period_ok(l: PeriodObject, tg: Seq<TimegridUnits>) -> bool {
    &&& has_weekday(l.date)
    &&& weekday_of(l.date) < tg.len()
}

/// `t + k` in the arithmetic of `u16`, which wraps around past 65535.
pub open spec fn plus16(t: u16, k: u16) -> u16 {
    if t + k > u16::MAX {
        (t + k - 65536) as u16
    } else {
        (t + k) as u16
    }
}

/// `t - k` in the arithmetic of `u16`, which wraps around below 0.
pub open spec fn minus16(t: u16, k: u16) -> u16 {
    if t - k < 0 {
        (t - k + 65536) as u16
    } else {
        (t - k) as u16
    }
}

pub open spec fn all_ok(s: Seq<PeriodObject>, tg: Seq<TimegridUnits>) -> bool {
    forall|i: int| 0 <= i < s.len() ==> period_ok(#[trigger] s[i], tg)
}

/// `i` is the first index of a time unit starting at `t`.
pub open spec fn first_unit_at(units: Seq<TimeUnit>, t: u16, i: int) -> bool {
    &&& 0 <= i < units.len()
    &&& units[i].start_time == t
    &&& forall|j: int| 0 <= j < i ==> units[j].start_time != t
}

/// The lesson slot of a period, counted from 1: the position of the first time
/// unit of its week day that starts when the period starts, or slot 1 when there
/// is none.
pub open spec fn lesson_slot(l: PeriodObject, tg: Seq<TimegridUnits>) -> int {
    let units = tg[weekday_of(l.date)].time_units@;
    if exists|i: int| first_unit_at(units, l.start_time, i) {
        (choose|i: int| first_unit_at(units, l.start_time, i)) + 1
    } else {
        1
    }
}

/// Subject and short subject before the exam prefix.
pub open spec fn raw_subject(l: PeriodObject) -> (Seq<char>, Seq<char>) {
    let s0 = if has_subject(l) {
        l.su@[0].name@
    } else {
        Seq::empty()
    };
    let sh0 = if has_subject(l) {
        before_char(l.su@[0].name@, ' ')
    } else {
        Seq::empty()
    };
    match l.code {
        Some(code) => if code@ == "irregular"@ {
            (
                match l.subst_text {
                    Some(t) => t@,
                    None => "Entfällt"@,
                },
                sh0,
            )
        } else {
            (s0, sh0)
        },
        None => if !has_subject(l) {
            match l.lstext {
                Some(t) => if l.activity_type is None {
                    (t@, join(drop_two(words(t@)), " "@))
                } else {
                    (t@, t@)
                },
                None => ("N/A"@, "N/A"@),
            }
        } else {
            (s0, sh0)
        },
    }
}

/// The subject shown for a period; exams get the prefix `Prüfung`.
pub open spec fn lesson_subject(l: PeriodObject) -> Seq<char> {
    if is_exam(l) {
        "Prüfung"@ + raw_subject(l).0
    } else {
        raw_subject(l).0
    }
}

pub open spec fn lesson_teacher(l: PeriodObject) -> Seq<char> {
    if l.te@.len() > 0 {
        match l.te@[0].orgname {
            Some(o) => o@,
            None => l.te@[0].name@,
        }
    } else {
        Seq::empty()
    }
}

pub open spec fn lesson_room(l: PeriodObject) -> Seq<char> {
    if l.ro@.len() > 0 {
        match l.ro@[0].orgname {
            Some(o) => o@,
            None => l.ro@[0].name@,
        }
    } else {
        Seq::empty()
    }
}

pub open spec fn teacher_replaced(l: PeriodObject) -> bool {
    l.te@.len() > 0 && l.te@[0].orgname is Some
}

pub open spec fn room_replaced(l: PeriodObject) -> bool {
    l.ro@.len() > 0 && l.ro@[0].orgname is Some
}

pub open spec fn is_cancelled_code(l: PeriodObject) -> bool {
    match l.code {
        Some(c) => c@ == "cancelled"@,
        None => false,
    }
}

/// Whether the frontend is told about a change of the period.
pub open spec fn substituted(l: PeriodObject) -> bool {
    teacher_replaced(l) || room_replaced(l) || is_cancelled_code(l) || l.subst_text is Some
}

pub open spec fn lesson_substitution(l: PeriodObject) -> Option<SubstitutionView> {
    if substituted(l) {
        Some(
            SubstitutionView {
                teacher: if teacher_replaced(l) {
                    Some(l.te@[0].name@)
                } else {
                    None
                },
                room: if room_replaced(l) {
                    Some(l.ro@[0].name@)
                } else {
                    None
                },
                substitution_text: opt_view(l.subst_text),
                cancelled: match l.code {
                    Some(c) => c@ == "cancelled"@ || match l.subst_text {
                        Some(t) => t@ == "Vtr. ohne Lehrer"@,
                        None => false,
                    },
                    None => false,
                },
            },
        )
    } else {
        None
    }
}

/// `les` is a period of the same subject as `l`.
pub open spec fn same_subject(les: PeriodObject, l: PeriodObject) -> bool {
    has_subject(les) && subject_id(les) == subject_id(l)
}

/// A period of the same subject follows `l` directly (or after the five-minute
/// break between the ninth and tenth lesson).
pub open spec fn double_lesson(l: PeriodObject, day: Seq<PeriodObject>) -> bool {
    has_subject(l) && exists|k: int|
        0 <= k < day.len() && #[trigger] same_subject(day[k], l) && (day[k].start_time == l.end_time
            || day[k].start_time == plus16(l.end_time, 5))
}

pub open spec fn triple_lesson(l: PeriodObject, day: Seq<PeriodObject>) -> bool {
    exists|k: int|
        0 <= k < day.len() && #[trigger] same_subject(day[k], l) && (day[k].end_time
            == l.start_time || day[k].end_time == minus16(l.start_time, 5) || day[k].start_time
            == plus16(l.end_time, 20) || day[k].start_time == plus16(l.end_time, 90))
}

/// How many lesson slots a period spans.
pub open spec fn lesson_length(l: PeriodObject, day: Seq<PeriodObject>) -> u8 {
    if double_lesson(l, day) {
        if triple_lesson(l, day) {
            3
        } else {
            2
        }
    } else if minus16(l.end_time, l.start_time) > 85 {
        let q = minus16(l.end_time, l.start_time) / 85;
        if q > 10 {
            10
        } else {
            q as u8
        }
    } else {
        1
    }
}

/// A single-slot lesson that is no exam, no sports, art or swimming lesson, no
/// placeholder (`N/A`), no deepening course (`VX`) and no additional course (`Z`).
pub open spec fn lernbuero_candidate(
    length: u8,
    exam: bool,
    subject: Seq<char>,
    room: Seq<char>,
) -> bool {
    &&& length == 1
    &&& !exam
    &&& !has_substr(room, "TH"@)
    &&& !has_substr(room, "KU"@)
    &&& !has_substr(subject, "N/A"@)
    &&& !has_substr(subject, "VX"@)
    &&& !subject.contains('Z')
    &&& !has_substr(room, "Bad"@)
}

/// The formatted form of a period `l` of the day `day`.
pub open spec fn lesson_view(
    l: PeriodObject,
    day: Seq<PeriodObject>,
    tg: Seq<TimegridUnits>,
) -> LessonView {
    let length = lesson_length(l, day);
    LessonView {
        teacher: lesson_teacher(l),
        is_lb: lernbuero_candidate(length, is_exam(l), lesson_subject(l), lesson_room(l)),
        start: lesson_slot(l, tg) as u8,
        length,
        day: weekday_of(l.date) as u8,
        subject: lesson_subject(l),
        subject_short: raw_subject(l).1,
        room: lesson_room(l),
        substitution: lesson_substitution(l),
    }
}

/// A period is skipped while it continues a multi-slot lesson already shown.
pub open spec fn skipped(skip: Map<u16, u8>, l: PeriodObject) -> bool {
    has_subject(l) && skip.contains_key(subject_id(l)) && skip[subject_id(l)] > 0
}

pub open spec fn after_skip(skip: Map<u16, u8>, l: PeriodObject) -> Map<u16, u8> {
    let id = subject_id(l);
    let v = skip[id] - 1;
    if v == 0 {
        skip.remove(id)
    } else {
        skip.insert(id, v as u8)
    }
}

#[verifier::opaque]
/// One period processed: the new skip table and the lesson shown, if any;
/// `Err` when the lesson slot does not fit a `u8`.
pub open spec fn format_step(
    skip: Map<u16, u8>,
    l: PeriodObject,
    day: Seq<PeriodObject>,
    tg: Seq<TimegridUnits>,
) -> Result<(Map<u16, u8>, Option<LessonView>), ()> {
    if skipped(skip, l) {
        Ok((after_skip(skip, l), None))
    } else if lesson_slot(l, tg) > 255 {
        Err(())
    } else {
        let v = lesson_view(l, day, tg);
        let sk = if v.length > 1 && has_subject(l) {
            skip.insert(subject_id(l), (v.length - 1) as u8)
        } else {
            skip
        };
        Ok((sk, Some(v)))
    }
}

/// The periods `ls` of the day `day`, processed in order from the skip table `skip`.
pub open spec fn format_day(
    skip: Map<u16, u8>,
    ls: Seq<PeriodObject>,
    day: Seq<PeriodObject>,
    tg: Seq<TimegridUnits>,
) -> Result<(Map<u16, u8>, Seq<LessonView>), ()>
    decreases ls.len(),
{
    if ls.len() == 0 {
        Ok((skip, Seq::empty()))
    } else {
        match format_day(skip, ls.drop_last(), day, tg) {
            Err(e) => Err(e),
            Ok((sk, out)) => match format_step(sk, ls.last(), day, tg) {
                Err(e) => Err(e),
                Ok((sk2, o)) => Ok(
                    (
                        sk2,
                        match o {
                            Some(v) => out.push(v),
                            None => out,
                        },
                    ),
                ),
            },
        }
    }
}

/// The days processed in order, one skip table carried through all of them.
pub open spec fn format_days(days: Seq<Seq<PeriodObject>>, tg: Seq<TimegridUnits>) -> Result<
    (Map<u16, u8>, Seq<LessonView>),
    (),
>
    decreases days.len(),
{
    if days.len() == 0 {
        Ok((Map::empty(), Seq::empty()))
    } else {
        match format_days(days.drop_last(), tg) {
            Err(e) => Err(e),
            Ok((sk, out)) => match format_day(sk, days.last(), days.last(), tg) {
                Err(e) => Err(e),
                Ok((sk2, o2)) => Ok((sk2, out + o2)),
            },
        }
    }
}

/// The timetable as the frontend shows it: periods sorted by date, split into
/// days, each day sorted by start time and processed.
pub open spec fn formatted_lessons(
    lessons: Seq<PeriodObject>,
    start_date: u32,
    tg: Seq<TimegridUnits>,
) -> Result<Seq<LessonView>, ()> {
    match format_days(day_groups(sorted_by(lessons, true), start_date), tg) {
        Ok((_sk, out)) => Ok(out),
        Err(_) => Err(()),
    }
}

} // verus!

verus! {

fn slot_of(l: &PeriodObject, tg: &Vec<TimegridUnits>) -> (res: usize)
    requires
        period_ok(*l, tg@),
    ensures
        res == lesson_slot(*l, tg@),
{
    let day = day_of_week(l.date) as usize;
    let units = &tg[day].time_units;
    let n = units.len();
    let mut i: usize = 0;
    while i < n && units[i].start_time != l.start_time
        invariant
            n == units@.len(),
            i <= n,
            forall|j: int| 0 <= j < i ==> units@[j].start_time != l.start_time,
        decreases n - i,
    {
        i = i + 1;
    }
    if i < n {
        proof {
            assert(first_unit_at(units@, l.start_time, i as int));
            let c = choose|c: int| first_unit_at(units@, l.start_time, c);
            if c < i {
                assert(units@[c].start_time != l.start_time);
            }
            if c > i {
                assert(units@[i as int].start_time != l.start_time);
            }
        }
        i + 1
    } else {
        proof {
            assert forall|c: int| !first_unit_at(units@, l.start_time, c) by {
                if 0 <= c < n {
                    assert(units@[c].start_time != l.start_time);
                }
            }
        }
        1
    }
}

fn raw_subject_of(l: &PeriodObject) -> (res: (String, String))
    ensures
        res.0@ == raw_subject(*l).0,
        res.1@ == raw_subject(*l).1,
{
    let has_su = l.su.len() > 0;
    let s0 = if has_su {
        l.su[0].name.clone()
    } else {
        String::new()
    };
    let sh0 = if has_su {
        first_piece(l.su[0].name.as_str(), ' ')
    } else {
        String::new()
    };
    match &l.code {
        Some(code) => {
            if str_eq(code.as_str(), "irregular") {
                let s = match &l.subst_text {
                    Some(t) => t.clone(),
                    None => String::from_str("Entfällt"),
                };
                (s, sh0)
            } else {
                (s0, sh0)
            }
        },
        None => {
            if !has_su {
                match &l.lstext {
                    Some(t) => {
                        if l.activity_type.is_none() {
                            (t.clone(), drop_two_words(t.as_str()))
                        } else {
                            (t.clone(), t.clone())
                        }
                    },
                    None => (String::from_str("N/A"), String::from_str("N/A")),
                }
            } else {
                (s0, sh0)
            }
        },
    }
}

fn is_exam_of(l: &PeriodObject) -> (res: bool)
    ensures
        res == is_exam(*l),
{
    match &l.sg {
        Some(sg) => starts_with(sg.as_str(), "EXAM"),
        None => false,
    }
}

fn teacher_of(l: &PeriodObject) -> (res: String)
    ensures
        res@ == lesson_teacher(*l),
{
    if l.te.len() > 0 {
        match &l.te[0].orgname {
            Some(o) => o.clone(),
            None => l.te[0].name.clone(),
        }
    } else {
        String::new()
    }
}

fn room_of(l: &PeriodObject) -> (res: String)
    ensures
        res@ == lesson_room(*l),
{
    if l.ro.len() > 0 {
        match &l.ro[0].orgname {
            Some(o) => o.clone(),
            None => l.ro[0].name.clone(),
        }
    } else {
        String::new()
    }
}

fn substitution_of(l: &PeriodObject) -> (res: Option<Substitution>)
    ensures
        crate::untis::types::opt_sub_view(res) == lesson_substitution(*l),
{
    let teacher_replaced = l.te.len() > 0 && l.te[0].orgname.is_some();
    let room_replaced = l.ro.len() > 0 && l.ro[0].orgname.is_some();
    let cancelled_code = match &l.code {
        Some(c) => str_eq(c.as_str(), "cancelled"),
        None => false,
    };
    if teacher_replaced || room_replaced || cancelled_code || l.subst_text.is_some() {
        let teacher = if teacher_replaced {
            Some(l.te[0].name.clone())
        } else {
            None
        };
        let room = if room_replaced {
            Some(l.ro[0].name.clone())
        } else {
            None
        };
        let cancelled = match &l.code {
            Some(_c) => cancelled_code || match &l.subst_text {
                Some(t) => str_eq(t.as_str(), "Vtr. ohne Lehrer"),
                None => false,
            },
            None => false,
        };
        Some(
            Substitution {
                teacher,
                room,
                substitution_text: clone_opt(&l.subst_text),
                cancelled,
            },
        )
    } else {
        None
    }
}

fn is_double(l: &PeriodObject, day: &Vec<PeriodObject>) -> (res: bool)
    ensures
        res == double_lesson(*l, day@),
{
    if l.su.len() == 0 {
        return false;
    }
    let id = l.su[0].id;
    let n = day.len();
    let mut k: usize = 0;
    while k < n
        invariant
            n == day@.len(),
            k <= n,
            has_subject(*l),
            id == subject_id(*l),
            forall|j: int|
                0 <= j < k ==> !(#[trigger] same_subject(day@[j], *l) && (day@[j].start_time
                    == l.end_time || day@[j].start_time == plus16(l.end_time, 5))),
        decreases n - k,
    {
        let les = &day[k];
        if les.su.len() > 0 && les.su[0].id == id && (les.start_time == l.end_time
            || les.start_time == l.end_time.wrapping_add(5)) {
            assert(same_subject(day@[k as int], *l));
            return true;
        }
        k = k + 1;
    }
    false
}

fn is_triple(l: &PeriodObject, day: &Vec<PeriodObject>) -> (res: bool)
    requires
        has_subject(*l),
    ensures
        res == triple_lesson(*l, day@),
{
    let id = l.su[0].id;
    let n = day.len();
    let mut k: usize = 0;
    while k < n
        invariant
            n == day@.len(),
            k <= n,
            has_subject(*l),
            id == subject_id(*l),
            forall|j: int|
                0 <= j < k ==> !(#[trigger] same_subject(day@[j], *l) && (day@[j].end_time
                    == l.start_time || day@[j].end_time == minus16(l.start_time, 5) || day@[j].start_time
                    == plus16(l.end_time, 20) || day@[j].start_time == plus16(l.end_time, 90))),
        decreases n - k,
    {
        let les = &day[k];
        if les.su.len() > 0 && les.su[0].id == id && (les.end_time == l.start_time || les.end_time
            == l.start_time.wrapping_sub(5) || les.start_time == l.end_time.wrapping_add(20)
            || les.start_time == l.end_time.wrapping_add(90)) {
            assert(same_subject(day@[k as int], *l));
            return true;
        }
        k = k + 1;
    }
    false
}

fn length_of(l: &PeriodObject, day: &Vec<PeriodObject>) -> (res: u8)
    ensures
        res == lesson_length(*l, day@),
{
    if is_double(l, day) {
        if is_triple(l, day) {
            3
        } else {
            2
        }
    } else {
        let diff = l.end_time.wrapping_sub(l.start_time);
        if diff > 85 {
            let q = diff / 85;
            if q > 10 {
                10
            } else {
                q as u8
            }
        } else {
            1
        }
    }
}

/// Formats one period of the day `day`.
fn format_one(l: &PeriodObject, day: &Vec<PeriodObject>, slot: usize) -> (res: FormattedLesson)
    requires
        has_weekday(l.date),
        slot <= 255,
    ensures
        res@ == (LessonView { start: slot as u8, day: weekday_of(l.date) as u8, ..lesson_view_parts(*l, day@) }),
{
    let length = length_of(l, day);
    let (subject0, subject_short) = raw_subject_of(l);
    let exam = is_exam_of(l);
    let subject = if exam {
        String::from_str("Prüfung").concat(subject0.as_str())
    } else {
        subject0
    };
    let teacher = teacher_of(l);
    let room = room_of(l);
    let is_lb = length == 1 && !exam && !contains_str(room.as_str(), "TH") && !contains_str(
        room.as_str(),
        "KU",
    ) && !contains_str(subject.as_str(), "N/A") && !contains_str(subject.as_str(), "VX")
        && !contains_char(subject.as_str(), 'Z') && !contains_str(room.as_str(), "Bad");
    let day_num = day_of_week(l.date) as u8;
    FormattedLesson {
        teacher,
        is_lb,
        start: slot as u8,
        length,
        day: day_num,
        subject,
        subject_short,
        room,
        substitution: substitution_of(l),
    }
}

/// The parts of [`lesson_view`] that do not depend on the time grid.
pub open spec fn lesson_view_parts(l: PeriodObject, day: Seq<PeriodObject>) -> LessonView {
    let length = lesson_length(l, day);
    LessonView {
        teacher: lesson_teacher(l),
        is_lb: lernbuero_candidate(length, is_exam(l), lesson_subject(l), lesson_room(l)),
        start: 0,
        length,
        day: 0,
        subject: lesson_subject(l),
        subject_short: raw_subject(l).1,
        room: lesson_room(l),
        substitution: lesson_substitution(l),
    }
}

} // verus!

verus! {

proof fn lemma_sorted_all_ok(s: Seq<PeriodObject>, by_date: bool, tg: Seq<TimegridUnits>)
    requires
        all_ok(s, tg),
    ensures
        all_ok(sorted_by(s, by_date), tg),
    decreases s.len(),
{
    if s.len() > 0 {
        assert(all_ok(s.drop_last(), tg)) by {
            assert forall|i: int| 0 <= i < s.drop_last().len() implies period_ok(
                #[trigger] s.drop_last()[i],
                tg,
            ) by {
                assert(s.drop_last()[i] == s[i]);
            }
        }
        lemma_sorted_all_ok(s.drop_last(), by_date, tg);
        let r = sorted_by(s.drop_last(), by_date);
        let p = crate::untis::sorting::ins_pos(r, crate::untis::sorting::pkey(s.last(), by_date), by_date);
        crate::untis::sorting::lemma_ins_pos_bounds(r, crate::untis::sorting::pkey(s.last(), by_date), by_date);
        r.insert_ensures(p, s.last());
        let t = r.insert(p, s.last());
        assert forall|i: int| 0 <= i < t.len() implies period_ok(#[trigger] t[i], tg) by {
            if i < p {
                assert(t[i] == r[i]);
            } else if i == p {
                assert(t[i] == s[s.len() - 1]);
            } else {
                assert(t[(i - 1) + 1] == r[i - 1]);
            }
        }
    }
}

proof fn lemma_scan_all_ok(s: Seq<PeriodObject>, start: u32, tg: Seq<TimegridUnits>)
    requires
        all_ok(s, tg),
    ensures
        ({
            let (ds, _d, cur) = crate::untis::sorting::group_scan(s, start);
            &&& forall|k: int| 0 <= k < ds.len() ==> all_ok(#[trigger] ds[k], tg)
            &&& all_ok(cur, tg)
        }),
    decreases s.len(),
{
    if s.len() > 0 {
        assert(all_ok(s.drop_last(), tg)) by {
            assert forall|i: int| 0 <= i < s.drop_last().len() implies period_ok(
                #[trigger] s.drop_last()[i],
                tg,
            ) by {
                assert(s.drop_last()[i] == s[i]);
            }
        }
        lemma_scan_all_ok(s.drop_last(), start, tg);
        let (ds, d, cur) = crate::untis::sorting::group_scan(s.drop_last(), start);
        assert(period_ok(s[s.len() - 1], tg));
        if s.last().date != d {
            let ds2 = ds.push(cur);
            assert forall|k: int| 0 <= k < ds2.len() implies all_ok(#[trigger] ds2[k], tg) by {
                if k < ds.len() {
                    assert(ds2[k] == ds[k]);
                }
            }
            assert(all_ok(seq![s.last()], tg));
        } else {
            let c2 = cur.push(s.last());
            assert forall|i: int| 0 <= i < c2.len() implies period_ok(#[trigger] c2[i], tg) by {
                if i < cur.len() {
                    assert(c2[i] == cur[i]);
                }
            }
        }
    }
}

proof fn lemma_groups_all_ok(s: Seq<PeriodObject>, start: u32, tg: Seq<TimegridUnits>)
    requires
        all_ok(s, tg),
    ensures
        forall|k: int|
            0 <= k < day_groups(s, start).len() ==> all_ok(#[trigger] day_groups(s, start)[k], tg),
{
    lemma_scan_all_ok(s, start, tg);
    let (ds, _d, cur) = crate::untis::sorting::group_scan(s, start);
    let g = ds.push(cur);
    assert forall|k: int| 0 <= k < day_groups(s, start).len() implies all_ok(
        #[trigger] day_groups(s, start)[k],
        tg,
    ) by {
        if k < ds.len() {
            assert(g[k] == ds[k]);
        }
        lemma_sorted_all_ok(g[k], false, tg);
    }
}

proof fn lemma_day_err_extends(
    sk: Map<u16, u8>,
    ls: Seq<PeriodObject>,
    day: Seq<PeriodObject>,
    tg: Seq<TimegridUnits>,
    j: int,
)
    requires
        0 <= j <= ls.len(),
        format_day(sk, ls.take(j), day, tg) is Err,
    ensures
        format_day(sk, ls, day, tg) is Err,
    decreases ls.len() - j,
{
    if j < ls.len() {
        assert(ls.take(j + 1).drop_last() =~= ls.take(j));
        lemma_day_err_extends(sk, ls, day, tg, j + 1);
    } else {
        assert(ls.take(j) =~= ls);
    }
}

proof fn lemma_days_err_extends(days: Seq<Seq<PeriodObject>>, tg: Seq<TimegridUnits>, j: int)
    requires
        0 <= j <= days.len(),
        format_days(days.take(j), tg) is Err,
    ensures
        format_days(days, tg) is Err,
    decreases days.len() - j,
{
    if j < days.len() {
        assert(days.take(j + 1).drop_last() =~= days.take(j));
        lemma_days_err_extends(days, tg, j + 1);
    } else {
        assert(days.take(j) =~= days);
    }
}

pub open spec fn opt_lesson_view(o: Option<FormattedLesson>) -> Option<LessonView> {
    match o {
        Some(l) => Some(l@),
        None => None,
    }
}

/// One step of the formatting: updates the skip table and formats the period
/// unless it continues a lesson already shown.
fn process_period(
    skip: &mut HashMap<u16, u8>,
    l: &PeriodObject,
    day: &Vec<PeriodObject>,
    timegrid: &Vec<TimegridUnits>,
) -> (res: Result<Option<FormattedLesson>, ()>)
    requires
        period_ok(*l, timegrid@),
    ensures
        match format_step(old(skip)@, *l, day@, timegrid@) {
            Ok((sk, o)) => res is Ok && final(skip)@ == sk && opt_lesson_view(res->Ok_0) == o,
            Err(_) => res is Err,
        },
{
    reveal(format_step);
    if l.su.len() > 0 {
        let id = l.su[0].id;
        match skip.get(&id) {
            Some(v) => {
                if *v > 0 {
                    let nv = *v - 1;
                    if nv == 0 {
                        skip.remove(&id);
                    } else {
                        skip.insert(id, nv);
                    }
                    return Ok(None);
                }
            },
            None => {},
        }
    }
    let slot = slot_of(l, timegrid);
    if slot > 255 {
        return Err(());
    }
    let fl = format_one(l, day, slot);
    if fl.length > 1 && l.su.len() > 0 {
        skip.insert(l.su[0].id, fl.length - 1);
    }
    Ok(Some(fl))
}

/// Formats the periods of one day, carrying the skip table, and appends them to `formatted`.
fn format_day_exec(
    skip: &mut HashMap<u16, u8>,
    d: &Vec<PeriodObject>,
    timegrid: &Vec<TimegridUnits>,
    formatted: &mut Vec<FormattedLesson>,
) -> (res: Result<(), ()>)
    requires
        all_ok(d@, timegrid@),
    ensures
        match format_day(old(skip)@, d@, d@, timegrid@) {
            Ok((sk, out)) => res is Ok && final(skip)@ == sk && lessons_view(final(formatted)@)
                == lessons_view(old(formatted)@) + out,
            Err(_) => res is Err,
        },
{
    let ghost g = d@;
    let ghost tg = timegrid@;
    let ghost sk0 = old(skip)@;
    let ghost out0 = lessons_view(old(formatted)@);
    let nl = d.len();
    let mut li: usize = 0;
    assert(g.take(0) =~= Seq::<PeriodObject>::empty());
    assert(out0 + Seq::<LessonView>::empty() =~= out0);
    while li < nl
        invariant
            nl == d@.len(),
            d@ == g,
            sk0 == old(skip)@,
            out0 == lessons_view(old(formatted)@),
            all_ok(g, tg),
            tg == timegrid@,
            li <= nl,
            ({
                let r = format_day(sk0, g.take(li as int), g, tg);
                &&& r is Ok
                &&& r->Ok_0.0 == skip@
                &&& lessons_view(formatted@) == out0 + r->Ok_0.1
            }),
        decreases nl - li,
    {
        let l = &d[li];
        assert(period_ok(g[li as int], tg));
        proof {
            assert(g.take(li + 1).drop_last() =~= g.take(li as int));
            assert(g.take(li + 1).last() == g[li as int]);
        }
        let ghost fmt_before = lessons_view(formatted@);
        let ghost r_before = format_day(sk0, g.take(li as int), g, tg)->Ok_0.1;
        let ghost skip_before = skip@;
        match process_period(skip, l, d, timegrid) {
            Err(()) => {
                proof {
                    assert(format_step(skip_before, g[li as int], g, tg) is Err);
                    assert(format_day(sk0, g.take(li + 1), g, tg) is Err);
                    lemma_day_err_extends(sk0, g, g, tg, li + 1);
                }
                return Err(());
            },
            Ok(Some(fl)) => {
                let ghost fv = fl@;
                formatted.push(fl);
                proof {
                    assert(lessons_view(formatted@) =~= fmt_before.push(fv));
                    assert(out0 + r_before.push(fv) =~= (out0 + r_before).push(fv));
                }
            },
            Ok(None) => {},
        }
        li = li + 1;
    }
    proof {
        assert(g.take(nl as int) =~= g);
    }
    Ok(())
}

/// The message of the error that ends formatting when a lesson slot exceeds 255.
pub open spec fn slot_error_message() -> Seq<char> {
    "out of range integral type conversion attempted 369"@
}

/// Formats the periods of a timetable for the frontend. The periods are sorted by
/// date and split into days (the first day is `start_date`), each day is sorted
/// by start time; a period that continues a double or triple lesson already shown
/// is left out. `timegrid` gives the lesson slots of each week day.
pub fn format_lessons(
    lessons: Vec<PeriodObject>,
    start_date: u32,
    timegrid: &Vec<TimegridUnits>,
) -> (res: Result<Vec<FormattedLesson>, crate::error::Error>)
    requires
        all_ok(lessons@, timegrid@),
    ensures
        match formatted_lessons(lessons@, start_date, timegrid@) {
            Ok(v) => res is Ok && lessons_view(res->Ok_0@) == v,
            Err(_) => res matches Err(crate::error::Error::UntisError(m)) && m@
                == slot_error_message(),
        },
{
    let ghost tg = timegrid@;
    let ghost sorted = sorted_by(lessons@, true);
    proof {
        lemma_sorted_all_ok(lessons@, true, tg);
        lemma_groups_all_ok(sorted, start_date, tg);
    }
    let sorted_lessons = sort_periods(lessons, true);
    let days = group_by_day(sorted_lessons, start_date);
    let ghost groups = day_groups(sorted, start_date);
    assert(groups_view(days@) == groups);
    let mut skip: HashMap<u16, u8> = HashMap::new();
    let mut formatted: Vec<FormattedLesson> = Vec::new();
    let nd = days.len();
    assert(groups.take(0) =~= Seq::<Seq<PeriodObject>>::empty());
    assert(lessons_view(formatted@) =~= Seq::<LessonView>::empty());
    let mut di: usize = 0;
    while di < nd
        invariant
            nd == days@.len(),
            groups_view(days@) == groups,
            groups == day_groups(sorted_by(lessons@, true), start_date),
            groups.len() == nd,
            tg == timegrid@,
            di <= nd,
            forall|k: int| 0 <= k < groups.len() ==> all_ok(#[trigger] groups[k], tg),
            format_days(groups.take(di as int), tg) == Ok::<(Map<u16, u8>, Seq<LessonView>), ()>(
                (skip@, lessons_view(formatted@)),
            ),
        decreases nd - di,
    {
        let d = &days[di];
        let ghost g = groups[di as int];
        assert(d@ == g);
        let ghost sk0 = skip@;
        let ghost out0 = lessons_view(formatted@);
        let r = format_day_exec(&mut skip, d, timegrid, &mut formatted);
        proof {
            assert(groups.take(di + 1).drop_last() =~= groups.take(di as int));
            assert(groups.take(di + 1).last() == g);
        }
        if r.is_err() {
            proof {
                assert(format_days(groups.take(di + 1), tg) is Err);
                lemma_days_err_extends(groups, tg, di + 1);
            }
            return Err(
                crate::error::Error::UntisError(
                    String::from_str("out of range integral type conversion attempted 369"),
                ),
            );
        }
        di = di + 1;
    }
    proof {
        assert(groups.take(nd as int) =~= groups);
    }
    Ok(formatted)
}

} // verus!
