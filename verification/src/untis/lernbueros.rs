use vstd::prelude::*;
use crate::text::{has_substr, str_eq, contains_str};
use crate::untis::types::{FormattedLesson, Substitution, SubstitutionView, LessonView, lessons_view,
    clone_lesson, clone_opt_substitution, opt_sub_view};
use crate::models::lb::{Teacher, ManualLB, ManualLBOverwrite};

verus! {

/// Short subjects whose lernbueros are not offered.
pub open spec fn excluded_short(s: Seq<char>) -> bool {
    s == "S0"@ || s == "N0"@ || s == "OS"@
}

/// The lernbuero candidates of a timetable, minus the excluded subjects, in order.
pub open spec fn lb_filter(ls: Seq<LessonView>) -> Seq<LessonView>
    decreases ls.len(),
{
    if ls.len() == 0 {
        ls
    } else if ls.last().is_lb && !excluded_short(ls.last().subject_short) {
        lb_filter(ls.drop_last()).push(ls.last())
    } else {
        lb_filter(ls.drop_last())
    }
}

/// Keeps the lessons of a timetable that are lernbueros of an offered subject.
pub fn filter_lernbueros(lessons: &Vec<FormattedLesson>) -> (res: Vec<FormattedLesson>)
    ensures
        lessons_view(res@) == lb_filter(lessons_view(lessons@)),
{
    let mut res: Vec<FormattedLesson> = Vec::new();
    let n = lessons.len();
    let mut i: usize = 0;
    let ghost all = lessons_view(lessons@);
    while i < n
        invariant
            n == lessons@.len(),
            all == lessons_view(lessons@),
            i <= n,
            lessons_view(res@) == lb_filter(all.take(i as int)),
        decreases n - i,
    {
        let l = &lessons[i];
        proof {
            assert(all.take(i + 1).drop_last() =~= all.take(i as int));
            assert(all.take(i + 1).last() == l@);
        }
        let s = l.subject_short.as_str();
        if l.is_lb && !str_eq(s, "S0") && !str_eq(s, "N0") && !str_eq(s, "OS") {
            let ghost before = lessons_view(res@);
            res.push(clone_lesson(l));
            proof {
                assert(lessons_view(res@) =~= before.push(l@));
            }
        }
        i = i + 1;
    }
    assert(all.take(n as int) =~= all);
    res
}

/// An overwrite hides the lernbuero of its teacher in its slot.
pub open spec fn overwritten(l: LessonView, ows: Seq<ManualLBOverwrite>) -> bool {
    exists|i: int|
        0 <= i < ows.len() && #[trigger] ows[i].day == l.day && ows[i].start == l.start
            && ows[i].teacher@ == l.teacher
}

pub open spec fn without_overwritten(ls: Seq<LessonView>, ows: Seq<ManualLBOverwrite>) -> Seq<
    LessonView,
>
    decreases ls.len(),
{
    if ls.len() == 0 {
        ls
    } else if overwritten(ls.last(), ows) {
        without_overwritten(ls.drop_last(), ows)
    } else {
        without_overwritten(ls.drop_last(), ows).push(ls.last())
    }
}

fn is_overwritten(l: &FormattedLesson, ows: &Vec<ManualLBOverwrite>) -> (res: bool)
    ensures
        res == overwritten(l@, ows@),
{
    let n = ows.len();
    let mut i: usize = 0;
    while i < n
        invariant
            n == ows@.len(),
            i <= n,
            forall|j: int|
                0 <= j < i ==> !(#[trigger] ows@[j].day == l.day && ows@[j].start == l.start
                    && ows@[j].teacher@ == l.teacher@),
        decreases n - i,
    {
        let o = &ows[i];
        if o.day == l.day && o.start == l.start && str_eq(o.teacher.as_str(), l.teacher.as_str()) {
            return true;
        }
        i = i + 1;
    }
    false
}

/// Drops the lernbueros that an overwrite hides.
pub fn manual_overwrite_lbs(all_lbs: Vec<FormattedLesson>, all_overwrite: Vec<ManualLBOverwrite>) -> (res: Vec<
    FormattedLesson,
>)
    ensures
        lessons_view(res@) == without_overwritten(lessons_view(all_lbs@), all_overwrite@),
{
    let mut res: Vec<FormattedLesson> = Vec::new();
    let n = all_lbs.len();
    let mut i: usize = 0;
    let ghost all = lessons_view(all_lbs@);
    while i < n
        invariant
            n == all_lbs@.len(),
            all == lessons_view(all_lbs@),
            i <= n,
            lessons_view(res@) == without_overwritten(all.take(i as int), all_overwrite@),
        decreases n - i,
    {
        let l = &all_lbs[i];
        proof {
            assert(all.take(i + 1).drop_last() =~= all.take(i as int));
            assert(all.take(i + 1).last() == l@);
        }
        if !is_overwritten(l, &all_overwrite) {
            let ghost before = lessons_view(res@);
            res.push(clone_lesson(l));
            proof {
                assert(lessons_view(res@) =~= before.push(l@));
            }
        }
        i = i + 1;
    }
    assert(all.take(n as int) =~= all);
    res
}

/// The room a lernbuero moved to, or the empty string.
pub open spec fn moved_room(l: LessonView) -> Seq<char> {
    match l.substitution {
        Some(s) => match s.room {
            Some(r) => r,
            None => Seq::empty(),
        },
        None => Seq::empty(),
    }
}

/// One copy of the lernbuero `lb` for the subject `subject` of its teacher.
pub open spec fn subject_copy(lb: LessonView, shortname: Seq<char>, subject: Seq<char>) -> LessonView {
    LessonView {
        teacher: shortname,
        is_lb: true,
        start: lb.start,
        length: 1,
        day: lb.day,
        subject,
        subject_short: subject,
        room: if moved_room(lb).len() == 0 {
            lb.room
        } else {
            moved_room(lb)
        },
        substitution: lb.substitution,
    }
}

/// The copies of `lb`, one per subject of the teacher `t`.
pub open spec fn teacher_copies(lb: LessonView, t: Teacher) -> Seq<LessonView> {
    t.lessons@.map_values(|s: String| subject_copy(lb, t.shortname@, s@))
}

/// Every lernbuero, once per subject of its teacher; lernbueros of teachers
/// that are not in the database drop out. `ts[i]` is the teacher of `lbs[i]`.
pub open spec fn expand_teachers(lbs: Seq<LessonView>, ts: Seq<Option<Teacher>>) -> Seq<LessonView>
    decreases lbs.len(),
{
    if lbs.len() == 0 || ts.len() == 0 {
        Seq::empty()
    } else {
        expand_teachers(lbs.drop_last(), ts.drop_last()) + match ts.last() {
            Some(t) => teacher_copies(lbs.last(), t),
            None => Seq::empty(),
        }
    }
}

fn push_copies(out: &mut Vec<FormattedLesson>, lb: &FormattedLesson, t: &Teacher)
    ensures
        lessons_view(final(out)@) == lessons_view(old(out)@) + teacher_copies(lb@, *t),
{
    let n = t.lessons.len();
    let ghost out0 = lessons_view(out@);
    let ghost copies = teacher_copies(lb@, *t);
    let mut k: usize = 0;
    let moved = match &lb.substitution {
        Some(s) => match &s.room {
            Some(r) => r.clone(),
            None => String::new(),
        },
        None => String::new(),
    };
    assert(moved@ == moved_room(lb@));
    while k < n
        invariant
            n == t.lessons@.len(),
            k <= n,
            out0 == lessons_view(old(out)@),
            copies == teacher_copies(lb@, *t),
            moved@ == moved_room(lb@),
            lessons_view(out@) == out0 + copies.take(k as int),
        decreases n - k,
    {
        let subject = &t.lessons[k];
        let room = if moved.unicode_len() == 0 {
            lb.room.clone()
        } else {
            moved.clone()
        };
        let c = FormattedLesson {
            teacher: t.shortname.clone(),
            is_lb: true,
            start: lb.start,
            length: 1,
            day: lb.day,
            subject: subject.clone(),
            subject_short: subject.clone(),
            room,
            substitution: clone_opt_substitution(&lb.substitution),
        };
        let ghost before = lessons_view(out@);
        out.push(c);
        proof {
            assert(c@ == copies[k as int]);
            assert(copies.take(k + 1) =~= copies.take(k as int).push(copies[k as int]));
            assert(lessons_view(out@) =~= before.push(c@));
        }
        k = k + 1;
    }
    assert(copies.take(n as int) =~= copies);
}

/// Every lernbuero once per subject of its teacher, `teachers[i]` being the
/// database record of the teacher of `lbs[i]`.
pub fn expand_lernbueros(lbs: &Vec<FormattedLesson>, teachers: &Vec<Option<Teacher>>) -> (res: Vec<
    FormattedLesson,
>)
    requires
        lbs@.len() == teachers@.len(),
    ensures
        lessons_view(res@) == expand_teachers(lessons_view(lbs@), teachers@),
{
    let mut res: Vec<FormattedLesson> = Vec::new();
    let n = lbs.len();
    let ghost all = lessons_view(lbs@);
    let mut i: usize = 0;
    while i < n
        invariant
            n == lbs@.len(),
            n == teachers@.len(),
            all == lessons_view(lbs@),
            i <= n,
            lessons_view(res@) == expand_teachers(all.take(i as int), teachers@.take(i as int)),
        decreases n - i,
    {
        proof {
            assert(all.take(i + 1).drop_last() =~= all.take(i as int));
            assert(teachers@.take(i + 1).drop_last() =~= teachers@.take(i as int));
        }
        match &teachers[i] {
            Some(t) => {
                push_copies(&mut res, &lbs[i], t);
            },
            None => {
                assert(lessons_view(res@) =~= lessons_view(res@) + Seq::<LessonView>::empty());
            },
        }
        i = i + 1;
    }
    assert(all.take(n as int) =~= all);
    assert(teachers@.take(n as int) =~= teachers@);
    res
}

/// A lernbuero entered by hand, once per subject of its teacher.
pub open spec fn manual_copies(lb: ManualLB, t: Teacher) -> Seq<LessonView> {
    t.lessons@.map_values(
        |s: String|
            LessonView {
                teacher: t.shortname@,
                is_lb: true,
                start: lb.start,
                length: 1,
                day: lb.day,
                subject: s@,
                subject_short: s@,
                room: lb.room@,
                substitution: None,
            },
    )
}

pub open spec fn expand_manual(lbs: Seq<ManualLB>, ts: Seq<Option<Teacher>>) -> Seq<LessonView>
    decreases lbs.len(),
{
    if lbs.len() == 0 || ts.len() == 0 {
        Seq::empty()
    } else {
        expand_manual(lbs.drop_last(), ts.drop_last()) + match ts.last() {
            Some(t) => manual_copies(lbs.last(), t),
            None => Seq::empty(),
        }
    }
}

/// The lernbueros entered by hand, once per subject of their teacher;
/// `teachers[i]` is the database record of the teacher of `db_lbs[i]`, `None`
/// when the teacher is unknown or could not be read.
pub fn manual_lernbueros(db_lbs: &Vec<ManualLB>, teachers: &Vec<Option<Teacher>>) -> (res: Vec<
    FormattedLesson,
>)
    requires
        db_lbs@.len() == teachers@.len(),
    ensures
        lessons_view(res@) == expand_manual(db_lbs@, teachers@),
{
    let mut res: Vec<FormattedLesson> = Vec::new();
    let n = db_lbs.len();
    let mut i: usize = 0;
    while i < n
        invariant
            n == db_lbs@.len(),
            n == teachers@.len(),
            i <= n,
            lessons_view(res@) == expand_manual(db_lbs@.take(i as int), teachers@.take(i as int)),
        decreases n - i,
    {
        proof {
            assert(db_lbs@.take(i + 1).drop_last() =~= db_lbs@.take(i as int));
            assert(teachers@.take(i + 1).drop_last() =~= teachers@.take(i as int));
        }
        let lb = &db_lbs[i];
        match &teachers[i] {
            Some(t) => {
                let ghost out0 = lessons_view(res@);
                let ghost copies = manual_copies(*lb, *t);
                let m = t.lessons.len();
                let mut k: usize = 0;
                while k < m
                    invariant
                        m == t.lessons@.len(),
                        k <= m,
                        copies == manual_copies(*lb, *t),
                        lessons_view(res@) == out0 + copies.take(k as int),
                    decreases m - k,
                {
                    let subject = &t.lessons[k];
                    let c = FormattedLesson {
                        teacher: t.shortname.clone(),
                        is_lb: true,
                        start: lb.start,
                        length: 1,
                        day: lb.day,
                        subject: subject.clone(),
                        subject_short: subject.clone(),
                        room: lb.room.clone(),
                        substitution: None,
                    };
                    let ghost before = lessons_view(res@);
                    res.push(c);
                    proof {
                        assert(c@ == copies[k as int]);
                        assert(copies.take(k + 1) =~= copies.take(k as int).push(copies[k as int]));
                        assert(lessons_view(res@) =~= before.push(c@));
                    }
                    k = k + 1;
                }
                assert(copies.take(m as int) =~= copies);
            },
            None => {
                assert(lessons_view(res@) =~= lessons_view(res@) + Seq::<LessonView>::empty());
            },
        }
        i = i + 1;
    }
    assert(db_lbs@.take(n as int) =~= db_lbs@);
    assert(teachers@.take(n as int) =~= teachers@);
    res
}

} // verus!

verus! {

/// `s` without repetitions, each element at its first place.
pub open spec fn dedup<T>(s: Seq<T>) -> Seq<T>
    decreases s.len(),
{
    if s.len() == 0 {
        s
    } else {
        let r = dedup(s.drop_last());
        if r.contains(s.last()) {
            r
        } else {
            r.push(s.last())
        }
    }
}

/// The (day, slot) of each lernbuero, in order.
pub open spec fn lb_keys(ls: Seq<LessonView>) -> Seq<(u8, u8)>
    decreases ls.len(),
{
    if ls.len() == 0 {
        Seq::empty()
    } else if ls.last().is_lb {
        lb_keys(ls.drop_last()).push((ls.last().day, ls.last().start))
    } else {
        lb_keys(ls.drop_last())
    }
}

pub open spec fn at_slot(l: LessonView, k: (u8, u8)) -> bool {
    l.is_lb && l.day == k.0 && l.start == k.1
}

/// The short subjects of the lernbueros in slot `k`, in order.
pub open spec fn slot_subjects(ls: Seq<LessonView>, k: (u8, u8)) -> Seq<Seq<char>>
    decreases ls.len(),
{
    if ls.len() == 0 {
        Seq::empty()
    } else if at_slot(ls.last(), k) {
        slot_subjects(ls.drop_last(), k).push(ls.last().subject_short)
    } else {
        slot_subjects(ls.drop_last(), k)
    }
}

/// The lernbueros of subject `subj` in slot `k`, in order.
pub open spec fn entries(ls: Seq<LessonView>, k: (u8, u8), subj: Seq<char>) -> Seq<LessonView>
    decreases ls.len(),
{
    if ls.len() == 0 {
        Seq::empty()
    } else if at_slot(ls.last(), k) && ls.last().subject_short == subj {
        entries(ls.drop_last(), k, subj).push(ls.last())
    } else {
        entries(ls.drop_last(), k, subj)
    }
}

/// A lernbuero that does not take place: cancelled, or a substitution without teacher.
pub open spec fn lb_cancelled(s: Option<SubstitutionView>) -> bool {
    match s {
        Some(x) => x.cancelled || (x.teacher == Some("---"@) && x.substitution_text == Some(
            "Vtr. ohne Lehrer"@,
        )),
        None => false,
    }
}

pub open spec fn all_cancelled(es: Seq<LessonView>) -> bool {
    forall|i: int| 0 <= i < es.len() ==> lb_cancelled(#[trigger] es[i].substitution)
}

/// The room a lernbuero takes place in.
pub open spec fn lb_room(e: LessonView) -> Seq<char> {
    match e.substitution {
        Some(x) => match x.room {
            Some(r) => r,
            None => e.room,
        },
        None => e.room,
    }
}

/// Teachers, first teacher and rooms of parallel lernbueros of one subject: a
/// teacher already listed is not listed again, a lernbuero that does not take
/// place is left out unless none does, names and rooms are separated by `, `.
pub open spec fn merge_fold(es: Seq<LessonView>, allc: bool) -> (Seq<char>, Seq<char>, Seq<char>)
    decreases es.len(),
{
    if es.len() == 0 {
        (Seq::empty(), Seq::empty(), Seq::empty())
    } else {
        let (t, s, r) = merge_fold(es.drop_last(), allc);
        let e = es.last();
        if has_substr(t, e.teacher) {
            (t, s, r)
        } else if !allc && lb_cancelled(e.substitution) {
            (t, s, r)
        } else if s.len() == 0 {
            (t + e.teacher, e.teacher, r + lb_room(e))
        } else {
            (t + ", "@ + e.teacher, s, r + ", "@ + lb_room(e))
        }
    }
}

/// The one lernbuero shown for subject `subj` in slot `k`, made of the parallel
/// lernbueros `es`; when none of them takes place it is shown as a
/// substitution without teacher.
pub open spec fn merged(k: (u8, u8), subj: Seq<char>, es: Seq<LessonView>) -> Option<LessonView> {
    let allc = all_cancelled(es);
    let (t, _s, r) = merge_fold(es, allc);
    if r.len() == 0 {
        None
    } else {
        Some(
            LessonView {
                teacher: t,
                is_lb: true,
                start: k.1,
                length: 1,
                day: k.0,
                subject: subj,
                subject_short: subj,
                room: r,
                substitution: if allc {
                    Some(
                        SubstitutionView {
                            teacher: Some("---"@),
                            room: None,
                            substitution_text: Some("Vtr. ohne Lehrer"@),
                            cancelled: false,
                        },
                    )
                } else {
                    None
                },
            },
        )
    }
}

pub open spec fn opt_seq(o: Option<LessonView>) -> Seq<LessonView> {
    match o {
        Some(v) => seq![v],
        None => Seq::empty(),
    }
}

pub open spec fn merge_subjects(ls: Seq<LessonView>, k: (u8, u8), subjs: Seq<Seq<char>>) -> Seq<
    LessonView,
>
    decreases subjs.len(),
{
    if subjs.len() == 0 {
        Seq::empty()
    } else {
        merge_subjects(ls, k, subjs.drop_last()) + opt_seq(
            merged(k, subjs.last(), entries(ls, k, subjs.last())),
        )
    }
}

pub open spec fn merge_slots(ls: Seq<LessonView>, keys: Seq<(u8, u8)>) -> Seq<LessonView>
    decreases keys.len(),
{
    if keys.len() == 0 {
        Seq::empty()
    } else {
        merge_slots(ls, keys.drop_last()) + merge_subjects(
            ls,
            keys.last(),
            dedup(slot_subjects(ls, keys.last())),
        )
    }
}

/// The lernbueros of a week, one per slot and subject: slots in the order they
/// first occur, subjects within a slot likewise.
pub open spec fn merged_lernbueros(ls: Seq<LessonView>) -> Seq<LessonView> {
    merge_slots(ls, dedup(lb_keys(ls)))
}

fn key_in(keys: &Vec<(u8, u8)>, k: (u8, u8)) -> (res: bool)
    ensures
        res == keys@.contains(k),
{
    let n = keys.len();
    let mut i: usize = 0;
    while i < n
        invariant
            n == keys@.len(),
            i <= n,
            forall|j: int| 0 <= j < i ==> keys@[j] != k,
        decreases n - i,
    {
        if keys[i].0 == k.0 && keys[i].1 == k.1 {
            assert(keys@[i as int] == k);
            return true;
        }
        i = i + 1;
    }
    false
}

fn slot_keys(lbs: &Vec<FormattedLesson>) -> (res: Vec<(u8, u8)>)
    ensures
        res@ == dedup(lb_keys(lessons_view(lbs@))),
{
    let mut keys: Vec<(u8, u8)> = Vec::new();
    let n = lbs.len();
    let ghost all = lessons_view(lbs@);
    let mut i: usize = 0;
    while i < n
        invariant
            n == lbs@.len(),
            all == lessons_view(lbs@),
            i <= n,
            keys@ == dedup(lb_keys(all.take(i as int))),
        decreases n - i,
    {
        let l = &lbs[i];
        proof {
            assert(all.take(i + 1).drop_last() =~= all.take(i as int));
            assert(all.take(i + 1).last() == l@);
        }
        if l.is_lb {
            let k = (l.day, l.start);
            proof {
                let ks = lb_keys(all.take(i as int));
                assert(lb_keys(all.take(i + 1)) == ks.push(k));
                assert(ks.push(k).drop_last() =~= ks);
            }
            if !key_in(&keys, k) {
                keys.push(k);
            }
        }
        i = i + 1;
    }
    assert(all.take(n as int) =~= all);
    keys
}

fn subject_in(subjs: &Vec<String>, s: &str) -> (res: bool)
    ensures
        res == crate::text::strs_view(subjs@).contains(s@),
{
    let n = subjs.len();
    let mut i: usize = 0;
    while i < n
        invariant
            n == subjs@.len(),
            i <= n,
            forall|j: int| 0 <= j < i ==> subjs@[j]@ != s@,
        decreases n - i,
    {
        if str_eq(subjs[i].as_str(), s) {
            assert(crate::text::strs_view(subjs@)[i as int] == s@);
            return true;
        }
        i = i + 1;
    }
    assert forall|j: int| 0 <= j < n implies crate::text::strs_view(subjs@)[j] != s@ by {
        assert(crate::text::strs_view(subjs@)[j] == subjs@[j]@);
    }
    false
}

fn subjects_at(lbs: &Vec<FormattedLesson>, k: (u8, u8)) -> (res: Vec<String>)
    ensures
        crate::text::strs_view(res@) == dedup(slot_subjects(lessons_view(lbs@), k)),
{
    let mut subjs: Vec<String> = Vec::new();
    let n = lbs.len();
    let ghost all = lessons_view(lbs@);
    let mut i: usize = 0;
    while i < n
        invariant
            n == lbs@.len(),
            all == lessons_view(lbs@),
            i <= n,
            crate::text::strs_view(subjs@) == dedup(slot_subjects(all.take(i as int), k)),
        decreases n - i,
    {
        let l = &lbs[i];
        proof {
            assert(all.take(i + 1).drop_last() =~= all.take(i as int));
            assert(all.take(i + 1).last() == l@);
        }
        if l.is_lb && l.day == k.0 && l.start == k.1 {
            proof {
                let ks = slot_subjects(all.take(i as int), k);
                assert(slot_subjects(all.take(i + 1), k) == ks.push(l.subject_short@));
                assert(ks.push(l.subject_short@).drop_last() =~= ks);
            }
            if !subject_in(&subjs, l.subject_short.as_str()) {
                let ghost before = crate::text::strs_view(subjs@);
                subjs.push(l.subject_short.clone());
                proof {
                    assert(crate::text::strs_view(subjs@) =~= before.push(l.subject_short@));
                }
            }
        }
        i = i + 1;
    }
    assert(all.take(n as int) =~= all);
    subjs
}

fn is_lb_cancelled(s: &Option<Substitution>) -> (res: bool)
    ensures
        res == lb_cancelled(opt_sub_view(*s)),
{
    match s {
        Some(x) => x.cancelled || (match &x.teacher {
            Some(t) => str_eq(t.as_str(), "---"),
            None => false,
        } && match &x.substitution_text {
            Some(t) => str_eq(t.as_str(), "Vtr. ohne Lehrer"),
            None => false,
        }),
        None => false,
    }
}

fn merge_entry(lbs: &Vec<FormattedLesson>, k: (u8, u8), subj: &String) -> (res: Option<
    FormattedLesson,
>)
    ensures
        crate::untis::format::opt_lesson_view(res) == merged(
            k,
            subj@,
            entries(lessons_view(lbs@), k, subj@),
        ),
{
    let n = lbs.len();
    let ghost all = lessons_view(lbs@);
    let ghost es = entries(all, k, subj@);
    let mut allc = true;
    let mut i: usize = 0;
    while i < n
        invariant
            n == lbs@.len(),
            all == lessons_view(lbs@),
            i <= n,
            allc == all_cancelled(entries(all.take(i as int), k, subj@)),
        decreases n - i,
    {
        let l = &lbs[i];
        proof {
            assert(all.take(i + 1).drop_last() =~= all.take(i as int));
            assert(all.take(i + 1).last() == l@);
        }
        let ghost prev = entries(all.take(i as int), k, subj@);
        if l.is_lb && l.day == k.0 && l.start == k.1 && str_eq(l.subject_short.as_str(), subj.as_str()) {
            let c = is_lb_cancelled(&l.substitution);
            proof {
                let cur = prev.push(l@);
                assert(entries(all.take(i + 1), k, subj@) == cur);
                assert(cur[cur.len() - 1] == l@);
                if allc && c {
                    assert forall|j: int| 0 <= j < cur.len() implies lb_cancelled(
                        #[trigger] cur[j].substitution,
                    ) by {
                        if j < prev.len() {
                            assert(cur[j] == prev[j]);
                        }
                    }
                }
                if !allc {
                    let w = choose|j: int| 0 <= j < prev.len() && !lb_cancelled(prev[j].substitution);
                    assert(cur[w] == prev[w]);
                    assert(!lb_cancelled(cur[w].substitution));
                }
                if !c {
                    assert(!lb_cancelled(cur[cur.len() - 1].substitution));
                }
            }
            allc = allc && c;
        }
        i = i + 1;
    }
    assert(all.take(n as int) =~= all);
    let mut teachers = String::new();
    let mut first = String::new();
    let mut rooms = String::new();
    i = 0;
    while i < n
        invariant
            n == lbs@.len(),
            all == lessons_view(lbs@),
            i <= n,
            allc == all_cancelled(es),
            es == entries(all, k, subj@),
            (teachers@, first@, rooms@) == merge_fold(entries(all.take(i as int), k, subj@), allc),
        decreases n - i,
    {
        let l = &lbs[i];
        proof {
            assert(all.take(i + 1).drop_last() =~= all.take(i as int));
            assert(all.take(i + 1).last() == l@);
        }
        if l.is_lb && l.day == k.0 && l.start == k.1 && str_eq(l.subject_short.as_str(), subj.as_str()) {
            proof {
                let prev = entries(all.take(i as int), k, subj@);
                assert(entries(all.take(i + 1), k, subj@) == prev.push(l@));
                assert(prev.push(l@).drop_last() =~= prev);
            }
            if contains_str(teachers.as_str(), l.teacher.as_str()) {
            } else if !allc && is_lb_cancelled(&l.substitution) {
            } else {
                if first.unicode_len() == 0 {
                    first = l.teacher.clone();
                } else {
                    teachers.append(", ");
                    rooms.append(", ");
                }
                let room = match &l.substitution {
                    Some(x) => match &x.room {
                        Some(r) => r.clone(),
                        None => l.room.clone(),
                    },
                    None => l.room.clone(),
                };
                teachers.append(l.teacher.as_str());
                rooms.append(room.as_str());
            }
        }
        i = i + 1;
    }
    assert(all.take(n as int) =~= all);
    if rooms.unicode_len() == 0 {
        None
    } else {
        let substitution = if allc {
            Some(
                Substitution {
                    teacher: Some(String::from_str("---")),
                    room: None,
                    substitution_text: Some(String::from_str("Vtr. ohne Lehrer")),
                    cancelled: false,
                },
            )
        } else {
            None
        };
        Some(
            FormattedLesson {
                teacher: teachers,
                is_lb: true,
                start: k.1,
                length: 1,
                day: k.0,
                subject: subj.clone(),
                subject_short: subj.clone(),
                room: rooms,
                substitution,
            },
        )
    }
}

/// Merges parallel lernbueros: for every slot and short subject one lernbuero
/// listing all teachers and rooms. Slots come in the order they first occur in
/// `lbs`, subjects within a slot likewise; entries that are no lernbuero are
/// left out.
pub fn merge_lernbueros(lbs: &Vec<FormattedLesson>) -> (res: Vec<FormattedLesson>)
    ensures
        lessons_view(res@) == merged_lernbueros(lessons_view(lbs@)),
{
    let ghost all = lessons_view(lbs@);
    let keys = slot_keys(lbs);
    let mut out: Vec<FormattedLesson> = Vec::new();
    let nk = keys.len();
    let mut j: usize = 0;
    while j < nk
        invariant
            nk == keys@.len(),
            keys@ == dedup(lb_keys(all)),
            all == lessons_view(lbs@),
            j <= nk,
            lessons_view(out@) == merge_slots(all, keys@.take(j as int)),
        decreases nk - j,
    {
        let k = keys[j];
        let subjs = subjects_at(lbs, k);
        let ghost ss = crate::text::strs_view(subjs@);
        let ghost out0 = lessons_view(out@);
        let ns = subjs.len();
        let mut m: usize = 0;
        assert(out0 + merge_subjects(all, k, ss.take(0)) =~= out0);
        while m < ns
            invariant
                ns == subjs@.len(),
                ss == crate::text::strs_view(subjs@),
                all == lessons_view(lbs@),
                m <= ns,
                lessons_view(out@) == out0 + merge_subjects(all, k, ss.take(m as int)),
            decreases ns - m,
        {
            proof {
                assert(ss.take(m + 1).drop_last() =~= ss.take(m as int));
                assert(ss.take(m + 1).last() == subjs@[m as int]@);
            }
            let ghost before = lessons_view(out@);
            match merge_entry(lbs, k, &subjs[m]) {
                Some(e) => {
                    let ghost ev = e@;
                    out.push(e);
                    proof {
                        assert(lessons_view(out@) =~= before.push(ev));
                        assert(before.push(ev) =~= out0 + (merge_subjects(all, k, ss.take(m as int)) + seq![ev]));
                    }
                },
                None => {
                    assert(before =~= out0 + (merge_subjects(all, k, ss.take(m as int)) + Seq::<LessonView>::empty()));
                },
            }
            m = m + 1;
        }
        proof {
            assert(ss.take(ns as int) =~= ss);
            assert(keys@.take(j + 1).drop_last() =~= keys@.take(j as int));
            assert(keys@.take(j + 1).last() == k);
        }
        j = j + 1;
    }
    assert(keys@.take(nk as int) =~= keys@);
    out
}

} // verus!
