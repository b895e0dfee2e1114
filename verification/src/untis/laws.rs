use vstd::prelude::*;
use crate::untis::types::PeriodObject;
use crate::untis::sorting::{pkey, ins_pos, sorted_by, lemma_ins_pos_bounds};
use crate::untis::types::LessonView;
use crate::untis::lernbueros::{
    lb_filter, excluded_short, overwritten, without_overwritten, dedup, merged, merge_subjects,
    merge_slots, merged_lernbueros, lb_keys, slot_subjects, entries, opt_seq,
};
use crate::models::lb::{ManualLBOverwrite, Room, Teacher};
use crate::untis::lernbueros::expand_teachers;
use crate::untis::types::{TimegridUnits, Holidays};
use crate::untis::calendar::{
    chrono_add_days, chrono_parse_ymd, chrono_format_ymd, holiday_walk, holiday_days, period_holiday_days, overlaps,
};
use crate::text::parse_u32_spec;
use crate::untis::format::{
    format_step, format_day, format_days, formatted_lessons, lesson_slot, lesson_length, first_unit_at,
};
use crate::untis::dates::weekday_of;
use crate::untis::free_rooms::{FreeRoomView, is_free, free_in_cell, free_upto, free_rooms_of, blocks};

verus! {

/// The periods are in order of their keys.
pub open spec fn keys_sorted(s: Seq<PeriodObject>, by_date: bool) -> bool {
    forall|i: int, j: int| 0 <= i <= j < s.len() ==> pkey(#[trigger] s[i], by_date) <= pkey(#[trigger] s[j], by_date)
}

proof fn lemma_ins_pos_splits(r: Seq<PeriodObject>, k: u32, by_date: bool)
    requires
        keys_sorted(r, by_date),
    ensures
        forall|i: int| 0 <= i < ins_pos(r, k, by_date) ==> pkey(#[trigger] r[i], by_date) <= k,
        forall|i: int| ins_pos(r, k, by_date) <= i < r.len() ==> pkey(#[trigger] r[i], by_date) > k,
    decreases r.len(),
{
    lemma_ins_pos_bounds(r, k, by_date);
    if r.len() > 0 {
        if pkey(r.last(), by_date) > k {
            let d = r.drop_last();
            assert forall|i: int, j: int| 0 <= i <= j < d.len() implies pkey(#[trigger] d[i], by_date) <= pkey(#[trigger] d[j], by_date) by {
                assert(d[i] == r[i] && d[j] == r[j]);
            }
            lemma_ins_pos_splits(d, k, by_date);
            assert forall|i: int| 0 <= i < ins_pos(r, k, by_date) implies pkey(#[trigger] r[i], by_date) <= k by {
                assert(r[i] == d[i]);
            }
            assert forall|i: int| ins_pos(r, k, by_date) <= i < r.len() implies pkey(#[trigger] r[i], by_date) > k by {
                if i < r.len() - 1 {
                    assert(r[i] == d[i]);
                }
            }
        } else {
            assert forall|i: int| 0 <= i < ins_pos(r, k, by_date) implies pkey(#[trigger] r[i], by_date) <= k by {
                assert(pkey(r[i], by_date) <= pkey(r[r.len() - 1], by_date));
            }
        }
    }
}

/// Sorting periods by date or by start time gives them in order of that
/// key, and gives back exactly the periods it was given.
pub proof fn lemma_sorted_by(s: Seq<PeriodObject>, by_date: bool)
    ensures
        keys_sorted(sorted_by(s, by_date), by_date),
        sorted_by(s, by_date).to_multiset() =~= s.to_multiset(),
    decreases s.len(),
{
    if s.len() > 0 {
        let d = s.drop_last();
        let x = s.last();
        let k = pkey(x, by_date);
        lemma_sorted_by(d, by_date);
        let r = sorted_by(d, by_date);
        let p = ins_pos(r, k, by_date);
        lemma_ins_pos_bounds(r, k, by_date);
        lemma_ins_pos_splits(r, k, by_date);
        let t = r.insert(p, x);
        assert(sorted_by(s, by_date) == t);
        assert forall|i: int, j: int| 0 <= i <= j < t.len() implies pkey(#[trigger] t[i], by_date) <= pkey(#[trigger] t[j], by_date) by {
            if i < p {
                assert(t[i] == r[i]);
            } else if i > p {
                assert(t[i] == r[i - 1]);
            }
            if j < p {
                assert(t[j] == r[j]);
            } else if j > p {
                assert(t[j] == r[j - 1]);
            }
        }
        vstd::seq_lib::to_multiset_insert(r, p, x);
        assert(s =~= d.push(x));
        vstd::seq_lib::to_multiset_build(d, x);
    }
}

/// The lernbueros taken from a timetable are lernbueros, none of the
/// subjects that are not offered, and each is a lesson of the timetable.
pub proof fn lemma_lb_filter(ls: Seq<LessonView>)
    ensures
        forall|i: int| 0 <= i < lb_filter(ls).len() ==> (#[trigger] lb_filter(ls)[i]).is_lb
            && !excluded_short(lb_filter(ls)[i].subject_short) && ls.contains(lb_filter(ls)[i]),
        lb_filter(ls).len() <= ls.len(),
    decreases ls.len(),
{
    if ls.len() > 0 {
        let d = ls.drop_last();
        lemma_lb_filter(d);
        let f = lb_filter(ls);
        assert forall|i: int| 0 <= i < f.len() implies (#[trigger] f[i]).is_lb && !excluded_short(f[i].subject_short) && ls.contains(f[i]) by {
            if i < lb_filter(d).len() {
                assert(f[i] == lb_filter(d)[i]);
                let j = choose|j: int| 0 <= j < d.len() && d[j] == f[i];
                assert(ls[j] == d[j]);
            } else {
                assert(f[i] == ls.last());
                assert(ls[ls.len() - 1] == ls.last());
            }
        }
    }
}

/// After the overwrites, no lernbuero that an overwrite hides is left, and
/// every lernbuero that none hides is kept.
pub proof fn lemma_overwrites(ls: Seq<LessonView>, ows: Seq<ManualLBOverwrite>)
    ensures
        forall|i: int| 0 <= i < without_overwritten(ls, ows).len() ==> !overwritten(
            #[trigger] without_overwritten(ls, ows)[i],
            ows,
        ),
        forall|i: int| 0 <= i < ls.len() && !overwritten(#[trigger] ls[i], ows) ==> without_overwritten(ls, ows).contains(ls[i]),
    decreases ls.len(),
{
    if ls.len() > 0 {
        let d = ls.drop_last();
        lemma_overwrites(d, ows);
        let w = without_overwritten(ls, ows);
        let wd = without_overwritten(d, ows);
        assert forall|i: int| 0 <= i < w.len() implies !overwritten(#[trigger] w[i], ows) by {
            if i < wd.len() {
                assert(w[i] == wd[i]);
            }
        }
        assert forall|i: int| 0 <= i < ls.len() && !overwritten(#[trigger] ls[i], ows) implies w.contains(ls[i]) by {
            if i < d.len() {
                assert(ls[i] == d[i]);
                assert(wd.contains(d[i]));
                let j = choose|j: int| 0 <= j < wd.len() && wd[j] == d[i];
                assert(w[j] == wd[j]);
            } else {
                assert(w[w.len() - 1] == ls.last());
            }
        }
    }
}

/// `dedup(s)` holds each element of `s` once.
pub proof fn lemma_dedup<T>(s: Seq<T>)
    ensures
        dedup(s).no_duplicates(),
        forall|x: T| dedup(s).contains(x) <==> s.contains(x),
    decreases s.len(),
{
    if s.len() > 0 {
        let d = s.drop_last();
        lemma_dedup(d);
        let r = dedup(d);
        assert forall|x: T| dedup(s).contains(x) <==> s.contains(x) by {
            if s.contains(x) {
                let j = choose|j: int| 0 <= j < s.len() && s[j] == x;
                if j < d.len() {
                    assert(d[j] == x);
                    assert(d.contains(x));
                }
            }
            if d.contains(x) {
                let j = choose|j: int| 0 <= j < d.len() && d[j] == x;
                assert(s[j] == x);
            }
            if !r.contains(s.last()) {
                assert(r.push(s.last())[r.len() as int] == s.last());
                if r.push(s.last()).contains(x) {
                    let j = choose|j: int| 0 <= j < r.len() + 1 && r.push(s.last())[j] == x;
                    if j < r.len() {
                        assert(r[j] == x);
                    }
                }
                if r.contains(x) {
                    let j = choose|j: int| 0 <= j < r.len() && r[j] == x;
                    assert(r.push(s.last())[j] == x);
                }
            }
            assert(s[s.len() - 1] == s.last());
        }
    }
}

/// Where a merged lernbuero is shown: day, slot and short subject.
pub open spec fn slot_subject(v: LessonView) -> (u8, u8, Seq<char>) {
    (v.day, v.start, v.subject_short)
}

/// A merged lernbuero of slot `k`: a lernbuero of one slot in that slot.
pub open spec fn merged_shape(v: LessonView, k: (u8, u8)) -> bool {
    v.is_lb && v.length == 1 && v.day == k.0 && v.start == k.1
}

proof fn lemma_merge_subjects(ls: Seq<LessonView>, k: (u8, u8), subjs: Seq<Seq<char>>)
    requires
        subjs.no_duplicates(),
    ensures
        forall|i: int| 0 <= i < merge_subjects(ls, k, subjs).len() ==> merged_shape(#[trigger] merge_subjects(ls, k, subjs)[i], k)
            && subjs.contains(merge_subjects(ls, k, subjs)[i].subject_short),
        forall|i: int, j: int| 0 <= i < j < merge_subjects(ls, k, subjs).len()
            ==> (#[trigger] merge_subjects(ls, k, subjs)[i]).subject_short != (#[trigger] merge_subjects(ls, k, subjs)[j]).subject_short,
    decreases subjs.len(),
{
    if subjs.len() > 0 {
        let d = subjs.drop_last();
        let x = subjs.last();
        assert(d.no_duplicates()) by {
            assert forall|a: int, b: int| 0 <= a < d.len() && 0 <= b < d.len() && a != b implies d[a] != d[b] by {
                assert(d[a] == subjs[a] && d[b] == subjs[b]);
            }
        }
        assert(!d.contains(x)) by {
            if d.contains(x) {
                let j = choose|j: int| 0 <= j < d.len() && d[j] == x;
                assert(subjs[j] == subjs[subjs.len() - 1]);
            }
        }
        lemma_merge_subjects(ls, k, d);
        let pre = merge_subjects(ls, k, d);
        let add = opt_seq(merged(k, x, entries(ls, k, x)));
        let all = merge_subjects(ls, k, subjs);
        assert(all == pre + add);
        assert forall|i: int| 0 <= i < all.len() implies merged_shape(#[trigger] all[i], k) && subjs.contains(all[i].subject_short) by {
            if i < pre.len() {
                assert(all[i] == pre[i]);
                let j = choose|j: int| 0 <= j < d.len() && d[j] == pre[i].subject_short;
                assert(subjs[j] == d[j]);
            } else {
                assert(all[i] == add[i - pre.len()]);
                assert(subjs[subjs.len() - 1] == x);
            }
        }
        assert forall|i: int, j: int| 0 <= i < j < all.len() implies (#[trigger] all[i]).subject_short != (#[trigger] all[j]).subject_short by {
            if j < pre.len() {
                assert(all[i] == pre[i] && all[j] == pre[j]);
            } else if i < pre.len() {
                assert(all[i] == pre[i]);
                assert(all[j] == add[j - pre.len()]);
                assert(d.contains(pre[i].subject_short));
            } else {
                assert(add.len() <= 1);
            }
        }
    }
}

proof fn lemma_merge_slots(ls: Seq<LessonView>, keys: Seq<(u8, u8)>)
    requires
        keys.no_duplicates(),
    ensures
        forall|i: int| 0 <= i < merge_slots(ls, keys).len() ==> (#[trigger] merge_slots(ls, keys)[i]).is_lb
            && merge_slots(ls, keys)[i].length == 1 && keys.contains((merge_slots(ls, keys)[i].day, merge_slots(ls, keys)[i].start)),
        forall|i: int, j: int| 0 <= i < j < merge_slots(ls, keys).len()
            ==> slot_subject(#[trigger] merge_slots(ls, keys)[i]) != slot_subject(#[trigger] merge_slots(ls, keys)[j]),
    decreases keys.len(),
{
    if keys.len() > 0 {
        let d = keys.drop_last();
        let k = keys.last();
        assert(d.no_duplicates()) by {
            assert forall|a: int, b: int| 0 <= a < d.len() && 0 <= b < d.len() && a != b implies d[a] != d[b] by {
                assert(d[a] == keys[a] && d[b] == keys[b]);
            }
        }
        assert(!d.contains(k)) by {
            if d.contains(k) {
                let j = choose|j: int| 0 <= j < d.len() && d[j] == k;
                assert(keys[j] == keys[keys.len() - 1]);
            }
        }
        lemma_merge_slots(ls, d);
        let subjs = dedup(slot_subjects(ls, k));
        lemma_dedup(slot_subjects(ls, k));
        lemma_merge_subjects(ls, k, subjs);
        let pre = merge_slots(ls, d);
        let add = merge_subjects(ls, k, subjs);
        let all = merge_slots(ls, keys);
        assert(all == pre + add);
        assert forall|i: int| 0 <= i < all.len() implies (#[trigger] all[i]).is_lb && all[i].length == 1 && keys.contains((all[i].day, all[i].start)) by {
            if i < pre.len() {
                assert(all[i] == pre[i]);
                let j = choose|j: int| 0 <= j < d.len() && d[j] == (pre[i].day, pre[i].start);
                assert(keys[j] == d[j]);
            } else {
                assert(all[i] == add[i - pre.len()]);
                assert(merged_shape(add[i - pre.len()], k));
                assert(keys[keys.len() - 1] == k);
            }
        }
        assert forall|i: int, j: int| 0 <= i < j < all.len() implies slot_subject(#[trigger] all[i]) != slot_subject(#[trigger] all[j]) by {
            if j < pre.len() {
                assert(all[i] == pre[i] && all[j] == pre[j]);
            } else if i < pre.len() {
                assert(all[i] == pre[i]);
                assert(all[j] == add[j - pre.len()]);
                assert(merged_shape(add[j - pre.len()], k));
                assert(d.contains((pre[i].day, pre[i].start)));
            } else {
                assert(all[i] == add[i - pre.len()]);
                assert(all[j] == add[j - pre.len()]);
            }
        }
    }
}

/// The merged lernbueros of a week are lernbueros of one slot each, at most
/// one per slot and subject, and each in a slot where a lernbuero was given.
pub proof fn lemma_merged_lernbueros(ls: Seq<LessonView>)
    ensures
        forall|i: int| 0 <= i < merged_lernbueros(ls).len() ==> (#[trigger] merged_lernbueros(ls)[i]).is_lb
            && merged_lernbueros(ls)[i].length == 1 && lb_keys(ls).contains(
            (merged_lernbueros(ls)[i].day, merged_lernbueros(ls)[i].start),
        ),
        forall|i: int, j: int| 0 <= i < j < merged_lernbueros(ls).len()
            ==> slot_subject(#[trigger] merged_lernbueros(ls)[i]) != slot_subject(#[trigger] merged_lernbueros(ls)[j]),
{
    lemma_dedup(lb_keys(ls));
    lemma_merge_slots(ls, dedup(lb_keys(ls)));
}

/// A free room reported for `day` and slot `slot` (counted from 0): a room of
/// the school that is free then.
pub open spec fn reported_free(r: FreeRoomView, ls: Seq<LessonView>, rooms: Seq<Room>, day: int, slot: int) -> bool {
    &&& r.day == day
    &&& r.start == slot + 1
    &&& r.length == 1
    &&& exists|j: int| 0 <= j < rooms.len() && #[trigger] rooms[j].name@ == r.room
    &&& is_free(ls, day, slot, r.room)
}

proof fn lemma_free_in_cell(ls: Seq<LessonView>, rooms: Seq<Room>, day: int, slot: int)
    requires
        0 <= day < 5,
        0 <= slot < 10,
    ensures
        forall|i: int| 0 <= i < free_in_cell(ls, rooms, day, slot).len() ==> reported_free(
            #[trigger] free_in_cell(ls, rooms, day, slot)[i],
            ls,
            rooms,
            day,
            slot,
        ),
        forall|j: int| 0 <= j < rooms.len() && is_free(ls, day, slot, (#[trigger] rooms[j]).name@)
            ==> exists|i: int| 0 <= i < free_in_cell(ls, rooms, day, slot).len() && #[trigger] free_in_cell(ls, rooms, day, slot)[i].room == rooms[j].name@,
    decreases rooms.len(),
{
    if rooms.len() > 0 {
        let d = rooms.drop_last();
        lemma_free_in_cell(ls, d, day, slot);
        let pre = free_in_cell(ls, d, day, slot);
        let all = free_in_cell(ls, rooms, day, slot);
        assert forall|i: int| 0 <= i < all.len() implies reported_free(#[trigger] all[i], ls, rooms, day, slot) by {
            if i < pre.len() {
                assert(all[i] == pre[i]);
                assert(reported_free(pre[i], ls, d, day, slot));
                let j = choose|j: int| 0 <= j < d.len() && #[trigger] d[j].name@ == pre[i].room;
                assert(rooms[j] == d[j]);
            } else {
                assert(rooms[rooms.len() - 1] == rooms.last());
            }
        }
        assert forall|j: int| 0 <= j < rooms.len() && is_free(ls, day, slot, (#[trigger] rooms[j]).name@)
            implies exists|i: int| 0 <= i < all.len() && #[trigger] all[i].room == rooms[j].name@ by {
            if j < d.len() {
                assert(rooms[j] == d[j]);
                let i = choose|i: int| 0 <= i < pre.len() && #[trigger] pre[i].room == d[j].name@;
                assert(all[i] == pre[i]);
            } else {
                assert(all[pre.len() as int].room == rooms.last().name@);
            }
        }
    }
}

proof fn lemma_free_upto(ls: Seq<LessonView>, rooms: Seq<Room>, k: int)
    requires
        0 <= k <= 50,
    ensures
        forall|i: int| 0 <= i < free_upto(ls, rooms, k).len() ==> ({
            let r = #[trigger] free_upto(ls, rooms, k)[i];
            r.day < 5 && 0 <= r.start - 1 < 10 && (r.day * 10 + r.start - 1) < k && reported_free(r, ls, rooms, r.day as int, r.start - 1)
        }),
        forall|day: int, slot: int, j: int|
            0 <= day < 5 && 0 <= slot < 10 && day * 10 + slot < k && 0 <= j < rooms.len() && #[trigger] is_free(ls, day, slot, rooms[j].name@)
            ==> exists|i: int| 0 <= i < free_upto(ls, rooms, k).len() && (#[trigger] free_upto(ls, rooms, k)[i]).room == rooms[j].name@
                && free_upto(ls, rooms, k)[i].day == day && free_upto(ls, rooms, k)[i].start == slot + 1,
    decreases k,
{
    if k > 0 {
        lemma_free_upto(ls, rooms, k - 1);
        let day = (k - 1) / 10;
        let slot = (k - 1) % 10;
        lemma_free_in_cell(ls, rooms, day, slot);
        let pre = free_upto(ls, rooms, k - 1);
        let cell = free_in_cell(ls, rooms, day, slot);
        let all = free_upto(ls, rooms, k);
        assert(all == pre + cell);
        assert forall|i: int| 0 <= i < all.len() implies ({
            let r = #[trigger] all[i];
            r.day < 5 && 0 <= r.start - 1 < 10 && (r.day * 10 + r.start - 1) < k && reported_free(r, ls, rooms, r.day as int, r.start - 1)
        }) by {
            if i < pre.len() {
                assert(all[i] == pre[i]);
            } else {
                assert(all[i] == cell[i - pre.len()]);
                assert(reported_free(cell[i - pre.len()], ls, rooms, day, slot));
            }
        }
        assert forall|d: int, s: int, j: int|
            0 <= d < 5 && 0 <= s < 10 && d * 10 + s < k && 0 <= j < rooms.len() && #[trigger] is_free(ls, d, s, rooms[j].name@)
            implies exists|i: int| 0 <= i < all.len() && (#[trigger] all[i]).room == rooms[j].name@ && all[i].day == d && all[i].start == s + 1 by {
            if d * 10 + s < k - 1 {
                let i = choose|i: int| 0 <= i < pre.len() && (#[trigger] pre[i]).room == rooms[j].name@ && pre[i].day == d && pre[i].start == s + 1;
                assert(all[i] == pre[i]);
            } else {
                assert(d == day && s == slot);
                let i = choose|i: int| 0 <= i < cell.len() && #[trigger] cell[i].room == rooms[j].name@;
                assert(all[pre.len() + i] == cell[i]);
                assert(reported_free(cell[i], ls, rooms, day, slot));
            }
        }
    }
}

/// The free rooms of a week are exactly the rooms of the school that are
/// free in a slot: every room reported for a day (Monday to Friday) and slot
/// (1 to 10) is a room of the school that no lesson takes then, outside the
/// Tuesday afternoon; and every such room is reported.
pub proof fn lemma_free_rooms(ls: Seq<LessonView>, rooms: Seq<Room>)
    ensures
        forall|i: int| 0 <= i < free_rooms_of(ls, rooms).len() ==> ({
            let r = #[trigger] free_rooms_of(ls, rooms)[i];
            r.day < 5 && 1 <= r.start <= 10 && reported_free(r, ls, rooms, r.day as int, r.start - 1)
        }),
        forall|day: int, slot: int, j: int|
            0 <= day < 5 && 0 <= slot < 10 && 0 <= j < rooms.len() && #[trigger] is_free(ls, day, slot, rooms[j].name@)
            ==> exists|i: int| 0 <= i < free_rooms_of(ls, rooms).len() && (#[trigger] free_rooms_of(ls, rooms)[i]).room == rooms[j].name@
                && free_rooms_of(ls, rooms)[i].day == day && free_rooms_of(ls, rooms)[i].start == slot + 1,
{
    lemma_free_upto(ls, rooms, 50);
    assert forall|day: int, slot: int, j: int|
        0 <= day < 5 && 0 <= slot < 10 && 0 <= j < rooms.len() && #[trigger] is_free(ls, day, slot, rooms[j].name@)
        implies exists|i: int| 0 <= i < free_rooms_of(ls, rooms).len() && (#[trigger] free_rooms_of(ls, rooms)[i]).room == rooms[j].name@
            && free_rooms_of(ls, rooms)[i].day == day && free_rooms_of(ls, rooms)[i].start == slot + 1 by {
        assert(day * 10 + slot < 50);
        let f = free_upto(ls, rooms, 50);
        assert(free_rooms_of(ls, rooms) == f);
        let i = choose|i: int| 0 <= i < f.len() && (#[trigger] f[i]).room == rooms[j].name@ && f[i].day == day && f[i].start == slot + 1;
        assert(free_rooms_of(ls, rooms)[i] == f[i]);
    }
}

/// A lesson as the frontend can show it: a lernbuero takes one slot, a
/// lesson one to ten slots, on a week day, from slot 1 on.
pub open spec fn lesson_ok(v: LessonView) -> bool {
    &&& v.is_lb ==> v.length == 1
    &&& v.is_lb ==> no_lernbuero_place(v.room, v.subject)
    &&& 1 <= v.length <= 10
    &&& v.day < 7
    &&& v.start >= 1
}

proof fn lemma_step_ok(skip: Map<u16, u8>, l: PeriodObject, day: Seq<PeriodObject>, tg: Seq<TimegridUnits>)
    ensures
        format_step(skip, l, day, tg) matches Ok((_, Some(v))) ==> lesson_ok(v),
{
    reveal(format_step);
    let units = tg[weekday_of(l.date)].time_units@;
    if exists|i: int| first_unit_at(units, l.start_time, i) {
        let i = choose|i: int| first_unit_at(units, l.start_time, i);
        assert(lesson_slot(l, tg) == i + 1);
    }
    assert(lesson_slot(l, tg) >= 1);
    let len = lesson_length(l, day);
    assert(1 <= len <= 10) by {
        let diff = crate::untis::format::minus16(l.end_time, l.start_time);
        if diff > 85 {
            assert(diff / 85 >= 1);
        }
    }
    assert(0 <= weekday_of(l.date) < 7);
    if lesson_slot(l, tg) <= 255 {
        assert((lesson_slot(l, tg) as u8) as int == lesson_slot(l, tg));
        assert((weekday_of(l.date) as u8) as int == weekday_of(l.date));
        let v = crate::untis::format::lesson_view(l, day, tg);
        assert(v.is_lb ==> v.length == 1);
        assert(lesson_ok(v));
    }
}

proof fn lemma_day_ok(skip: Map<u16, u8>, ls: Seq<PeriodObject>, day: Seq<PeriodObject>, tg: Seq<TimegridUnits>)
    ensures
        format_day(skip, ls, day, tg) matches Ok((_, out)) ==> forall|i: int| 0 <= i < out.len() ==> lesson_ok(#[trigger] out[i]),
    decreases ls.len(),
{
    if ls.len() > 0 {
        lemma_day_ok(skip, ls.drop_last(), day, tg);
        match format_day(skip, ls.drop_last(), day, tg) {
            Ok((sk, out)) => {
                lemma_step_ok(sk, ls.last(), day, tg);
            },
            Err(_) => {},
        }
    }
}

proof fn lemma_days_ok(days: Seq<Seq<PeriodObject>>, tg: Seq<TimegridUnits>)
    ensures
        format_days(days, tg) matches Ok((_, out)) ==> forall|i: int| 0 <= i < out.len() ==> lesson_ok(#[trigger] out[i]),
    decreases days.len(),
{
    if days.len() > 0 {
        lemma_days_ok(days.drop_last(), tg);
        match format_days(days.drop_last(), tg) {
            Ok((sk, out)) => {
                lemma_day_ok(sk, days.last(), days.last(), tg);
                match format_day(sk, days.last(), days.last(), tg) {
                    Ok((_, o2)) => {
                        assert forall|i: int| 0 <= i < (out + o2).len() implies lesson_ok(#[trigger] (out + o2)[i]) by {
                            if i < out.len() {
                                assert((out + o2)[i] == out[i]);
                            } else {
                                assert((out + o2)[i] == o2[i - out.len()]);
                            }
                        }
                    },
                    Err(_) => {},
                }
            },
            Err(_) => {},
        }
    }
}

/// Every lesson of a formatted timetable can be shown: a lernbuero takes one
/// slot, is held in no gym ("TH"), art room ("KU") or pool ("Bad"), and is no
/// placeholder ("N/A"), deepening course ("VX") or additional course ("Z");
/// any lesson takes one to ten slots, on a week day, from slot 1 on.
pub proof fn lemma_formatted_lessons(lessons: Seq<PeriodObject>, start_date: u32, tg: Seq<TimegridUnits>)
    ensures
        formatted_lessons(lessons, start_date, tg) matches Ok(v) ==> forall|i: int| 0 <= i < v.len() ==> lesson_ok(#[trigger] v[i]),
{
    lemma_days_ok(crate::untis::sorting::day_groups(sorted_by(lessons, true), start_date), tg);
}

/// `c` is the lernbuero `lb` shown for the subject `k` of its teacher `t`:
/// same day and slot, the teacher's short name and that subject, and it
/// takes place in the room named by the substitution of `lb` when one is
/// named (and not empty), else in the room of `lb`.
pub open spec fn shown_for_subject(c: LessonView, lb: LessonView, t: Option<Teacher>, k: int) -> bool {
    &&& t is Some
    &&& 0 <= k < t->0.lessons@.len()
    &&& c.day == lb.day
    &&& c.start == lb.start
    &&& c.teacher == t->0.shortname@
    &&& c.subject == t->0.lessons@[k]@
    &&& c.room == (match lb.substitution {
        Some(sub) => match sub.room {
            Some(r) => if r.len() > 0 { r } else { lb.room },
            None => lb.room,
        },
        None => lb.room,
    })
}

/// Some lernbuero of `expand_teachers(lbs, ts)` is `lbs[i]` shown for the
/// subject `k` of its teacher.
pub open spec fn copied(lbs: Seq<LessonView>, ts: Seq<Option<Teacher>>, i: int, k: int) -> bool {
    exists|j: int| 0 <= j < expand_teachers(lbs, ts).len() && shown_for_subject(#[trigger] expand_teachers(lbs, ts)[j], lbs[i], ts[i], k)
}

/// `c` is one of the lernbueros `lbs` shown for a subject of its teacher.
pub open spec fn copy_of_some(lbs: Seq<LessonView>, ts: Seq<Option<Teacher>>, c: LessonView) -> bool {
    exists|i: int, k: int| 0 <= i < lbs.len() && #[trigger] shown_for_subject(c, lbs[i], ts[i], k)
}

/// Every copy of a lernbuero for a subject of its teacher takes place where the
/// lernbuero does: in the room named by its substitution when one is named
/// (and not empty), else in its own room; it keeps day and slot, and is
/// shown with the teacher's short name and that subject. Each subject of the
/// teacher of each lernbuero gets such a copy. `ts[i]` is the teacher of
/// `lbs[i]`.
pub proof fn lemma_lernbuero_copies_keep_place(lbs: Seq<LessonView>, ts: Seq<Option<Teacher>>)
    requires
        lbs.len() == ts.len(),
    ensures
        forall|j: int| 0 <= j < expand_teachers(lbs, ts).len() ==> copy_of_some(lbs, ts, #[trigger] expand_teachers(lbs, ts)[j]),
        forall|i: int, k: int| 0 <= i < lbs.len() && ts[i] is Some && 0 <= k < ts[i]->0.lessons@.len() ==> #[trigger] copied(lbs, ts, i, k),
    decreases lbs.len(),
{
    let e = expand_teachers(lbs, ts);
    if lbs.len() > 0 {
        let dl = lbs.drop_last();
        let dt = ts.drop_last();
        lemma_lernbuero_copies_keep_place(dl, dt);
        let pre = expand_teachers(dl, dt);
        let n = lbs.len() - 1;
        assert forall|j: int| 0 <= j < e.len() implies copy_of_some(lbs, ts, #[trigger] expand_teachers(lbs, ts)[j]) by {
            if j < pre.len() {
                assert(e[j] == pre[j]);
                assert(copy_of_some(dl, dt, pre[j]));
                let (i, k) = choose|i: int, k: int| 0 <= i < dl.len() && #[trigger] shown_for_subject(pre[j], dl[i], dt[i], k);
                assert(dl[i] == lbs[i] && dt[i] == ts[i]);
                assert(shown_for_subject(e[j], lbs[i], ts[i], k));
            } else {
                let t = ts[n]->0;
                let k = j - pre.len();
                assert(e[j] == crate::untis::lernbueros::teacher_copies(lbs[n], t)[k]);
                assert(lbs.last() == lbs[n]);
                assert(shown_for_subject(e[j], lbs[n], ts[n], k));
            }
        }
        assert forall|i: int, k: int| 0 <= i < lbs.len() && ts[i] is Some && 0 <= k < ts[i]->0.lessons@.len() implies #[trigger] copied(lbs, ts, i, k) by {
            if i < n {
                assert(dl[i] == lbs[i] && dt[i] == ts[i]);
                assert(copied(dl, dt, i, k));
                let j = choose|j: int| 0 <= j < pre.len() && shown_for_subject(#[trigger] expand_teachers(dl, dt)[j], dl[i], dt[i], k);
                assert(e[j] == pre[j]);
                assert(shown_for_subject(e[j], lbs[i], ts[i], k));
            } else {
                let t = ts[n]->0;
                let j = pre.len() + k;
                assert(e[j] == crate::untis::lernbueros::teacher_copies(lbs[n], t)[k]);
                assert(lbs.last() == lbs[n]);
                assert(shown_for_subject(e[j], lbs[n], ts[n], k));
            }
        }
    } else {
        assert(e.len() == 0);
    }
}

/// Neither the room nor the subject rules a lesson out as a lernbuero: the
/// room is no gym ("TH"), art room ("KU") or pool ("Bad"), the subject no
/// placeholder ("N/A"), deepening course ("VX") or additional course ("Z").
pub open spec fn no_lernbuero_place(room: Seq<char>, subject: Seq<char>) -> bool {
    &&& !crate::text::has_substr(room, "TH"@)
    &&& !crate::text::has_substr(room, "KU"@)
    &&& !crate::text::has_substr(room, "Bad"@)
    &&& !crate::text::has_substr(subject, "N/A"@)
    &&& !crate::text::has_substr(subject, "VX"@)
    &&& !subject.contains('Z')
}

/// A period shown as a lernbuero takes one slot, is no exam (its student
/// group does not start with "EXAM"), and is held in a room and for a subject
/// that do not rule it out.
pub proof fn lemma_lernbuero_flag(l: PeriodObject, day: Seq<PeriodObject>)
    ensures
        crate::untis::format::lesson_view_parts(l, day).is_lb ==> {
            let v = crate::untis::format::lesson_view_parts(l, day);
            &&& v.length == 1
            &&& !(l.sg matches Some(g) && crate::text::has_prefix(g@, "EXAM"@))
            &&& no_lernbuero_place(v.room, v.subject)
        },
{
}

/// The room a lesson takes place in: the room its substitution names, when
/// one is named, else its own room.
pub open spec fn place_of(l: LessonView) -> Seq<char> {
    match l.substitution {
        Some(sub) => match sub.room {
            Some(r) => r,
            None => l.room,
        },
        None => l.room,
    }
}

/// No lesson of slot `slot` (counted from 0) of `day` takes place in the
/// room `name`.
pub open spec fn no_lesson_in(ls: Seq<LessonView>, day: int, slot: int, name: Seq<char>) -> bool {
    forall|k: int|
        0 <= k < ls.len() && ls[k].day == day && ls[k].start <= slot + 1 <= ls[k].start + ls[k].length - 1
            ==> place_of(#[trigger] ls[k]) != name
}

/// A room reported free in a slot is no room that a lesson of that slot
/// takes place in; and every room of the school that no lesson of a slot
/// takes place in is reported free in it (outside the Tuesday afternoon
/// slots 8 to 10).
pub proof fn lemma_free_rooms_not_in_use(ls: Seq<LessonView>, rooms: Seq<Room>)
    ensures
        forall|i: int, k: int|
            0 <= i < free_rooms_of(ls, rooms).len() && 0 <= k < ls.len() && ls[k].day == (#[trigger] free_rooms_of(ls, rooms)[i]).day
                && ls[k].start <= free_rooms_of(ls, rooms)[i].start <= ls[k].start + ls[k].length - 1
                ==> free_rooms_of(ls, rooms)[i].room != place_of(#[trigger] ls[k]),
        forall|day: int, slot: int, j: int|
            0 <= day < 5 && 0 <= slot < 10 && !(day == 1 && slot >= 7) && 0 <= j < rooms.len() && #[trigger] no_lesson_in(
                ls,
                day,
                slot,
                rooms[j].name@,
            ) ==> exists|i: int|
                0 <= i < free_rooms_of(ls, rooms).len() && (#[trigger] free_rooms_of(ls, rooms)[i]).room == rooms[j].name@
                    && free_rooms_of(ls, rooms)[i].day == day && free_rooms_of(ls, rooms)[i].start == slot + 1,
{
    lemma_free_rooms(ls, rooms);
    let f = free_rooms_of(ls, rooms);
    assert forall|i: int, k: int|
        0 <= i < f.len() && 0 <= k < ls.len() && ls[k].day == (#[trigger] free_rooms_of(ls, rooms)[i]).day
            && ls[k].start <= f[i].start <= ls[k].start + ls[k].length - 1
        implies f[i].room != place_of(#[trigger] ls[k]) by {
        let r = f[i];
        assert(reported_free(r, ls, rooms, r.day as int, r.start - 1));
        if r.room == place_of(ls[k]) {
            assert(blocks(ls[k], r.day as int, r.start - 1, r.room));
        }
    }
    assert forall|day: int, slot: int, j: int|
        0 <= day < 5 && 0 <= slot < 10 && !(day == 1 && slot >= 7) && 0 <= j < rooms.len() && #[trigger] no_lesson_in(
            ls,
            day,
            slot,
            rooms[j].name@,
        ) implies exists|i: int|
            0 <= i < f.len() && (#[trigger] free_rooms_of(ls, rooms)[i]).room == rooms[j].name@
                && f[i].day == day && f[i].start == slot + 1 by {
        assert(is_free(ls, day, slot, rooms[j].name@)) by {
            if exists|k: int| 0 <= k < ls.len() && #[trigger] blocks(ls[k], day, slot, rooms[j].name@) {
                let k = choose|k: int| 0 <= k < ls.len() && #[trigger] blocks(ls[k], day, slot, rooms[j].name@);
                assert(place_of(ls[k]) == rooms[j].name@);
            }
        }
    }
}

/// The name a holiday is shown with: its long name, else its name.
pub open spec fn shown_name(h: Holidays) -> Seq<char> {
    match h.longname {
        Some(l) => l@,
        None => h.name@,
    }
}

/// The `i`-th day of a walk from day number `s` is `s + i`, whenever chrono
/// can represent it.
pub open spec fn counts_forward(s: i32, n: int) -> bool {
    forall|i: int| 0 <= i <= n ==> (#[trigger] chrono_add_days(s, i as u64) matches Some(d) ==> d == s + i)
}

/// A walk that went on without error keeps what an earlier part of it found.
proof fn lemma_walk_grows(h: Holidays, s: i32, k1: nat, k2: nat)
    requires
        k1 <= k2,
        holiday_walk(h, s, k2) is Ok,
    ensures
        holiday_walk(h, s, k1) is Ok,
        holiday_walk(h, s, k1)->Ok_0.0.len() <= holiday_walk(h, s, k2)->Ok_0.0.len(),
        holiday_walk(h, s, k2)->Ok_0.0.take(holiday_walk(h, s, k1)->Ok_0.0.len() as int) == holiday_walk(h, s, k1)->Ok_0.0,
    decreases k2 - k1,
{
    if k1 < k2 {
        let k = (k2 - 1) as nat;
        lemma_walk_grows(h, s, k1, k);
        let a = holiday_walk(h, s, k1)->Ok_0.0;
        let b = holiday_walk(h, s, k)->Ok_0.0;
        let c = holiday_walk(h, s, k2)->Ok_0.0;
        if !holiday_walk(h, s, k)->Ok_0.1 {
            assert(c == b || c == b.drop_last() + seq![c.last()] || c.len() == b.len() + 1);
            if c.len() == b.len() + 1 {
                assert(c.take(b.len() as int) == b);
                assert(c.take(a.len() as int) =~= b.take(a.len() as int));
            }
        }
    } else {
        let a = holiday_walk(h, s, k1)->Ok_0.0;
        assert(a.take(a.len() as int) =~= a);
    }
}

/// Before a day of the holiday, the walk has not stopped.
proof fn lemma_walk_goes_on(h: Holidays, s: i32, k: nat, he: i32)
    requires
        chrono_parse_ymd(h.end_date) == Ok::<i32, Seq<char>>(he),
        counts_forward(s, k as int),
        s + k <= he,
        holiday_walk(h, s, k) is Ok,
    ensures
        !holiday_walk(h, s, k)->Ok_0.1,
    decreases k,
{
    if k > 0 {
        let j = (k - 1) as nat;
        lemma_walk_grows(h, s, j, k);
        assert(counts_forward(s, j as int));
        lemma_walk_goes_on(h, s, j, he);
        assert(chrono_add_days(s, j as u64) matches Some(d) ==> d == s + j);
    }
}

/// Every day of the period that the holiday covers gets a holiday entry: for
/// every step `i` of the period whose day chrono gives (and writes), when
/// that day lies between the holiday's first and last day, the holiday's
/// days hold that day with the holiday's name. Days are counted forward by
/// chrono.
pub proof fn lemma_holiday_days_complete(h: Holidays, start: u32, end: u32, i: int, date: i32, v: u32)
    requires
        chrono_parse_ymd(start) is Ok,
        chrono_parse_ymd(end) is Ok,
        0 <= i <= chrono_parse_ymd(end)->Ok_0 - chrono_parse_ymd(start)->Ok_0,
        counts_forward(chrono_parse_ymd(start)->Ok_0, i),
        chrono_add_days(chrono_parse_ymd(start)->Ok_0, i as u64) == Some(date),
        chrono_parse_ymd(h.start_date) matches Ok(hs) && hs <= date,
        chrono_parse_ymd(h.end_date) matches Ok(he) && date <= he,
        chrono_format_ymd(date) matches Some(t) && parse_u32_spec(t) == Ok::<u32, crate::text::IntErrorKind>(v),
        holiday_days(h, start, end) is Ok,
    ensures
        holiday_days(h, start, end)->Ok_0.contains((v, shown_name(h))),
{
    let s = chrono_parse_ymd(start)->Ok_0;
    let e = chrono_parse_ymd(end)->Ok_0;
    let count = (e - s + 1) as nat;
    let he = chrono_parse_ymd(h.end_date)->Ok_0;
    assert(holiday_walk(h, s, count) is Ok);
    lemma_walk_grows(h, s, (i + 1) as nat, count);
    lemma_walk_grows(h, s, i as nat, (i + 1) as nat);
    assert(chrono_add_days(s, i as u64) matches Some(d) ==> d == s + i);
    lemma_walk_goes_on(h, s, i as nat, he);
    let a = holiday_walk(h, s, (i + 1) as nat)->Ok_0.0;
    let c = holiday_walk(h, s, count)->Ok_0.0;
    assert(a.last() == (v, shown_name(h)));
    assert(c[a.len() - 1] == a.take(a.len() as int)[a.len() - 1]);
    assert(c.take(a.len() as int)[a.len() - 1] == c[a.len() - 1]);
}

/// The holiday days of the period hold the days of each holiday of `hs` that
/// overlaps it.
proof fn lemma_period_holds_holiday(hs: Seq<Holidays>, start: u32, end: u32, j: int)
    requires
        0 <= j < hs.len(),
        overlaps(hs[j], start, end),
        period_holiday_days(hs, start, end) is Ok,
    ensures
        holiday_days(hs[j], start, end) is Ok,
        forall|x: (u32, Seq<char>)| holiday_days(hs[j], start, end)->Ok_0.contains(x)
            ==> #[trigger] period_holiday_days(hs, start, end)->Ok_0.contains(x),
    decreases hs.len(),
{
    let d = hs.drop_last();
    let out = period_holiday_days(d, start, end);
    if j < hs.len() - 1 {
        assert(d[j] == hs[j]);
        lemma_period_holds_holiday(d, start, end, j);
        let all = period_holiday_days(hs, start, end)->Ok_0;
        assert forall|x: (u32, Seq<char>)| holiday_days(hs[j], start, end)->Ok_0.contains(x)
            implies #[trigger] period_holiday_days(hs, start, end)->Ok_0.contains(x) by {
            assert(out->Ok_0.contains(x));
            let k = choose|k: int| 0 <= k < out->Ok_0.len() && out->Ok_0[k] == x;
            if overlaps(hs.last(), start, end) {
                assert(all[k] == x);
            }
        }
    } else {
        let all = period_holiday_days(hs, start, end)->Ok_0;
        let o2 = holiday_days(hs[j], start, end)->Ok_0;
        assert forall|x: (u32, Seq<char>)| holiday_days(hs[j], start, end)->Ok_0.contains(x)
            implies #[trigger] period_holiday_days(hs, start, end)->Ok_0.contains(x) by {
            let k = choose|k: int| 0 <= k < o2.len() && o2[k] == x;
            assert(all[out->Ok_0.len() + k] == x);
        }
    }
}

/// The holidays of a period, as its timetable shows them, cover every day of
/// the period that lies within a holiday overlapping it: for each such
/// holiday and each day of the period that chrono gives (and writes), from
/// the holiday's first to its last day, the result holds that day with the
/// holiday's name. Days are counted forward by chrono.
pub proof fn lemma_period_holidays_complete(hs: Seq<Holidays>, start: u32, end: u32, j: int, i: int, date: i32, v: u32)
    requires
        0 <= j < hs.len(),
        overlaps(hs[j], start, end),
        chrono_parse_ymd(start) is Ok,
        chrono_parse_ymd(end) is Ok,
        0 <= i <= chrono_parse_ymd(end)->Ok_0 - chrono_parse_ymd(start)->Ok_0,
        counts_forward(chrono_parse_ymd(start)->Ok_0, i),
        chrono_add_days(chrono_parse_ymd(start)->Ok_0, i as u64) == Some(date),
        chrono_parse_ymd(hs[j].start_date) matches Ok(first) && first <= date,
        chrono_parse_ymd(hs[j].end_date) matches Ok(last) && date <= last,
        chrono_format_ymd(date) matches Some(t) && parse_u32_spec(t) == Ok::<u32, crate::text::IntErrorKind>(v),
        period_holiday_days(hs, start, end) is Ok,
    ensures
        period_holiday_days(hs, start, end)->Ok_0.contains((v, shown_name(hs[j]))),
{
    lemma_period_holds_holiday(hs, start, end, j);
    lemma_holiday_days_complete(hs[j], start, end, i, date, v);
}

} // verus!
