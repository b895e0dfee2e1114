use vstd::prelude::*;
use crate::text::str_eq;
use crate::untis::types::{FormattedLesson, FormattedFreeRoom, LessonView, lessons_view};
use crate::untis::lernbueros::lb_room;
use crate::models::lb::Room;

verus! {

/// The abstract value of a [`FormattedFreeRoom`].
pub struct FreeRoomView {
    pub room: Seq<char>,
    pub day: usize,
    pub start: usize,
    pub length: usize,
}

impl View for FormattedFreeRoom {
    type V = FreeRoomView;

    open spec fn view(&self) -> FreeRoomView {
        FreeRoomView { room: self.room@, day: self.day, start: self.start, length: self.length }
    }
}

pub open spec fn free_view(v: Seq<FormattedFreeRoom>) -> Seq<FreeRoomView> {
    v.map_values(|r: FormattedFreeRoom| r@)
}

/// A lesson that the room grid can take: a school day (Monday to Friday) and
/// slots that stay within the ten slots of a day.
pub open spec fn grid_ok(l: LessonView) -> bool {
    &&& l.day < 5
    &&& 1 <= l.start
    &&& l.start - 1 + l.length >= 1
    &&& l.start - 1 + l.length <= 255
    &&& l.length >= 1 ==> l.start + l.length <= 11
}

/// The lesson takes the room `name` in slot `slot` (counted from 0) of `day`.
pub open spec fn blocks(l: LessonView, day: int, slot: int, name: Seq<char>) -> bool {
    &&& l.day == day
    &&& l.start - 1 <= slot <= l.start - 1 + l.length - 1
    &&& lb_room(l) == name
}

/// The room `name` is free in slot `slot` of `day`: no lesson takes it, and the
/// slot is not one of the Tuesday afternoon slots 8 to 10, in which no room is free.
pub open spec fn is_free(ls: Seq<LessonView>, day: int, slot: int, name: Seq<char>) -> bool {
    !(day == 1 && slot >= 7) && !exists|i: int| 0 <= i < ls.len() && #[trigger] blocks(ls[i], day, slot, name)
}

/// The free rooms of one slot, in the order of `rooms`.
pub open spec fn free_in_cell(ls: Seq<LessonView>, rooms: Seq<Room>, day: int, slot: int) -> Seq<
    FreeRoomView,
>
    decreases rooms.len(),
{
    if rooms.len() == 0 {
        Seq::empty()
    } else {
        let rest = free_in_cell(ls, rooms.drop_last(), day, slot);
        if is_free(ls, day, slot, rooms.last().name@) {
            rest.push(
                FreeRoomView {
                    room: rooms.last().name@,
                    day: day as usize,
                    start: (slot + 1) as usize,
                    length: 1,
                },
            )
        } else {
            rest
        }
    }
}

/// The free rooms of the first `k` slots of the week, slots counted Monday
/// first, ten per day.
pub open spec fn free_upto(ls: Seq<LessonView>, rooms: Seq<Room>, k: int) -> Seq<FreeRoomView>
    decreases k,
{
    if k <= 0 {
        Seq::empty()
    } else {
        free_upto(ls, rooms, k - 1) + free_in_cell(ls, rooms, (k - 1) / 10, (k - 1) % 10)
    }
}

/// The free rooms of the week: for Monday to Friday, slots 1 to 10, every room
/// that no lesson takes.
pub open spec fn free_rooms_of(ls: Seq<LessonView>, rooms: Seq<Room>) -> Seq<FreeRoomView> {
    free_upto(ls, rooms, 50)
}

fn lesson_room_name(l: &FormattedLesson) -> (res: String)
    ensures
        res@ == lb_room(l@),
{
    match &l.substitution {
        Some(x) => match &x.room {
            Some(r) => r.clone(),
            None => l.room.clone(),
        },
        None => l.room.clone(),
    }
}

fn taken(lessons: &Vec<FormattedLesson>, day: usize, slot: usize, name: &str) -> (res: bool)
    requires
        day < 5,
        slot < 10,
        forall|i: int| 0 <= i < lessons@.len() ==> grid_ok(#[trigger] lessons@[i]@),
    ensures
        res == exists|i: int|
            0 <= i < lessons@.len() && #[trigger] blocks(lessons_view(lessons@)[i], day as int, slot as int, name@),
{
    let n = lessons.len();
    let mut i: usize = 0;
    while i < n
        invariant
            n == lessons@.len(),
            i <= n,
            day < 5,
            slot < 10,
            forall|j: int| 0 <= j < lessons@.len() ==> grid_ok(#[trigger] lessons@[j]@),
            forall|j: int| 0 <= j < i ==> !#[trigger] blocks(lessons_view(lessons@)[j], day as int, slot as int, name@),
        decreases n - i,
    {
        let l = &lessons[i];
        assert(grid_ok(lessons@[i as int]@));
        assert(lessons_view(lessons@)[i as int] == l@);
        if l.day as usize == day && (l.start as usize) - 1 <= slot && slot <= (l.start as usize) - 1 + (l.length as usize) - 1 {
            let r = lesson_room_name(l);
            if str_eq(r.as_str(), name) {
                assert(blocks(lessons_view(lessons@)[i as int], day as int, slot as int, name@));
                return true;
            }
        }
        i = i + 1;
    }
    false
}

/// The rooms that are free in each slot of the week, given every lesson that
/// takes a room (timetables of all year groups and the lernbueros entered by
/// hand) and all rooms of the school.
pub fn free_rooms(lessons: &Vec<FormattedLesson>, rooms: &Vec<Room>) -> (res: Vec<FormattedFreeRoom>)
    requires
        forall|i: int| 0 <= i < lessons@.len() ==> grid_ok(#[trigger] lessons@[i]@),
    ensures
        free_view(res@) == free_rooms_of(lessons_view(lessons@), rooms@),
{
    let ghost ls = lessons_view(lessons@);
    let mut out: Vec<FormattedFreeRoom> = Vec::new();
    let mut k: usize = 0;
    let nr = rooms.len();
    while k < 50
        invariant
            ls == lessons_view(lessons@),
            nr == rooms@.len(),
            k <= 50,
            forall|i: int| 0 <= i < lessons@.len() ==> grid_ok(#[trigger] lessons@[i]@),
            free_view(out@) == free_upto(ls, rooms@, k as int),
        decreases 50 - k,
    {
        let day = k / 10;
        let slot = k % 10;
        let ghost out0 = free_view(out@);
        let mut r: usize = 0;
        assert(out0 =~= out0 + free_in_cell(ls, rooms@.take(0), day as int, slot as int));
        while r < nr
            invariant
                ls == lessons_view(lessons@),
                nr == rooms@.len(),
                day < 5,
                slot < 10,
                r <= nr,
                forall|i: int| 0 <= i < lessons@.len() ==> grid_ok(#[trigger] lessons@[i]@),
                free_view(out@) == out0 + free_in_cell(ls, rooms@.take(r as int), day as int, slot as int),
            decreases nr - r,
        {
            proof {
                assert(rooms@.take(r + 1).drop_last() =~= rooms@.take(r as int));
                assert(rooms@.take(r + 1).last() == rooms@[r as int]);
            }
            let name = rooms[r].name.as_str();
            let free = !(day == 1 && slot >= 7) && !taken(lessons, day, slot, name);
            if free {
                let ghost before = free_view(out@);
                let f = FormattedFreeRoom { room: rooms[r].name.clone(), day, start: slot + 1, length: 1 };
                out.push(f);
                proof {
                    assert(free_view(out@) =~= before.push(f@));
                    let prev = free_in_cell(ls, rooms@.take(r as int), day as int, slot as int);
                    assert(out0 + prev.push(f@) =~= (out0 + prev).push(f@));
                }
            }
            r = r + 1;
        }
        proof {
            assert(rooms@.take(nr as int) =~= rooms@);
        }
        k = k + 1;
    }
    out
}

} // verus!
