use vstd::prelude::*;
use crate::untis::types::PeriodObject;

verus! {

/// The sort key of a period: its date, or its start time.
pub open spec fn pkey(p: PeriodObject, by_date: bool) -> u32 {
    if by_date {
        p.date
    } else {
        p.start_time as u32
    }
}

/// Where a period with key `k` goes into `s`: behind every element whose key is
/// at most `k` that follows the last element with a greater key.
pub open spec fn ins_pos(s: Seq<PeriodObject>, k: u32, by_date: bool) -> int
    decreases s.len(),
{
    if s.len() == 0 {
        0
    } else if pkey(s.last(), by_date) > k {
        ins_pos(s.drop_last(), k, by_date)
    } else {
        s.len() as int
    }
}

/// `s` sorted by key, stably: elements with equal keys keep their order.
pub open spec fn sorted_by(s: Seq<PeriodObject>, by_date: bool) -> Seq<PeriodObject>
    decreases s.len(),
{
    if s.len() == 0 {
        s
    } else {
        let r = sorted_by(s.drop_last(), by_date);
        r.insert(ins_pos(r, pkey(s.last(), by_date), by_date), s.last())
    }
}

pub proof fn lemma_ins_pos_bounds(s: Seq<PeriodObject>, k: u32, by_date: bool)
    ensures
        0 <= ins_pos(s, k, by_date) <= s.len(),
    decreases s.len(),
{
    if s.len() > 0 {
        lemma_ins_pos_bounds(s.drop_last(), k, by_date);
    }
}

pub proof fn lemma_sorted_len(s: Seq<PeriodObject>, by_date: bool)
    ensures
        sorted_by(s, by_date).len() == s.len(),
    decreases s.len(),
{
    if s.len() > 0 {
        lemma_sorted_len(s.drop_last(), by_date);
        lemma_ins_pos_bounds(sorted_by(s.drop_last(), by_date), pkey(s.last(), by_date), by_date);
    }
}

fn period_key(p: &PeriodObject, by_date: bool) -> (k: u32)
    ensures
        k == pkey(*p, by_date),
{
    if by_date {
        p.date
    } else {
        p.start_time as u32
    }
}

/// Sorts periods by date or by start time; periods with equal keys keep their order.
pub fn sort_periods(v: Vec<PeriodObject>, by_date: bool) -> (res: Vec<PeriodObject>)
    ensures
        res@ == sorted_by(v@, by_date),
{
    let ghost orig = v@;
    let mut rest = v;
    let mut res: Vec<PeriodObject> = Vec::new();
    let n = rest.len();
    let mut i: usize = 0;
    while i < n
        invariant
            n == orig.len(),
            i <= n,
            rest@ == orig.skip(i as int),
            res@ == sorted_by(orig.take(i as int), by_date),
        decreases n - i,
    {
        let x = rest.remove(0);
        let k = period_key(&x, by_date);
        let ghost r0 = res@;
        proof {
            lemma_sorted_len(orig.take(i as int), by_date);
        }
        let mut j = res.len();
        assert(r0.take(j as int) =~= r0);
        while j > 0 && period_key(&res[j - 1], by_date) > k
            invariant
                res@ == r0,
                j <= r0.len(),
                ins_pos(r0, k, by_date) == ins_pos(r0.take(j as int), k, by_date),
            decreases j,
        {
            assert(r0.take(j as int).drop_last() =~= r0.take(j - 1));
            j = j - 1;
        }
        proof {
            if j > 0 {
                assert(r0.take(j as int).last() == r0[j - 1]);
            }
            assert(r0.take(r0.len() as int) =~= r0);
            assert(orig.take(i + 1).drop_last() =~= orig.take(i as int));
            assert(orig.take(i + 1).last() == orig[i as int]);
            assert(x == orig[i as int]);
        }
        res.insert(j, x);
        proof {
            assert(rest@ =~= orig.skip(i + 1));
        }
        i = i + 1;
    }
    assert(orig.take(n as int) =~= orig);
    res
}

/// Scanning state of the date grouping: the finished groups, the date of the
/// group being filled, and that group.
pub open spec fn group_scan(s: Seq<PeriodObject>, start: u32) -> (
    Seq<Seq<PeriodObject>>,
    u32,
    Seq<PeriodObject>,
)
    decreases s.len(),
{
    if s.len() == 0 {
        (Seq::empty(), start, Seq::empty())
    } else {
        let (ds, date, cur) = group_scan(s.drop_last(), start);
        let l = s.last();
        if l.date != date {
            (ds.push(cur), l.date, seq![l])
        } else {
            (ds, date, cur.push(l))
        }
    }
}

/// The periods split into runs of equal date (the first run holds those dated
/// `start` and may be empty), each run sorted by start time.
pub open spec fn day_groups(s: Seq<PeriodObject>, start: u32) -> Seq<Seq<PeriodObject>> {
    let (ds, _d, cur) = group_scan(s, start);
    ds.push(cur).map_values(|g: Seq<PeriodObject>| sorted_by(g, false))
}

pub open spec fn groups_view(v: Seq<Vec<PeriodObject>>) -> Seq<Seq<PeriodObject>> {
    v.map_values(|g: Vec<PeriodObject>| g@)
}

/// Splits periods, already in date order, into runs of equal date, each sorted
/// by start time.
pub fn group_by_day(s: Vec<PeriodObject>, start: u32) -> (res: Vec<Vec<PeriodObject>>)
    ensures
        groups_view(res@) == day_groups(s@, start),
{
    let ghost orig = s@;
    let mut rest = s;
    let mut days: Vec<Vec<PeriodObject>> = Vec::new();
    let mut date = start;
    let mut day: Vec<PeriodObject> = Vec::new();
    let n = rest.len();
    let mut i: usize = 0;
    while i < n
        invariant
            n == orig.len(),
            i <= n,
            rest@ == orig.skip(i as int),
            ({
                let (ds, d, cur) = group_scan(orig.take(i as int), start);
                &&& groups_view(days@) == ds.map_values(
                    |g: Seq<PeriodObject>| sorted_by(g, false),
                )
                &&& date == d
                &&& day@ == cur
            }),
        decreases n - i,
    {
        let l = rest.remove(0);
        proof {
            assert(orig.take(i + 1).drop_last() =~= orig.take(i as int));
            assert(orig.take(i + 1).last() == orig[i as int]);
            assert(rest@ =~= orig.skip(i + 1));
        }
        let ghost old_days = days@;
        if l.date != date {
            let mut old_day: Vec<PeriodObject> = Vec::new();
            std::mem::swap(&mut old_day, &mut day);
            date = l.date;
            let sorted = sort_periods(old_day, false);
            days.push(sorted);
            day.push(l);
            proof {
                let (ds, d, cur) = group_scan(orig.take(i as int), start);
                assert(old_day@ == cur);
                assert(days@ == old_days.push(sorted));
                assert(groups_view(old_days) == ds.map_values(|g: Seq<PeriodObject>| sorted_by(g, false)));
                let lhs = groups_view(days@);
                let rhs = ds.push(cur).map_values(|g: Seq<PeriodObject>| sorted_by(g, false));
                assert(groups_view(old_days).len() == old_days.len());
                assert(ds.map_values(|g: Seq<PeriodObject>| sorted_by(g, false)).len() == ds.len());
                assert(old_days.len() == ds.len());
                assert(lhs.len() == days@.len());
                assert(lhs.len() == rhs.len());
                assert forall|k: int| 0 <= k < lhs.len() implies lhs[k] == rhs[k] by {
                    if k < old_days.len() {
                        assert(lhs[k] == old_days[k]@);
                        assert(groups_view(old_days)[k] == old_days[k]@);
                    } else {
                        assert(lhs[k] == sorted@);
                    }
                }
                assert(lhs =~= rhs);
                assert(day@ =~= seq![orig[i as int]]);
            }
        } else {
            day.push(l);
        }
        i = i + 1;
    }
    let ghost old_days_final = days@;
    let sorted = sort_periods(day, false);
    days.push(sorted);
    proof {
        assert(orig.take(n as int) =~= orig);
        let (ds, d, cur) = group_scan(orig, start);
        let lhs = groups_view(days@);
        let rhs = ds.push(cur).map_values(|g: Seq<PeriodObject>| sorted_by(g, false));
        assert forall|k: int| 0 <= k < lhs.len() implies lhs[k] == rhs[k] by {
            if k < old_days_final.len() {
                assert(lhs[k] == old_days_final[k]@);
                assert(groups_view(old_days_final)[k] == old_days_final[k]@);
            }
        }
        assert(lhs =~= rhs);
    }
    days
}

} // verus!
