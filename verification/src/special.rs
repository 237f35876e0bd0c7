//! Special days, and the index that finds the special days of a date.

use std::collections::HashMap;
use vstd::prelude::*;
use crate::date::Date;

verus! {

/// An annotated date: a holiday or a note.
#[derive(Clone, Debug, PartialEq, Eq)]
pub struct SpecialDay {
    pub date: Date,
    pub name: String,
    pub is_holiday: bool,
}

/// The special days that fall on `date`, in the order in which `days` holds
/// them.
pub open spec fn entries_on(days: Seq<SpecialDay>, date: Date) -> Seq<SpecialDay>
    decreases days.len(),
{
    if days.len() == 0 {
        Seq::empty()
    } else {
        let before = entries_on(days.drop_last(), date);
        if days.last().date == date {
            before.push(days.last())
        } else {
            before
        }
    }
}

/// Whether one of the special days on `date` is a holiday.
pub open spec fn is_holiday_on(days: Seq<SpecialDay>, date: Date) -> bool {
    exists|j: int|
        0 <= j < entries_on(days, date).len() && (#[trigger] entries_on(days, date)[j]).is_holiday
}

/// The texts joined into one, with `sep` between each two neighbours.
pub open spec fn joined(parts: Seq<Seq<char>>, sep: Seq<char>) -> Seq<char>
    decreases parts.len(),
{
    if parts.len() == 0 {
        Seq::empty()
    } else if parts.len() == 1 {
        parts[0]
    } else {
        joined(parts.drop_last(), sep) + sep + parts.last()
    }
}

/// The names of the given special days, in their order.
pub open spec fn names_of(entries: Seq<SpecialDay>) -> Seq<Seq<char>> {
    Seq::new(entries.len(), |j: int| entries[j].name@)
}

/// What is shown for `date`: the names of its special days in input order,
/// joined by a comma and a space; empty where the date has none.
pub open spec fn holiday_name_on(days: Seq<SpecialDay>, date: Date) -> Seq<char> {
    joined(names_of(entries_on(days, date)), seq![',', ' '])
}

/// The number under which the index files a date. No two dates share one.
pub open spec fn date_key(date: Date) -> int {
    ((date.year + 2147483648) * 4294967296 + date.month) * 4294967296 + date.day
}

/// The special days of `days` at the given positions.
pub open spec fn picked(days: Seq<SpecialDay>, positions: Seq<usize>) -> Seq<SpecialDay> {
    Seq::new(positions.len(), |j: int| days[positions[j] as int])
}

/// Whether `positions` lists, in order, where the special days of `date`
/// stand among the first `n` of `days`.
pub open spec fn positions_match(
    days: Seq<SpecialDay>,
    n: int,
    positions: Seq<usize>,
    date: Date,
) -> bool {
    &&& forall|j: int| 0 <= j < positions.len() ==> 0 <= #[trigger] positions[j] < n
    &&& picked(days, positions) == entries_on(days.take(n), date)
}

/// Dates with the same key are the same date.
pub proof fn lemma_date_key_injective(a: Date, b: Date)
    requires
        date_key(a) == date_key(b),
    ensures
        a == b,
{
    let ka = (a.year + 2147483648) * 4294967296 + a.month;
    let kb = (b.year + 2147483648) * 4294967296 + b.month;
    lemma_split_is_unique(ka, a.day as int, kb, b.day as int);
    lemma_split_is_unique(a.year + 2147483648, a.month as int, b.year + 2147483648, b.month as int);
}

/// A number has one way of being written as a multiple of 2^32 plus a rest
/// below 2^32.
proof fn lemma_split_is_unique(q1: int, r1: int, q2: int, r2: int)
    requires
        0 <= r1 < 4294967296,
        0 <= r2 < 4294967296,
        q1 * 4294967296 + r1 == q2 * 4294967296 + r2,
    ensures
        q1 == q2,
        r1 == r2,
{
    if q1 > q2 {
        assert(q1 * 4294967296 >= (q2 + 1) * 4294967296);
    } else if q1 < q2 {
        assert(q2 * 4294967296 >= (q1 + 1) * 4294967296);
    }
}

/// Every special day found on a date carries that date, and stands in `days`.
pub proof fn lemma_entries_on_sound(days: Seq<SpecialDay>, date: Date, j: int)
    requires
        0 <= j < entries_on(days, date).len(),
    ensures
        entries_on(days, date)[j].date == date,
        days.contains(entries_on(days, date)[j]),
    decreases days.len(),
{
    if days.len() > 0 {
        let before = entries_on(days.drop_last(), date);
        if j < before.len() {
            lemma_entries_on_sound(days.drop_last(), date, j);
            let i = choose|i: int| 0 <= i < days.drop_last().len() && days.drop_last()[i] == before[j];
            assert(days[i] == before[j]);
        } else {
            assert(days[days.len() - 1] == days.last());
        }
    }
}

/// No special day is dropped: each one of `days` is found on its own date.
pub proof fn lemma_entries_on_complete(days: Seq<SpecialDay>, i: int)
    requires
        0 <= i < days.len(),
    ensures
        entries_on(days, days[i].date).contains(days[i]),
    decreases days.len(),
{
    let date = days[i].date;
    let before = entries_on(days.drop_last(), date);
    if i == days.len() - 1 {
        assert(entries_on(days, date)[before.len() as int] == days[i]);
    } else {
        lemma_entries_on_complete(days.drop_last(), i);
        let j = choose|j: int| 0 <= j < before.len() && before[j] == days.drop_last()[i];
        assert(entries_on(days, date)[j] == days[i]);
    }
}

/// A date without special days has an empty name and is no holiday.
pub proof fn lemma_no_entries_no_name(days: Seq<SpecialDay>, date: Date)
    requires
        entries_on(days, date).len() == 0,
    ensures
        holiday_name_on(days, date) == Seq::<char>::empty(),
        !is_holiday_on(days, date),
{
}

/// Whether two special days say the same: the same date, the same name,
/// the same flag.
pub open spec fn same_special_day(a: SpecialDay, b: SpecialDay) -> bool {
    a.date == b.date && a.name@ == b.name@ && a.is_holiday == b.is_holiday
}

/// Whether two lists of special days say the same, place by place.
pub open spec fn same_special_days(a: Seq<SpecialDay>, b: Seq<SpecialDay>) -> bool {
    &&& a.len() == b.len()
    &&& forall|i: int| 0 <= i < a.len() ==> same_special_day(#[trigger] a[i], b[i])
}

/// Lists of special days that say the same give every date entries that
/// say the same.
pub proof fn lemma_same_days_same_entries(a: Seq<SpecialDay>, b: Seq<SpecialDay>, date: Date)
    requires
        same_special_days(a, b),
    ensures
        same_special_days(entries_on(a, date), entries_on(b, date)),
    decreases a.len(),
{
    if a.len() > 0 {
        assert(same_special_day(a[a.len() - 1], b[a.len() - 1]));
        assert forall|i: int| 0 <= i < a.drop_last().len() implies same_special_day(
            #[trigger] a.drop_last()[i],
            b.drop_last()[i],
        ) by {
            assert(same_special_day(a[i], b[i]));
        }
        lemma_same_days_same_entries(a.drop_last(), b.drop_last(), date);
    }
}

/// Lists of special days that say the same give every date the same
/// holiday flag and the same holiday name.
pub proof fn lemma_same_days_same_holiday(a: Seq<SpecialDay>, b: Seq<SpecialDay>, date: Date)
    requires
        same_special_days(a, b),
    ensures
        is_holiday_on(a, date) == is_holiday_on(b, date),
        holiday_name_on(a, date) == holiday_name_on(b, date),
{
    lemma_same_days_same_entries(a, b, date);
    let ea = entries_on(a, date);
    let eb = entries_on(b, date);
    assert(names_of(ea) == names_of(eb)) by {
        assert forall|j: int| 0 <= j < ea.len() implies names_of(ea)[j] == names_of(eb)[j] by {
            assert(same_special_day(ea[j], eb[j]));
        }
    }
    if is_holiday_on(a, date) {
        let j = choose|j: int| 0 <= j < ea.len() && (#[trigger] ea[j]).is_holiday;
        assert(same_special_day(ea[j], eb[j]));
        assert(eb[j].is_holiday);
    }
    if is_holiday_on(b, date) {
        let j = choose|j: int| 0 <= j < eb.len() && (#[trigger] eb[j]).is_holiday;
        assert(same_special_day(ea[j], eb[j]));
        assert(ea[j].is_holiday);
    }
}

/// The key of a date.
pub fn key_of(date: &Date) -> (k: u128)
    ensures
        k == date_key(*date),
{
    let y: u128 = (date.year as i64 + 2147483648) as u128;
    (y * 4294967296 + date.month as u128) * 4294967296 + date.day as u128
}

/// For each date, the positions of its special days in the list that the
/// index was built from.
pub struct SpecialDayIndex {
    pub map: HashMap<u128, Vec<usize>>,
}

impl SpecialDayIndex {
    /// The positions that the index holds for `date`.
    pub open spec fn positions(&self, date: Date) -> Seq<usize> {
        if self.map@.contains_key(date_key(date) as u128) {
            self.map@[date_key(date) as u128]@
        } else {
            Seq::empty()
        }
    }

    /// Whether the index holds, for every date, the positions of that date's
    /// special days among the first `n` of `days`, in input order.
    pub open spec fn covers(&self, days: Seq<SpecialDay>, n: int) -> bool {
        forall|date: Date| positions_match(days, n, #[trigger] self.positions(date), date)
    }

    /// Whether the index is the index of `days`.
    pub open spec fn represents(&self, days: Seq<SpecialDay>) -> bool {
        self.covers(days, days.len() as int)
    }

    /// Builds the index of `days`. Special days that share a date are all
    /// kept, in input order.
    pub fn build(days: &Vec<SpecialDay>) -> (r: SpecialDayIndex)
        ensures
            r.represents(days@),
    {
        let mut index = SpecialDayIndex { map: HashMap::new() };
        let mut i: usize = 0;
        proof {
            assert forall|date: Date| positions_match(days@, 0, #[trigger] index.positions(date), date) by {
                assert(picked(days@, index.positions(date)) == entries_on(days@.take(0), date));
            }
        }
        while i < days.len()
            invariant
                0 <= i <= days.len(),
                index.covers(days@, i as int),
            decreases days.len() - i,
        {
            let ghost before = index;
            let key = key_of(&days[i].date);
            let mut list = match index.map.remove(&key) {
                Some(list) => list,
                None => Vec::new(),
            };
            assert(list@ == before.positions(days@[i as int].date));
            list.push(i);
            index.map.insert(key, list);
            proof {
                let here = days@[i as int].date;
                assert(days@.take(i + 1).drop_last() == days@.take(i as int));
                assert forall|date: Date| positions_match(
                    days@,
                    i + 1,
                    #[trigger] index.positions(date),
                    date,
                ) by {
                    assert(positions_match(days@, i as int, before.positions(date), date));
                    if date == here {
                        assert(index.positions(date) == before.positions(date).push(i));
                        assert(picked(days@, index.positions(date)) == picked(
                            days@,
                            before.positions(date),
                        ).push(days@[i as int]));
                    } else {
                        if date_key(date) == date_key(here) {
                            lemma_date_key_injective(date, here);
                        }
                        assert(index.positions(date) == before.positions(date));
                    }
                }
            }
            i = i + 1;
        }
        index
    }

    /// The positions in `days` of the special days on `date`.
    pub fn lookup(&self, date: &Date) -> (r: Option<&Vec<usize>>)
        ensures
            match r {
                Some(list) => list@ == self.positions(*date) && self.map@.contains_key(
                    date_key(*date) as u128,
                ),
                None => self.positions(*date).len() == 0,
            },
    {
        let key = key_of(date);
        self.map.get(&key)
    }

    /// Whether one of the special days on `date` is a holiday.
    pub fn is_holiday(&self, days: &Vec<SpecialDay>, date: &Date) -> (r: bool)
        requires
            self.represents(days@),
        ensures
            r == is_holiday_on(days@, *date),
    {
        proof {
            assert(days@.take(days@.len() as int) == days@);
            assert(positions_match(days@, days@.len() as int, self.positions(*date), *date));
        }
        let ghost entries = entries_on(days@, *date);
        match self.lookup(date) {
            None => false,
            Some(list) => {
                let mut found = false;
                let mut j: usize = 0;
                while j < list.len()
                    invariant
                        0 <= j <= list.len(),
                        list@ == self.positions(*date),
                        entries == entries_on(days@, *date),
                        picked(days@, list@) == entries,
                        forall|k: int| 0 <= k < list@.len() ==> 0 <= #[trigger] list@[k] < days@.len(),
                        found == exists|k: int| 0 <= k < j && (#[trigger] entries[k]).is_holiday,
                    decreases list.len() - j,
                {
                    let at = list[j];
                    assert(entries[j as int] == days@[at as int]);
                    if days[at].is_holiday {
                        found = true;
                    }
                    j = j + 1;
                }
                found
            },
        }
    }

    /// The names of the special days on `date`, in input order, joined by a
    /// comma and a space.
    pub fn holiday_name(&self, days: &Vec<SpecialDay>, date: &Date) -> (r: String)
        requires
            self.represents(days@),
        ensures
            r@ == holiday_name_on(days@, *date),
    {
        proof {
            assert(days@.take(days@.len() as int) == days@);
            assert(positions_match(days@, days@.len() as int, self.positions(*date), *date));
        }
        let ghost names = names_of(entries_on(days@, *date));
        let mut out = String::new();
        match self.lookup(date) {
            None => {},
            Some(list) => {
                let mut j: usize = 0;
                while j < list.len()
                    invariant
                        0 <= j <= list.len(),
                        list@ == self.positions(*date),
                        names == names_of(entries_on(days@, *date)),
                        picked(days@, list@) == entries_on(days@, *date),
                        forall|k: int| 0 <= k < list@.len() ==> 0 <= #[trigger] list@[k] < days@.len(),
                        out@ == joined(names.take(j as int), seq![',', ' ']),
                    decreases list.len() - j,
                {
                    let at = list[j];
                    proof {
                        reveal_strlit(", ");
                        assert(names.take(j + 1).drop_last() == names.take(j as int));
                        assert(names.take(j + 1).last() == days@[at as int].name@) by {
                            assert(picked(days@, list@)[j as int] == days@[at as int]);
                        }
                        assert(", "@ == seq![',', ' ']);
                    }
                    if j > 0 {
                        out.append(", ");
                    }
                    out.append(days[at].name.as_str());
                    j = j + 1;
                }
                proof {
                    assert(names.take(list@.len() as int) == names);
                }
            },
        }
        out
    }
}

} // verus!
