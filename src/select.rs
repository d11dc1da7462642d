//! Choice of the next race: the earliest one strictly after today.
use vstd::prelude::*;

use crate::date::{date_lt, parsed_date, Date};
use crate::race::Race;

verus! {

/// A known date that lies strictly after `today`.
pub open spec fn upcoming(d: Option<Date>, today: Date) -> bool {
    d matches Some(x) && date_lt(today, x)
}

/// Index `k` holds the next date after `today`: it is upcoming, no upcoming
/// date is earlier, and every upcoming date before it is later.
pub open spec fn is_next_at(ds: Seq<Option<Date>>, today: Date, k: int) -> bool {
    &&& 0 <= k < ds.len()
    &&& upcoming(ds[k], today)
    &&& forall|i: int|
        0 <= i < ds.len() && upcoming(#[trigger] ds[i], today) ==> !date_lt(ds[i]->0, ds[k]->0)
    &&& forall|i: int|
        0 <= i < k && upcoming(#[trigger] ds[i], today) ==> date_lt(ds[k]->0, ds[i]->0)
}

/// Whether any date of `ds` is upcoming.
pub open spec fn any_upcoming(ds: Seq<Option<Date>>, today: Date) -> bool {
    exists|i: int| 0 <= i < ds.len() && upcoming(#[trigger] ds[i], today)
}

/// The dates of the races, as far as they can be read.
pub open spec fn race_dates(rs: Seq<Race>) -> Seq<Option<Date>> {
    rs.map_values(|r: Race| parsed_date(r.date@))
}

/// At most one index holds the next date.
pub proof fn lemma_next_unique(ds: Seq<Option<Date>>, today: Date, j: int, k: int)
    requires
        is_next_at(ds, today, j),
        is_next_at(ds, today, k),
    ensures
        j == k,
{
    if j < k {
        assert(date_lt(ds[k]->0, ds[j]->0));
    } else if k < j {
        assert(date_lt(ds[j]->0, ds[k]->0));
    }
}

/// Where the known dates are pairwise distinct, the next date is strictly
/// earlier than every other upcoming date.
pub proof fn lemma_next_is_strict_minimum(ds: Seq<Option<Date>>, today: Date, k: int)
    requires
        is_next_at(ds, today, k),
        forall|i: int, j: int|
            0 <= i < ds.len() && 0 <= j < ds.len() && i != j && ds[i] is Some && ds[j] is Some
                ==> #[trigger] ds[i] != #[trigger] ds[j],
    ensures
        forall|i: int|
            0 <= i < ds.len() && i != k && upcoming(#[trigger] ds[i], today) ==> date_lt(
                ds[k]->0,
                ds[i]->0,
            ),
{
    assert forall|i: int|
        0 <= i < ds.len() && i != k && upcoming(#[trigger] ds[i], today) implies date_lt(
            ds[k]->0,
            ds[i]->0,
        ) by {
        assert(ds[i] != ds[k]);
        assert(!date_lt(ds[i]->0, ds[k]->0));
    }
}

/// The next date lies strictly after `today`: a date equal to `today`, or
/// earlier, is never the one chosen.
pub proof fn lemma_next_is_after_today(ds: Seq<Option<Date>>, today: Date, k: int)
    requires
        is_next_at(ds, today, k),
    ensures
        ds[k] matches Some(x) && x != today && !date_lt(x, today),
        forall|i: int|
            0 <= i < ds.len() && #[trigger] ds[i] == Some(today) ==> !upcoming(ds[i], today),
{
}

/// Index of the earliest date strictly after `today`, the first such where
/// several share it; `None` where no date lies after `today`.
pub fn select_next_dated(dates: &Vec<Option<Date>>, today: &Date) -> (r: Option<usize>)
    ensures
        r is None <==> !any_upcoming(dates@, *today),
        r matches Some(k) ==> is_next_at(dates@, *today, k as int),
{
    let mut best: Option<usize> = None;
    let mut i: usize = 0;
    while i < dates.len()
        invariant
            i <= dates@.len(),
            best is None <==> forall|j: int| 0 <= j < i ==> !upcoming(#[trigger] dates@[j], *today),
            best matches Some(k) ==> is_next_at(dates@.subrange(0, i as int), *today, k as int),
        decreases dates.len() - i,
    {
        let ghost prev = dates@.subrange(0, i as int);
        let ghost next = dates@.subrange(0, i + 1);
        assert(forall|j: int| 0 <= j < i ==> next[j] == prev[j]);
        match dates[i] {
            Some(d) => {
                if today.is_before(&d) {
                    match best {
                        None => {
                            best = Some(i);
                        },
                        Some(k) => {
                            let cur = dates[k].unwrap();
                            if d.is_before(&cur) {
                                best = Some(i);
                            }
                        },
                    }
                }
            },
            None => {},
        }
        i += 1;
    }
    assert(dates@.subrange(0, dates@.len() as int) =~= dates@);
    best
}

/// The race whose date is the earliest strictly after `today`, the first in
/// the list where several share that date. Races whose date cannot be read
/// take no part; `None` where no race lies ahead.
pub fn select_next(races: Vec<Race>, today: &Date) -> (r: Option<Race>)
    ensures
        r is None <==> !any_upcoming(race_dates(races@), *today),
        r matches Some(x) ==> exists|k: int|
            is_next_at(race_dates(races@), *today, k) && x == races@[k],
{
    let mut races = races;
    let ghost orig = races@;
    let mut dates: Vec<Option<Date>> = Vec::new();
    let mut i: usize = 0;
    while i < races.len()
        invariant
            races@ == orig,
            i <= races@.len(),
            dates@ == race_dates(orig).subrange(0, i as int),
        decreases races.len() - i,
    {
        let d = Date::parse(races[i].date.as_str());
        dates.push(d);
        i += 1;
    }
    assert(dates@ =~= race_dates(orig));
    match select_next_dated(&dates, today) {
        None => None,
        Some(k) => Some(races.remove(k)),
    }
}

} // verus!
