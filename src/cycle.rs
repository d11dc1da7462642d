//! One daily evaluation: from the fetched schedule and today's date to what,
//! if anything, is announced.
use vstd::prelude::*;

use crate::announce::{announces, build_announcement, Announcement};
use crate::date::{days_between, days_until, lemma_earlier_has_smaller_day_number, Date};
use crate::race::Race;
use crate::schedule::{is_notify_day, should_notify};
use crate::select::{any_upcoming, is_next_at, race_dates, select_next};

verus! {

/// What one evaluation of the schedule decided.
#[derive(Debug)]
pub enum CycleOutcome {
    /// No race lies ahead: nothing to do until the next cycle.
    NoUpcomingRace,
    /// The next race is this many days away, which is no day to announce it.
    NotToday(i64),
    /// The next race is announced with this content.
    Announce(Announcement),
}

/// Decides what today's cycle does with the fetched races: picks the next
/// race, counts the days until it and, on an announcement day, builds the
/// announcement that mentions `role`.
pub fn evaluate_cycle(races: Vec<Race>, today: &Date, role: u64) -> (r: CycleOutcome)
    requires
        today.wf(),
    ensures
        r is NoUpcomingRace <==> !any_upcoming(race_dates(races@), *today),
        r matches CycleOutcome::NotToday(n) ==> n >= 1,
        r matches CycleOutcome::NotToday(n) ==> exists|k: int|
            #![trigger race_dates(races@)[k]]
            is_next_at(race_dates(races@), *today, k) && n == days_between(
                race_dates(races@)[k]->0,
                *today,
            ) && !is_notify_day(n as int),
        r matches CycleOutcome::Announce(a) ==> exists|k: int|
            #![trigger race_dates(races@)[k]]
            is_next_at(race_dates(races@), *today, k) && is_notify_day(
                days_between(race_dates(races@)[k]->0, *today),
            ) && announces(
                a,
                races@[k],
                days_between(race_dates(races@)[k]->0, *today),
                role as int,
            ),
{
    let ghost rd = race_dates(races@);
    let ghost orig = races@;
    match select_next(races, today) {
        None => CycleOutcome::NoUpcomingRace,
        Some(race) => {
            let ghost k = choose|k: int| is_next_at(rd, *today, k) && race == orig[k];
            assert(rd[k] == crate::date::parsed_date(race.date@));
            let date = Date::parse(race.date.as_str()).unwrap();
            let days = days_until(&date, today);
            proof {
                lemma_earlier_has_smaller_day_number(*today, date);
            }
            if should_notify(days) {
                CycleOutcome::Announce(build_announcement(&race, days, role))
            } else {
                CycleOutcome::NotToday(days)
            }
        },
    }
}

} // verus!
