//! Race records as the schedule feed describes them.
use vstd::prelude::*;

verus! {

/// Where a circuit lies.
#[derive(Debug)]
pub struct Location {
    pub lat: String,
    pub long: String,
    pub locality: String,
    pub country: String,
}

/// A circuit on which races are held.
#[derive(Debug)]
pub struct Circuit {
    pub circuit_id: String,
    pub url: String,
    pub circuit_name: String,
    pub location: Location,
}

/// One scheduled race of a season; `date` is written `YYYY-MM-DD`.
#[derive(Debug)]
pub struct Race {
    pub season: String,
    pub round: String,
    pub url: String,
    pub race_name: String,
    pub circuit: Circuit,
    pub date: String,
}

} // verus!
