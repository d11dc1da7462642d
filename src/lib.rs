//! Scheduling and content logic for a bot that announces the next race of a
//! season to a chat channel a fixed number of days before it takes place.
pub mod date;
pub mod race;
pub mod select;
pub mod schedule;
pub mod announce;
pub mod cycle;
