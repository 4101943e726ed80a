//! A weekly blinds scheduler.
//!
//! Schedule entries fire once per week at a given weekday and time of day and
//! drive the blinds to a target position.  `datetime` holds the calendar
//! model, `db` the schedule entries and the next-occurrence calculator,
//! `alarm` the registry of armed timers, `curtain` and `curtains` the blinds
//! state, and `http` the payloads the status endpoints answer with.

pub mod alarm;
pub mod curtain;
pub mod curtains;
pub mod datetime;
pub mod db;
pub mod http;
