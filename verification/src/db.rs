//! Schedule entries and the next-occurrence calculator.
//!
//! An `Action` is one persisted schedule entry: once per week, at a given
//! weekday and time of day, the blinds are driven to a target position.
//! `next_occurence_from_datetime` computes the next instant the entry is due
//! at, honoring the same-day and week-wraparound cases; an entry due exactly
//! now rolls a full week forward.

use vstd::arithmetic::div_mod::{
    lemma_add_mod_noop, lemma_mod_add_multiples_vanish, lemma_mod_bound,
    lemma_mod_sub_multiples_vanish, lemma_small_mod, lemma_sub_mod_noop,
};
use vstd::prelude::*;

use crate::datetime::{Instant, TimeOfDay, Weekday};

verus! {

/// One schedule entry: at `time` on `weekday`, each week, move the blinds to
/// position `open`.
#[derive(Clone, Copy, PartialEq, Eq, Structural, Debug)]
pub struct Action {
    pub id: i64,
    pub open: bool,
    pub weekday: Weekday,
    pub time: TimeOfDay,
}

/// What can go wrong against the store or the registry.
#[derive(Clone, PartialEq, Debug)]
pub enum ServiceError {
    /// The store could not be reached at startup.
    Connect(String),
    /// A store query failed, or a row held values no entry can hold.
    Exec(String),
    /// The store and the timer registry disagree: an invariant violation,
    /// not a normal error.
    Inconsistent,
}

impl Action {
    /// The next instant this entry is due at, from `now`: the closest day at
    /// or after `now`'s with the entry's weekday, except that an entry whose
    /// time has already passed today (ties included) waits for next week.
    pub open spec fn next_occurence_spec(self, now: Instant) -> Instant {
        let w = self.weekday.days_from_monday_spec();
        let nw = now.day as int % 7;
        let day: int = if nw == w {
            if now.time.seconds < self.time.seconds {
                now.day as int
            } else {
                now.day as int + 7
            }
        } else {
            now.day as int + ((w - nw + 7) % 7)
        };
        Instant { day: day as u64, time: self.time }
    }

    /// The next instant this entry is due at, relative to the given instant.
    pub fn next_occurence_from_datetime(&self, datetime: Instant) -> (r: Instant)
        requires
            datetime.day + 7 <= u64::MAX,
        ensures
            r == self.next_occurence_spec(datetime),
            r.time == self.time,
            r.day as int % 7 == self.weekday.days_from_monday_spec(),
            datetime.lt_spec(r),
            datetime.day <= r.day <= datetime.day + 7,
            datetime.weekday_index() == self.weekday.days_from_monday_spec()
                && datetime.time.seconds < self.time.seconds ==> r.day == datetime.day,
            datetime.weekday_index() == self.weekday.days_from_monday_spec()
                && datetime.time.seconds >= self.time.seconds ==> r.day == datetime.day + 7,
    {
        let w: u64 = self.weekday.num_days_from_monday();
        let mut day: u64 = datetime.day;
        if day % 7 == w {
            // The day is today.  Is the next occurrence later today or next
            // week?
            if datetime.time.seconds < self.time.seconds {
                return Instant { day, time: self.time };
            } else {
                day = day + 1;
            }
        }
        let ghost target: int = self.next_occurence_spec(datetime).day as int;
        proof {
            let d0 = datetime.day as int;
            let nw = d0 % 7;
            lemma_mod_bound(d0, 7int);
            lemma_small_mod(w as nat, 7nat);
            if nw == w {
                // target is a week from today: same weekday.
                lemma_mod_add_multiples_vanish(d0, 7int);
            } else {
                let x = w - nw + 7;
                let delta = x % 7;
                if x < 7 {
                    lemma_small_mod(x as nat, 7nat);
                } else {
                    lemma_mod_sub_multiples_vanish(x, 7int);
                    lemma_small_mod((x - 7) as nat, 7nat);
                }
                assert(1 <= delta <= 6);
                assert(nw + delta == w || nw + delta == w + 7);
                lemma_add_mod_noop(d0, delta, 7int);
                lemma_small_mod(delta as nat, 7nat);
                lemma_small_mod(nw as nat, 7nat);
                if nw + delta == w + 7 {
                    lemma_mod_add_multiples_vanish(w as int, 7int);
                }
                assert((d0 + delta) % 7 == w);
            }
        }
        while day % 7 != w
            invariant
                w == self.weekday.days_from_monday_spec(),
                w < 7,
                datetime.day <= day <= target,
                target <= datetime.day + 7 <= u64::MAX,
                target % 7 == w,
                target - day < 7,
            decreases target - day,
        {
            proof {
                assert(day < target) by {
                    if day as int == target {
                        assert(day as int % 7 == w);
                    }
                };
            }
            day = day + 1;
        }
        proof {
            assert(day as int == target) by {
                lemma_sub_mod_noop(target, day as int, 7int);
                lemma_small_mod(0nat, 7nat);
                lemma_small_mod((target - day) as nat, 7nat);
            };
        }
        Instant { day, time: self.time }
    }

    /// The next instant this entry is due at, from the local clock now.
    /// Where the clock lands is the clock's affair; the result is on the
    /// entry's weekday at the entry's time whatever the clock said.
    pub fn next_occurence(&self) -> (r: Instant)
        ensures
            r.time == self.time,
            r.day as int % 7 == self.weekday.days_from_monday_spec(),
            self.time.wf() ==> r.wf(),
    {
        let now = crate::datetime::now_local();
        self.next_occurence_from_datetime(now)
    }

    /// Rebuilds an entry from the plain values a store row holds, rejecting
    /// corrupt persisted data: a weekday outside 0..=6 or a time of day
    /// outside one day.
    pub fn from_row_parts(id: i64, day: i64, seconds: u32, open: bool) -> (r: Result<
        Action,
        ServiceError,
    >)
        ensures
            r is Ok <==> 0 <= day < 7 && seconds < 86400,
            r matches Ok(a) ==> a.id == id && a.open == open
                && a.weekday.days_from_monday_spec() == day && a.time.seconds == seconds
                && a.time.wf(),
            r matches Err(e) ==> e is Exec,
    {
        let weekday = match Weekday::from_days_from_monday(day) {
            Some(w) => w,
            None => {
                return Err(ServiceError::Exec("weekday out of range".to_owned()));
            },
        };
        let time = match TimeOfDay::from_seconds(seconds) {
            Some(t) => t,
            None => {
                return Err(ServiceError::Exec("time of day out of range".to_owned()));
            },
        };
        Ok(Action { id, open, weekday, time })
    }
}

} // verus!
