use smart_light::datetime::{day_number_from_ymd, Instant, TimeOfDay, Weekday};
use smart_light::db::{Action, ServiceError};

fn action(weekday: Weekday, time: TimeOfDay) -> Action {
    Action { id: 0, open: false, weekday, time }
}

#[test]
fn test_next_occurence_from_datetime() {
    struct NextOccurenceTest {
        alarm_weekday: Weekday,
        alarm_time: TimeOfDay,
        cur_time: Instant,
        exp_time: Instant,
    }
    let tests = vec![
        // Later on in the same week.
        NextOccurenceTest {
            alarm_weekday: Weekday::Wed,
            alarm_time: TimeOfDay::from_hms(19, 30, 9),
            cur_time: Instant::from_ymd_hms(2016, 8, 15, 12, 0, 0), /* Mon */
            exp_time: Instant::from_ymd_hms(2016, 8, 17, 19, 30, 9), /* Wed */
        },
        // In the following week.
        NextOccurenceTest {
            alarm_weekday: Weekday::Mon,
            alarm_time: TimeOfDay::from_hms(9, 30, 9),
            cur_time: Instant::from_ymd_hms(2016, 8, 17, 12, 0, 0), /* Wed */
            exp_time: Instant::from_ymd_hms(2016, 8, 22, 9, 30, 9), /* Mon */
        },
        // Same day and later. Should be the same day.
        NextOccurenceTest {
            alarm_weekday: Weekday::Wed,
            alarm_time: TimeOfDay::from_hms(19, 30, 9),
            cur_time: Instant::from_ymd_hms(2016, 8, 17, 12, 0, 0), /* Wed */
            exp_time: Instant::from_ymd_hms(2016, 8, 17, 19, 30, 9), /* Wed */
        },
        // Same day but earlier. Should go almost an entire week.
        NextOccurenceTest {
            alarm_weekday: Weekday::Wed,
            alarm_time: TimeOfDay::from_hms(9, 30, 9),
            cur_time: Instant::from_ymd_hms(2016, 8, 17, 12, 0, 0), /* Wed */
            exp_time: Instant::from_ymd_hms(2016, 8, 24, 9, 30, 9), /* Wed */
        },
        // Same day, same time. Should go a week.
        NextOccurenceTest {
            alarm_weekday: Weekday::Wed,
            alarm_time: TimeOfDay::from_hms(12, 0, 0),
            cur_time: Instant::from_ymd_hms(2016, 8, 17, 12, 0, 0), /* Wed */
            exp_time: Instant::from_ymd_hms(2016, 8, 24, 12, 0, 0), /* Wed */
        },
    ];

    for t in tests {
        let a = action(t.alarm_weekday, t.alarm_time);
        assert_eq!(t.exp_time, a.next_occurence_from_datetime(t.cur_time));
    }
}

#[test]
fn result_is_on_entrys_weekday_and_never_earlier() {
    // Every weekday against a fixed Wednesday noon.
    let now = Instant::from_ymd_hms(2016, 8, 17, 12, 0, 0);
    let days = [
        Weekday::Mon,
        Weekday::Tue,
        Weekday::Wed,
        Weekday::Thu,
        Weekday::Fri,
        Weekday::Sat,
        Weekday::Sun,
    ];
    for (i, wd) in days.iter().enumerate() {
        let a = action(*wd, TimeOfDay::from_hms(6, 0, 0));
        let r = a.next_occurence_from_datetime(now);
        assert_eq!(r.day % 7, i as u64);
        assert_eq!(r.weekday(), *wd);
        assert!(r.day > now.day || (r.day == now.day && r.time.seconds > now.time.seconds));
        assert!(r.day <= now.day + 7);
    }
}

#[test]
fn same_day_earlier_time_is_today() {
    let now = Instant::from_ymd_hms(2016, 8, 17, 12, 0, 0);
    let a = action(Weekday::Wed, TimeOfDay::from_hms(19, 30, 9));
    let r = a.next_occurence_from_datetime(now);
    assert_eq!(r.day, now.day);
    assert_eq!(r.time, a.time);
}

#[test]
fn same_day_passed_or_equal_time_is_a_week_away() {
    let now = Instant::from_ymd_hms(2016, 8, 17, 12, 0, 0);
    let earlier = action(Weekday::Wed, TimeOfDay::from_hms(9, 30, 9));
    assert_eq!(earlier.next_occurence_from_datetime(now).day, now.day + 7);
    let tie = action(Weekday::Wed, TimeOfDay::from_hms(12, 0, 0));
    let r = tie.next_occurence_from_datetime(now);
    assert_eq!(r.day, now.day + 7);
    assert_eq!(r.time, tie.time);
}

#[test]
fn week_wraps_saturday_to_monday() {
    // 2016-08-20 was a Saturday; the next Monday is 2016-08-22.
    let now = Instant::from_ymd_hms(2016, 8, 20, 23, 59, 59);
    let a = action(Weekday::Mon, TimeOfDay::from_hms(0, 0, 0));
    let r = a.next_occurence_from_datetime(now);
    assert_eq!(r, Instant::from_ymd_hms(2016, 8, 22, 0, 0, 0));
}

#[test]
fn day_numbers_match_the_calendar() {
    assert_eq!(day_number_from_ymd(1, 1, 1), 0);
    assert_eq!(day_number_from_ymd(1, 1, 2), 1);
    assert_eq!(day_number_from_ymd(2, 1, 1), 365);
    // 1970-01-01, a Thursday.
    assert_eq!(day_number_from_ymd(1970, 1, 1), 719162);
    assert_eq!(day_number_from_ymd(1970, 1, 1) % 7, 3);
    // 2016-08-15, a Monday; 2016-08-17, a Wednesday.
    assert_eq!(day_number_from_ymd(2016, 8, 15) % 7, 0);
    assert_eq!(day_number_from_ymd(2016, 8, 17) % 7, 2);
    // 2016 is a leap year: February 29 exists and March 1 follows it.
    assert_eq!(
        day_number_from_ymd(2016, 3, 1),
        day_number_from_ymd(2016, 2, 29) + 1
    );
}

#[test]
fn time_of_day_counts_seconds_from_midnight() {
    assert_eq!(TimeOfDay::from_hms(19, 30, 9).seconds, 70209);
    assert_eq!(TimeOfDay::from_hms(0, 0, 0).seconds, 0);
    assert_eq!(TimeOfDay::from_hms(23, 59, 59).seconds, 86399);
    assert_eq!(TimeOfDay::from_seconds(86399), Some(TimeOfDay { seconds: 86399 }));
    assert_eq!(TimeOfDay::from_seconds(86400), None);
}

#[test]
fn weekday_round_trips_through_its_index() {
    assert_eq!(Weekday::from_days_from_monday(0), Some(Weekday::Mon));
    assert_eq!(Weekday::from_days_from_monday(2), Some(Weekday::Wed));
    assert_eq!(Weekday::from_days_from_monday(6), Some(Weekday::Sun));
    assert_eq!(Weekday::from_days_from_monday(7), None);
    assert_eq!(Weekday::from_days_from_monday(-1), None);
    assert_eq!(Weekday::Sat.num_days_from_monday(), 5);
}

#[test]
fn corrupt_rows_are_a_query_error() {
    let ok = Action::from_row_parts(7, 2, 70209, true).unwrap();
    assert_eq!(ok.id, 7);
    assert!(ok.open);
    assert_eq!(ok.weekday, Weekday::Wed);
    assert_eq!(ok.time.seconds, 70209);

    let bad_day = Action::from_row_parts(7, 7, 0, false);
    assert!(matches!(bad_day, Err(ServiceError::Exec(_))));
    let negative_day = Action::from_row_parts(7, -1, 0, false);
    assert!(matches!(negative_day, Err(ServiceError::Exec(_))));
    let bad_time = Action::from_row_parts(7, 3, 86400, false);
    assert!(matches!(bad_time, Err(ServiceError::Exec(_))));
}

#[test]
fn next_occurence_from_the_clock_lands_on_the_weekday() {
    let a = action(Weekday::Fri, TimeOfDay::from_hms(7, 15, 0));
    let r = a.next_occurence();
    assert_eq!(r.day % 7, 4);
    assert_eq!(r.time, a.time);
}
