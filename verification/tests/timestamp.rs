use feed_sync::timestamp::{leap_year, month_length, Timestamp, MAX_YEAR, MIN_YEAR};

fn at(year: i32, month: u32, day: u32, hour: u32, minute: u32, second: u32) -> Timestamp {
    Timestamp { year, month, day, hour, minute, second, nanos: 0 }
}

#[test]
fn new_keeps_the_fields_of_an_existing_day() {
    assert_eq!(Timestamp::new(2024, 2, 29, 23, 59, 59), Some(at(2024, 2, 29, 23, 59, 59)));
    assert_eq!(Timestamp::new(1970, 1, 1, 0, 0, 0), Some(at(1970, 1, 1, 0, 0, 0)));
}

#[test]
fn new_refuses_a_day_that_does_not_exist() {
    assert_eq!(Timestamp::new(2023, 2, 29, 0, 0, 0), None);
    assert_eq!(Timestamp::new(2024, 4, 31, 0, 0, 0), None);
    assert_eq!(Timestamp::new(2024, 0, 1, 0, 0, 0), None);
    assert_eq!(Timestamp::new(2024, 13, 1, 0, 0, 0), None);
    assert_eq!(Timestamp::new(2024, 1, 0, 0, 0, 0), None);
    assert_eq!(Timestamp::new(2024, 1, 32, 0, 0, 0), None);
}

#[test]
fn new_refuses_a_time_that_does_not_exist() {
    assert_eq!(Timestamp::new(2024, 1, 1, 24, 0, 0), None);
    assert_eq!(Timestamp::new(2024, 1, 1, 0, 60, 0), None);
    assert_eq!(Timestamp::new(2024, 1, 1, 0, 0, 60), None);
}

#[test]
fn new_refuses_a_year_out_of_range() {
    assert_eq!(Timestamp::new(MAX_YEAR + 1, 1, 1, 0, 0, 0), None);
    assert_eq!(Timestamp::new(MIN_YEAR - 1, 1, 1, 0, 0, 0), None);
    assert!(Timestamp::new(MAX_YEAR, 12, 31, 0, 0, 0).is_some());
    assert!(Timestamp::new(MIN_YEAR, 1, 1, 0, 0, 0).is_some());
}

#[test]
fn leap_second_is_well_formed_only_at_second_59() {
    let mut t = at(2015, 6, 30, 23, 59, 59);
    t.nanos = 1_500_000_000;
    assert!(t.is_well_formed());
    t.nanos = 2_000_000_000;
    assert!(!t.is_well_formed());
    t.second = 58;
    t.nanos = 1_000_000_000;
    assert!(!t.is_well_formed());
    t.nanos = 999_999_999;
    assert!(t.is_well_formed());
}

#[test]
fn leap_years_follow_the_gregorian_rule() {
    assert!(leap_year(2024));
    assert!(!leap_year(2023));
    assert!(!leap_year(1900));
    assert!(leap_year(2000));
    assert!(leap_year(0));
    assert!(leap_year(-4));
    assert!(!leap_year(-100));
    assert!(leap_year(-400));
    assert!(!leap_year(i32::MIN + 1));
    assert!(!leap_year(i32::MAX));
}

#[test]
fn months_have_their_lengths() {
    let lengths: Vec<u32> = (1..=12).map(|m| month_length(2023, m)).collect();
    assert_eq!(lengths, vec![31, 28, 31, 30, 31, 30, 31, 31, 30, 31, 30, 31]);
    assert_eq!(month_length(2024, 2), 29);
    assert_eq!(month_length(2024, 0), 0);
    assert_eq!(month_length(2024, 13), 0);
}

#[test]
fn later_is_decided_by_the_first_field_that_differs() {
    let base = at(2024, 6, 15, 12, 30, 30);
    assert!(at(2025, 1, 1, 0, 0, 0).is_after(&base));
    assert!(!at(2023, 12, 31, 23, 59, 59).is_after(&base));
    assert!(at(2024, 7, 1, 0, 0, 0).is_after(&base));
    assert!(at(2024, 6, 16, 0, 0, 0).is_after(&base));
    assert!(at(2024, 6, 15, 13, 0, 0).is_after(&base));
    assert!(at(2024, 6, 15, 12, 31, 0).is_after(&base));
    assert!(at(2024, 6, 15, 12, 30, 31).is_after(&base));
    let mut nanos_later = base;
    nanos_later.nanos = 1;
    assert!(nanos_later.is_after(&base));
    assert!(!base.is_after(&nanos_later));
}

#[test]
fn nothing_is_later_than_itself() {
    let base = at(2024, 6, 15, 12, 30, 30);
    assert!(!base.is_after(&base));
}

#[test]
fn later_is_transitive_and_total_on_samples() {
    let samples = vec![
        at(-5, 1, 1, 0, 0, 0),
        at(1999, 12, 31, 23, 59, 59),
        at(2024, 1, 1, 0, 0, 0),
        at(2024, 1, 1, 0, 0, 1),
        at(2024, 1, 2, 0, 0, 0),
    ];
    for a in samples.iter() {
        for b in samples.iter() {
            let count = [a.is_after(b), b.is_after(a), a == b].iter().filter(|x| **x).count();
            assert_eq!(count, 1);
            for c in samples.iter() {
                if a.is_after(b) && b.is_after(c) {
                    assert!(a.is_after(c));
                }
            }
        }
    }
}
