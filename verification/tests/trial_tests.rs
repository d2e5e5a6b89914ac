use freelance_flow::store::{initialize_db, Store};
use freelance_flow::trial::{check_trial_status, Date, TRIAL_DAYS};
use freelance_flow::Error;

fn ready_store() -> Store {
    let mut store = Store::new();
    initialize_db(&mut store);
    store
}

fn date(year: i32, month: u8, day: u8) -> Date {
    Date::new(year, month, day).unwrap()
}

#[test]
fn without_a_start_date_the_full_trial_remains() {
    let store = ready_store();
    let today = date(2024, 1, 10);
    assert_eq!(check_trial_status(&store, &today).unwrap(), TRIAL_DAYS);
}

#[test]
fn nine_days_into_the_trial_five_remain() {
    let mut store = ready_store();
    store.set_trial_start_date("2024-01-01".to_string()).unwrap();
    let today = date(2024, 1, 10);
    assert_eq!(check_trial_status(&store, &today).unwrap(), 5);
}

#[test]
fn an_expired_trial_reports_negative_days() {
    let mut store = ready_store();
    store.set_trial_start_date("2024-01-01".to_string()).unwrap();
    let today = date(2024, 1, 20);
    let left = check_trial_status(&store, &today).unwrap();
    assert!(left < 0);
    assert_eq!(left, -5);
}

#[test]
fn the_difference_counts_whole_calendar_days_across_a_leap_month() {
    let mut store = ready_store();
    store.set_trial_start_date("2024-02-28".to_string()).unwrap();
    // 2024 is a leap year: February 29 exists, so March 1 is two days later.
    let today = date(2024, 3, 1);
    assert_eq!(check_trial_status(&store, &today).unwrap(), TRIAL_DAYS - 2);
}

#[test]
fn an_unparseable_stored_date_is_a_date_parse_fault() {
    let mut store = ready_store();
    store.set_trial_start_date("next tuesday".to_string()).unwrap();
    let today = date(2024, 1, 10);
    let r = check_trial_status(&store, &today);
    assert!(matches!(r, Err(Error::DateParse(s)) if s == "next tuesday"));
}

#[test]
fn date_construction_checks_the_calendar() {
    assert!(Date::new(2023, 2, 29).is_none());
    assert!(Date::new(2024, 2, 29).is_some());
    assert!(Date::new(2024, 0, 1).is_none());
    assert!(Date::new(2024, 13, 1).is_none());
    assert!(Date::new(2024, 4, 31).is_none());
    assert!(Date::new(2024, 4, 30).is_some());
    assert!(Date::new(2000, 2, 29).is_some());
    assert!(Date::new(1900, 2, 29).is_none());
}
