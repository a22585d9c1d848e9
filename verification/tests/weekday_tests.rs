use srow::date::Date;
use srow::error::AppError;
use srow::weekday::WeekDay;

#[test]
fn weekday_matches_thursday() {
    let date = Date::new(2025, 6, 19).unwrap();
    let result = WeekDay::Thursday.matches_weekday(&date);
    assert!(result);
}

#[test]
fn weekday_creation_from_string() {
    let weekday = "Thu";
    let result = WeekDay::try_from(weekday.to_string()).unwrap();
    assert_eq!(result, WeekDay::Thursday);
}

#[test]
fn weekday_creation_from_invalid_string() {
    let weekday = "Invalid";
    let result = WeekDay::try_from(weekday.to_string());
    assert!(result.is_err());
}

#[test]
fn weekday_creation_accepts_every_token() {
    assert_eq!(WeekDay::try_from("Mon".to_string()).unwrap(), WeekDay::Monday);
    assert_eq!(WeekDay::try_from("Tue".to_string()).unwrap(), WeekDay::Tuesday);
    assert_eq!(WeekDay::try_from("Wed".to_string()).unwrap(), WeekDay::Wednesday);
    assert_eq!(WeekDay::try_from("Thu".to_string()).unwrap(), WeekDay::Thursday);
    assert_eq!(WeekDay::try_from("Fri".to_string()).unwrap(), WeekDay::Friday);
    assert_eq!(WeekDay::try_from("Sat".to_string()).unwrap(), WeekDay::Saturday);
    assert_eq!(WeekDay::try_from("Sun".to_string()).unwrap(), WeekDay::Sunday);
}

#[test]
fn weekday_index_counts_from_sunday() {
    assert_eq!(WeekDay::Sunday.index(), 0);
    assert_eq!(WeekDay::Monday.index(), 1);
    assert_eq!(WeekDay::Saturday.index(), 6);
}

#[test]
fn weekday_of_known_dates() {
    // 2024-01-01 was a Monday, 1970-01-01 a Thursday, 2000-02-29 a Tuesday.
    assert!(WeekDay::Monday.matches_weekday(&Date::new(2024, 1, 1).unwrap()));
    assert!(WeekDay::Thursday.matches_weekday(&Date::new(1970, 1, 1).unwrap()));
    assert!(WeekDay::Tuesday.matches_weekday(&Date::new(2000, 2, 29).unwrap()));
    assert!(!WeekDay::Friday.matches_weekday(&Date::new(2024, 1, 1).unwrap()));
}

#[test]
fn date_rejects_impossible_days() {
    assert!(Date::new(2024, 2, 29).is_ok());
    match Date::new(2023, 2, 29).unwrap_err() {
        AppError::InvalidInput(_) => {}
        other => panic!("expected InvalidInput, got {:?}", other),
    }
    assert!(Date::new(2024, 13, 1).is_err());
    assert!(Date::new(2024, 4, 31).is_err());
    assert!(Date::new(0, 1, 1).is_err());
}
