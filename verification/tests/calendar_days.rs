use chrono::NaiveDate;
use moneyz::calendar::{
    date_from_chrono, date_from_parts, last_day, Day, Month, Year, FIRST_YEAR, LAST_YEAR,
};
use moneyz::error::{Error, ParseError, ValidationError};

const MONTHS: [Month; 12] = [
    Month::Jan,
    Month::Feb,
    Month::Mar,
    Month::Apr,
    Month::May,
    Month::Jun,
    Month::Jul,
    Month::Aug,
    Month::Sep,
    Month::Oct,
    Month::Nov,
    Month::Dec,
];

#[test]
fn february_29_of_2000_is_a_day() {
    assert_eq!(Day::validate(29, Month::Feb, Year(2000)), Ok(Day(29)));
}

#[test]
fn february_29_of_1900_is_no_day() {
    assert_eq!(Day::validate(29, Month::Feb, Year(1900)), Err(ValidationError::InvalidDay));
}

#[test]
fn february_29_of_2024_is_a_day() {
    assert_eq!(Day::validate(29, Month::Feb, Year(2024)), Ok(Day(29)));
}

#[test]
fn april_31_is_no_day() {
    for year in [0, 1900, 2000, 2023, 2024, u32::MAX] {
        assert_eq!(Day::validate(31, Month::Apr, Year(year)), Err(ValidationError::InvalidDay));
    }
}

#[test]
fn days_below_one_are_no_days() {
    for month in MONTHS {
        assert_eq!(Day::validate(0, month, Year(2024)), Err(ValidationError::InvalidDay));
        assert_eq!(Day::validate(-1, month, Year(2024)), Err(ValidationError::InvalidDay));
        assert_eq!(Day::validate(i32::MIN, month, Year(2024)), Err(ValidationError::InvalidDay));
        assert_eq!(Day::validate(1, month, Year(2024)), Ok(Day(1)));
    }
}

#[test]
fn every_month_ends_where_it_should() {
    let lengths = [31, 28, 31, 30, 31, 30, 31, 31, 30, 31, 30, 31];
    for (month, length) in MONTHS.iter().zip(lengths) {
        assert_eq!(last_day(*month, Year(2023)), length);
        assert_eq!(Day::validate(length, *month, Year(2023)), Ok(Day(length)));
        assert_eq!(
            Day::validate(length + 1, *month, Year(2023)),
            Err(ValidationError::InvalidDay)
        );
    }
    assert_eq!(last_day(Month::Feb, Year(2024)), 29);
    assert_eq!(Day::validate(30, Month::Feb, Year(2024)), Err(ValidationError::InvalidDay));
    assert_eq!(Day::validate(28, Month::Feb, Year(2023)), Ok(Day(28)));
}

#[test]
fn leap_years() {
    assert!(Year(2000).is_leap_year());
    assert!(Year(2024).is_leap_year());
    assert!(Year(2400).is_leap_year());
    assert!(Year(0).is_leap_year());
    assert!(!Year(1900).is_leap_year());
    assert!(!Year(2100).is_leap_year());
    assert!(!Year(2023).is_leap_year());
}

#[test]
fn month_numbers_count_from_one() {
    for (place, month) in MONTHS.iter().enumerate() {
        assert_eq!(month.id(), place as i32 + 1);
        assert_eq!(Month::from_u32(place as u32), Some(*month));
    }
    assert_eq!(Month::from_u32(12), None);
    assert_eq!(Month::from_u32(u32::MAX), None);
}

#[test]
fn year_is_written_in_base_ten() {
    assert_eq!(Year(2024).to_string(), "2024");
    assert_eq!(Year(0).to_string(), "0");
    assert_eq!(Year(u32::MAX).to_string(), "4294967295");
}

#[test]
fn years_are_counted_from_the_first() {
    assert_eq!(FIRST_YEAR, 2000);
    assert_eq!(LAST_YEAR, 2100);
    assert_eq!(Year::from_index(0), Some(Year(2000)));
    assert_eq!(Year::from_index(24), Some(Year(2024)));
    assert_eq!(Year::from_index(u32::MAX - 2000), Some(Year(u32::MAX)));
    assert_eq!(Year::from_index(u32::MAX - 1999), None);
    assert_eq!(Year(2024).index(), Some(24));
    assert_eq!(Year(2000).index(), Some(0));
    assert_eq!(Year(1999).index(), None);
}

#[test]
fn a_day_is_read_from_text() {
    assert_eq!(Day::from_string("17", Month::Mar, Year(2024)), Ok(Day(17)));
    assert_eq!(Day::from_string("+17", Month::Mar, Year(2024)), Ok(Day(17)));
    assert_eq!(Day::from_string("29", Month::Feb, Year(2024)), Ok(Day(29)));
}

#[test]
fn a_day_that_is_no_number_is_a_parse_error() {
    for text in ["", "x", "1.5", "1 ", "99999999999"] {
        assert_eq!(
            Day::from_string(text, Month::Mar, Year(2024)),
            Err(Error::Parse(ParseError::Day))
        );
    }
}

#[test]
fn a_day_that_the_month_lacks_is_a_validation_error() {
    for text in ["0", "-3", "32", "2147483647"] {
        assert_eq!(
            Day::from_string(text, Month::Mar, Year(2024)),
            Err(Error::Validation(ValidationError::InvalidDay))
        );
    }
    assert_eq!(
        Day::from_string("29", Month::Feb, Year(2023)),
        Err(Error::Validation(ValidationError::InvalidDay))
    );
}

#[test]
fn a_date_is_read_from_its_parts() {
    assert_eq!(date_from_parts(29, 2, 2024), Some((Day(29), Month::Feb, Year(2024))));
    assert_eq!(date_from_parts(1, 1, 0), Some((Day(1), Month::Jan, Year(0))));
    assert_eq!(date_from_parts(31, 12, i32::MAX), Some((Day(31), Month::Dec, Year(2147483647))));
}

#[test]
fn parts_that_are_no_date_are_refused() {
    assert_eq!(date_from_parts(29, 2, 2023), None);
    assert_eq!(date_from_parts(0, 1, 2024), None);
    assert_eq!(date_from_parts(32, 1, 2024), None);
    assert_eq!(date_from_parts(u32::MAX, 1, 2024), None);
    assert_eq!(date_from_parts(1, 0, 2024), None);
    assert_eq!(date_from_parts(1, 13, 2024), None);
    assert_eq!(date_from_parts(1, u32::MAX, 2024), None);
    assert_eq!(date_from_parts(1, 1, -1), None);
    assert_eq!(date_from_parts(1, 1, i32::MIN), None);
}

#[test]
fn a_chrono_date_gives_its_day_month_and_year() {
    let date = NaiveDate::from_ymd_opt(2024, 2, 29).unwrap();
    assert_eq!(date_from_chrono(&date), Some((Day(29), Month::Feb, Year(2024))));
    let date = NaiveDate::from_ymd_opt(1999, 12, 31).unwrap();
    assert_eq!(date_from_chrono(&date), Some((Day(31), Month::Dec, Year(1999))));
    let date = NaiveDate::from_ymd_opt(0, 1, 1).unwrap();
    assert_eq!(date_from_chrono(&date), Some((Day(1), Month::Jan, Year(0))));
    let date = NaiveDate::from_ymd_opt(7, 8, 9).unwrap();
    assert_eq!(date_from_chrono(&date), Some((Day(9), Month::Aug, Year(7))));
}

#[test]
fn a_chrono_date_before_the_year_0_gives_nothing() {
    let date = NaiveDate::from_ymd_opt(-1, 12, 31).unwrap();
    assert_eq!(date_from_chrono(&date), None);
    assert_eq!(date_from_chrono(&NaiveDate::MIN), None);
}

#[test]
fn every_chrono_date_of_a_leap_year_is_read() {
    let mut date = NaiveDate::from_ymd_opt(2024, 1, 1).unwrap();
    let mut count = 0;
    while let Some((day, month, year)) = date_from_chrono(&date) {
        if year != Year(2024) {
            break;
        }
        assert_eq!(Day::validate(day.0, month, year), Ok(day));
        count += 1;
        date = date.succ_opt().unwrap();
    }
    assert_eq!(count, 366);
}
