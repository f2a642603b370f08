use moneyz::calendar::{Month, Year};
use moneyz::config::{Config, DEFAULT_LANGUAGE};
use moneyz::file_names::{month_year_to_filename, BUDGET_CATEGORIES_FILE, CONFIG_FILE};

#[test]
fn ledger_file_is_named_by_year_and_month() {
    assert_eq!(month_year_to_filename(Month::Mar, Year(2024)), "2024_03.json");
    assert_eq!(month_year_to_filename(Month::Jan, Year(2000)), "2000_01.json");
    assert_eq!(month_year_to_filename(Month::Oct, Year(2099)), "2099_10.json");
    assert_eq!(month_year_to_filename(Month::Dec, Year(2100)), "2100_12.json");
    assert_eq!(month_year_to_filename(Month::Sep, Year(7)), "7_09.json");
}

#[test]
fn ledger_files_of_different_months_differ() {
    let mut names = Vec::new();
    for year in 2000..2100 {
        for month in 0..12 {
            names.push(month_year_to_filename(Month::from_u32(month).unwrap(), Year(year)));
        }
    }
    let count = names.len();
    names.sort();
    names.dedup();
    assert_eq!(names.len(), count);
}

#[test]
fn other_files_have_fixed_names() {
    assert_eq!(BUDGET_CATEGORIES_FILE, "budget_categories.json");
    assert_eq!(CONFIG_FILE, "config.json");
}

#[test]
fn the_first_language_is_british_english() {
    assert_eq!(Config::default().language, "en_GB");
    assert_eq!(DEFAULT_LANGUAGE, "en_GB");
}
