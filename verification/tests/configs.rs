use day::config::{merge, Config, Overrides};
use day::order::DateOrder;

fn stored() -> Config {
    Config {
        order: DateOrder::YMD,
        separator: '_',
        extension: String::from("txt"),
        full_year: true,
    }
}

#[test]
fn the_default_is_day_month_year_with_hyphens() {
    let config = Config::default();
    assert_eq!(config.order, DateOrder::DMY);
    assert_eq!(config.separator, '-');
    assert_eq!(config.extension, "md");
    assert!(!config.full_year);
}

#[test]
fn no_overrides_choose_nothing() {
    let overrides = Overrides::none();
    assert_eq!(overrides.order, None);
    assert_eq!(overrides.separator, None);
    assert_eq!(overrides.extension, None);
    assert!(!overrides.full_year);
}

#[test]
fn merging_nothing_changes_nothing() {
    assert_eq!(merge(stored(), Overrides::none()), stored());
    assert_eq!(merge(Config::default(), Overrides::none()), Config::default());
}

#[test]
fn a_chosen_order_replaces_the_stored_one() {
    let overrides = Overrides { order: Some(DateOrder::MDY), ..Overrides::none() };
    let expected = Config { order: DateOrder::MDY, ..stored() };
    assert_eq!(merge(stored(), overrides), expected);
}

#[test]
fn a_chosen_separator_replaces_the_stored_one() {
    let overrides = Overrides { separator: Some('.'), ..Overrides::none() };
    let expected = Config { separator: '.', ..stored() };
    assert_eq!(merge(stored(), overrides), expected);
}

#[test]
fn a_chosen_extension_replaces_the_stored_one() {
    let overrides = Overrides { extension: Some(String::from("log")), ..Overrides::none() };
    let expected = Config { extension: String::from("log"), ..stored() };
    assert_eq!(merge(stored(), overrides), expected);
}

#[test]
fn the_flag_switches_the_full_year_on() {
    let overrides = Overrides { full_year: true, ..Overrides::none() };
    let merged = merge(Config::default(), overrides);
    assert!(merged.full_year);
    assert_eq!(merged, Config { full_year: true, ..Config::default() });
}

#[test]
fn the_flag_left_unset_keeps_a_stored_full_year() {
    let merged = merge(stored(), Overrides::none());
    assert!(merged.full_year);
}

#[test]
fn every_field_chosen_replaces_every_field() {
    let overrides = Overrides {
        order: Some(DateOrder::YMD),
        separator: Some('/'),
        extension: Some(String::new()),
        full_year: true,
    };
    let merged = merge(Config::default(), overrides);
    assert_eq!(
        merged,
        Config {
            order: DateOrder::YMD,
            separator: '/',
            extension: String::new(),
            full_year: true,
        }
    );
}

#[test]
fn the_name_of_an_order_is_its_letters_in_lower_case() {
    assert_eq!(DateOrder::DMY.name(), "dmy");
    assert_eq!(DateOrder::MDY.name(), "mdy");
    assert_eq!(DateOrder::YMD.name(), "ymd");
}
