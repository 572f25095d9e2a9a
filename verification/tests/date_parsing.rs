use weather::date::parse_date;
use weather::error::WeatherError;

#[test]
fn valid_date_yields_utc_midnight_timestamp() {
    assert_eq!(parse_date("2020-04-10"), Ok(1586476800));
}

#[test]
fn epoch_day_is_zero() {
    assert_eq!(parse_date("1970-01-01"), Ok(0));
}

#[test]
fn leap_day_is_accepted_in_leap_years() {
    assert_eq!(parse_date("2020-02-29"), Ok(1582934400));
}

#[test]
fn leap_day_is_rejected_in_common_years() {
    assert_eq!(parse_date("2021-02-29"), Err(WeatherError::DateFormat));
}

#[test]
fn century_years_are_not_leap_unless_divisible_by_400() {
    assert_eq!(parse_date("1900-02-29"), Err(WeatherError::DateFormat));
    assert_eq!(parse_date("2000-02-29"), Ok(951782400));
}

#[test]
fn out_of_range_month_and_day_are_rejected() {
    assert_eq!(parse_date("2020-13-01"), Err(WeatherError::DateFormat));
    assert_eq!(parse_date("2020-00-10"), Err(WeatherError::DateFormat));
    assert_eq!(parse_date("2020-04-31"), Err(WeatherError::DateFormat));
    assert_eq!(parse_date("2020-04-00"), Err(WeatherError::DateFormat));
}

#[test]
fn wrong_separators_are_rejected() {
    assert_eq!(parse_date("2020/04/10"), Err(WeatherError::DateFormat));
    assert_eq!(parse_date("2020-04.10"), Err(WeatherError::DateFormat));
}

#[test]
fn wrong_length_is_rejected() {
    assert_eq!(parse_date(""), Err(WeatherError::DateFormat));
    assert_eq!(parse_date("20-04-10"), Err(WeatherError::DateFormat));
    assert_eq!(parse_date("2020-4-10"), Err(WeatherError::DateFormat));
    assert_eq!(parse_date("2020-04-101"), Err(WeatherError::DateFormat));
}

#[test]
fn non_numeric_input_is_rejected() {
    assert_eq!(parse_date("abcd-ef-gh"), Err(WeatherError::DateFormat));
    assert_eq!(parse_date("2020-o4-10"), Err(WeatherError::DateFormat));
}

#[test]
fn days_before_the_epoch_are_negative() {
    assert_eq!(parse_date("1969-12-31"), Ok(-86400));
    assert_eq!(parse_date("0000-01-01"), Ok(-62167219200));
}

#[test]
fn last_supported_day_parses() {
    assert_eq!(parse_date("9999-12-31"), Ok(253402214400));
}
