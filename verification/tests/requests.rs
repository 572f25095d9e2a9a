use weather::error::WeatherError;
use weather::geocode::extract_coordinates;
use weather::numfmt::i64_to_string;
use weather::session::weather_request_for;
use weather::urls::geocoding_url;
use weather::urls::history_url;
use weather::urls::onecall_url;

#[test]
fn integers_render_in_decimal() {
    assert_eq!(i64_to_string(0), "0");
    assert_eq!(i64_to_string(1586476800), "1586476800");
    assert_eq!(i64_to_string(-86400), "-86400");
    assert_eq!(i64_to_string(i64::MIN), "-9223372036854775808");
    assert_eq!(i64_to_string(i64::MAX), "9223372036854775807");
}

#[test]
fn geocoding_url_carries_query_key_and_limit() {
    let url = geocoding_url("London", "abc123", 1);
    assert_eq!(url, "http://api.openweathermap.org/geo/1.0/direct?q=London&appid=abc123&limit=1");
}

#[test]
fn geocoding_url_encodes_the_address() {
    let url = geocoding_url("New York", "k", 5);
    assert_eq!(url, "http://api.openweathermap.org/geo/1.0/direct?q=New+York&appid=k&limit=5");
}

#[test]
fn onecall_url_carries_coordinates_date_and_key() {
    let url = onecall_url("51.5085", "-0.1257", "1586476800", "abc123");
    assert_eq!(
        url,
        "https://api.openweathermap.org/data/3.0/onecall/timemachine?lat=51.5085&lon=-0.1257&dt=1586476800&appid=abc123"
    );
}

#[test]
fn history_url_carries_key_location_and_date() {
    let url = history_url("Paris", "1586476800", "k");
    assert_eq!(url, "http://api.weatherapi.com/v1/history.json?key=k&q=Paris&unixdt=1586476800");
}

#[test]
fn empty_geocoding_result_parses_to_no_coordinates() {
    let coords = extract_coordinates("[]").unwrap();
    assert_eq!(coords.len(), 0);
}

#[test]
fn coordinates_keep_their_decimal_text() {
    let coords = extract_coordinates(r#"[{"lat":51.5085,"lon":-0.1257}]"#).unwrap();
    assert_eq!(coords.len(), 1);
    assert_eq!(coords[0].latitude, "51.5085");
    assert_eq!(coords[0].longitude, "-0.1257");
}

#[test]
fn coordinates_keep_the_upstream_order() {
    let body = r#"[{"lat":1.5,"lon":2.5},{"lat":3.5,"lon":4.5},{"lat":5.5,"lon":6.5}]"#;
    let coords = extract_coordinates(body).unwrap();
    assert_eq!(coords.len(), 3);
    assert_eq!(coords[1].latitude, "3.5");
    assert_eq!(coords[1].longitude, "4.5");
    assert_eq!(coords[2].latitude, "5.5");
    assert_eq!(coords[2].longitude, "6.5");
}

#[test]
fn integer_coordinates_render_without_fraction() {
    let coords = extract_coordinates(r#"[{"lat":51,"lon":0,"name":"London"}]"#).unwrap();
    assert_eq!(coords[0].latitude, "51");
    assert_eq!(coords[0].longitude, "0");
}

#[test]
fn malformed_geocoding_bodies_are_rejected() {
    assert!(matches!(extract_coordinates("not json"), Err(WeatherError::CoordinatesParse)));
    assert!(matches!(
        extract_coordinates(r#"{"lat":1,"lon":2}"#),
        Err(WeatherError::CoordinatesParse)
    ));
    assert!(matches!(
        extract_coordinates(r#"[{"lat":"north","lon":2}]"#),
        Err(WeatherError::CoordinatesParse)
    ));
    assert!(matches!(
        extract_coordinates(r#"[{"lon":2}]"#),
        Err(WeatherError::CoordinatesParse)
    ));
}

#[test]
fn zero_matches_stop_before_any_weather_request() {
    let coords = extract_coordinates("[]").unwrap();
    let request = weather_request_for(&coords, 1586476800, "abc123");
    assert_eq!(request, Err(WeatherError::NoCoordinatesFound));
}

#[test]
fn the_first_of_several_matches_wins() {
    let body = r#"[{"lat":51.5085,"lon":-0.1257},{"lat":42.0,"lon":13.0},{"lat":7.5,"lon":8.5}]"#;
    let coords = extract_coordinates(body).unwrap();
    let url = weather_request_for(&coords, 1586476800, "abc123").unwrap();
    assert_eq!(
        url,
        "https://api.openweathermap.org/data/3.0/onecall/timemachine?lat=51.5085&lon=-0.1257&dt=1586476800&appid=abc123"
    );
}

#[test]
fn error_messages_are_user_facing() {
    assert_eq!(
        WeatherError::NoCoordinatesFound.message(),
        "No coordinates for specified address. Probably, specified location is wrong"
    );
    assert_eq!(WeatherError::CoordinatesParse.message(), "Failed to get coordinates");
    assert_eq!(
        WeatherError::DateFormat.message(),
        "Date in the wrong format. It has to be in yyyy-MM-dd format and has proper values"
    );
}
