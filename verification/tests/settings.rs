use weather::config::Config;
use weather::provider::Provider;

#[test]
fn default_settings_have_no_selection_and_no_keys() {
    let config = Config::default();
    assert_eq!(config.get_selected_provider(), None);
    assert!(config.get_selected_provider_api_key().is_none());
    assert!(config.api_key(Provider::OpenWeather).is_none());
    assert!(config.api_key(Provider::WeatherApi).is_none());
}

#[test]
fn selection_without_key_is_reported_as_such() {
    let mut config = Config::default();
    config.set_selected_provider(Some(Provider::OpenWeather));
    let resolved = config.get_selected_provider_api_key();
    assert!(matches!(resolved, Some((Provider::OpenWeather, None))));
}

#[test]
fn selection_with_key_is_reported_with_the_key() {
    let mut config = Config::default();
    config.set_selected_provider(Some(Provider::OpenWeather));
    config.set_api_key(Provider::OpenWeather, "abc123".to_string());
    match config.get_selected_provider_api_key() {
        Some((Provider::OpenWeather, Some(key))) => assert_eq!(key, "abc123"),
        other => panic!("unexpected resolution: {:?}", other.is_some()),
    }
}

#[test]
fn storing_a_key_twice_keeps_the_second() {
    let mut config = Config::default();
    config.set_api_key(Provider::WeatherApi, "first".to_string());
    config.set_api_key(Provider::WeatherApi, "second".to_string());
    assert_eq!(config.api_key(Provider::WeatherApi).map(String::as_str), Some("second"));
}

#[test]
fn storing_the_same_key_twice_changes_nothing() {
    let mut config = Config::default();
    config.set_api_key(Provider::WeatherApi, "same".to_string());
    config.set_api_key(Provider::WeatherApi, "same".to_string());
    assert_eq!(config.api_key(Provider::WeatherApi).map(String::as_str), Some("same"));
}

#[test]
fn keys_are_stored_per_provider() {
    let mut config = Config::default();
    config.set_api_key(Provider::OpenWeather, "ow".to_string());
    config.set_api_key(Provider::WeatherApi, "wa".to_string());
    assert_eq!(config.api_key(Provider::OpenWeather).map(String::as_str), Some("ow"));
    assert_eq!(config.api_key(Provider::WeatherApi).map(String::as_str), Some("wa"));
}

#[test]
fn selection_does_not_touch_keys() {
    let mut config = Config::default();
    config.set_api_key(Provider::OpenWeather, "ow".to_string());
    config.set_selected_provider(Some(Provider::WeatherApi));
    assert_eq!(config.api_key(Provider::OpenWeather).map(String::as_str), Some("ow"));
    config.set_selected_provider(None);
    assert_eq!(config.get_selected_provider(), None);
    assert_eq!(config.api_key(Provider::OpenWeather).map(String::as_str), Some("ow"));
}

#[test]
fn provider_names_are_stable() {
    assert_eq!(Provider::OpenWeather.name(), "open-weather");
    assert_eq!(Provider::WeatherApi.name(), "weather-api");
}
