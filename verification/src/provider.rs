//! The closed set of supported weather providers.

use vstd::prelude::*;

verus! {

/// A weather data provider.
///
/// Exactly two providers exist: one that needs a geocoding round-trip
/// before the weather request, and one that answers a single direct query.
/// Each has a stable external name used for command-line selection,
/// display, and persistence.
#[derive(Clone, Copy, PartialEq, Eq, Structural, Debug)]
pub enum Provider {
    OpenWeather,
    WeatherApi,
}

impl Provider {
    /// The external name of this provider.
    pub open spec fn spec_name(self) -> Seq<char> {
        match self {
            Provider::OpenWeather => "open-weather"@,
            Provider::WeatherApi => "weather-api"@,
        }
    }

    /// Returns the stable external name of this provider.
    pub fn name(&self) -> (r: String)
        ensures
            r@ == self.spec_name(),
    {
        match self {
            Provider::OpenWeather => String::from_str("open-weather"),
            Provider::WeatherApi => String::from_str("weather-api"),
        }
    }
}

} // verus!
