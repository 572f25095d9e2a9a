//! Errors that the library's own logic can produce.
//!
//! Transport failures, body-decoding failures and settings-persistence
//! failures happen during I/O, which the surrounding binary performs; they
//! are reported there and never pass through these variants.

use vstd::prelude::*;

verus! {

/// An error from the library's own computations.
///
/// Request URLs are built against fixed base endpoints that always parse,
/// so URL construction cannot fail and has no variant here.
#[derive(Clone, Copy, PartialEq, Eq, Structural, Debug)]
pub enum WeatherError {
    /// The geocoding response was not a JSON array of objects carrying
    /// numeric `lat` and `lon` fields.
    CoordinatesParse,
    /// The geocoding service returned zero matches for the address.
    NoCoordinatesFound,
    /// A date argument does not match `yyyy-MM-dd` or has out-of-range
    /// calendar values.
    DateFormat,
}

impl WeatherError {
    /// The user-facing description of this error.
    pub open spec fn spec_message(self) -> Seq<char> {
        match self {
            WeatherError::CoordinatesParse => "Failed to get coordinates"@,
            WeatherError::NoCoordinatesFound => "No coordinates for specified address. Probably, specified location is wrong"@,
            WeatherError::DateFormat => "Date in the wrong format. It has to be in yyyy-MM-dd format and has proper values"@,
        }
    }

    /// Returns the user-facing description of this error.
    pub fn message(&self) -> (r: String)
        ensures
            r@ == self.spec_message(),
    {
        match self {
            WeatherError::CoordinatesParse => String::from_str("Failed to get coordinates"),
            WeatherError::NoCoordinatesFound => String::from_str(
                "No coordinates for specified address. Probably, specified location is wrong",
            ),
            WeatherError::DateFormat => String::from_str(
                "Date in the wrong format. It has to be in yyyy-MM-dd format and has proper values",
            ),
        }
    }
}

} // verus!
