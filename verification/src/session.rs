//! One "get weather" exchange with a provider, as a step machine.
//!
//! The exchange needs one HTTP round-trip for the direct-query provider
//! and two for the provider with a geocoding pre-step.  The decisions —
//! which URL to fetch first, what a response body means, when to stop —
//! all live here and are verified; the surrounding binary only performs
//! each requested fetch and hands the body text back.

use vstd::prelude::*;

use crate::error::WeatherError;
use crate::geocode::GeoCoordinates;
use crate::geocode::coords_view;
use crate::geocode::extract_coordinates;
use crate::geocode::geo_body_ok;
use crate::geocode::geo_pairs;
use crate::numfmt::dec_int;
use crate::numfmt::i64_to_string;
use crate::provider::Provider;
use crate::urls::geocoding_url;
use crate::urls::history_url;
use crate::urls::onecall_url;
use crate::urls::spec_geocoding_url;
use crate::urls::spec_history_url;
use crate::urls::spec_onecall_url;

verus! {

/// What the surrounding binary must do next in an exchange.
pub enum WeatherStep {
    /// Issue a GET against this URL and hand the body text back.
    Fetch { url: String },
    /// The exchange is over; this body is the weather text to print.
    Done { body: String },
}

/// Which response an exchange is waiting for.
#[derive(Clone, Copy, PartialEq, Eq, Structural, Debug)]
pub enum SessionStage {
    /// The geocoding response is awaited.
    AwaitingCoordinates,
    /// The weather response is awaited.
    AwaitingWeather,
}

/// Chooses the second-stage request from a geocoding result.
///
/// Zero matches mean the address is unknown upstream: that is the
/// `NoCoordinatesFound` error, and no weather request is made.  One or
/// more matches: the first is used, deterministically, whatever follows
/// it.
pub fn weather_request_for(coords: &Vec<GeoCoordinates>, date: i64, api_key: &str) -> (r: Result<
    String,
    WeatherError,
>)
    ensures
        coords@.len() == 0 <==> r == Err::<String, WeatherError>(WeatherError::NoCoordinatesFound),
        coords@.len() > 0 ==> (r matches Ok(u) && u@ == spec_onecall_url(
            coords@[0].latitude@,
            coords@[0].longitude@,
            dec_int(date as int),
            api_key@,
        )),
{
    if coords.len() == 0 {
        return Err(WeatherError::NoCoordinatesFound);
    }
    let first = &coords[0];
    let date_text = i64_to_string(date);
    Ok(onecall_url(first.latitude.as_str(), first.longitude.as_str(), date_text.as_str(), api_key))
}

/// One exchange with the selected provider for one address and date.
pub struct WeatherSession {
    provider: Provider,
    api_key: String,
    address: String,
    date: i64,
    stage: SessionStage,
}

impl WeatherSession {
    /// The provider this exchange talks to.
    pub closed spec fn spec_provider(self) -> Provider {
        self.provider
    }

    /// The API key sent with each request.
    pub closed spec fn spec_api_key(self) -> Seq<char> {
        self.api_key@
    }

    /// The address being asked about.
    pub closed spec fn spec_address(self) -> Seq<char> {
        self.address@
    }

    /// The Unix timestamp being asked about.
    pub closed spec fn spec_date(self) -> int {
        self.date as int
    }

    /// Which response the exchange is waiting for.
    pub closed spec fn spec_stage(self) -> SessionStage {
        self.stage
    }

    /// The stage an exchange with `provider` starts in: the provider with
    /// the geocoding pre-step awaits coordinates, the other one awaits the
    /// weather response itself.
    pub open spec fn spec_start_stage(provider: Provider) -> SessionStage {
        match provider {
            Provider::OpenWeather => SessionStage::AwaitingCoordinates,
            Provider::WeatherApi => SessionStage::AwaitingWeather,
        }
    }

    /// The URL of the first request of an exchange: the geocoding lookup
    /// (with `limit` fixed to 1) for the provider that needs one, the
    /// history query itself for the other.
    pub open spec fn spec_first_url(
        provider: Provider,
        api_key: Seq<char>,
        address: Seq<char>,
        date: int,
    ) -> Seq<char> {
        match provider {
            Provider::OpenWeather => spec_geocoding_url(address, api_key, 1),
            Provider::WeatherApi => spec_history_url(address, dec_int(date), api_key),
        }
    }

    /// Whether the next fetch is the coordinate lookup (rather than the
    /// weather lookup).
    pub fn awaiting_coordinates(&self) -> (r: bool)
        ensures
            r == (self.spec_stage() == SessionStage::AwaitingCoordinates),
    {
        match self.stage {
            SessionStage::AwaitingCoordinates => true,
            SessionStage::AwaitingWeather => false,
        }
    }

    /// Starts an exchange, returning the session and the first URL to
    /// fetch.
    pub fn start(provider: Provider, api_key: String, address: String, date: i64) -> (r: (
        WeatherSession,
        String,
    ))
        ensures
            r.0.spec_provider() == provider,
            r.0.spec_api_key() == api_key@,
            r.0.spec_address() == address@,
            r.0.spec_date() == date as int,
            r.0.spec_stage() == Self::spec_start_stage(provider),
            r.1@ == Self::spec_first_url(provider, api_key@, address@, date as int),
    {
        match provider {
            Provider::OpenWeather => {
                let url = geocoding_url(address.as_str(), api_key.as_str(), 1);
                let session = WeatherSession {
                    provider,
                    api_key,
                    address,
                    date,
                    stage: SessionStage::AwaitingCoordinates,
                };
                (session, url)
            },
            Provider::WeatherApi => {
                let date_text = i64_to_string(date);
                let url = history_url(address.as_str(), date_text.as_str(), api_key.as_str());
                let session = WeatherSession {
                    provider,
                    api_key,
                    address,
                    date,
                    stage: SessionStage::AwaitingWeather,
                };
                (session, url)
            },
        }
    }

    /// Consumes the body of the last response and says what to do next.
    ///
    /// While coordinates are awaited, the body is read as the geocoding
    /// result: a malformed body is a `CoordinatesParse` error; zero
    /// matches stop the exchange with `NoCoordinatesFound` before any
    /// weather request; otherwise the first match — and no other — makes
    /// the weather request.  While the weather response is awaited, the
    /// body is the weather text itself and the exchange is over.
    pub fn on_response(&mut self, body: String) -> (r: Result<WeatherStep, WeatherError>)
        ensures
            final(self).spec_provider() == old(self).spec_provider(),
            final(self).spec_api_key() == old(self).spec_api_key(),
            final(self).spec_address() == old(self).spec_address(),
            final(self).spec_date() == old(self).spec_date(),
            old(self).spec_stage() == SessionStage::AwaitingWeather ==> r == Ok::<
                WeatherStep,
                WeatherError,
            >(WeatherStep::Done { body }),
            old(self).spec_stage() == SessionStage::AwaitingCoordinates ==> {
                &&& !geo_body_ok(body@) ==> r == Err::<WeatherStep, WeatherError>(
                    WeatherError::CoordinatesParse,
                )
                &&& geo_body_ok(body@) && geo_pairs(body@).len() == 0 ==> r == Err::<
                    WeatherStep,
                    WeatherError,
                >(WeatherError::NoCoordinatesFound)
                &&& geo_body_ok(body@) && geo_pairs(body@).len() > 0 ==> (r matches Ok(step)
                    && step matches WeatherStep::Fetch { url } && url@ == spec_onecall_url(
                    geo_pairs(body@)[0].0,
                    geo_pairs(body@)[0].1,
                    dec_int(old(self).spec_date()),
                    old(self).spec_api_key(),
                ) && final(self).spec_stage() == SessionStage::AwaitingWeather)
            },
            r is Err ==> *final(self) == *old(self),
    {
        match self.stage {
            SessionStage::AwaitingWeather => Ok(WeatherStep::Done { body }),
            SessionStage::AwaitingCoordinates => {
                let coords = match extract_coordinates(body.as_str()) {
                    Ok(c) => c,
                    Err(e) => {
                        return Err(e);
                    },
                };
                proof {
                    assert(coords_view(coords@).len() == coords@.len());
                    if coords@.len() > 0 {
                        assert(coords_view(coords@)[0] == (
                            coords@[0].latitude@,
                            coords@[0].longitude@,
                        ));
                    }
                }
                let url = match weather_request_for(&coords, self.date, self.api_key.as_str()) {
                    Ok(u) => u,
                    Err(e) => {
                        return Err(e);
                    },
                };
                self.stage = SessionStage::AwaitingWeather;
                Ok(WeatherStep::Fetch { url })
            },
        }
    }
}

} // verus!
