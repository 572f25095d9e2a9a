//! Request-URL construction for the upstream weather services.
//!
//! Each upstream operation is one GET against a fixed base endpoint with a
//! handful of query parameters.  The URL itself is rendered by the `url`
//! crate (percent-encoding included) behind one trusted wrapper; the three
//! endpoint builders below are verified against its result.  The three
//! base endpoints are fixed absolute URLs that parse, so building a
//! request URL cannot fail.

use vstd::prelude::*;

use crate::numfmt::dec_int;
use crate::numfmt::i64_to_string;

verus! {

/// The absolute URL that the `url` crate renders when `params` are
/// appended, form-urlencoded, to the query of the URL parsed from `base`.
pub uninterp spec fn url_with_params(base: Seq<char>, params: Seq<(Seq<char>, Seq<char>)>) -> Seq<char>;

/// The key and value characters of each query parameter.
pub open spec fn params_view(params: Seq<(String, String)>) -> Seq<(Seq<char>, Seq<char>)> {
    params.map_values(|p: (String, String)| (p.0@, p.1@))
}

/// Relies on `url::Url::parse_with_params`: parses `base` as an absolute
/// URL, appends each pair of `params` percent-encoded to its query, and
/// renders the result, which is a function of `base` and `params` alone.
/// The call fails only when `base` does not parse — appending parameters
/// never fails — and each base this library passes is a fixed absolute
/// URL that parses, so the call cannot fail here.
#[verifier::external_body]
fn build_url(base: &str, params: &Vec<(String, String)>) -> (r: String)
    requires
        base@ == "http://api.openweathermap.org/geo/1.0/direct"@ || base@
            == "https://api.openweathermap.org/data/3.0/onecall/timemachine"@ || base@
            == "http://api.weatherapi.com/v1/history.json"@,
    ensures
        r@ == url_with_params(base@, params_view(params@)),
{
    let url = url::Url::parse_with_params(base, params.iter().map(|p| (p.0.as_str(), p.1.as_str())));
    url.unwrap().as_str().to_string()
}

/// The geocoding request URL for `address`: the fixed geocoding endpoint
/// with parameters `q`, `appid` and `limit`.
pub open spec fn spec_geocoding_url(address: Seq<char>, api_key: Seq<char>, limit: int) -> Seq<
    char,
> {
    url_with_params(
        "http://api.openweathermap.org/geo/1.0/direct"@,
        seq![("q"@, address), ("appid"@, api_key), ("limit"@, dec_int(limit))],
    )
}

/// Builds the URL that asks the geocoding service for the coordinates of
/// `address`, returning at most `limit` matches (the service answers with
/// up to five).
pub fn geocoding_url(address: &str, api_key: &str, limit: i32) -> (r: String)
    requires
        1 <= limit <= 5,
    ensures
        r@ == spec_geocoding_url(address@, api_key@, limit as int),
{
    let mut params: Vec<(String, String)> = Vec::new();
    params.push((String::from_str("q"), String::from_str(address)));
    params.push((String::from_str("appid"), String::from_str(api_key)));
    params.push((String::from_str("limit"), i64_to_string(limit as i64)));
    proof {
        assert(params_view(params@) =~= seq![
            ("q"@, address@),
            ("appid"@, api_key@),
            ("limit"@, dec_int(limit as int)),
        ]);
    }
    build_url("http://api.openweathermap.org/geo/1.0/direct", &params)
}

/// The historical-weather request URL for a coordinate pair: the fixed
/// one-call endpoint with parameters `lat`, `lon`, `dt` and `appid`.
pub open spec fn spec_onecall_url(
    lat: Seq<char>,
    lon: Seq<char>,
    date: Seq<char>,
    api_key: Seq<char>,
) -> Seq<char> {
    url_with_params(
        "https://api.openweathermap.org/data/3.0/onecall/timemachine"@,
        seq![("lat"@, lat), ("lon"@, lon), ("dt"@, date), ("appid"@, api_key)],
    )
}

/// Builds the URL that asks for historical weather at the given
/// coordinates on `date` (a Unix timestamp in decimal).
pub fn onecall_url(lat: &str, lon: &str, date: &str, api_key: &str) -> (r: String)
    ensures
        r@ == spec_onecall_url(lat@, lon@, date@, api_key@),
{
    let mut params: Vec<(String, String)> = Vec::new();
    params.push((String::from_str("lat"), String::from_str(lat)));
    params.push((String::from_str("lon"), String::from_str(lon)));
    params.push((String::from_str("dt"), String::from_str(date)));
    params.push((String::from_str("appid"), String::from_str(api_key)));
    proof {
        assert(params_view(params@) =~= seq![
            ("lat"@, lat@),
            ("lon"@, lon@),
            ("dt"@, date@),
            ("appid"@, api_key@),
        ]);
    }
    build_url("https://api.openweathermap.org/data/3.0/onecall/timemachine", &params)
}

/// The historical-weather request URL of the direct-query service: the
/// fixed history endpoint with parameters `key`, `q` and `unixdt`.
pub open spec fn spec_history_url(
    location: Seq<char>,
    date: Seq<char>,
    api_key: Seq<char>,
) -> Seq<char> {
    url_with_params(
        "http://api.weatherapi.com/v1/history.json"@,
        seq![("key"@, api_key), ("q"@, location), ("unixdt"@, date)],
    )
}

/// Builds the URL that asks the direct-query service for historical
/// weather at `location` on `date` (a Unix timestamp in decimal).
pub fn history_url(location: &str, date: &str, api_key: &str) -> (r: String)
    ensures
        r@ == spec_history_url(location@, date@, api_key@),
{
    let mut params: Vec<(String, String)> = Vec::new();
    params.push((String::from_str("key"), String::from_str(api_key)));
    params.push((String::from_str("q"), String::from_str(location)));
    params.push((String::from_str("unixdt"), String::from_str(date)));
    proof {
        assert(params_view(params@) =~= seq![("key"@, api_key@), ("q"@, location@), ("unixdt"@, date@)]);
    }
    build_url("http://api.weatherapi.com/v1/history.json", &params)
}

} // verus!
