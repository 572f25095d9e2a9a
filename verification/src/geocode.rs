//! Reading coordinate pairs out of a geocoding response.
//!
//! A well-formed response is a JSON array of objects, each carrying
//! numeric `lat` and `lon` fields.  serde_json does the parsing behind
//! one trusted reader whose result — well-formedness, and the pairs in
//! order — is named; everything downstream is verified against those
//! names.

use vstd::prelude::*;

use crate::error::WeatherError;

verus! {

/// A geographic coordinate pair, each component in the decimal text form
/// in which it goes into a request URL.  Produced only as an intermediate
/// result of a geocoding round-trip; never persisted.
pub struct GeoCoordinates {
    pub latitude: String,
    pub longitude: String,
}

/// Whether `body` is a well-formed geocoding result: a JSON array of
/// objects, each carrying numeric `lat` and `lon` fields.
pub uninterp spec fn geo_body_ok(body: Seq<char>) -> bool;

/// The coordinate pairs of a well-formed geocoding result, in the
/// array's order, each number in serde_json's text form.
pub uninterp spec fn geo_pairs(body: Seq<char>) -> Seq<(Seq<char>, Seq<char>)>;

/// The latitude and longitude texts of each pair.
pub open spec fn pair_texts(pairs: Seq<(String, String)>) -> Seq<(Seq<char>, Seq<char>)> {
    pairs.map_values(|p: (String, String)| (p.0@, p.1@))
}

/// The latitude and longitude texts of each coordinate pair.
pub open spec fn coords_view(coords: Seq<GeoCoordinates>) -> Seq<(Seq<char>, Seq<char>)> {
    coords.map_values(|c: GeoCoordinates| (c.latitude@, c.longitude@))
}

/// Relies on serde_json (`from_str`, `Map::get`, the `Display` of
/// `Number`): reads `body` as a JSON array of objects and hands back each
/// element's numeric `lat` and `lon` fields as text, in order — nothing
/// when the body has any other shape.  The result is a function of the
/// body text alone.
#[verifier::external_body]
fn read_geo_pairs(body: &str) -> (r: Option<Vec<(String, String)>>)
    ensures
        r is Some <==> geo_body_ok(body@),
        r matches Some(v) ==> pair_texts(v@) == geo_pairs(body@),
{
    let items: Vec<serde_json::Map<String, serde_json::Value>> = match serde_json::from_str(body) {
        Ok(v) => v,
        Err(_) => return None,
    };
    let mut pairs = Vec::with_capacity(items.len());
    for item in &items {
        match (item.get("lat"), item.get("lon")) {
            (Some(serde_json::Value::Number(lat)), Some(serde_json::Value::Number(lon))) => {
                pairs.push((lat.to_string(), lon.to_string()))
            },
            _ => return None,
        }
    }
    Some(pairs)
}

/// Reads the list of coordinate pairs out of a geocoding response body.
///
/// The body must be a JSON array of objects, each carrying numeric `lat`
/// and `lon` fields; every element becomes one pair, in the array's
/// order.  A body of any other shape is a `CoordinatesParse` error.  An
/// empty array is not an error here: the caller decides what zero matches
/// mean.
pub fn extract_coordinates(body: &str) -> (r: Result<Vec<GeoCoordinates>, WeatherError>)
    ensures
        r is Ok <==> geo_body_ok(body@),
        r matches Ok(coords) ==> coords_view(coords@) == geo_pairs(body@),
        r is Err ==> r == Err::<Vec<GeoCoordinates>, WeatherError>(WeatherError::CoordinatesParse),
{
    let pairs = match read_geo_pairs(body) {
        Some(v) => v,
        None => {
            return Err(WeatherError::CoordinatesParse);
        },
    };
    let n = pairs.len();
    let mut coords: Vec<GeoCoordinates> = Vec::new();
    let mut i: usize = 0;
    while i < n
        invariant
            n == pairs@.len(),
            i <= n,
            coords@.len() == i,
            coords_view(coords@) =~= pair_texts(pairs@.subrange(0, i as int)),
        decreases n - i,
    {
        let ghost prev = coords@;
        let latitude = pairs[i].0.clone();
        let longitude = pairs[i].1.clone();
        coords.push(GeoCoordinates { latitude, longitude });
        proof {
            let cur = coords@;
            assert(cur == prev.push(cur.last()));
            assert(cur.last().latitude@ == pairs@[i as int].0@);
            assert forall|j: int| 0 <= j < cur.len() implies coords_view(cur)[j] == pair_texts(
                pairs@.subrange(0, i as int + 1),
            )[j] by {
                if j < i {
                    assert(cur[j] == prev[j]);
                    assert(coords_view(prev)[j] == pair_texts(pairs@.subrange(0, i as int))[j]);
                    assert(pairs@.subrange(0, i as int)[j] == pairs@.subrange(0, i as int + 1)[j]);
                } else {
                    assert(cur[j].latitude@ == pairs@[i as int].0@);
                    assert(cur[j].longitude@ == pairs@[i as int].1@);
                }
            }
            assert(coords_view(cur) =~= pair_texts(pairs@.subrange(0, i as int + 1)));
        }
        i = i + 1;
    }
    proof {
        assert(pairs@.subrange(0, n as int) =~= pairs@);
        assert(coords_view(coords@) =~= geo_pairs(body@));
    }
    Ok(coords)
}

} // verus!
