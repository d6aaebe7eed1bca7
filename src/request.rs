//! The request sent to the weather service.
use vstd::prelude::*;

verus! {

/// The URL that asks for the current temperature, humidity, wind speed and
/// weather code at `latitude`,`longitude`, in metric units at one-minute steps.
pub open spec fn url_of(latitude: Seq<char>, longitude: Seq<char>, api_key: Seq<char>) -> Seq<char> {
    "https://api.tomorrow.io/v4/timelines?location="@ + latitude + ","@ + longitude
        + "&fields=temperature&fields=humidity&fields=windSpeed&fields=weatherCode&timesteps=1m&units=metric&apikey="@
        + api_key
}

/// Builds the request URL; the three arguments go in as they are.
pub fn request_url(latitude: &str, longitude: &str, api_key: &str) -> (r: String)
    ensures
        r@ == url_of(latitude@, longitude@, api_key@),
{
    let mut url = "https://api.tomorrow.io/v4/timelines?location=".to_owned();
    url.append(latitude);
    url.append(",");
    url.append(longitude);
    url.append(
        "&fields=temperature&fields=humidity&fields=windSpeed&fields=weatherCode&timesteps=1m&units=metric&apikey=",
    );
    url.append(api_key);
    url
}

} // verus!
