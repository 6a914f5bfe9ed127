//! Choosing the venue client for an account.

use vstd::prelude::*;
use crate::binance::{ApiView, BinanceFuturesApi};
use crate::entries::{distinct_keys, find_entry, lookup_entry};

verus! {

/// The venue APIs that the server can talk to.
#[derive(PartialEq, Eq, Structural, Clone, Copy, Debug)]
pub enum VenueApi {
    BinanceFuturesApi,
}

/// Creates the client for `venue_type`, configured from the `base_url`,
/// `api_key` and `api_secret` entries of `params`.
///
/// The venue must be registered in `venues` and the three settings must be
/// present; each list holds a key at most once, as a map does.
pub fn get_venue_api(
    venues: &Vec<(String, VenueApi)>,
    venue_type: &str,
    params: &Vec<(String, String)>,
) -> (api: BinanceFuturesApi)
    requires
        distinct_keys(venues@),
        distinct_keys(params@),
        lookup_entry(venues@, venue_type@) is Some,
        lookup_entry(params@, "base_url"@) is Some,
        lookup_entry(params@, "api_key"@) is Some,
        lookup_entry(params@, "api_secret"@) is Some,
    ensures
        api@ == (ApiView {
            base_url: lookup_entry(params@, "base_url"@).unwrap()@,
            api_key: lookup_entry(params@, "api_key"@).unwrap()@,
            api_secret: lookup_entry(params@, "api_secret"@).unwrap()@,
        }),
{
    let venue = find_entry(venues, venue_type).unwrap();
    match venue {
        VenueApi::BinanceFuturesApi => {
            let base_url = find_entry(params, "base_url").unwrap();
            let api_key = find_entry(params, "api_key").unwrap();
            let api_secret = find_entry(params, "api_secret").unwrap();
            BinanceFuturesApi::new(base_url.as_str(), api_key.as_str(), api_secret.as_str())
        },
    }
}

} // verus!
