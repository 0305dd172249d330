//! The observation record and the response body.

use vstd::prelude::*;

verus! {

/// One municipal weather observation, as carried by an inbound request.
/// `temperature` and `humidity` are taken as given: no range check is made
/// on either.
#[derive(Debug)]
pub struct WeatherTweet {
    pub municipality: String,
    pub temperature: i32,
    pub humidity: i32,
    pub weather: String,
}

/// The body of every response: a status word and a message.
#[derive(Debug)]
pub struct ApiResponse {
    pub status: String,
    pub message: String,
}

} // verus!
