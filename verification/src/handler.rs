//! The request handler: for each inbound record, decide the response and
//! whether the record is forwarded downstream.
//!
//! The handler checks the municipality first, then the weather. An invalid
//! record is answered with status 400 and a fixed error message and is not
//! forwarded; a valid record is answered with status 200, a success message
//! carrying the request's ordinal, and is forwarded. The downstream
//! forwarder's outcome never reaches the caller.

use vstd::prelude::*;
use vstd::string::StringExecFns;
use crate::counter::RequestCounter;
use crate::messages::build_request_log_line;
use crate::messages::build_success_message;
use crate::messages::request_log_line;
use crate::messages::success_message;
use crate::tweet::ApiResponse;
use crate::tweet::WeatherTweet;
use crate::validate::is_valid_municipality;
use crate::validate::is_valid_weather;
use crate::validate::valid_municipality;
use crate::validate::valid_weather;

verus! {

/// What the handler returns to the caller, plus whether the record is to be
/// relayed downstream.
pub struct HandlerReply {
    pub status_code: u16,
    pub body: ApiResponse,
    pub forward: bool,
}

/// The mathematical model of a handler reply.
pub struct ReplyModel {
    pub status: int,
    pub status_text: Seq<char>,
    pub message: Seq<char>,
    pub forward: bool,
}

/// Whether a record passes both validations.
pub open spec fn accepted(municipality: Seq<char>, weather: Seq<char>) -> bool {
    valid_municipality(municipality) && valid_weather(weather)
}

/// The reply owed to a record: the municipality check comes first, then the
/// weather check; only a record that passes both is forwarded, and only its
/// success message mentions the request's ordinal.
pub open spec fn reply_model(
    municipality: Seq<char>,
    weather: Seq<char>,
    ordinal: nat,
) -> ReplyModel {
    if !valid_municipality(municipality) {
        ReplyModel {
            status: 400,
            status_text: "error"@,
            message: "Invalid municipality"@,
            forward: false,
        }
    } else if !valid_weather(weather) {
        ReplyModel { status: 400, status_text: "error"@, message: "Invalid weather"@, forward: false }
    } else {
        ReplyModel {
            status: 200,
            status_text: "success"@,
            message: success_message(ordinal),
            forward: true,
        }
    }
}

/// Whether an executable reply realises a reply model.
pub open spec fn reply_matches(r: HandlerReply, m: ReplyModel) -> bool {
    &&& r.status_code == m.status
    &&& r.body.status@ == m.status_text
    &&& r.body.message@ == m.message
    &&& r.forward == m.forward
}

/// Decides the reply for one record, given the request's 1-based ordinal.
pub fn process_tweet(tweet: &WeatherTweet, ordinal: u64) -> (reply: HandlerReply)
    ensures
        reply_matches(reply, reply_model(tweet.municipality@, tweet.weather@, ordinal as nat)),
{
    if !is_valid_municipality(tweet.municipality.as_str()) {
        HandlerReply {
            status_code: 400,
            body: ApiResponse {
                status: String::from_str("error"),
                message: String::from_str("Invalid municipality"),
            },
            forward: false,
        }
    } else if !is_valid_weather(tweet.weather.as_str()) {
        HandlerReply {
            status_code: 400,
            body: ApiResponse {
                status: String::from_str("error"),
                message: String::from_str("Invalid weather"),
            },
            forward: false,
        }
    } else {
        HandlerReply {
            status_code: 200,
            body: ApiResponse {
                status: String::from_str("success"),
                message: build_success_message(ordinal),
            },
            forward: true,
        }
    }
}

/// Everything the handler produces for one inbound request: the ordinal the
/// counter assigned, the diagnostic log line, and the reply.
pub struct HandledRequest {
    pub ordinal: u64,
    pub log_line: String,
    pub reply: HandlerReply,
}

/// Handles one inbound request end to end, short of I/O: records the request
/// on the counter (unconditionally, before any validation), produces the
/// diagnostic log line, and decides the reply.
pub fn handle_request(counter: &mut RequestCounter, tweet: &WeatherTweet) -> (h: HandledRequest)
    requires
        old(counter).count() < u64::MAX,
    ensures
        final(counter).count() == old(counter).count() + 1,
        h.ordinal == final(counter).count(),
        h.log_line@ == request_log_line(
            tweet.municipality@,
            tweet.temperature as int,
            tweet.humidity as int,
            tweet.weather@,
            h.ordinal as nat,
        ),
        reply_matches(h.reply, reply_model(tweet.municipality@, tweet.weather@, h.ordinal as nat)),
{
    let ordinal = counter.record_request();
    let log_line = build_request_log_line(
        tweet.municipality.as_str(),
        tweet.temperature,
        tweet.humidity,
        tweet.weather.as_str(),
        ordinal,
    );
    let reply = process_tweet(tweet, ordinal);
    HandledRequest { ordinal, log_line, reply }
}

/// A record whose municipality and weather are both in their valid sets is
/// answered with status 200 and the status word `success`, whatever its
/// ordinal.
pub proof fn lemma_valid_record_accepted(municipality: Seq<char>, weather: Seq<char>, ordinal: nat)
    requires
        valid_municipality(municipality),
        valid_weather(weather),
    ensures
        reply_model(municipality, weather, ordinal).status == 200,
        reply_model(municipality, weather, ordinal).status_text == "success"@,
        reply_model(municipality, weather, ordinal).message == success_message(ordinal),
        reply_model(municipality, weather, ordinal).forward,
{
}

/// A record whose municipality is outside the valid set is answered with
/// status 400 and the message `Invalid municipality`, whatever its weather
/// field holds and whatever its ordinal.
pub proof fn lemma_unknown_municipality_rejected(
    municipality: Seq<char>,
    weather: Seq<char>,
    ordinal: nat,
)
    requires
        !valid_municipality(municipality),
    ensures
        reply_model(municipality, weather, ordinal).status == 400,
        reply_model(municipality, weather, ordinal).status_text == "error"@,
        reply_model(municipality, weather, ordinal).message == "Invalid municipality"@,
        !reply_model(municipality, weather, ordinal).forward,
{
}

/// A record with a valid municipality but a weather outside the valid set is
/// answered with status 400 and the message `Invalid weather`, whatever its
/// ordinal.
pub proof fn lemma_unknown_weather_rejected(
    municipality: Seq<char>,
    weather: Seq<char>,
    ordinal: nat,
)
    requires
        valid_municipality(municipality),
        !valid_weather(weather),
    ensures
        reply_model(municipality, weather, ordinal).status == 400,
        reply_model(municipality, weather, ordinal).status_text == "error"@,
        reply_model(municipality, weather, ordinal).message == "Invalid weather"@,
        !reply_model(municipality, weather, ordinal).forward,
{
}

/// No deduplication: the handler's decision for a record is the same at any
/// two ordinals. Resubmitting the same record therefore succeeds (or fails)
/// exactly as before; only the ordinal inside a success message differs.
pub proof fn lemma_no_deduplication(
    municipality: Seq<char>,
    weather: Seq<char>,
    first: nat,
    second: nat,
)
    ensures
        reply_model(municipality, weather, first).status == reply_model(
            municipality,
            weather,
            second,
        ).status,
        reply_model(municipality, weather, first).status_text == reply_model(
            municipality,
            weather,
            second,
        ).status_text,
        reply_model(municipality, weather, first).forward == reply_model(
            municipality,
            weather,
            second,
        ).forward,
        accepted(municipality, weather) ==> reply_model(municipality, weather, first).message
            == success_message(first) && reply_model(municipality, weather, second).message
            == success_message(second),
        !accepted(municipality, weather) ==> reply_model(municipality, weather, first).message
            == reply_model(municipality, weather, second).message,
{
}

} // verus!
