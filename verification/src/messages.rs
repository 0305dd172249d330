//! The human-facing text the service produces: the success message of a
//! processed request and the diagnostic log line emitted for every inbound
//! request.

use vstd::prelude::*;
use vstd::string::StringExecFns;
use crate::decimal::dec_digits;
use crate::decimal::int_digits;
use crate::decimal::u64_to_string;
use crate::decimal::i32_to_string;

verus! {

/// The body message of a successful response, with the request's 1-based
/// ordinal.
pub open spec fn success_message(ordinal: nat) -> Seq<char> {
    "Tweet processed (Request #"@ + dec_digits(ordinal) + ")"@
}

/// The diagnostic line logged for every inbound record, whatever the
/// validation outcome.
pub open spec fn request_log_line(
    municipality: Seq<char>,
    temperature: int,
    humidity: int,
    weather: Seq<char>,
    ordinal: nat,
) -> Seq<char> {
    "[Request #"@ + dec_digits(ordinal) + "] Received tweet from "@ + municipality + ": "@
        + int_digits(temperature) + "°C, "@ + int_digits(humidity) + "% humidity, "@ + weather
        + " weather"@
}

/// Builds the success message for the given request ordinal.
pub fn build_success_message(ordinal: u64) -> (r: String)
    ensures
        r@ == success_message(ordinal as nat),
{
    let mut r = String::from_str("Tweet processed (Request #");
    let num = u64_to_string(ordinal);
    r.append(num.as_str());
    r.append(")");
    proof {
        assert(r@ =~= success_message(ordinal as nat));
    }
    r
}

/// Builds the diagnostic log line for one inbound record.
pub fn build_request_log_line(
    municipality: &str,
    temperature: i32,
    humidity: i32,
    weather: &str,
    ordinal: u64,
) -> (r: String)
    ensures
        r@ == request_log_line(
            municipality@,
            temperature as int,
            humidity as int,
            weather@,
            ordinal as nat,
        ),
{
    let mut r = String::from_str("[Request #");
    let num = u64_to_string(ordinal);
    r.append(num.as_str());
    r.append("] Received tweet from ");
    r.append(municipality);
    r.append(": ");
    let temp = i32_to_string(temperature);
    r.append(temp.as_str());
    r.append("°C, ");
    let hum = i32_to_string(humidity);
    r.append(hum.as_str());
    r.append("% humidity, ");
    r.append(weather);
    r.append(" weather");
    proof {
        assert(r@ =~= request_log_line(
            municipality@,
            temperature as int,
            humidity as int,
            weather@,
            ordinal as nat,
        ));
    }
    r
}

} // verus!
