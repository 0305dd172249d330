//! A single-purpose ingestion service, verified: it accepts a municipal
//! weather observation, validates its two enumerated fields, counts the
//! request, and prepares the record for relay to a downstream orchestrator.
//!
//! Everything short of I/O is here with a proved contract: the validation
//! sets, the handler's decision (which response is owed to which record, and
//! whether the record is forwarded), the request counter, the response and
//! log-line text, and the JSON rendering of the record. The HTTP server and
//! the downstream call themselves live outside the library and hand plain
//! values in and out.

mod counter;
mod decimal;
mod forward;
mod handler;
mod json;
mod messages;
mod text;
mod tweet;
mod validate;

pub use counter::RequestCounter;
pub use decimal::dec_digits;
pub use decimal::digit_char;
pub use decimal::i32_to_string;
pub use decimal::int_digits;
pub use decimal::u64_to_string;
pub use forward::ForwardOutcome;
pub use forward::build_forward_log_line;
pub use forward::forward_log_line;
pub use forward::is_success_status;
pub use forward::status_is_success;
pub use handler::HandledRequest;
pub use handler::HandlerReply;
pub use handler::ReplyModel;
pub use handler::accepted;
pub use handler::handle_request;
pub use handler::lemma_no_deduplication;
pub use handler::lemma_unknown_municipality_rejected;
pub use handler::lemma_unknown_weather_rejected;
pub use handler::lemma_valid_record_accepted;
pub use handler::process_tweet;
pub use handler::reply_matches;
pub use handler::reply_model;
pub use json::esc_char;
pub use json::escape_json;
pub use json::hex_digit_char;
pub use json::json_escaped;
pub use json::json_string;
pub use json::tweet_json;
pub use json::tweet_to_json;
pub use messages::build_request_log_line;
pub use messages::build_success_message;
pub use messages::request_log_line;
pub use messages::success_message;
pub use tweet::ApiResponse;
pub use tweet::WeatherTweet;
pub use validate::is_valid_municipality;
pub use validate::is_valid_weather;
pub use validate::str_eq;
pub use validate::valid_municipality;
pub use validate::valid_weather;
