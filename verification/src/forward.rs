//! The forwarder's decision logic: how the outcome of the downstream call is
//! classified and logged.
//!
//! The network call itself is I/O and lives outside the library; what can be
//! verified is what the forwarder says about each possible outcome. Whatever
//! the outcome, it is logged and nothing else: it never reaches the original
//! caller, who has already been promised success.

use vstd::prelude::*;
use vstd::string::StringExecFns;
use crate::decimal::dec_digits;
use crate::decimal::u64_to_string;

verus! {

/// Every way the downstream call can end: a response with some status code,
/// or no response at all (connection refused, name resolution failure,
/// timeout), described by the transport error's text.
pub enum ForwardOutcome {
    Delivered { status: u16 },
    TransportFailure { detail: String },
}

/// Whether a status code counts as success (the 2xx class).
pub open spec fn is_success_status(status: int) -> bool {
    200 <= status < 300
}

/// The log line owed to each forwarding outcome.
pub open spec fn forward_log_line(outcome: ForwardOutcome) -> Seq<char> {
    match outcome {
        ForwardOutcome::Delivered { status } => if is_success_status(status as int) {
            "Successfully forwarded to Go service"@
        } else {
            "Go service responded with: "@ + dec_digits(status as nat)
        },
        ForwardOutcome::TransportFailure { detail } => "Error forwarding to Go service: "@
            + detail@,
    }
}

/// Decides whether a status code is in the success class.
pub fn status_is_success(status: u16) -> (r: bool)
    ensures
        r == is_success_status(status as int),
{
    200 <= status && status < 300
}

/// Builds the log line for one forwarding outcome.
pub fn build_forward_log_line(outcome: &ForwardOutcome) -> (r: String)
    ensures
        r@ == forward_log_line(*outcome),
{
    match outcome {
        ForwardOutcome::Delivered { status } => {
            if status_is_success(*status) {
                String::from_str("Successfully forwarded to Go service")
            } else {
                let mut r = String::from_str("Go service responded with: ");
                let num = u64_to_string(*status as u64);
                r.append(num.as_str());
                r
            }
        },
        ForwardOutcome::TransportFailure { detail } => {
            let mut r = String::from_str("Error forwarding to Go service: ");
            r.append(detail.as_str());
            r
        },
    }
}

} // verus!
