use weather_ingest::ForwardOutcome;
use weather_ingest::RequestCounter;
use weather_ingest::WeatherTweet;
use weather_ingest::build_forward_log_line;
use weather_ingest::handle_request;
use weather_ingest::process_tweet;

fn tweet(municipality: &str, temperature: i32, humidity: i32, weather: &str) -> WeatherTweet {
    WeatherTweet {
        municipality: municipality.to_string(),
        temperature,
        humidity,
        weather: weather.to_string(),
    }
}

#[test]
fn scenario_valid_record_on_fresh_process() {
    let mut counter = RequestCounter::new();
    let t = tweet("guatemala", 22, 60, "sunny");
    let h = handle_request(&mut counter, &t);
    assert_eq!(h.ordinal, 1);
    assert_eq!(h.reply.status_code, 200);
    assert_eq!(h.reply.body.status, "success");
    assert_eq!(h.reply.body.message, "Tweet processed (Request #1)");
    assert!(h.reply.forward);
    assert_eq!(
        h.log_line,
        "[Request #1] Received tweet from guatemala: 22°C, 60% humidity, sunny weather"
    );
    assert_eq!(counter.current(), 1);
}

#[test]
fn scenario_unknown_municipality() {
    let mut counter = RequestCounter::new();
    let t = tweet("unknown", 10, 50, "sunny");
    let h = handle_request(&mut counter, &t);
    assert_eq!(h.reply.status_code, 400);
    assert_eq!(h.reply.body.status, "error");
    assert_eq!(h.reply.body.message, "Invalid municipality");
    assert!(!h.reply.forward);
    assert_eq!(counter.current(), 1);
}

#[test]
fn scenario_unknown_weather() {
    let mut counter = RequestCounter::new();
    let t = tweet("mixco", 10, 50, "snowy");
    let h = handle_request(&mut counter, &t);
    assert_eq!(h.reply.status_code, 400);
    assert_eq!(h.reply.body.status, "error");
    assert_eq!(h.reply.body.message, "Invalid weather");
    assert!(!h.reply.forward);
}

#[test]
fn scenario_forwarding_failure_is_invisible_to_caller() {
    // The reply is decided before the downstream call is made, so a
    // transport failure changes only what the forwarder logs.
    let mut counter = RequestCounter::new();
    let t = tweet("guatemala", 22, 60, "sunny");
    let h = handle_request(&mut counter, &t);
    assert_eq!(h.reply.status_code, 200);
    assert!(h.reply.forward);
    let outcome = ForwardOutcome::TransportFailure {
        detail: "connection refused".to_string(),
    };
    let line = build_forward_log_line(&outcome);
    assert_eq!(line, "Error forwarding to Go service: connection refused");
    assert_eq!(h.reply.status_code, 200);
    assert_eq!(h.reply.body.status, "success");
}

#[test]
fn resubmission_succeeds_and_counts_again() {
    let mut counter = RequestCounter::new();
    let t = tweet("guatemala", 22, 60, "sunny");
    let first = handle_request(&mut counter, &t);
    let second = handle_request(&mut counter, &t);
    assert_eq!(first.reply.status_code, 200);
    assert_eq!(second.reply.status_code, 200);
    assert_eq!(first.reply.body.message, "Tweet processed (Request #1)");
    assert_eq!(second.reply.body.message, "Tweet processed (Request #2)");
    assert_eq!(counter.current(), 2);
}

#[test]
fn counter_counts_invalid_requests_too() {
    let mut counter = RequestCounter::new();
    let bad = tweet("nowhere", 0, 0, "sunny");
    let good = tweet("mixco", 5, 40, "rainy");
    handle_request(&mut counter, &bad);
    assert_eq!(counter.current(), 1);
    let h = handle_request(&mut counter, &good);
    assert_eq!(counter.current(), 2);
    assert_eq!(h.reply.body.message, "Tweet processed (Request #2)");
}

#[test]
fn municipality_is_checked_before_weather() {
    let reply = process_tweet(&tweet("atlantis", 1, 2, "snowy"), 1);
    assert_eq!(reply.status_code, 400);
    assert_eq!(reply.body.message, "Invalid municipality");
}

#[test]
fn every_valid_municipality_is_accepted() {
    for m in ["mixco", "guatemala", "amatitlan", "chinautla"] {
        let reply = process_tweet(&tweet(m, 20, 50, "cloudy"), 3);
        assert_eq!(reply.status_code, 200, "municipality {m}");
    }
}

#[test]
fn every_valid_weather_is_accepted() {
    for w in ["sunny", "cloudy", "rainy", "foggy"] {
        let reply = process_tweet(&tweet("chinautla", 20, 50, w), 3);
        assert_eq!(reply.status_code, 200, "weather {w}");
    }
}

#[test]
fn validation_is_case_sensitive() {
    let reply = process_tweet(&tweet("Mixco", 20, 50, "sunny"), 1);
    assert_eq!(reply.body.message, "Invalid municipality");
    let reply = process_tweet(&tweet("mixco", 20, 50, "SUNNY"), 1);
    assert_eq!(reply.body.message, "Invalid weather");
}

#[test]
fn empty_fields_are_rejected() {
    let reply = process_tweet(&tweet("", 20, 50, "sunny"), 1);
    assert_eq!(reply.body.message, "Invalid municipality");
    let reply = process_tweet(&tweet("amatitlan", 20, 50, ""), 1);
    assert_eq!(reply.body.message, "Invalid weather");
}

#[test]
fn extreme_temperature_and_humidity_pass_unchecked() {
    let reply = process_tweet(&tweet("guatemala", i32::MIN, i32::MAX, "foggy"), 9);
    assert_eq!(reply.status_code, 200);
    assert_eq!(reply.body.message, "Tweet processed (Request #9)");
}
