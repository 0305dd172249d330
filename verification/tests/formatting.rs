use weather_ingest::ForwardOutcome;
use weather_ingest::build_forward_log_line;
use weather_ingest::build_request_log_line;
use weather_ingest::build_success_message;
use weather_ingest::i32_to_string;
use weather_ingest::status_is_success;
use weather_ingest::str_eq;
use weather_ingest::u64_to_string;

#[test]
fn unsigned_decimal_rendering() {
    assert_eq!(u64_to_string(0), "0");
    assert_eq!(u64_to_string(7), "7");
    assert_eq!(u64_to_string(10), "10");
    assert_eq!(u64_to_string(120), "120");
    assert_eq!(u64_to_string(9_007_199_254_740_993), "9007199254740993");
    assert_eq!(u64_to_string(u64::MAX), "18446744073709551615");
}

#[test]
fn signed_decimal_rendering() {
    assert_eq!(i32_to_string(0), "0");
    assert_eq!(i32_to_string(22), "22");
    assert_eq!(i32_to_string(-1), "-1");
    assert_eq!(i32_to_string(i32::MAX), "2147483647");
    assert_eq!(i32_to_string(i32::MIN), "-2147483648");
}

#[test]
fn success_message_carries_the_ordinal() {
    assert_eq!(build_success_message(1), "Tweet processed (Request #1)");
    assert_eq!(build_success_message(42), "Tweet processed (Request #42)");
}

#[test]
fn request_log_line_shows_all_fields() {
    let line = build_request_log_line("mixco", -3, 85, "rainy", 12);
    assert_eq!(
        line,
        "[Request #12] Received tweet from mixco: -3°C, 85% humidity, rainy weather"
    );
}

#[test]
fn forward_log_line_per_outcome() {
    let delivered = ForwardOutcome::Delivered { status: 200 };
    assert_eq!(
        build_forward_log_line(&delivered),
        "Successfully forwarded to Go service"
    );
    let rejected = ForwardOutcome::Delivered { status: 404 };
    assert_eq!(
        build_forward_log_line(&rejected),
        "Go service responded with: 404"
    );
    let failed = ForwardOutcome::TransportFailure {
        detail: "dns error".to_string(),
    };
    assert_eq!(
        build_forward_log_line(&failed),
        "Error forwarding to Go service: dns error"
    );
}

#[test]
fn success_status_class_boundaries() {
    assert!(!status_is_success(199));
    assert!(status_is_success(200));
    assert!(status_is_success(204));
    assert!(status_is_success(299));
    assert!(!status_is_success(300));
    assert!(!status_is_success(500));
}

#[test]
fn string_equality_is_exact() {
    assert!(str_eq("mixco", "mixco"));
    assert!(!str_eq("mixco", "mixc"));
    assert!(!str_eq("mixco", "mixcoo"));
    assert!(!str_eq("mixco", "Mixco"));
    assert!(str_eq("", ""));
}
