use otel_service::config::{TelemetryConfig, DEFAULT_ENDPOINT, DEFAULT_SERVICE_NAME};
use otel_service::message::{
    hello, hello_at, hello_reply, root, root_at, root_reply, Level, Reply, MAX_RFC3339_SECS,
};
use opentelemetry_otlp::{ExporterBuildError, LogExporter, MetricExporter, SpanExporter, WithExportConfig};
use otel_service::telemetry::{init_telemetry, InitError};

fn assert_recent_rfc3339(timestamp: &str) {
    let parsed = chrono::DateTime::parse_from_rfc3339(timestamp).expect("timestamp is RFC 3339");
    let now = chrono::Utc::now();
    let skew = (now.timestamp() - parsed.timestamp()).abs();
    assert!(skew <= 5, "timestamp {} is {} s away from now", timestamp, skew);
    assert!(timestamp.ends_with("+00:00"));
}

#[test]
fn defaults_when_both_variables_unset() {
    let config = TelemetryConfig::from_env_values(None, None);
    assert_eq!(config.service_name, "service");
    assert_eq!(config.endpoint, "http://localhost:4317");
    assert_eq!(DEFAULT_SERVICE_NAME, "service");
    assert_eq!(DEFAULT_ENDPOINT, "http://localhost:4317");
}

#[test]
fn service_name_from_variable() {
    let config = TelemetryConfig::from_env_values(Some("foo".to_string()), None);
    assert_eq!(config.service_name, "foo");
    assert_eq!(config.endpoint, "http://localhost:4317");
}

#[test]
fn endpoint_from_variable() {
    let config =
        TelemetryConfig::from_env_values(None, Some("http://collector:4317".to_string()));
    assert_eq!(config.service_name, "service");
    assert_eq!(config.endpoint, "http://collector:4317");
}

#[test]
fn empty_variables_fall_back_to_defaults() {
    let config = TelemetryConfig::from_env_values(Some(String::new()), Some(String::new()));
    assert_eq!(config.service_name, "service");
    assert_eq!(config.endpoint, "http://localhost:4317");
}

#[test]
fn root_reply_carries_greeting_and_timestamp() {
    let r: Reply = root_reply("2024-01-02T03:04:05+00:00".to_string());
    assert_eq!(r.body.message, "Rust OpenTelemetry Service");
    assert_eq!(r.body.timestamp, "2024-01-02T03:04:05+00:00");
    assert_eq!(r.span, "root_endpoint");
    assert!(r.logs.is_empty());
}

#[test]
fn hello_reply_logs_once_in_its_span() {
    let r: Reply = hello_reply("2024-01-02T03:04:05.123+00:00".to_string());
    assert_eq!(r.body.message, "Hello from Rust with OpenTelemetry!");
    assert_eq!(r.body.timestamp, "2024-01-02T03:04:05.123+00:00");
    assert_eq!(r.span, "hello_endpoint");
    assert_eq!(r.logs.len(), 1);
    assert_eq!(r.logs[0].level, Level::Info);
    assert_eq!(r.logs[0].span, "hello_endpoint");
    assert_eq!(r.logs[0].message, "Hello endpoint called from Rust service");
}

#[test]
fn root_stamps_current_time() {
    let r = root().expect("the clock reads a four-digit year");
    assert_eq!(r.body.message, "Rust OpenTelemetry Service");
    assert_recent_rfc3339(&r.body.timestamp);
}

#[test]
fn hello_stamps_current_time_and_logs_once() {
    for _ in 0..3 {
        let r = hello().expect("the clock reads a four-digit year");
        assert_eq!(r.body.message, "Hello from Rust with OpenTelemetry!");
        assert_eq!(r.logs.len(), 1);
        assert_eq!(r.logs[0].span, r.span);
        assert_recent_rfc3339(&r.body.timestamp);
    }
}

#[test]
fn root_at_epoch() {
    let r = root_at(0, 0).expect("the epoch has a four-digit year");
    assert_eq!(r.body.message, "Rust OpenTelemetry Service");
    assert_eq!(r.body.timestamp, "1970-01-01T00:00:00+00:00");
    assert_eq!(r.span, "root_endpoint");
    assert!(r.logs.is_empty());
}

#[test]
fn hello_at_fixed_instant() {
    let r = hello_at(1_700_000_000, 123_000_000).expect("2023 has a four-digit year");
    assert_eq!(r.body.message, "Hello from Rust with OpenTelemetry!");
    assert_eq!(r.body.timestamp, "2023-11-14T22:13:20.123+00:00");
    assert_eq!(r.logs.len(), 1);
    assert_eq!(r.logs[0].span, "hello_endpoint");
}

#[test]
fn fractions_use_three_six_or_nine_digits() {
    let micros = root_at(1_700_000_000, 123_456_000).unwrap();
    assert_eq!(micros.body.timestamp, "2023-11-14T22:13:20.123456+00:00");
    let nanos = root_at(1_700_000_000, 123_456_789).unwrap();
    assert_eq!(nanos.body.timestamp, "2023-11-14T22:13:20.123456789+00:00");
}

#[test]
fn last_four_digit_second_is_formatted() {
    let r = root_at(MAX_RFC3339_SECS - 1, 999_999_999).unwrap();
    assert_eq!(r.body.timestamp, "9999-12-31T23:59:59.999999999+00:00");
}

#[test]
fn instants_out_of_range_give_no_reply() {
    assert!(root_at(MAX_RFC3339_SECS, 0).is_none());
    assert!(hello_at(MAX_RFC3339_SECS, 0).is_none());
    assert!(root_at(0, 1_000_000_000).is_none());
    assert!(hello_at(0, 1_000_000_000).is_none());
}

fn failure(reason: &str) -> ExporterBuildError {
    ExporterBuildError::InternalFailure(reason.to_string())
}

fn reason(e: &ExporterBuildError) -> String {
    match e {
        ExporterBuildError::InternalFailure(r) => r.clone(),
        _ => String::new(),
    }
}

#[test]
fn malformed_endpoint_fails_before_any_provider() {
    let config = TelemetryConfig::from_env_values(
        Some("foo".to_string()),
        Some("http://local host:4317".to_string()),
    );
    let spans = SpanExporter::builder().with_tonic().with_endpoint(config.endpoint.clone()).build();
    assert!(spans.is_err());
    match init_telemetry(&config, spans, Err(failure("m")), Err(failure("l"))) {
        Err(InitError::Traces(_)) => {}
        Err(_) => panic!("the trace exporter's failure comes first"),
        Ok(_) => panic!("a malformed endpoint must not give providers"),
    }
}

#[test]
fn init_reports_traces_first() {
    let config = TelemetryConfig::from_env_values(None, None);
    match init_telemetry(&config, Err(failure("t")), Err(failure("m")), Err(failure("l"))) {
        Err(InitError::Traces(e)) => assert_eq!(reason(&e), "t"),
        _ => panic!("expected the trace exporter's error"),
    }
}

#[test]
fn init_reports_metrics_after_traces() {
    actix_web::rt::System::new().block_on(async {
        let config = TelemetryConfig::from_env_values(None, None);
        let spans = SpanExporter::builder()
            .with_tonic()
            .with_endpoint(config.endpoint.clone())
            .build();
        assert!(spans.is_ok());
        match init_telemetry(&config, spans, Err(failure("m")), Err(failure("l"))) {
            Err(InitError::Metrics(e)) => assert_eq!(reason(&e), "m"),
            _ => panic!("expected the metric exporter's error"),
        }
    });
}

#[test]
fn init_reports_logs_last() {
    actix_web::rt::System::new().block_on(async {
        let config = TelemetryConfig::from_env_values(None, None);
        let spans = SpanExporter::builder()
            .with_tonic()
            .with_endpoint(config.endpoint.clone())
            .build();
        let metrics = MetricExporter::builder()
            .with_tonic()
            .with_endpoint(config.endpoint.clone())
            .build();
        match init_telemetry(&config, spans, metrics, Err(failure("l"))) {
            Err(InitError::Logs(e)) => assert_eq!(reason(&e), "l"),
            _ => panic!("expected the log exporter's error"),
        }
    });
}

#[test]
fn init_names_the_service_on_the_resource() {
    actix_web::rt::System::new().block_on(async {
        let config = TelemetryConfig::from_env_values(Some("foo".to_string()), None);
        let endpoint = config.endpoint.clone();
        let spans = SpanExporter::builder().with_tonic().with_endpoint(endpoint.clone()).build();
        let metrics = MetricExporter::builder().with_tonic().with_endpoint(endpoint.clone()).build();
        let logs = LogExporter::builder().with_tonic().with_endpoint(endpoint).build();
        match init_telemetry(&config, spans, metrics, logs) {
            Ok(t) => assert_eq!(t.service_name, "foo"),
            Err(_) => panic!("a well-formed endpoint builds every exporter"),
        }
    });
}
