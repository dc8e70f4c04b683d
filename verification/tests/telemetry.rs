use anaheim::telemetry::utils::{current_trace_id, format_trace_id};
use anaheim::telemetry::{plan_telemetry, Config, OTLPConfig, TelemetryError};

fn config(otlp: Option<OTLPConfig>) -> Config {
    Config { service_name: "users".to_string(), level: "info".to_string(), otlp }
}

fn otlp(enabled: bool, api_key: Option<&str>) -> OTLPConfig {
    OTLPConfig {
        enabled,
        environment: "staging".to_string(),
        collector_url: "http://collector:4317".to_string(),
        exporter_timeout_seconds: 3,
        api_key: api_key.map(|k| k.to_string()),
    }
}

fn pairs(kvs: &[anaheim::telemetry::KeyValue]) -> Vec<(String, String)> {
    kvs.iter().map(|kv| (kv.key.clone(), kv.value.clone())).collect()
}

#[test]
fn plan_without_collector() {
    let plan = plan_telemetry(&config(None), "host").unwrap();
    assert_eq!(plan.default_level, "info");
    assert!(plan.otlp.is_none());
}

#[test]
fn plan_with_collector_and_key() {
    let plan = plan_telemetry(&config(Some(otlp(true, Some("secret-key")))), "\"web-1\"").unwrap();
    let o = plan.otlp.unwrap();
    assert_eq!(o.endpoint, "http://collector:4317");
    assert_eq!(o.timeout_seconds, 3);
    assert_eq!(pairs(&o.metadata), vec![("api-key".to_string(), "secret-key".to_string())]);
    assert_eq!(
        pairs(&o.resource),
        vec![
            ("service.name".to_string(), "users".to_string()),
            ("environment".to_string(), "staging".to_string()),
            ("host.name".to_string(), "\"web-1\"".to_string()),
        ]
    );
}

#[test]
fn plan_without_key_has_no_metadata() {
    let plan = plan_telemetry(&config(Some(otlp(true, None))), "h").unwrap();
    assert!(plan.otlp.unwrap().metadata.is_empty());
}

#[test]
fn plan_ignores_enabled_flag() {
    let on = plan_telemetry(&config(Some(otlp(true, Some("k")))), "h").unwrap();
    let off = plan_telemetry(&config(Some(otlp(false, Some("k")))), "h").unwrap();
    let (on, off) = (on.otlp.unwrap(), off.otlp.unwrap());
    assert_eq!(on.endpoint, off.endpoint);
    assert_eq!(pairs(&on.metadata), pairs(&off.metadata));
    assert_eq!(pairs(&on.resource), pairs(&off.resource));
}

#[test]
fn plan_rejects_unsendable_key() {
    let r = plan_telemetry(&config(Some(otlp(true, Some("line\nbreak")))), "h");
    assert!(matches!(r, Err(TelemetryError::InvalidApiKey)));
    let r = plan_telemetry(&config(Some(otlp(true, Some("del\u{7f}")))), "h");
    assert!(matches!(r, Err(TelemetryError::InvalidApiKey)));
    // Tabs and characters beyond ASCII can be carried.
    assert!(plan_telemetry(&config(Some(otlp(true, Some("a\tb")))), "h").is_ok());
    assert!(plan_telemetry(&config(Some(otlp(true, Some("clé")))), "h").is_ok());
}

#[test]
fn trace_id_formatting() {
    assert_eq!(format_trace_id(0), "00000000000000000000000000000000");
    assert_eq!(format_trace_id(0x1234_abcd), "000000000000000000000000" .to_string() + "1234abcd");
    assert_eq!(format_trace_id(u128::MAX), "ffffffffffffffffffffffffffffffff");
    let id = 0x4bf92f3577b34da6a3ce929d0e0e4736u128;
    assert_eq!(format_trace_id(id), format!("{:032x}", id));
    assert_eq!(u128::from_str_radix(&format_trace_id(id), 16).unwrap(), id);
}

#[test]
fn current_trace_id_outside_span() {
    let id = current_trace_id();
    assert_eq!(id.len(), 32);
    assert!(id.chars().all(|c| c.is_ascii_hexdigit() && !c.is_ascii_uppercase()));
}
