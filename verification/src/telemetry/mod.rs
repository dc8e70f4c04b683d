//! Telemetry configuration and the plan that telemetry start-up follows:
//! the default log filter, and, when an OTLP collector is configured, the
//! exporter's endpoint, timeout and metadata and the resource attributes
//! attached to every span.

use vstd::prelude::*;

pub mod utils;

verus! {

/// A trace identifier rendered as text.
pub type TraceId = String;

/// Telemetry configuration.
pub struct Config {
    pub service_name: String,
    pub level: String,
    pub otlp: Option<OTLPConfig>,
}

/// Configuration of the OTLP trace exporter.
pub struct OTLPConfig {
    pub enabled: bool,
    pub environment: String,
    pub collector_url: String,
    pub exporter_timeout_seconds: u64,
    /// The collector's API key; kept secret by the application.
    pub api_key: Option<String>,
}

/// What a [`Config`] holds, as mathematical values.
pub struct ConfigView {
    pub service_name: Seq<char>,
    pub level: Seq<char>,
    pub otlp: Option<OTLPConfigView>,
}

/// What an [`OTLPConfig`] holds, as mathematical values.
pub struct OTLPConfigView {
    pub enabled: bool,
    pub environment: Seq<char>,
    pub collector_url: Seq<char>,
    pub exporter_timeout_seconds: u64,
    pub api_key: Option<Seq<char>>,
}

impl View for OTLPConfig {
    type V = OTLPConfigView;

    open spec fn view(&self) -> OTLPConfigView {
        OTLPConfigView {
            enabled: self.enabled,
            environment: self.environment@,
            collector_url: self.collector_url@,
            exporter_timeout_seconds: self.exporter_timeout_seconds,
            api_key: match self.api_key {
                Some(k) => Some(k@),
                None => None,
            },
        }
    }
}

impl View for Config {
    type V = ConfigView;

    open spec fn view(&self) -> ConfigView {
        ConfigView {
            service_name: self.service_name@,
            level: self.level@,
            otlp: match self.otlp {
                Some(o) => Some(o@),
                None => None,
            },
        }
    }
}

/// A key and a value, both text: a metadata entry or a resource attribute.
pub struct KeyValue {
    pub key: String,
    pub value: String,
}

/// How the OTLP exporter is set up.
pub struct OtlpPlan {
    /// The collector endpoint.
    pub endpoint: String,
    /// The exporter timeout, in seconds.
    pub timeout_seconds: u64,
    /// The gRPC metadata sent with every export.
    pub metadata: Vec<KeyValue>,
    /// The resource attributes attached to every span.
    pub resource: Vec<KeyValue>,
}

/// How telemetry is started.
pub struct TelemetryPlan {
    /// The log filter used when the environment names none.
    pub default_level: String,
    /// The trace exporter, when one is configured.
    pub otlp: Option<OtlpPlan>,
}

/// Why telemetry cannot be planned.
#[derive(Debug, PartialEq, Eq, Structural)]
pub enum TelemetryError {
    /// The API key holds a character that gRPC metadata cannot carry.
    InvalidApiKey,
}

/// An [`OtlpPlan`] as mathematical values.
pub struct OtlpPlanView {
    pub endpoint: Seq<char>,
    pub timeout_seconds: u64,
    pub metadata: Seq<(Seq<char>, Seq<char>)>,
    pub resource: Seq<(Seq<char>, Seq<char>)>,
}

/// A [`TelemetryPlan`] as mathematical values.
pub struct TelemetryPlanView {
    pub default_level: Seq<char>,
    pub otlp: Option<OtlpPlanView>,
}

pub open spec fn key_values_view(kvs: Seq<KeyValue>) -> Seq<(Seq<char>, Seq<char>)> {
    kvs.map_values(|kv: KeyValue| (kv.key@, kv.value@))
}

impl View for OtlpPlan {
    type V = OtlpPlanView;

    open spec fn view(&self) -> OtlpPlanView {
        OtlpPlanView {
            endpoint: self.endpoint@,
            timeout_seconds: self.timeout_seconds,
            metadata: key_values_view(self.metadata@),
            resource: key_values_view(self.resource@),
        }
    }
}

impl View for TelemetryPlan {
    type V = TelemetryPlanView;

    open spec fn view(&self) -> TelemetryPlanView {
        TelemetryPlanView {
            default_level: self.default_level@,
            otlp: match self.otlp {
                Some(o) => Some(o@),
                None => None,
            },
        }
    }
}

/// Whether gRPC metadata can carry `s` as an ASCII value: every byte of its
/// UTF-8 encoding is a tab or lies in 32..=255 other than 127. Characters
/// beyond ASCII encode to bytes of 128 or more, so only ASCII control
/// characters other than tab are refused.
pub open spec fn is_metadata_value(s: Seq<char>) -> bool {
    forall|i: int| 0 <= i < s.len() ==> {
        let c = #[trigger] s[i];
        c == '\t' || (c as u32 >= 32 && c as u32 != 127)
    }
}

/// Whether `value` parses as `tonic::metadata::MetadataValue<Ascii>`.
///
/// tonic 0.9's `FromStr` for `MetadataValue<Ascii>` calls
/// `http::HeaderValue::from_str`, which accepts exactly the strings whose
/// every byte `b` has `b >= 32 && b != 127 || b == b'\t'`; the contract
/// restates that test over the string's characters.
#[verifier::external_body]
fn metadata_value_parses(value: &str) -> (ok: bool)
    ensures
        ok == is_metadata_value(value@),
{
    value.parse::<tonic::metadata::MetadataValue<tonic::metadata::Ascii>>().is_ok()
}

/// The metadata key under which the API key is sent.
pub open spec fn api_key_header() -> Seq<char> {
    "api-key"@
}

/// The plan for `config` on a host named `host_name`, or `None` when the
/// configured API key cannot be sent as metadata. The `enabled` flag of the
/// OTLP configuration is not consulted: a configured collector is always
/// used.
pub open spec fn planned(config: ConfigView, host_name: Seq<char>) -> Option<TelemetryPlanView> {
    match config.otlp {
        None => Some(TelemetryPlanView { default_level: config.level, otlp: None }),
        Some(o) => {
            let key_ok = match o.api_key {
                Some(k) => is_metadata_value(k),
                None => true,
            };
            if !key_ok {
                None
            } else {
                Some(TelemetryPlanView {
                    default_level: config.level,
                    otlp: Some(OtlpPlanView {
                        endpoint: o.collector_url,
                        timeout_seconds: o.exporter_timeout_seconds,
                        metadata: match o.api_key {
                            Some(k) => seq![(api_key_header(), k)],
                            None => Seq::empty(),
                        },
                        resource: seq![
                            ("service.name"@, config.service_name),
                            ("environment"@, o.environment),
                            ("host.name"@, host_name),
                        ],
                    }),
                })
            }
        },
    }
}

fn key_value(key: &str, value: &String) -> (kv: KeyValue)
    ensures
        kv.key@ == key@,
        kv.value@ == value@,
{
    KeyValue { key: String::from_str(key), value: value.clone() }
}

/// Plans telemetry start-up for `config`, with `host_name` as the host
/// attribute of traces.
pub fn plan_telemetry(config: &Config, host_name: &str) -> (r: Result<TelemetryPlan, TelemetryError>)
    ensures
        match r {
            Ok(plan) => planned(config@, host_name@) == Some(plan@),
            Err(e) => planned(config@, host_name@).is_none() && e == TelemetryError::InvalidApiKey,
        },
{
    match &config.otlp {
        None => Ok(TelemetryPlan { default_level: config.level.clone(), otlp: None }),
        Some(otlp) => {
            let mut metadata: Vec<KeyValue> = Vec::new();
            match &otlp.api_key {
                Some(key) => {
                    if !metadata_value_parses(key.as_str()) {
                        return Err(TelemetryError::InvalidApiKey);
                    }
                    metadata.push(key_value("api-key", key));
                },
                None => {},
            }
            let mut resource: Vec<KeyValue> = Vec::new();
            resource.push(key_value("service.name", &config.service_name));
            resource.push(key_value("environment", &otlp.environment));
            resource.push(KeyValue { key: String::from_str("host.name"), value: String::from_str(host_name) });
            let plan = TelemetryPlan {
                default_level: config.level.clone(),
                otlp: Some(OtlpPlan {
                    endpoint: otlp.collector_url.clone(),
                    timeout_seconds: otlp.exporter_timeout_seconds,
                    metadata,
                    resource,
                }),
            };
            assert(key_values_view(plan.otlp.unwrap().metadata@) =~= planned(config@, host_name@).unwrap().otlp.unwrap().metadata);
            assert(key_values_view(plan.otlp.unwrap().resource@) =~= planned(config@, host_name@).unwrap().otlp.unwrap().resource);
            Ok(plan)
        },
    }
}

/// Law: the `enabled` flag of the OTLP configuration never changes the
/// plan; two configurations that differ in nothing else plan alike.
pub proof fn lemma_enabled_flag_is_ignored(config: ConfigView, other: ConfigView, host_name: Seq<char>)
    requires
        config.service_name == other.service_name,
        config.level == other.level,
        config.otlp.is_some() == other.otlp.is_some(),
        config.otlp.is_some() ==> {
            let a = config.otlp.unwrap();
            let b = other.otlp.unwrap();
            a.environment == b.environment && a.collector_url == b.collector_url
                && a.exporter_timeout_seconds == b.exporter_timeout_seconds && a.api_key == b.api_key
        },
    ensures
        planned(config, host_name) == planned(other, host_name),
{
}

/// Law: the log filter is always the configured level, whether or not a
/// collector is configured; a configured collector is exported to at its
/// URL with its timeout, and without one no exporter is planned. Planning
/// fails only for an API key that cannot be sent as metadata.
pub proof fn lemma_plan_follows_config(config: ConfigView, host_name: Seq<char>)
    ensures
        planned(config, host_name) matches Some(p) ==> p.default_level == config.level,
        planned(config, host_name) matches Some(p) ==> (p.otlp is None <==> config.otlp is None),
        match (planned(config, host_name), config.otlp) {
            (Some(p), Some(o)) => (p.otlp matches Some(op) && op.endpoint == o.collector_url
                && op.timeout_seconds == o.exporter_timeout_seconds),
            _ => true,
        },
        planned(config, host_name) is None <==> (config.otlp matches Some(o) && o.api_key matches Some(k)
            && !is_metadata_value(k)),
{
}

/// Law: the API key travels as metadata exactly when one is configured, and
/// it is then the only metadata entry, under `api-key`; a plan that exports
/// traces always carries the attributes `service.name`, `environment` and
/// `host.name`, in that order, with the configured service name and
/// environment and the given host name.
pub proof fn lemma_api_key_metadata(config: ConfigView, host_name: Seq<char>)
    requires
        planned(config, host_name) matches Some(p) && p.otlp.is_some(),
    ensures
        ({
            let o = planned(config, host_name).unwrap().otlp.unwrap();
            let c = config.otlp.unwrap();
            &&& o.metadata.len() == (if c.api_key.is_some() { 1int } else { 0int })
            &&& c.api_key matches Some(k) ==> o.metadata[0] == ("api-key"@, k)
            &&& o.resource.len() == 3
            &&& o.resource[0] == ("service.name"@, config.service_name)
            &&& o.resource[1] == ("environment"@, c.environment)
            &&& o.resource[2] == ("host.name"@, host_name)
        }),
{
}

} // verus!
