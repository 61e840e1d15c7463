//! Construction of the trace, metric and log pipelines that export to an
//! OTLP/gRPC collector, from exporters that were built against the configured
//! endpoint. Construction is fail-fast: where an exporter could not be built,
//! no provider is, and the first failed signal is reported.
use vstd::prelude::*;
use crate::config::TelemetryConfig;
use opentelemetry_otlp::{ExporterBuildError, LogExporter, MetricExporter, SpanExporter};
use opentelemetry::Key;
use opentelemetry_sdk::logs::SdkLoggerProvider;
use opentelemetry_sdk::metrics::SdkMeterProvider;
use opentelemetry_sdk::trace::SdkTracerProvider;
use opentelemetry_sdk::Resource;

verus! {

#[verifier::external_type_specification]
#[verifier::external_body]
pub struct ExResource(Resource);

#[verifier::external_type_specification]
#[verifier::external_body]
pub struct ExSpanExporter(SpanExporter);

#[verifier::external_type_specification]
#[verifier::external_body]
pub struct ExMetricExporter(MetricExporter);

#[verifier::external_type_specification]
#[verifier::external_body]
pub struct ExLogExporter(LogExporter);

#[verifier::external_type_specification]
#[verifier::external_body]
pub struct ExExporterBuildError(ExporterBuildError);

#[verifier::external_type_specification]
#[verifier::external_body]
pub struct ExSdkTracerProvider(SdkTracerProvider);

#[verifier::external_type_specification]
#[verifier::external_body]
pub struct ExSdkMeterProvider(SdkMeterProvider);

#[verifier::external_type_specification]
#[verifier::external_body]
pub struct ExSdkLoggerProvider(SdkLoggerProvider);

/// Why the pipelines could not be built: the exporter of the named signal
/// failed, with the exporter's own error.
pub enum InitError {
    Traces(ExporterBuildError),
    Metrics(ExporterBuildError),
    Logs(ExporterBuildError),
}

/// The three providers, built over one resource, and the service name that
/// this resource carries under `service.name`. Handlers and the logging bridge
/// obtain their tracer, meter and logger from here rather than from
/// process-wide state.
pub struct Telemetry {
    pub service_name: String,
    pub tracer_provider: SdkTracerProvider,
    pub meter_provider: SdkMeterProvider,
    pub logger_provider: SdkLoggerProvider,
}

/// Builds the three providers over one resource, which names
/// `config.service_name`, where every exporter was built. Otherwise fails with
/// the first failed signal in the order traces, metrics, logs, carrying that
/// exporter's error; no provider is built, and the exporters already built are
/// dropped with it.
pub fn init_telemetry(
    config: &TelemetryConfig,
    spans: Result<SpanExporter, ExporterBuildError>,
    metrics: Result<MetricExporter, ExporterBuildError>,
    logs: Result<LogExporter, ExporterBuildError>,
) -> (r: Result<Telemetry, InitError>)
    ensures
        spans is Err ==> r == Err::<Telemetry, InitError>(InitError::Traces(spans->Err_0)),
        spans is Ok && metrics is Err ==> r == Err::<Telemetry, InitError>(
            InitError::Metrics(metrics->Err_0),
        ),
        spans is Ok && metrics is Ok && logs is Err ==> r == Err::<Telemetry, InitError>(
            InitError::Logs(logs->Err_0),
        ),
        spans is Ok && metrics is Ok && logs is Ok <==> r is Ok,
        r is Ok ==> r->Ok_0.service_name@ == config.service_name@,
{
    let spans = match spans {
        Ok(e) => e,
        Err(e) => return Err(InitError::Traces(e)),
    };
    let metrics = match metrics {
        Ok(e) => e,
        Err(e) => return Err(InitError::Metrics(e)),
    };
    let logs = match logs {
        Ok(e) => e,
        Err(e) => return Err(InitError::Logs(e)),
    };
    let (resource, named) = service_resource(config.service_name.as_str());
    let service_name = match named {
        Some(name) => name,
        None => config.service_name.clone(),
    };
    Ok(Telemetry {
        service_name,
        tracer_provider: tracer_provider(spans, &resource),
        meter_provider: meter_provider(metrics, &resource),
        logger_provider: logger_provider(logs, &resource),
    })
}

/// Relies on opentelemetry_sdk's `Resource::builder().with_service_name(..)`,
/// whose attribute is merged after the detectors' and so wins over them, and
/// on `Resource::get`: the resource attached to every exported record, and the
/// text it holds under `service.name`, which is `service_name`.
#[verifier::external_body]
fn service_resource(service_name: &str) -> (r: (Resource, Option<String>))
    ensures
        r.1 is Some,
        r.1->0@ == service_name@,
{
    let resource = Resource::builder().with_service_name(service_name.to_owned()).build();
    let named = match resource.get(&Key::from_static_str("service.name")) {
        Some(v) => Some(v.as_str().into_owned()),
        None => None,
    };
    (resource, named)
}

/// Relies on opentelemetry_sdk's `SdkTracerProvider::builder()`: a provider
/// that batches spans to `exporter`, tagged with `resource`.
#[verifier::external_body]
fn tracer_provider(exporter: SpanExporter, resource: &Resource) -> SdkTracerProvider {
    SdkTracerProvider::builder()
        .with_batch_exporter(exporter)
        .with_resource(resource.clone())
        .build()
}

/// Relies on opentelemetry_sdk's `SdkMeterProvider::builder()` with a
/// `PeriodicReader`: a provider that flushes metrics to `exporter` on a timer,
/// tagged with `resource`.
#[verifier::external_body]
fn meter_provider(exporter: MetricExporter, resource: &Resource) -> SdkMeterProvider {
    SdkMeterProvider::builder()
        .with_reader(opentelemetry_sdk::metrics::PeriodicReader::builder(exporter).build())
        .with_resource(resource.clone())
        .build()
}

/// Relies on opentelemetry_sdk's `SdkLoggerProvider::builder()`: a provider
/// that batches log records to `exporter`, tagged with `resource`.
#[verifier::external_body]
fn logger_provider(exporter: LogExporter, resource: &Resource) -> SdkLoggerProvider {
    SdkLoggerProvider::builder()
        .with_batch_exporter(exporter)
        .with_resource(resource.clone())
        .build()
}

} // verus!
