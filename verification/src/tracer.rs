//! Composition of the tracer provider: which sinks receive spans, in which
//! order they are registered, and how each is set up.

use crate::decimal::{parse_usize, parsed_usize};
use crate::reporting::{
    clone_text, default_service_name, text_of, Conf, ConfModel, Environment, EnvironmentModel,
    Jaeger, JaegerEndpoint, JaegerEndpointModel, JaegerModel, OpenTelemetry, OpenTelemetryModel,
    Otlp, OtlpModel, SpaceportConfig, SpaceportConfigModel, StudioGraph, StudioGraphModel,
    TraceConfig, TraceConfigModel, TraceSettings, TraceSettingsModel,
};
use vstd::prelude::*;
use vstd::string::StringExecFns;

verus! {

/// Seconds between two flushes of a batch of spans.
pub const SCHEDULED_DELAY_SECS: u64 = 1;

/// How spans are batched before export. An absent size leaves the maximum to
/// the tracing backend.
#[derive(Clone, Copy, Debug, PartialEq, Eq, Structural)]
pub struct BatchConfig {
    pub scheduled_delay_secs: u64,
    pub max_export_batch_size: Option<usize>,
}

/// How the agent-based exporter reaches its destination.
#[derive(Debug, PartialEq, Eq)]
pub enum JaegerTransport {
    /// The exporter's own default agent address.
    Default,
    /// An agent at a socket address.
    Agent(String),
    /// A collector at a URL, with the credentials that are set.
    Collector { url: String, username: Option<String>, password: Option<String> },
}

/// Mathematical value of a [`JaegerTransport`].
pub enum JaegerTransportModel {
    Default,
    Agent(Seq<char>),
    Collector { url: Seq<char>, username: Option<Seq<char>>, password: Option<Seq<char>> },
}

impl View for JaegerTransport {
    type V = JaegerTransportModel;

    open spec fn view(&self) -> JaegerTransportModel {
        match self {
            JaegerTransport::Default => JaegerTransportModel::Default,
            JaegerTransport::Agent(address) => JaegerTransportModel::Agent(address@),
            JaegerTransport::Collector { url, username, password } => JaegerTransportModel::Collector {
                url: url@,
                username: text_of(*username),
                password: text_of(*password),
            },
        }
    }
}

/// The agent-based exporter, fully resolved.
#[derive(Debug, PartialEq, Eq)]
pub struct JaegerPipeline {
    pub service_name: String,
    pub transport: JaegerTransport,
    pub batch: BatchConfig,
    pub trace_config: Option<TraceSettings>,
}

/// Mathematical value of a [`JaegerPipeline`].
pub struct JaegerPipelineModel {
    pub service_name: Seq<char>,
    pub transport: JaegerTransportModel,
    pub batch: BatchConfig,
    pub trace_config: Option<TraceSettingsModel>,
}

/// The mathematical value of optional trace settings.
pub open spec fn settings_model(settings: Option<TraceSettings>) -> Option<TraceSettingsModel> {
    match settings {
        Some(s) => Some(s@),
        None => None,
    }
}

impl View for JaegerPipeline {
    type V = JaegerPipelineModel;

    open spec fn view(&self) -> JaegerPipelineModel {
        JaegerPipelineModel {
            service_name: self.service_name@,
            transport: self.transport@,
            batch: self.batch,
            trace_config: settings_model(self.trace_config),
        }
    }
}

/// The OTLP exporter: set up from the environment alone, or as configured.
#[derive(Debug, PartialEq, Eq)]
pub enum OtlpPipeline {
    FromEnvironment,
    Configured { endpoint: Option<String>, trace_config: Option<TraceSettings> },
}

/// Mathematical value of an [`OtlpPipeline`].
pub enum OtlpPipelineModel {
    FromEnvironment,
    Configured { endpoint: Option<Seq<char>>, trace_config: Option<TraceSettingsModel> },
}

impl View for OtlpPipeline {
    type V = OtlpPipelineModel;

    open spec fn view(&self) -> OtlpPipelineModel {
        match self {
            OtlpPipeline::FromEnvironment => OtlpPipelineModel::FromEnvironment,
            OtlpPipeline::Configured { endpoint, trace_config } => OtlpPipelineModel::Configured {
                endpoint: text_of(*endpoint),
                trace_config: settings_model(*trace_config),
            },
        }
    }
}

/// The batched exporter that forwards to the usage reporting collector.
#[derive(Debug, PartialEq, Eq)]
pub struct UsageReporting {
    pub spaceport: Option<SpaceportConfig>,
    pub graph: StudioGraph,
}

/// Mathematical value of a [`UsageReporting`].
pub struct UsageReportingModel {
    pub spaceport: Option<SpaceportConfigModel>,
    pub graph: StudioGraphModel,
}

impl View for UsageReporting {
    type V = UsageReportingModel;

    open spec fn view(&self) -> UsageReportingModel {
        UsageReportingModel {
            spaceport: match self.spaceport {
                Some(s) => Some(s@),
                None => None,
            },
            graph: self.graph@,
        }
    }
}

/// A destination that every span is offered to.
#[derive(Debug, PartialEq, Eq)]
pub enum Sink {
    Jaeger(JaegerPipeline),
    Otlp(OtlpPipeline),
    UsageReporting(UsageReporting),
}

/// Mathematical value of a [`Sink`].
pub enum SinkModel {
    Jaeger(JaegerPipelineModel),
    Otlp(OtlpPipelineModel),
    UsageReporting(UsageReportingModel),
}

impl View for Sink {
    type V = SinkModel;

    open spec fn view(&self) -> SinkModel {
        match self {
            Sink::Jaeger(p) => SinkModel::Jaeger(p@),
            Sink::Otlp(p) => SinkModel::Otlp(p@),
            Sink::UsageReporting(p) => SinkModel::UsageReporting(p@),
        }
    }
}

/// The sinks of a list, as values.
pub open spec fn sink_models(sinks: Seq<Sink>) -> Seq<SinkModel> {
    sinks.map_values(|s: Sink| s@)
}

/// The sinks of a tracer provider, in the order of their registration.
#[derive(Debug, PartialEq, Eq)]
pub struct TracerPlan {
    pub sinks: Vec<Sink>,
}

/// The agent-based exporter's configuration where none is given: the default
/// service name, no endpoint, and the credentials of the environment.
pub open spec fn default_jaeger(env: EnvironmentModel) -> JaegerModel {
    JaegerModel {
        endpoint: None,
        service_name: "router"@,
        username: env.jaeger_username,
        password: env.jaeger_password,
        trace_config: None,
    }
}

/// How a configuration reaches its destination. Credentials go with a
/// collector only.
pub open spec fn jaeger_transport(config: JaegerModel) -> JaegerTransportModel {
    match config.endpoint {
        None => JaegerTransportModel::Default,
        Some(JaegerEndpointModel::Agent(address)) => JaegerTransportModel::Agent(address),
        Some(JaegerEndpointModel::Collector(url)) => JaegerTransportModel::Collector {
            url,
            username: config.username,
            password: config.password,
        },
    }
}

/// The settings that an optional trace configuration asks for.
pub open spec fn optional_settings(config: Option<TraceConfigModel>) -> Option<TraceSettingsModel> {
    match config {
        Some(c) => Some(c.settings()),
        None => None,
    }
}

/// The batching in force: a flush every second, and the maximum batch size
/// that the environment writes in decimal, if it writes one.
pub open spec fn batch_config(env: EnvironmentModel) -> BatchConfig {
    BatchConfig {
        scheduled_delay_secs: 1,
        max_export_batch_size: match env.max_export_batch_size {
            Some(text) => parsed_usize(text),
            None => None,
        },
    }
}

/// The agent-based exporter that a configuration asks for.
pub open spec fn jaeger_pipeline(config: JaegerModel, env: EnvironmentModel) -> JaegerPipelineModel {
    JaegerPipelineModel {
        service_name: config.service_name,
        transport: jaeger_transport(config),
        batch: batch_config(env),
        trace_config: optional_settings(config.trace_config),
    }
}

/// The OTLP exporter that a configuration asks for.
pub open spec fn otlp_pipeline(config: Option<OtlpModel>) -> OtlpPipelineModel {
    match config {
        Some(c) => OtlpPipelineModel::Configured {
            endpoint: c.endpoint,
            trace_config: optional_settings(c.trace_config),
        },
        None => OtlpPipelineModel::FromEnvironment,
    }
}

/// The usage reporting sink: present exactly where credentials are.
pub open spec fn usage_reporting_sinks(conf: ConfModel) -> Seq<SinkModel> {
    match conf.graph {
        Some(graph) => seq![
            SinkModel::UsageReporting(UsageReportingModel { spaceport: conf.spaceport, graph }),
        ],
        None => Seq::empty(),
    }
}

/// The sinks of a configuration. The local exporter is one of none, the
/// agent-based one and the OTLP one; the usage reporting sink comes in
/// addition to it. With the agent-based exporter the usage reporting sink is
/// registered first, with the OTLP exporter last.
pub open spec fn planned_sinks(conf: ConfModel, env: EnvironmentModel) -> Seq<SinkModel> {
    match conf.opentelemetry {
        Some(OpenTelemetryModel::Jaeger(config)) => {
            let config = match config {
                Some(c) => c,
                None => default_jaeger(env),
            };
            usage_reporting_sinks(conf) + seq![SinkModel::Jaeger(jaeger_pipeline(config, env))]
        },
        Some(OpenTelemetryModel::Otlp(config)) => seq![SinkModel::Otlp(otlp_pipeline(config))]
            + usage_reporting_sinks(conf),
        None => usage_reporting_sinks(conf),
    }
}

impl Jaeger {
    /// The configuration used where none is given.
    pub fn with_defaults(env: &Environment) -> (config: Jaeger)
        ensures
            config@ == default_jaeger(env@),
    {
        Jaeger {
            endpoint: None,
            service_name: default_service_name(),
            username: clone_text(&env.jaeger_username),
            password: clone_text(&env.jaeger_password),
            trace_config: None,
        }
    }
}

/// The settings of an optional trace configuration.
pub fn settings_of(config: &Option<TraceConfig>) -> (settings: Option<TraceSettings>)
    ensures
        settings_model(settings) == optional_settings(
            match *config {
                Some(c) => Some(c@),
                None => None,
            },
        ),
{
    match config {
        Some(c) => Some(c.trace_config()),
        None => None,
    }
}

/// Reads the batching from the environment.
pub fn batch_from(env: &Environment) -> (batch: BatchConfig)
    ensures
        batch == batch_config(env@),
{
    let max_export_batch_size = match &env.max_export_batch_size {
        Some(text) => parse_usize(text.as_str()),
        None => None,
    };
    BatchConfig { scheduled_delay_secs: SCHEDULED_DELAY_SECS, max_export_batch_size }
}

/// Resolves the agent-based exporter of one configuration.
pub fn plan_jaeger(config: &Jaeger, env: &Environment) -> (pipeline: JaegerPipeline)
    ensures
        pipeline@ == jaeger_pipeline(config@, env@),
{
    let transport = match &config.endpoint {
        None => JaegerTransport::Default,
        Some(JaegerEndpoint::Agent(address)) => JaegerTransport::Agent(address.clone()),
        Some(JaegerEndpoint::Collector(url)) => JaegerTransport::Collector {
            url: url.clone(),
            username: clone_text(&config.username),
            password: clone_text(&config.password),
        },
    };
    JaegerPipeline {
        service_name: config.service_name.clone(),
        transport,
        batch: batch_from(env),
        trace_config: settings_of(&config.trace_config),
    }
}

/// Resolves the OTLP exporter of one configuration.
pub fn plan_otlp(config: &Option<Otlp>) -> (pipeline: OtlpPipeline)
    ensures
        pipeline@ == otlp_pipeline(
            match *config {
                Some(c) => Some(c@),
                None => None,
            },
        ),
{
    match config {
        Some(c) => OtlpPipeline::Configured {
            endpoint: clone_text(&c.endpoint),
            trace_config: settings_of(&c.trace_config),
        },
        None => OtlpPipeline::FromEnvironment,
    }
}

/// Adds the usage reporting sink where the configuration holds credentials.
fn push_usage_reporting(sinks: &mut Vec<Sink>, conf: &Conf)
    ensures
        sink_models(final(sinks)@) == sink_models(old(sinks)@) + usage_reporting_sinks(conf@),
{
    match &conf.graph {
        Some(graph) => {
            let spaceport = match &conf.spaceport {
                Some(s) => Some(s.clone()),
                None => None,
            };
            sinks.push(Sink::UsageReporting(UsageReporting { spaceport, graph: graph.clone() }));
        },
        None => {},
    }
}

/// Plans the tracer provider of a configuration.
pub fn plan_tracer(conf: &Conf, env: &Environment) -> (plan: TracerPlan)
    ensures
        sink_models(plan.sinks@) == planned_sinks(conf@, env@),
{
    let mut sinks: Vec<Sink> = Vec::new();
    match &conf.opentelemetry {
        Some(OpenTelemetry::Jaeger(config)) => {
            push_usage_reporting(&mut sinks, conf);
            let pipeline = match config {
                Some(c) => plan_jaeger(c, env),
                None => {
                    let defaults = Jaeger::with_defaults(env);
                    plan_jaeger(&defaults, env)
                },
            };
            sinks.push(Sink::Jaeger(pipeline));
        },
        Some(OpenTelemetry::Otlp(config)) => {
            let pipeline = plan_otlp(config);
            sinks.push(Sink::Otlp(pipeline));
            push_usage_reporting(&mut sinks, conf);
        },
        None => {
            push_usage_reporting(&mut sinks, conf);
        },
    }
    TracerPlan { sinks }
}

/// The number of sinks is that of the optional parts that are populated: one
/// for a local exporter, one for credentials.
pub proof fn planned_sinks_count(conf: ConfModel, env: EnvironmentModel)
    ensures
        planned_sinks(conf, env).len() == (if conf.opentelemetry is Some {
            1nat
        } else {
            0nat
        }) + (if conf.graph is Some {
            1nat
        } else {
            0nat
        }),
{
}

/// An error that the tracing backend reports after startup.
#[derive(Debug, PartialEq, Eq)]
pub enum TelemetryError {
    /// An error of the trace pipeline, in its own words.
    Trace(String),
    /// Another error that comes with a message.
    Other(String),
    /// Any other error, rendered for diagnosis.
    Unclassified(String),
}

/// The line that is logged for an error, on mathematical values.
pub open spec fn error_line(error: TelemetryError) -> Seq<char> {
    match error {
        TelemetryError::Trace(message) => "OpenTelemetry trace error occurred: "@ + message@,
        TelemetryError::Other(message) => "OpenTelemetry error occurred: "@ + message@,
        TelemetryError::Unclassified(rendered) => "OpenTelemetry error occurred: "@ + rendered@,
    }
}

/// The line to log for an error of the tracing backend. Such an error is
/// logged and nothing else: it never ends the process.
pub fn handle_error(error: &TelemetryError) -> (line: String)
    ensures
        line@ == error_line(*error),
{
    match error {
        TelemetryError::Trace(message) => "OpenTelemetry trace error occurred: ".to_owned().concat(
            message.as_str(),
        ),
        TelemetryError::Other(message) => "OpenTelemetry error occurred: ".to_owned().concat(
            message.as_str(),
        ),
        TelemetryError::Unclassified(rendered) => "OpenTelemetry error occurred: ".to_owned().concat(
            rendered.as_str(),
        ),
    }
}

} // verus!
