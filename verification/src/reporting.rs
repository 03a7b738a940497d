//! Telemetry reporting extension: its configuration, the credentials it takes
//! from the environment, and what it decides at construction and startup.

use crate::tracer::{plan_tracer, planned_sinks, sink_models, TracerPlan};
use vstd::prelude::*;

verus! {

/// The text inside an optional string.
pub open spec fn text_of(text: Option<String>) -> Option<Seq<char>> {
    match text {
        Some(t) => Some(t@),
        None => None,
    }
}

/// Copies an optional string.
pub fn clone_text(text: &Option<String>) -> (copy: Option<String>)
    ensures
        text_of(copy) == text_of(*text),
{
    match text {
        Some(t) => Some(t.clone()),
        None => None,
    }
}

/// The service name that spans carry where none is configured.
pub fn default_service_name() -> (name: String)
    ensures
        name@ == "router"@,
{
    "router".to_owned()
}

/// The service namespace that spans carry where none is configured.
pub fn default_service_namespace() -> (namespace: String)
    ensures
        namespace@ == "apollo"@,
{
    "apollo".to_owned()
}

/// Sampling options. The ratio of `TraceIdRatioBased` is held as the bits of
/// the double precision number it is configured with.
#[derive(Debug, PartialEq, Eq)]
pub enum Sampler {
    AlwaysOn,
    AlwaysOff,
    ParentBased(Box<Sampler>),
    TraceIdRatioBased(u64),
}

impl Clone for Sampler {
    fn clone(&self) -> (copy: Sampler)
        ensures
            copy == *self,
        decreases self,
    {
        match self {
            Sampler::AlwaysOn => Sampler::AlwaysOn,
            Sampler::AlwaysOff => Sampler::AlwaysOff,
            Sampler::ParentBased(inner) => Sampler::ParentBased(Box::new((&**inner).clone())),
            Sampler::TraceIdRatioBased(bits) => Sampler::TraceIdRatioBased(*bits),
        }
    }
}

/// Copies an optional sampler.
pub fn clone_sampler(sampler: &Option<Sampler>) -> (copy: Option<Sampler>)
    ensures
        copy == *sampler,
{
    match sampler {
        Some(s) => Some(s.clone()),
        None => None,
    }
}

/// Value of a resource attribute. Floating point numbers are held as their
/// bits.
#[derive(Debug, PartialEq, Eq)]
pub enum AttributeValue {
    Bool(bool),
    I64(i64),
    F64(u64),
    String(String),
    BoolArray(Vec<bool>),
    I64Array(Vec<i64>),
    F64Array(Vec<u64>),
    StringArray(Vec<String>),
}

/// Mathematical value of an [`AttributeValue`].
pub enum AttributeValueModel {
    Bool(bool),
    I64(i64),
    F64(u64),
    String(Seq<char>),
    BoolArray(Seq<bool>),
    I64Array(Seq<i64>),
    F64Array(Seq<u64>),
    StringArray(Seq<Seq<char>>),
}

/// The texts of a list of strings.
pub open spec fn texts(strings: Seq<String>) -> Seq<Seq<char>> {
    strings.map_values(|s: String| s@)
}

impl View for AttributeValue {
    type V = AttributeValueModel;

    open spec fn view(&self) -> AttributeValueModel {
        match self {
            AttributeValue::Bool(b) => AttributeValueModel::Bool(*b),
            AttributeValue::I64(i) => AttributeValueModel::I64(*i),
            AttributeValue::F64(bits) => AttributeValueModel::F64(*bits),
            AttributeValue::String(s) => AttributeValueModel::String(s@),
            AttributeValue::BoolArray(v) => AttributeValueModel::BoolArray(v@),
            AttributeValue::I64Array(v) => AttributeValueModel::I64Array(v@),
            AttributeValue::F64Array(v) => AttributeValueModel::F64Array(v@),
            AttributeValue::StringArray(v) => AttributeValueModel::StringArray(texts(v@)),
        }
    }
}

/// Copies a list of plain values.
pub fn copy_values<T: Copy>(values: &Vec<T>) -> (copy: Vec<T>)
    ensures
        copy@ == values@,
{
    let mut copy: Vec<T> = Vec::new();
    let mut i: usize = 0;
    while i < values.len()
        invariant
            i <= values.len(),
            copy@ == values@.subrange(0, i as int),
        decreases values.len() - i,
    {
        copy.push(values[i]);
        i += 1;
    }
    copy
}

/// Copies a list of strings.
pub fn clone_strings(strings: &Vec<String>) -> (copy: Vec<String>)
    ensures
        texts(copy@) == texts(strings@),
{
    let mut copy: Vec<String> = Vec::new();
    let mut i: usize = 0;
    while i < strings.len()
        invariant
            i <= strings.len(),
            texts(copy@) == texts(strings@).subrange(0, i as int),
        decreases strings.len() - i,
    {
        let ghost before = copy@;
        let item = strings[i].clone();
        copy.push(item);
        assert(texts(copy@) =~= texts(before).push(item@));
        i += 1;
    }
    copy
}

impl Clone for AttributeValue {
    fn clone(&self) -> (copy: AttributeValue)
        ensures
            copy@ == self@,
    {
        match self {
            AttributeValue::Bool(b) => AttributeValue::Bool(*b),
            AttributeValue::I64(i) => AttributeValue::I64(*i),
            AttributeValue::F64(bits) => AttributeValue::F64(*bits),
            AttributeValue::String(s) => AttributeValue::String(s.clone()),
            AttributeValue::BoolArray(v) => AttributeValue::BoolArray(copy_values(v)),
            AttributeValue::I64Array(v) => AttributeValue::I64Array(copy_values(v)),
            AttributeValue::F64Array(v) => AttributeValue::F64Array(copy_values(v)),
            AttributeValue::StringArray(v) => AttributeValue::StringArray(clone_strings(v)),
        }
    }
}

/// One attribute of the resource that produces telemetry.
#[derive(Debug, PartialEq, Eq)]
pub struct KeyValue {
    pub key: String,
    pub value: AttributeValue,
}

/// Mathematical value of a [`KeyValue`].
pub struct KeyValueModel {
    pub key: Seq<char>,
    pub value: AttributeValueModel,
}

impl View for KeyValue {
    type V = KeyValueModel;

    open spec fn view(&self) -> KeyValueModel {
        KeyValueModel { key: self.key@, value: self.value@ }
    }
}

impl Clone for KeyValue {
    fn clone(&self) -> (copy: KeyValue)
        ensures
            copy@ == self@,
    {
        KeyValue { key: self.key.clone(), value: self.value.clone() }
    }
}

/// The attributes of a list, as values.
pub open spec fn attributes(list: Seq<KeyValue>) -> Seq<KeyValueModel> {
    list.map_values(|kv: KeyValue| kv@)
}

/// Copies a list of attributes.
pub fn clone_attributes(list: &Vec<KeyValue>) -> (copy: Vec<KeyValue>)
    ensures
        attributes(copy@) == attributes(list@),
{
    let mut copy: Vec<KeyValue> = Vec::new();
    let mut i: usize = 0;
    while i < list.len()
        invariant
            i <= list.len(),
            attributes(copy@) == attributes(list@).subrange(0, i as int),
        decreases list.len() - i,
    {
        let ghost before = copy@;
        let item = list[i].clone();
        copy.push(item);
        assert(attributes(copy@) =~= attributes(before).push(item@));
        i += 1;
    }
    copy
}

/// The resource attributes used where none are configured: the default
/// service name and namespace.
pub open spec fn default_resource() -> Seq<KeyValueModel> {
    seq![
        KeyValueModel { key: "service.name"@, value: AttributeValueModel::String("router"@) },
        KeyValueModel { key: "service.namespace"@, value: AttributeValueModel::String("apollo"@) },
    ]
}

/// Limits and sampling of the tracer, each left to the tracing backend where
/// it is absent.
#[derive(Debug, PartialEq, Eq)]
pub struct TraceConfig {
    pub sampler: Option<Sampler>,
    pub max_events_per_span: Option<u32>,
    pub max_attributes_per_span: Option<u32>,
    pub max_links_per_span: Option<u32>,
    pub max_attributes_per_event: Option<u32>,
    pub max_attributes_per_link: Option<u32>,
    pub resource: Option<Vec<KeyValue>>,
}

/// Mathematical value of a [`TraceConfig`].
pub struct TraceConfigModel {
    pub sampler: Option<Sampler>,
    pub max_events_per_span: Option<u32>,
    pub max_attributes_per_span: Option<u32>,
    pub max_links_per_span: Option<u32>,
    pub max_attributes_per_event: Option<u32>,
    pub max_attributes_per_link: Option<u32>,
    pub resource: Option<Seq<KeyValueModel>>,
}

impl View for TraceConfig {
    type V = TraceConfigModel;

    open spec fn view(&self) -> TraceConfigModel {
        TraceConfigModel {
            sampler: self.sampler,
            max_events_per_span: self.max_events_per_span,
            max_attributes_per_span: self.max_attributes_per_span,
            max_links_per_span: self.max_links_per_span,
            max_attributes_per_event: self.max_attributes_per_event,
            max_attributes_per_link: self.max_attributes_per_link,
            resource: match self.resource {
                Some(list) => Some(attributes(list@)),
                None => None,
            },
        }
    }
}

/// What is set on the tracing backend's configuration: the limits and the
/// sampler that were configured, and the resource, which is always set.
#[derive(Debug, PartialEq, Eq)]
pub struct TraceSettings {
    pub sampler: Option<Sampler>,
    pub max_events_per_span: Option<u32>,
    pub max_attributes_per_span: Option<u32>,
    pub max_links_per_span: Option<u32>,
    pub max_attributes_per_event: Option<u32>,
    pub max_attributes_per_link: Option<u32>,
    pub resource: Vec<KeyValue>,
}

/// Mathematical value of a [`TraceSettings`].
pub struct TraceSettingsModel {
    pub sampler: Option<Sampler>,
    pub max_events_per_span: Option<u32>,
    pub max_attributes_per_span: Option<u32>,
    pub max_links_per_span: Option<u32>,
    pub max_attributes_per_event: Option<u32>,
    pub max_attributes_per_link: Option<u32>,
    pub resource: Seq<KeyValueModel>,
}

impl View for TraceSettings {
    type V = TraceSettingsModel;

    open spec fn view(&self) -> TraceSettingsModel {
        TraceSettingsModel {
            sampler: self.sampler,
            max_events_per_span: self.max_events_per_span,
            max_attributes_per_span: self.max_attributes_per_span,
            max_links_per_span: self.max_links_per_span,
            max_attributes_per_event: self.max_attributes_per_event,
            max_attributes_per_link: self.max_attributes_per_link,
            resource: attributes(self.resource@),
        }
    }
}

impl TraceConfigModel {
    /// The settings a configuration asks for: every configured item as it
    /// is, and the default resource where none is configured.
    pub open spec fn settings(self) -> TraceSettingsModel {
        TraceSettingsModel {
            sampler: self.sampler,
            max_events_per_span: self.max_events_per_span,
            max_attributes_per_span: self.max_attributes_per_span,
            max_links_per_span: self.max_links_per_span,
            max_attributes_per_event: self.max_attributes_per_event,
            max_attributes_per_link: self.max_attributes_per_link,
            resource: match self.resource {
                Some(list) => list,
                None => default_resource(),
            },
        }
    }
}

impl TraceConfig {
    /// The settings to apply to the tracing backend.
    pub fn trace_config(&self) -> (settings: TraceSettings)
        ensures
            settings@ == self@.settings(),
    {
        let resource = match &self.resource {
            Some(list) => clone_attributes(list),
            None => {
                let mut list: Vec<KeyValue> = Vec::new();
                list.push(
                    KeyValue {
                        key: "service.name".to_owned(),
                        value: AttributeValue::String(default_service_name()),
                    },
                );
                list.push(
                    KeyValue {
                        key: "service.namespace".to_owned(),
                        value: AttributeValue::String(default_service_namespace()),
                    },
                );
                assert(attributes(list@) =~= default_resource());
                list
            },
        };
        TraceSettings {
            sampler: clone_sampler(&self.sampler),
            max_events_per_span: self.max_events_per_span,
            max_attributes_per_span: self.max_attributes_per_span,
            max_links_per_span: self.max_links_per_span,
            max_attributes_per_event: self.max_attributes_per_event,
            max_attributes_per_link: self.max_attributes_per_link,
            resource,
        }
    }
}

impl Default for TraceConfig {
    fn default() -> (config: TraceConfig)
        ensures
            config.sampler is None,
            config.max_events_per_span is None,
            config.max_attributes_per_span is None,
            config.max_links_per_span is None,
            config.max_attributes_per_event is None,
            config.max_attributes_per_link is None,
            config.resource is None,
    {
        TraceConfig {
            sampler: None,
            max_events_per_span: None,
            max_attributes_per_span: None,
            max_links_per_span: None,
            max_attributes_per_event: None,
            max_attributes_per_link: None,
            resource: None,
        }
    }
}

/// Where the agent-based exporter sends: to an agent at a socket address, or
/// to a collector at a URL.
#[derive(Debug, PartialEq, Eq)]
pub enum JaegerEndpoint {
    Agent(String),
    Collector(String),
}

/// Mathematical value of a [`JaegerEndpoint`].
pub enum JaegerEndpointModel {
    Agent(Seq<char>),
    Collector(Seq<char>),
}

impl View for JaegerEndpoint {
    type V = JaegerEndpointModel;

    open spec fn view(&self) -> JaegerEndpointModel {
        match self {
            JaegerEndpoint::Agent(address) => JaegerEndpointModel::Agent(address@),
            JaegerEndpoint::Collector(url) => JaegerEndpointModel::Collector(url@),
        }
    }
}

/// Configuration of the agent-based exporter.
#[derive(Debug, PartialEq, Eq)]
pub struct Jaeger {
    pub endpoint: Option<JaegerEndpoint>,
    pub service_name: String,
    pub username: Option<String>,
    pub password: Option<String>,
    pub trace_config: Option<TraceConfig>,
}

/// Mathematical value of a [`Jaeger`].
pub struct JaegerModel {
    pub endpoint: Option<JaegerEndpointModel>,
    pub service_name: Seq<char>,
    pub username: Option<Seq<char>>,
    pub password: Option<Seq<char>>,
    pub trace_config: Option<TraceConfigModel>,
}

impl View for Jaeger {
    type V = JaegerModel;

    open spec fn view(&self) -> JaegerModel {
        JaegerModel {
            endpoint: match self.endpoint {
                Some(e) => Some(e@),
                None => None,
            },
            service_name: self.service_name@,
            username: text_of(self.username),
            password: text_of(self.password),
            trace_config: match self.trace_config {
                Some(c) => Some(c@),
                None => None,
            },
        }
    }
}

/// Configuration of the OTLP exporter: where to send, and the tracer's limits.
#[derive(Debug, PartialEq, Eq)]
pub struct Otlp {
    pub endpoint: Option<String>,
    pub trace_config: Option<TraceConfig>,
}

/// Mathematical value of an [`Otlp`].
pub struct OtlpModel {
    pub endpoint: Option<Seq<char>>,
    pub trace_config: Option<TraceConfigModel>,
}

impl View for Otlp {
    type V = OtlpModel;

    open spec fn view(&self) -> OtlpModel {
        OtlpModel {
            endpoint: text_of(self.endpoint),
            trace_config: match self.trace_config {
                Some(c) => Some(c@),
                None => None,
            },
        }
    }
}

/// The local exporter, one of a closed set of kinds. An absent configuration
/// inside a kind asks for that kind with its defaults.
#[derive(Debug, PartialEq, Eq)]
pub enum OpenTelemetry {
    Jaeger(Option<Jaeger>),
    Otlp(Option<Otlp>),
}

/// Mathematical value of an [`OpenTelemetry`].
pub enum OpenTelemetryModel {
    Jaeger(Option<JaegerModel>),
    Otlp(Option<OtlpModel>),
}

impl View for OpenTelemetry {
    type V = OpenTelemetryModel;

    open spec fn view(&self) -> OpenTelemetryModel {
        match self {
            OpenTelemetry::Jaeger(config) => OpenTelemetryModel::Jaeger(
                match config {
                    Some(j) => Some(j@),
                    None => None,
                },
            ),
            OpenTelemetry::Otlp(config) => OpenTelemetryModel::Otlp(
                match config {
                    Some(o) => Some(o@),
                    None => None,
                },
            ),
        }
    }
}

/// Where usage reports are collected: by a collector outside this process, or
/// by one that this process runs itself and that listens at `listener`.
#[derive(Debug, PartialEq, Eq)]
pub struct SpaceportConfig {
    pub external: bool,
    pub collector: String,
    pub listener: String,
}

/// Mathematical value of a [`SpaceportConfig`].
pub struct SpaceportConfigModel {
    pub external: bool,
    pub collector: Seq<char>,
    pub listener: Seq<char>,
}

impl View for SpaceportConfig {
    type V = SpaceportConfigModel;

    open spec fn view(&self) -> SpaceportConfigModel {
        SpaceportConfigModel {
            external: self.external,
            collector: self.collector@,
            listener: self.listener@,
        }
    }
}

impl Clone for SpaceportConfig {
    fn clone(&self) -> (copy: SpaceportConfig)
        ensures
            copy@ == self@,
    {
        SpaceportConfig {
            external: self.external,
            collector: self.collector.clone(),
            listener: self.listener.clone(),
        }
    }
}

/// The collector configuration used where none is given: a collector inside
/// this process on the loopback address.
pub open spec fn default_spaceport() -> SpaceportConfigModel {
    SpaceportConfigModel {
        external: false,
        collector: "https://127.0.0.1:50051"@,
        listener: "127.0.0.1:50051"@,
    }
}

impl Default for SpaceportConfig {
    fn default() -> (config: SpaceportConfig)
        ensures
            config@ == default_spaceport(),
    {
        SpaceportConfig {
            external: false,
            collector: "https://127.0.0.1:50051".to_owned(),
            listener: "127.0.0.1:50051".to_owned(),
        }
    }
}

/// Usage reporting credentials: the graph reference and the account key.
#[derive(Debug, PartialEq, Eq)]
pub struct StudioGraph {
    pub reference: String,
    pub key: String,
}

/// Mathematical value of a [`StudioGraph`].
pub struct StudioGraphModel {
    pub reference: Seq<char>,
    pub key: Seq<char>,
}

impl View for StudioGraph {
    type V = StudioGraphModel;

    open spec fn view(&self) -> StudioGraphModel {
        StudioGraphModel { reference: self.reference@, key: self.key@ }
    }
}

impl Clone for StudioGraph {
    fn clone(&self) -> (copy: StudioGraph)
        ensures
            copy@ == self@,
    {
        StudioGraph { reference: self.reference.clone(), key: self.key.clone() }
    }
}

/// Configuration of the reporting extension.
#[derive(Debug, PartialEq, Eq)]
pub struct Conf {
    pub spaceport: Option<SpaceportConfig>,
    pub graph: Option<StudioGraph>,
    pub opentelemetry: Option<OpenTelemetry>,
}

/// Mathematical value of a [`Conf`].
pub struct ConfModel {
    pub spaceport: Option<SpaceportConfigModel>,
    pub graph: Option<StudioGraphModel>,
    pub opentelemetry: Option<OpenTelemetryModel>,
}

impl View for Conf {
    type V = ConfModel;

    open spec fn view(&self) -> ConfModel {
        ConfModel {
            spaceport: match self.spaceport {
                Some(s) => Some(s@),
                None => None,
            },
            graph: match self.graph {
                Some(g) => Some(g@),
                None => None,
            },
            opentelemetry: match self.opentelemetry {
                Some(o) => Some(o@),
                None => None,
            },
        }
    }
}

/// The variables that the extension reads from the process environment, each
/// absent where the variable is not set.
#[derive(Debug, PartialEq, Eq)]
pub struct Environment {
    /// `APOLLO_KEY`
    pub apollo_key: Option<String>,
    /// `APOLLO_GRAPH_REF`
    pub apollo_graph_ref: Option<String>,
    /// `JAEGER_USERNAME`
    pub jaeger_username: Option<String>,
    /// `JAEGER_PASSWORD`
    pub jaeger_password: Option<String>,
    /// `OTEL_BSP_MAX_EXPORT_BATCH_SIZE`
    pub max_export_batch_size: Option<String>,
}

/// Mathematical value of an [`Environment`].
pub struct EnvironmentModel {
    pub apollo_key: Option<Seq<char>>,
    pub apollo_graph_ref: Option<Seq<char>>,
    pub jaeger_username: Option<Seq<char>>,
    pub jaeger_password: Option<Seq<char>>,
    pub max_export_batch_size: Option<Seq<char>>,
}

impl View for Environment {
    type V = EnvironmentModel;

    open spec fn view(&self) -> EnvironmentModel {
        EnvironmentModel {
            apollo_key: text_of(self.apollo_key),
            apollo_graph_ref: text_of(self.apollo_graph_ref),
            jaeger_username: text_of(self.jaeger_username),
            jaeger_password: text_of(self.jaeger_password),
            max_export_batch_size: text_of(self.max_export_batch_size),
        }
    }
}

impl Environment {
    /// An environment in which none of the variables is set.
    pub fn empty() -> (env: Environment)
        ensures
            env@.apollo_key is None,
            env@.apollo_graph_ref is None,
            env@.jaeger_username is None,
            env@.jaeger_password is None,
            env@.max_export_batch_size is None,
    {
        Environment {
            apollo_key: None,
            apollo_graph_ref: None,
            jaeger_username: None,
            jaeger_password: None,
            max_export_batch_size: None,
        }
    }
}

/// Why the extension cannot be set up.
#[derive(Clone, Copy, Debug, PartialEq, Eq, Structural)]
pub enum ReportingError {
    /// The account key is set in the environment and the graph reference is
    /// not.
    MissingGraphReference,
}

impl ReportingError {
    /// The error in words.
    pub fn message(&self) -> (text: String)
        ensures
            text@
                == "cannot set up usage reporting if the APOLLO_GRAPH_REF environment variable is not set"@,
    {
        match self {
            ReportingError::MissingGraphReference => {
                "cannot set up usage reporting if the APOLLO_GRAPH_REF environment variable is not set".to_owned()
            },
        }
    }
}

/// The credentials that an environment holds: none without an account key,
/// the pair where both are set, and an error where the key stands alone.
pub open spec fn environment_graph(env: EnvironmentModel) -> Result<
    Option<StudioGraphModel>,
    ReportingError,
> {
    match env.apollo_key {
        None => Ok(None),
        Some(key) => match env.apollo_graph_ref {
            Some(reference) => Ok(Some(StudioGraphModel { reference, key })),
            None => Err(ReportingError::MissingGraphReference),
        },
    }
}

/// The mathematical value of an optional credentials record.
pub open spec fn graph_model(graph: Option<StudioGraph>) -> Option<StudioGraphModel> {
    match graph {
        Some(g) => Some(g@),
        None => None,
    }
}

/// The mathematical value of the result of reading credentials.
pub open spec fn graph_result_model(result: Result<Option<StudioGraph>, ReportingError>) -> Result<
    Option<StudioGraphModel>,
    ReportingError,
> {
    match result {
        Ok(graph) => Ok(graph_model(graph)),
        Err(e) => Err(e),
    }
}

/// Reads the usage reporting credentials from the environment.
pub fn studio_graph(env: &Environment) -> (result: Result<Option<StudioGraph>, ReportingError>)
    ensures
        graph_result_model(result) == environment_graph(env@),
{
    match &env.apollo_key {
        Some(key) => match &env.apollo_graph_ref {
            Some(reference) => Ok(Some(StudioGraph { reference: reference.clone(), key: key.clone() })),
            None => Err(ReportingError::MissingGraphReference),
        },
        None => Ok(None),
    }
}

/// The credentials in force: those of the environment where it holds an
/// account key, otherwise those of the configuration.
pub open spec fn resolved_graph(conf: ConfModel, env: EnvironmentModel) -> Result<
    Option<StudioGraphModel>,
    ReportingError,
> {
    match environment_graph(env) {
        Ok(Some(graph)) => Ok(Some(graph)),
        Ok(None) => Ok(conf.graph),
        Err(e) => Err(e),
    }
}

/// The reporting extension.
pub struct Reporting {
    config: Conf,
}

impl Reporting {
    /// The configuration in force, with the credentials resolved.
    pub closed spec fn conf(&self) -> ConfModel {
        self.config@
    }

    /// Sets the extension up. The credentials are resolved against the
    /// environment; the rest of the configuration is taken as it is. Fails
    /// exactly where the environment holds an account key without a graph
    /// reference.
    pub fn new(configuration: Conf, env: &Environment) -> (result: Result<Reporting, ReportingError>)
        ensures
            match resolved_graph(configuration@, env@) {
                Ok(graph) => result matches Ok(plugin) && plugin.conf() == (ConfModel {
                    graph,
                    ..configuration@
                }),
                Err(e) => result matches Err(error) && error == e,
            },
    {
        let mut configuration = configuration;
        match studio_graph(env) {
            Ok(Some(graph)) => {
                configuration.graph = Some(graph);
            },
            Ok(None) => {},
            Err(e) => {
                return Err(e);
            },
        }
        Ok(Reporting { config: configuration })
    }

    /// The resolved initial collector configuration: the configured one, or
    /// the default where none is configured.
    pub open spec fn startup_message(conf: ConfModel) -> SpaceportConfigModel {
        match conf.spaceport {
            Some(s) => s,
            None => default_spaceport(),
        }
    }

    /// The configuration message that startup pushes to the orchestrator.
    /// There is always one, with or without credentials.
    pub fn startup(&self) -> (message: SpaceportConfig)
        ensures
            message@ == Self::startup_message(self.conf()),
    {
        match &self.config.spaceport {
            Some(s) => s.clone(),
            None => SpaceportConfig::default(),
        }
    }

    /// Plans the tracer provider: the sinks that every span is offered to, in
    /// the order in which they are registered.
    pub fn try_initialize_subscriber(&self, env: &Environment) -> (plan: TracerPlan)
        ensures
            sink_models(plan.sinks@) == planned_sinks(self.conf(), env@),
    {
        plan_tracer(&self.config, env)
    }
}

} // verus!
