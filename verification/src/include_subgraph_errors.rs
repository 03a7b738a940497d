//! Error visibility filter: decides per backend whether error detail may reach
//! the client, and replaces withheld errors by one fixed record.

use crate::stage::StageUnit;
use std::ops::ControlFlow;
use vstd::hash_map::StringHashMap;
use vstd::prelude::*;

verus! {

/// Position in a query document that an error refers to.
#[derive(Clone, Copy, Debug, PartialEq, Eq)]
pub struct Location {
    pub line: u32,
    pub column: u32,
}

/// One step of the path from the response root to the field an error belongs to.
#[derive(Clone, Debug, PartialEq, Eq)]
pub enum PathElement {
    Flatten,
    Index(usize),
    Key(String),
}

/// Mathematical value of a [`PathElement`].
pub enum PathElementModel {
    Flatten,
    Index(usize),
    Key(Seq<char>),
}

impl View for PathElement {
    type V = PathElementModel;

    open spec fn view(&self) -> PathElementModel {
        match self {
            PathElement::Flatten => PathElementModel::Flatten,
            PathElement::Index(i) => PathElementModel::Index(*i),
            PathElement::Key(k) => PathElementModel::Key(k@),
        }
    }
}

/// An error record as a backend reports it. `V` is the type of the free-form
/// values carried in `extensions`; the filter never looks inside one.
#[derive(Clone, Debug, PartialEq)]
pub struct SubgraphError<V> {
    pub message: String,
    pub locations: Vec<Location>,
    pub path: Option<Vec<PathElement>>,
    pub extensions: Vec<(String, V)>,
}

/// Mathematical value of a [`SubgraphError`].
pub struct SubgraphErrorModel<V> {
    pub message: Seq<char>,
    pub locations: Seq<Location>,
    pub path: Option<Seq<PathElementModel>>,
    pub extensions: Seq<(Seq<char>, V)>,
}

impl<V> View for SubgraphError<V> {
    type V = SubgraphErrorModel<V>;

    open spec fn view(&self) -> SubgraphErrorModel<V> {
        SubgraphErrorModel {
            message: self.message@,
            locations: self.locations@,
            path: match self.path {
                Some(p) => Some(p@.map_values(|e: PathElement| e@)),
                None => None,
            },
            extensions: self.extensions@.map_values(|kv: (String, V)| (kv.0@, kv.1)),
        }
    }
}

/// What a backend answered: a payload and the errors that came with it.
#[derive(Clone, Debug, PartialEq)]
pub struct SubgraphResponse<V> {
    pub data: V,
    pub errors: Vec<SubgraphError<V>>,
}

/// Mathematical value of a [`SubgraphResponse`].
pub struct SubgraphResponseModel<V> {
    pub data: V,
    pub errors: Seq<SubgraphErrorModel<V>>,
}

impl<V> View for SubgraphResponse<V> {
    type V = SubgraphResponseModel<V>;

    open spec fn view(&self) -> SubgraphResponseModel<V> {
        SubgraphResponseModel {
            data: self.data,
            errors: self.errors@.map_values(|e: SubgraphError<V>| e@),
        }
    }
}

/// The record that stands in for every withheld error list.
pub open spec fn redacted_error<V>() -> SubgraphErrorModel<V> {
    SubgraphErrorModel {
        message: "Subgraph errors redacted"@,
        locations: Seq::empty(),
        path: None,
        extensions: Seq::empty(),
    }
}

/// Redaction on mathematical values: a response without errors is left as it
/// is; otherwise the whole error list becomes the single redacted record and
/// the payload stays.
pub open spec fn redact<V>(response: SubgraphResponseModel<V>) -> SubgraphResponseModel<V> {
    if response.errors.len() == 0 {
        response
    } else {
        SubgraphResponseModel { data: response.data, errors: seq![redacted_error()] }
    }
}

/// Builds the one-element error list that replaces withheld errors.
pub fn redacted_errors<V>() -> (errors: Vec<SubgraphError<V>>)
    ensures
        errors@.len() == 1,
        errors@[0]@ == redacted_error::<V>(),
{
    let error = SubgraphError {
        message: "Subgraph errors redacted".to_owned(),
        locations: Vec::new(),
        path: None,
        extensions: Vec::new(),
    };
    assert(error@.extensions =~= Seq::empty());
    let mut errors = Vec::new();
    errors.push(error);
    errors
}

/// Withholds the error detail of one response.
///
/// A response without errors comes back as the very same value. One with
/// errors keeps its payload and carries exactly the redacted record.
pub fn redact_response<V>(response: SubgraphResponse<V>) -> (redacted: SubgraphResponse<V>)
    ensures
        redacted@ == redact(response@),
        redacted.data == response.data,
        response.errors@.len() == 0 ==> redacted == response,
{
    if response.errors.len() == 0 {
        response
    } else {
        let redacted = SubgraphResponse { data: response.data, errors: redacted_errors() };
        assert(redacted@.errors =~= seq![redacted_error::<V>()]);
        redacted
    }
}

/// Redacting twice is redacting once; in particular a response that carries
/// no errors is not changed by redaction.
pub proof fn redact_is_idempotent<V>(response: SubgraphResponseModel<V>)
    ensures
        redact(redact(response)) == redact(response),
        response.errors.len() == 0 ==> redact(response) == response,
{
}

/// Redaction never invents errors and never leaves more than one.
pub proof fn redact_error_count<V>(response: SubgraphResponseModel<V>)
    ensures
        redact(response).data == response.data,
        response.errors.len() == 0 <==> redact(response).errors.len() == 0,
        response.errors.len() > 0 ==> redact(response).errors == seq![redacted_error::<V>()],
{
}

/// Which backends may show their errors: a flag per listed backend name and a
/// default for the others.
pub struct ErrorVisibilityPolicy {
    pub all: bool,
    pub subgraphs: Map<Seq<char>, bool>,
}

impl ErrorVisibilityPolicy {
    /// The flag of `name` where it is listed, otherwise the default.
    pub open spec fn expose(self, name: Seq<char>) -> bool {
        if self.subgraphs.contains_key(name) {
            self.subgraphs[name]
        } else {
            self.all
        }
    }
}

/// Configuration of the filter. Names are matched exactly and with case.
pub struct Config {
    all: bool,
    subgraphs: StringHashMap<bool>,
}

impl View for Config {
    type V = ErrorVisibilityPolicy;

    closed spec fn view(&self) -> ErrorVisibilityPolicy {
        ErrorVisibilityPolicy { all: self.all, subgraphs: self.subgraphs@ }
    }
}

impl Config {
    /// A configuration that lists no backend and uses `all` for every one.
    pub fn new(all: bool) -> (config: Config)
        ensures
            config@.all == all,
            config@.subgraphs == Map::<Seq<char>, bool>::empty(),
    {
        Config { all, subgraphs: StringHashMap::new() }
    }

    /// Lists `name` with its own flag; a later entry for the same name wins.
    pub fn set_subgraph(&mut self, name: String, expose: bool)
        ensures
            final(self)@.all == old(self)@.all,
            final(self)@.subgraphs == old(self)@.subgraphs.insert(name@, expose),
    {
        self.subgraphs.insert(name, expose);
    }

    /// Whether the errors of backend `name` may be shown.
    pub fn expose(&self, name: &str) -> (expose: bool)
        ensures
            expose == self@.expose(name@),
    {
        match self.subgraphs.get(name) {
            Some(flag) => *flag,
            None => self.all,
        }
    }
}

impl Default for Config {
    /// Nothing listed and nothing shown.
    fn default() -> (config: Config)
        ensures
            !config@.all,
            config@.subgraphs == Map::<Seq<char>, bool>::empty(),
    {
        Config::new(false)
    }
}

/// What the filter does with the responses of one backend.
#[derive(Clone, Copy, Debug, PartialEq, Eq, Structural)]
pub enum ResponseFilter {
    /// Responses pass as they are.
    PassThrough,
    /// Error lists are replaced by the redacted record.
    Redact,
}

impl ResponseFilter {
    /// What this filter makes of a response, on mathematical values.
    pub open spec fn outcome<V>(self, response: SubgraphResponseModel<V>) -> SubgraphResponseModel<V> {
        match self {
            ResponseFilter::PassThrough => response,
            ResponseFilter::Redact => redact(response),
        }
    }

    /// What the filter may make of a response: its outcome on mathematical
    /// values, with the payload untouched; and the very same response where
    /// the filter passes responses through or there is no error.
    pub open spec fn maps<V>(self, response: SubgraphResponse<V>, mapped: SubgraphResponse<V>) -> bool {
        &&& mapped@ == self.outcome(response@)
        &&& mapped.data == response.data
        &&& (self == ResponseFilter::PassThrough || response.errors@.len() == 0) ==> mapped
            == response
    }

    /// Applies the filter to one response of the backend it was made for.
    pub fn map_response<V>(&self, response: SubgraphResponse<V>) -> (mapped: SubgraphResponse<V>)
        ensures
            self.maps(response, mapped),
    {
        match self {
            ResponseFilter::PassThrough => response,
            ResponseFilter::Redact => redact_response(response),
        }
    }
}

/// The filter as a unit of a backend's stage: requests pass as they are, and
/// responses are filtered on the way out.
impl<R, V> StageUnit<R, SubgraphResponse<V>> for ResponseFilter {
    open spec fn request_flow(&self, request: R, flow: ControlFlow<SubgraphResponse<V>, R>) -> bool {
        flow == ControlFlow::<SubgraphResponse<V>, R>::Continue(request)
    }

    open spec fn response_flow(&self, inner: SubgraphResponse<V>, outer: SubgraphResponse<V>) -> bool {
        self.maps(inner, outer)
    }

    fn on_request(&self, request: R) -> (flow: ControlFlow<SubgraphResponse<V>, R>) {
        ControlFlow::Continue(request)
    }

    fn on_response(&self, response: SubgraphResponse<V>) -> (outer: SubgraphResponse<V>) {
        self.map_response(response)
    }
}

/// The error visibility extension: one instance per gateway, asked once per
/// backend for the filter that wraps the calls to it.
pub struct IncludeSubgraphErrors {
    config: Config,
}

impl IncludeSubgraphErrors {
    /// Takes the configuration as it is; construction cannot fail.
    pub fn new(config: Config) -> (plugin: IncludeSubgraphErrors)
        ensures
            plugin.policy() == config@,
    {
        IncludeSubgraphErrors { config }
    }

    /// The policy this instance applies.
    pub closed spec fn policy(&self) -> ErrorVisibilityPolicy {
        self.config@
    }

    /// The filter for the backend called `name`: responses pass where the
    /// policy exposes that backend, and are redacted where it does not.
    pub fn subgraph_service(&self, name: &str) -> (filter: ResponseFilter)
        ensures
            filter == if self.policy().expose(name@) {
                ResponseFilter::PassThrough
            } else {
                ResponseFilter::Redact
            },
    {
        if self.config.expose(name) {
            ResponseFilter::PassThrough
        } else {
            ResponseFilter::Redact
        }
    }
}

} // verus!
