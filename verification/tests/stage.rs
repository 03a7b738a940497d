use router_plugins::include_subgraph_errors::{ResponseFilter, SubgraphError, SubgraphResponse};
use router_plugins::stage::{ascend, call, descend, Descent};
use router_plugins::static_page::{
    Configuration, Homepage, Method, Request, Response, Sandbox, StaticPageLayer, HOME_PAGE,
    SANDBOX_PAGE,
};
use std::cell::Cell;

fn layer(sandbox: bool, homepage: bool) -> StaticPageLayer {
    StaticPageLayer::new(&Configuration {
        sandbox: Sandbox { enabled: sandbox },
        homepage: Homepage { enabled: homepage },
    })
}

fn page_request(accept: &str) -> Request<u8> {
    Request { method: Method::Get, accept: vec![accept.as_bytes().to_vec()], context: 1 }
}

fn routed(request: Request<u8>) -> Response<u8> {
    Response {
        status: 200,
        content_type: "application/json".to_string(),
        body: "{\"data\":null}".to_string(),
        context: request.context,
    }
}

fn failing(message: &str) -> SubgraphResponse<i32> {
    SubgraphResponse {
        data: 42,
        errors: vec![SubgraphError {
            message: message.to_string(),
            locations: vec![],
            path: None,
            extensions: vec![("code".to_string(), 500)],
        }],
    }
}

#[test]
fn chain_without_units_is_the_base_handler() {
    let units: Vec<StaticPageLayer> = vec![];
    let calls = Cell::new(0);
    let base = |request: Request<u8>| {
        calls.set(calls.get() + 1);
        routed(request)
    };
    assert_eq!(call(&units, &base, page_request("text/html")), routed(page_request("text/html")));
    assert_eq!(calls.get(), 1);
    assert_eq!(
        descend(&units, page_request("text/html")),
        Descent::Reached(page_request("text/html"))
    );
}

#[test]
fn first_registered_unit_decides_first() {
    let units = vec![layer(true, false), layer(false, true)];
    let base = |request: Request<u8>| routed(request);
    assert_eq!(call(&units, &base, page_request("text/html")).body, SANDBOX_PAGE);

    let units = vec![layer(false, true), layer(true, false)];
    assert_eq!(call(&units, &base, page_request("text/html")).body, HOME_PAGE);
}

#[test]
fn short_circuit_keeps_the_request_from_what_follows() {
    let units = vec![layer(false, false), layer(false, true), layer(true, false)];
    let calls = Cell::new(0);
    let base = |request: Request<u8>| {
        calls.set(calls.get() + 1);
        routed(request)
    };
    let response = call(&units, &base, page_request("text/html"));
    assert_eq!(response.body, HOME_PAGE);
    assert_eq!(response.status, 200);
    assert_eq!(calls.get(), 0);

    match descend(&units, page_request("text/html")) {
        Descent::Answered { depth, response } => {
            assert_eq!(depth, 1);
            assert_eq!(response.body, HOME_PAGE);
        }
        Descent::Reached(_) => panic!("the second unit answers"),
    }
}

#[test]
fn request_that_no_unit_answers_reaches_the_base_once() {
    let units = vec![layer(true, false), layer(false, true)];
    let calls = Cell::new(0);
    let base = |request: Request<u8>| {
        calls.set(calls.get() + 1);
        routed(request)
    };
    let response = call(&units, &base, page_request("application/json"));
    assert_eq!(response, routed(page_request("application/json")));
    assert_eq!(calls.get(), 1);
    assert_eq!(
        descend(&units, page_request("application/json")),
        Descent::Reached(page_request("application/json"))
    );
}

#[test]
fn responses_are_filtered_on_the_way_out() {
    let base = |_request: &str| failing("table missing");
    let redacted = SubgraphResponse {
        data: 42,
        errors: vec![SubgraphError {
            message: "Subgraph errors redacted".to_string(),
            locations: vec![],
            path: None,
            extensions: vec![],
        }],
    };

    assert_eq!(call(&vec![ResponseFilter::Redact], &base, "query"), redacted);
    assert_eq!(call(&vec![ResponseFilter::PassThrough], &base, "query"), failing("table missing"));
    assert_eq!(
        call(&vec![ResponseFilter::PassThrough, ResponseFilter::Redact], &base, "query"),
        redacted
    );
    assert_eq!(
        call(&vec![ResponseFilter::Redact, ResponseFilter::Redact], &base, "query"),
        redacted
    );
}

#[test]
fn ascend_passes_only_the_units_before_the_depth() {
    let units = vec![ResponseFilter::PassThrough, ResponseFilter::Redact];
    let unit: Vec<ResponseFilter> = units.clone();
    assert_eq!(
        ascend::<&str, SubgraphResponse<i32>, ResponseFilter>(&unit, 0, failing("x")),
        failing("x")
    );
    assert_eq!(
        ascend::<&str, SubgraphResponse<i32>, ResponseFilter>(&unit, 1, failing("x")),
        failing("x")
    );
    let out = ascend::<&str, SubgraphResponse<i32>, ResponseFilter>(&units, 2, failing("x"));
    assert_eq!(out.errors.len(), 1);
    assert_eq!(out.errors[0].message, "Subgraph errors redacted");
    assert_eq!(out.data, 42);
}
