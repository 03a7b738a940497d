use router_plugins::include_subgraph_errors::{
    redact_response, redacted_errors, Config, IncludeSubgraphErrors, Location, PathElement,
    ResponseFilter, SubgraphError, SubgraphResponse,
};
use router_plugins::registry::{find_plugin, PluginKind};

type Response = SubgraphResponse<String>;

fn redacted_error() -> SubgraphError<String> {
    SubgraphError {
        message: "Subgraph errors redacted".to_string(),
        locations: vec![],
        path: None,
        extensions: vec![],
    }
}

fn unredacted_product_response() -> Response {
    SubgraphResponse {
        data: "{\"topProducts\":null}".to_string(),
        errors: vec![SubgraphError {
            message: "couldn't find mock for query".to_string(),
            locations: vec![],
            path: None,
            extensions: vec![("test".to_string(), "\"value\"".to_string())],
        }],
    }
}

fn redacted_product_response() -> Response {
    SubgraphResponse {
        data: "{\"topProducts\":null}".to_string(),
        errors: vec![redacted_error()],
    }
}

fn unredacted_account_response() -> Response {
    SubgraphResponse {
        data: "null".to_string(),
        errors: vec![SubgraphError {
            message: "couldn't find mock for query".to_string(),
            locations: vec![],
            path: None,
            extensions: vec![],
        }],
    }
}

fn redacted_account_response() -> Response {
    SubgraphResponse { data: "null".to_string(), errors: vec![redacted_error()] }
}

fn expected_response() -> Response {
    SubgraphResponse {
        data: "{\"topProducts\":[{\"upc\":\"1\",\"name\":\"Table\"},{\"upc\":\"2\",\"name\":\"Couch\"}]}"
            .to_string(),
        errors: vec![],
    }
}

fn get_redacting_plugin(all: Option<bool>, subgraphs: &[(&str, bool)]) -> IncludeSubgraphErrors {
    let kind = find_plugin("experimental.include_subgraph_errors").expect("Plugin not found");
    assert_eq!(kind, PluginKind::IncludeSubgraphErrors);
    let mut config = match all {
        Some(all) => Config::new(all),
        None => Config::default(),
    };
    for (name, expose) in subgraphs {
        config.set_subgraph(name.to_string(), *expose);
    }
    IncludeSubgraphErrors::new(config)
}

fn execute(plugin: &IncludeSubgraphErrors, subgraph: &str, response: Response) -> Response {
    plugin.subgraph_service(subgraph).map_response(response)
}

#[test]
fn it_returns_valid_response() {
    let plugin = get_redacting_plugin(Some(false), &[]);
    for subgraph in ["accounts", "reviews", "products"] {
        assert_eq!(execute(&plugin, subgraph, expected_response()), expected_response());
    }
}

#[test]
fn it_redacts_all_subgraphs_explicit_redact() {
    let plugin = get_redacting_plugin(Some(false), &[]);
    assert_eq!(
        execute(&plugin, "products", unredacted_product_response()),
        redacted_product_response()
    );
}

#[test]
fn it_redacts_all_subgraphs_implicit_redact() {
    let plugin = get_redacting_plugin(None, &[]);
    assert_eq!(
        execute(&plugin, "products", unredacted_product_response()),
        redacted_product_response()
    );
}

#[test]
fn it_does_not_redact_all_subgraphs_explicit_allow() {
    let plugin = get_redacting_plugin(Some(true), &[]);
    assert_eq!(
        execute(&plugin, "products", unredacted_product_response()),
        unredacted_product_response()
    );
}

#[test]
fn it_does_not_redact_all_implicit_redact_product_explict_allow_for_product_query() {
    let plugin = get_redacting_plugin(None, &[("products", true)]);
    assert_eq!(
        execute(&plugin, "products", unredacted_product_response()),
        unredacted_product_response()
    );
}

#[test]
fn it_does_redact_all_implicit_redact_product_explict_allow_for_review_query() {
    let plugin = get_redacting_plugin(None, &[("reviews", true)]);
    assert_eq!(
        execute(&plugin, "products", unredacted_product_response()),
        redacted_product_response()
    );
}

#[test]
fn it_does_not_redact_all_explicit_allow_review_explict_redact_for_product_query() {
    let plugin = get_redacting_plugin(Some(true), &[("reviews", false)]);
    assert_eq!(
        execute(&plugin, "products", unredacted_product_response()),
        unredacted_product_response()
    );
}

#[test]
fn it_does_redact_all_explicit_allow_product_explict_redact_for_product_query() {
    let plugin = get_redacting_plugin(Some(true), &[("products", false)]);
    assert_eq!(
        execute(&plugin, "products", unredacted_product_response()),
        redacted_product_response()
    );
}

#[test]
fn it_does_not_redact_all_explicit_allow_account_explict_redact_for_product_query() {
    let plugin = get_redacting_plugin(Some(true), &[("accounts", false)]);
    assert_eq!(
        execute(&plugin, "products", unredacted_product_response()),
        unredacted_product_response()
    );
}

#[test]
fn it_does_redact_all_explicit_allow_account_explict_redact_for_account_query() {
    let plugin = get_redacting_plugin(Some(true), &[("accounts", false)]);
    assert_eq!(
        execute(&plugin, "accounts", unredacted_account_response()),
        redacted_account_response()
    );
}

#[test]
fn expose_takes_the_listed_flag_or_the_default() {
    let mut config = Config::new(false);
    config.set_subgraph("products".to_string(), true);
    config.set_subgraph("reviews".to_string(), false);
    assert!(config.expose("products"));
    assert!(!config.expose("reviews"));
    assert!(!config.expose("accounts"));

    let mut config = Config::new(true);
    config.set_subgraph("reviews".to_string(), false);
    assert!(config.expose("products"));
    assert!(!config.expose("reviews"));
    assert!(config.expose(""));
}

#[test]
fn backend_names_are_matched_exactly_and_with_case() {
    let mut config = Config::new(false);
    config.set_subgraph("products".to_string(), true);
    assert!(config.expose("products"));
    assert!(!config.expose("Products"));
    assert!(!config.expose("products "));
    assert!(!config.expose("product"));
}

#[test]
fn a_later_entry_for_a_backend_replaces_the_earlier_one() {
    let mut config = Config::new(false);
    config.set_subgraph("products".to_string(), true);
    config.set_subgraph("products".to_string(), false);
    assert!(!config.expose("products"));
}

#[test]
fn subgraph_service_picks_the_filter_from_the_policy() {
    let plugin = get_redacting_plugin(None, &[("products", true)]);
    assert_eq!(plugin.subgraph_service("products"), ResponseFilter::PassThrough);
    assert_eq!(plugin.subgraph_service("reviews"), ResponseFilter::Redact);
    assert_eq!(plugin.subgraph_service("accounts"), ResponseFilter::Redact);
}

#[test]
fn empty_configuration_redacts_a_single_error() {
    let plugin = get_redacting_plugin(None, &[]);
    let response: Response = SubgraphResponse {
        data: "{\"me\":1}".to_string(),
        errors: vec![SubgraphError {
            message: "x".to_string(),
            locations: vec![],
            path: None,
            extensions: vec![],
        }],
    };
    let redacted = execute(&plugin, "any", response);
    assert_eq!(redacted.data, "{\"me\":1}");
    assert_eq!(redacted.errors.len(), 1);
    assert_eq!(redacted.errors[0].message, "Subgraph errors redacted");
    assert!(redacted.errors[0].locations.is_empty());
    assert_eq!(redacted.errors[0].path, None);
    assert!(redacted.errors[0].extensions.is_empty());
}

#[test]
fn many_errors_become_one_redacted_record() {
    let detailed = SubgraphError {
        message: "secret table missing".to_string(),
        locations: vec![Location { line: 3, column: 7 }],
        path: Some(vec![
            PathElement::Key("topProducts".to_string()),
            PathElement::Index(2),
            PathElement::Flatten,
        ]),
        extensions: vec![("code".to_string(), "\"INTERNAL\"".to_string())],
    };
    let response: Response = SubgraphResponse {
        data: "{}".to_string(),
        errors: vec![detailed.clone(), detailed.clone(), detailed],
    };
    let redacted = redact_response(response);
    assert_eq!(redacted, SubgraphResponse { data: "{}".to_string(), errors: vec![redacted_error()] });
}

#[test]
fn redaction_never_invents_errors() {
    let redacted = redact_response(expected_response());
    assert!(redacted.errors.is_empty());
    assert_eq!(redacted, expected_response());
}

#[test]
fn redaction_is_idempotent() {
    let once = redact_response(unredacted_product_response());
    let twice = redact_response(once.clone());
    assert_eq!(once, twice);
    let clean = redact_response(expected_response());
    assert_eq!(redact_response(clean.clone()), clean);
}

#[test]
fn redacted_errors_hold_the_fixed_record() {
    let errors: Vec<SubgraphError<u8>> = redacted_errors();
    assert_eq!(errors.len(), 1);
    assert_eq!(errors[0].message, "Subgraph errors redacted");
    assert_eq!(errors[0].locations, vec![]);
    assert_eq!(errors[0].path, None);
    assert_eq!(errors[0].extensions, vec![]);
}

#[test]
fn pass_through_keeps_errors_and_payload() {
    let response = unredacted_product_response();
    assert_eq!(ResponseFilter::PassThrough.map_response(response.clone()), response);
    assert_eq!(ResponseFilter::Redact.map_response(response), redacted_product_response());
}
