use router_plugins::static_page::{
    default_sandbox, home_page_content, media_range_is_html, media_types_include_html,
    prefers_html, sandbox_page_content, str_eq_ignore_ascii_case, Configuration, Homepage,
    MediaRange, Method, Request, Response, Sandbox, StaticPageLayer, HOME_PAGE, SANDBOX_PAGE,
};
use std::ops::ControlFlow;

fn configuration(sandbox: bool, homepage: bool) -> Configuration {
    Configuration { sandbox: Sandbox { enabled: sandbox }, homepage: Homepage { enabled: homepage } }
}

fn request(method: Method, accept: &[&str]) -> Request<u32> {
    Request { method, accept: accept.iter().map(|v| v.as_bytes().to_vec()).collect(), context: 7 }
}

fn range(ty: &str, subty: &str, suffix: Option<&str>) -> MediaRange {
    MediaRange { ty: ty.to_string(), subty: subty.to_string(), suffix: suffix.map(|s| s.to_string()) }
}

fn all_methods() -> Vec<Method> {
    vec![
        Method::Get,
        Method::Head,
        Method::Post,
        Method::Put,
        Method::Delete,
        Method::Connect,
        Method::Options,
        Method::Trace,
        Method::Patch,
        Method::Extension("PURGE".to_string()),
    ]
}

#[test]
fn sandbox_is_off_by_default() {
    assert!(!default_sandbox());
    assert_eq!(Sandbox::new(None), Sandbox { enabled: false });
    assert_eq!(Sandbox::new(Some(true)), Sandbox { enabled: true });
    assert_eq!(Sandbox::new(Some(false)), Sandbox { enabled: false });
    assert_eq!(Sandbox::default(), Sandbox { enabled: false });
}

#[test]
fn page_content_is_identical_across_calls() {
    assert_eq!(sandbox_page_content(), sandbox_page_content());
    assert_eq!(home_page_content(), home_page_content());
    assert_eq!(sandbox_page_content(), SANDBOX_PAGE);
    assert_eq!(home_page_content(), HOME_PAGE);
    assert_ne!(sandbox_page_content(), home_page_content());
    assert!(sandbox_page_content().starts_with("<!DOCTYPE html>"));
    assert!(home_page_content().starts_with("<!DOCTYPE html>"));
}

#[test]
fn get_with_text_html_is_answered_with_the_page() {
    let layer = StaticPageLayer::new(&configuration(true, false));
    let flow = layer.checkpoint(request(Method::Get, &["text/html"]));
    assert_eq!(
        flow,
        ControlFlow::Break(Response {
            status: 200,
            content_type: "text/html; charset=utf-8".to_string(),
            body: sandbox_page_content(),
            context: 7,
        })
    );
}

#[test]
fn served_body_is_identical_across_requests() {
    let layer = StaticPageLayer::new(&configuration(false, true));
    let first = layer.checkpoint(request(Method::Get, &["text/html"]));
    let second = layer.checkpoint(request(Method::Get, &["image/png, text/html"]));
    match (first, second) {
        (ControlFlow::Break(a), ControlFlow::Break(b)) => {
            assert_eq!(a.body, b.body);
            assert_eq!(a.body, HOME_PAGE);
        }
        _ => panic!("both requests are served"),
    }
}

#[test]
fn sandbox_wins_over_home_page() {
    let layer = StaticPageLayer::new(&configuration(true, true));
    match layer.checkpoint(request(Method::Get, &["text/html"])) {
        ControlFlow::Break(response) => assert_eq!(response.body, SANDBOX_PAGE),
        ControlFlow::Continue(_) => panic!("the request is served"),
    }
    let layer = StaticPageLayer::new(&configuration(false, true));
    match layer.checkpoint(request(Method::Get, &["text/html"])) {
        ControlFlow::Break(response) => assert_eq!(response.body, HOME_PAGE),
        ControlFlow::Continue(_) => panic!("the request is served"),
    }
}

#[test]
fn application_json_passes_through_whatever_the_method() {
    let layer = StaticPageLayer::new(&configuration(true, true));
    for method in all_methods() {
        let req = request(method, &["application/json"]);
        assert_eq!(layer.checkpoint(req.clone()), ControlFlow::Continue(req));
    }
}

#[test]
fn only_get_is_answered() {
    let layer = StaticPageLayer::new(&configuration(true, true));
    for method in all_methods() {
        let req = request(method.clone(), &["text/html"]);
        let flow = layer.checkpoint(req.clone());
        if method == Method::Get {
            assert!(matches!(flow, ControlFlow::Break(_)));
        } else {
            assert_eq!(flow, ControlFlow::Continue(req));
        }
    }
    let req = request(Method::Extension("GET".to_string()), &["text/html"]);
    assert_eq!(layer.checkpoint(req.clone()), ControlFlow::Continue(req));
}

#[test]
fn layer_serves_the_document_it_is_given() {
    let rendered = "<!DOCTYPE html><title>rendered by the host</title>".to_string();
    let layer = StaticPageLayer::with_page(Some(rendered.clone()));
    assert_eq!(
        layer.checkpoint(request(Method::Get, &["text/html"])),
        ControlFlow::Break(Response {
            status: 200,
            content_type: "text/html; charset=utf-8".to_string(),
            body: rendered,
            context: 7,
        })
    );
    let req = request(Method::Get, &["application/json"]);
    assert_eq!(layer.checkpoint(req.clone()), ControlFlow::Continue(req));

    let empty = StaticPageLayer::with_page(Some(String::new()));
    match empty.checkpoint(request(Method::Get, &["text/html"])) {
        ControlFlow::Break(response) => assert_eq!(response.body, ""),
        ControlFlow::Continue(_) => panic!("the request is served"),
    }

    let none = StaticPageLayer::with_page(None);
    let req = request(Method::Get, &["text/html"]);
    assert_eq!(none.checkpoint(req.clone()), ControlFlow::Continue(req));
}

#[test]
fn disabled_responder_passes_everything_through() {
    let layer = StaticPageLayer::new(&configuration(false, false));
    let req = request(Method::Get, &["text/html"]);
    assert_eq!(layer.checkpoint(req.clone()), ControlFlow::Continue(req));
}

#[test]
fn request_without_accept_passes_through() {
    let layer = StaticPageLayer::new(&configuration(true, false));
    let req = request(Method::Get, &[]);
    assert_eq!(layer.checkpoint(req.clone()), ControlFlow::Continue(req));
}

#[test]
fn accept_list_is_searched_in_full() {
    assert!(prefers_html(&vec![b"text/html".to_vec()]));
    assert!(prefers_html(&vec![
        b"text/html, application/xhtml+xml, application/xml;q=0.9, */*;q=0.8".to_vec()
    ]));
    assert!(prefers_html(&vec![b"application/json, text/html".to_vec()]));
    assert!(prefers_html(&vec![b"  \ttext/html".to_vec()]));
    assert!(prefers_html(&vec![b"application/json".to_vec(), b"text/html".to_vec()]));
    assert!(prefers_html(&vec![b"not a media type, text/html".to_vec()]));
    assert!(!prefers_html(&vec![b"application/json".to_vec()]));
    assert!(!prefers_html(&vec![b"".to_vec()]));
    assert!(!prefers_html(&vec![]));
}

#[test]
fn wildcards_are_not_expanded() {
    assert!(!prefers_html(&vec![b"*/*".to_vec()]));
    assert!(!prefers_html(&vec![b"text/*".to_vec()]));
    assert!(!prefers_html(&vec![b"*/html".to_vec()]));
    assert!(!prefers_html(&vec![b"text/plain, */*;q=0.8".to_vec()]));
}

#[test]
fn parameters_are_ignored() {
    assert!(prefers_html(&vec![b"text/html;q=0.9".to_vec()]));
    assert!(prefers_html(&vec![b"text/html; charset=utf-8".to_vec()]));
    assert!(prefers_html(&vec![b"application/json;q=1, text/html; level=1; q=0.5".to_vec()]));
}

#[test]
fn type_and_subtype_match_without_regard_to_case() {
    assert!(prefers_html(&vec![b"TEXT/HTML".to_vec()]));
    assert!(prefers_html(&vec![b"Text/Html".to_vec()]));
    assert!(!prefers_html(&vec![b"text/htm".to_vec()]));
    assert!(!prefers_html(&vec![b"text/html5".to_vec()]));
    assert!(!prefers_html(&vec![b"txt/html".to_vec()]));
}

#[test]
fn suffixed_subtype_is_no_match() {
    assert!(!prefers_html(&vec![b"text/html+xml".to_vec()]));
    assert!(!prefers_html(&vec![b"application/xhtml+xml".to_vec()]));
}

#[test]
fn header_value_that_is_not_text_is_skipped() {
    assert!(!prefers_html(&vec![b"text/html\xfa".to_vec()]));
    assert!(!prefers_html(&vec![b"text/html\n".to_vec()]));
    assert!(!prefers_html(&vec![vec![0x7f, b't']]));
    assert!(prefers_html(&vec![b"\xfftext/html".to_vec(), b"text/html".to_vec()]));
    assert!(prefers_html(&vec![b"text/html\t".to_vec()]));
}

#[test]
fn media_range_is_html_compares_type_subtype_and_suffix() {
    assert!(media_range_is_html(&range("text", "html", None)));
    assert!(media_range_is_html(&range("TEXT", "hTmL", None)));
    assert!(!media_range_is_html(&range("text", "html", Some("xml"))));
    assert!(!media_range_is_html(&range("text", "plain", None)));
    assert!(!media_range_is_html(&range("application", "html", None)));
    assert!(!media_range_is_html(&range("*", "*", None)));
    assert!(!media_range_is_html(&range("text", "*", None)));
    assert!(!media_range_is_html(&range("", "", None)));
}

#[test]
fn media_types_include_html_looks_at_every_element() {
    assert!(!media_types_include_html(&vec![]));
    assert!(!media_types_include_html(&vec![None]));
    assert!(!media_types_include_html(&vec![None, Some(range("application", "json", None))]));
    assert!(media_types_include_html(&vec![Some(range("text", "html", None))]));
    assert!(media_types_include_html(&vec![
        None,
        Some(range("image", "png", None)),
        Some(range("Text", "HTML", None)),
    ]));
}

#[test]
fn str_eq_ignore_ascii_case_folds_ascii_letters_only() {
    assert!(str_eq_ignore_ascii_case("", ""));
    assert!(str_eq_ignore_ascii_case("text", "TEXT"));
    assert!(str_eq_ignore_ascii_case("a-Z_9", "A-z_9"));
    assert!(!str_eq_ignore_ascii_case("text", "tex"));
    assert!(!str_eq_ignore_ascii_case("text", "telt"));
    assert!(!str_eq_ignore_ascii_case("@", "`"));
    assert!(!str_eq_ignore_ascii_case("[", "{"));
    assert!(str_eq_ignore_ascii_case("\u{e9}t\u{e9}", "\u{e9}T\u{e9}"));
    assert!(!str_eq_ignore_ascii_case("\u{e9}", "\u{c9}"));
}
