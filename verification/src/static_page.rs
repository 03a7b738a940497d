//! Static page responder: answers a browser's page request with a document
//! chosen at startup, before the request reaches the router proper.

use crate::stage::StageUnit;
use http::header::HeaderValue;
use mediatype::MediaTypeList;
use std::ops::ControlFlow;
use vstd::prelude::*;

verus! {

/// The document served when the sandbox is enabled.
pub const SANDBOX_PAGE: &'static str =
    "<!DOCTYPE html>\n<html lang='en'>\n<head>\n<meta charset='utf-8'>\n<meta name='viewport' content='width=device-width, initial-scale=1'>\n<title>Sandbox</title>\n<style>html, body, #sandbox { height: 100%; margin: 0; }</style>\n</head>\n<body>\n<div id='sandbox'></div>\n<script>\nwindow.sandboxEndpoint = window.location.href;\n</script>\n<noscript>The sandbox needs a browser that runs scripts.</noscript>\n</body>\n</html>\n";

/// The document served when only the home page is enabled.
pub const HOME_PAGE: &'static str =
    "<!DOCTYPE html>\n<html lang='en'>\n<head>\n<meta charset='utf-8'>\n<meta name='viewport' content='width=device-width, initial-scale=1'>\n<title>Welcome</title>\n</head>\n<body>\n<h1>Welcome to the router</h1>\n<p>The router is running. Send queries to this address with a client of your choice.</p>\n</body>\n</html>\n";

/// Configuration options pertaining to the sandbox page.
#[derive(Clone, Copy, Debug, PartialEq, Eq)]
pub struct Sandbox {
    pub enabled: bool,
}

/// The sandbox is off unless it is asked for.
pub fn default_sandbox() -> (enabled: bool)
    ensures
        !enabled,
{
    false
}

impl Sandbox {
    /// A sandbox configuration; an absent flag takes the default.
    pub fn new(enabled: Option<bool>) -> (sandbox: Sandbox)
        ensures
            sandbox.enabled == (enabled == Some(true)),
    {
        Sandbox {
            enabled: match enabled {
                Some(flag) => flag,
                None => default_sandbox(),
            },
        }
    }
}

impl Default for Sandbox {
    fn default() -> (sandbox: Sandbox)
        ensures
            !sandbox.enabled,
    {
        Sandbox::new(None)
    }
}

/// Configuration options pertaining to the home page.
#[derive(Clone, Copy, Debug, PartialEq, Eq)]
pub struct Homepage {
    pub enabled: bool,
}

/// The part of the gateway configuration that selects the static page.
#[derive(Clone, Copy, Debug, PartialEq, Eq)]
pub struct Configuration {
    pub sandbox: Sandbox,
    pub homepage: Homepage,
}

impl Configuration {
    /// The document this configuration selects: the sandbox where it is
    /// enabled, else the home page where that is enabled, else none.
    pub open spec fn selected_page(self) -> Option<Seq<char>> {
        if self.sandbox.enabled {
            Some(SANDBOX_PAGE@)
        } else if self.homepage.enabled {
            Some(HOME_PAGE@)
        } else {
            None
        }
    }
}

/// The sandbox document. Every call gives the same text.
pub fn sandbox_page_content() -> (page: String)
    ensures
        page@ == SANDBOX_PAGE@,
{
    SANDBOX_PAGE.to_owned()
}

/// The home page document. Every call gives the same text.
pub fn home_page_content() -> (page: String)
    ensures
        page@ == HOME_PAGE@,
{
    HOME_PAGE.to_owned()
}

/// Request method, with the nine registered tokens told apart.
#[derive(Clone, Debug, PartialEq, Eq)]
pub enum Method {
    Get,
    Head,
    Post,
    Put,
    Delete,
    Connect,
    Options,
    Trace,
    Patch,
    Extension(String),
}

/// What the responder reads of a request, and the rest of it. `accept` holds
/// the raw values of the request's `Accept` header fields in order; `context`
/// is whatever else travels with the request.
#[derive(Clone, Debug, PartialEq)]
pub struct Request<T> {
    pub method: Method,
    pub accept: Vec<Vec<u8>>,
    pub context: T,
}

/// A response produced without calling the router.
#[derive(Clone, Debug, PartialEq)]
pub struct Response<T> {
    pub status: u16,
    pub content_type: String,
    pub body: String,
    pub context: T,
}

/// One element of an `Accept` list that parsed as a media type. Parameters are
/// left out: the responder does not look at them.
#[derive(Clone, Debug, PartialEq, Eq)]
pub struct MediaRange {
    pub ty: String,
    pub subty: String,
    pub suffix: Option<String>,
}

/// Mathematical value of a [`MediaRange`].
pub struct MediaRangeModel {
    pub ty: Seq<char>,
    pub subty: Seq<char>,
    pub suffix: Option<Seq<char>>,
}

impl View for MediaRange {
    type V = MediaRangeModel;

    open spec fn view(&self) -> MediaRangeModel {
        MediaRangeModel {
            ty: self.ty@,
            subty: self.subty@,
            suffix: match self.suffix {
                Some(s) => Some(s@),
                None => None,
            },
        }
    }
}

/// The elements of an `Accept` list as values: `None` stands for an element
/// that is not a media type.
pub open spec fn media_ranges(items: Seq<Option<MediaRange>>) -> Seq<Option<MediaRangeModel>> {
    items.map_values(
        |item: Option<MediaRange>|
            match item {
                Some(range) => Some(range@),
                None => None,
            },
    )
}

/// Bytes that a header value may hold and still be text: printable ASCII,
/// space and tab.
pub open spec fn is_visible_ascii(b: u8) -> bool {
    (32 <= b && b < 127) || b == 9
}

/// The text of a header value, where it has one: every byte is visible ASCII
/// and stands for the character of the same number.
pub open spec fn header_text(value: Seq<u8>) -> Option<Seq<char>> {
    if forall|i: int| 0 <= i < value.len() ==> is_visible_ascii(#[trigger] value[i]) {
        Some(value.map_values(|b: u8| b as char))
    } else {
        None
    }
}

/// A text whose characters are all printable ASCII, spaces or tabs: what a
/// header value can hold as text.
pub open spec fn is_header_text(text: Seq<char>) -> bool {
    forall|i: int|
        0 <= i < text.len() ==> (' ' <= #[trigger] text[i] && text[i] <= '~') || text[i] == '\t'
}

/// The elements into which the media type parser splits an `Accept` value,
/// in order.
pub uninterp spec fn media_type_list(accept: Seq<char>) -> Seq<Option<MediaRangeModel>>;

/// An ASCII capital as its small letter, any other character as itself.
pub open spec fn ascii_lowercase(c: char) -> char {
    if 'A' <= c && c <= 'Z' {
        ((c as u8) + 32) as char
    } else {
        c
    }
}

/// Equality of two texts where ASCII letters match without regard to case.
pub open spec fn eq_ignore_ascii_case(a: Seq<char>, b: Seq<char>) -> bool {
    &&& a.len() == b.len()
    &&& forall|i: int| 0 <= i < a.len() ==> ascii_lowercase(#[trigger] a[i]) == ascii_lowercase(b[i])
}

/// Whether a media range names exactly `text/html`: type and subtype match
/// without regard to case, and there is no suffix. A wildcard is no match.
pub open spec fn is_text_html(range: MediaRangeModel) -> bool {
    &&& eq_ignore_ascii_case(range.ty, "text"@)
    &&& eq_ignore_ascii_case(range.subty, "html"@)
    &&& range.suffix is None
}

/// Whether some element of a parsed `Accept` list names `text/html`.
pub open spec fn list_has_html(items: Seq<Option<MediaRangeModel>>) -> bool {
    exists|i: int| 0 <= i < items.len() && (#[trigger] items[i] matches Some(range) && is_text_html(range))
}

/// Whether one raw `Accept` value asks for `text/html`: it is text, and its
/// list of media types names `text/html`.
pub open spec fn value_prefers_html(value: Seq<u8>) -> bool {
    header_text(value) matches Some(text) && list_has_html(media_type_list(text))
}

/// Whether some `Accept` value of a request asks for `text/html`.
pub open spec fn headers_prefer_html(accept: Seq<Vec<u8>>) -> bool {
    exists|i: int| 0 <= i < accept.len() && value_prefers_html(#[trigger] accept[i]@)
}

/// Trusted: `http::HeaderValue::from_bytes` followed by `HeaderValue::to_str`.
/// The contract claims what the two do together: the value has a text exactly
/// when each byte is printable ASCII, a space or a tab, and the text then has
/// one character per byte, of the same number.
#[verifier::external_body]
fn header_value_to_str(value: &Vec<u8>) -> (text: Option<String>)
    ensures
        text is Some <==> header_text(value@) is Some,
        text matches Some(t) ==> Some(t@) == header_text(value@),
{
    let header = HeaderValue::from_bytes(value).ok()?;
    header.to_str().ok().map(|text| text.to_owned())
}

/// Trusted: iteration of `mediatype::MediaTypeList::new(text)`, for the text
/// of a header value. The contract claims only that the elements handed out
/// are those the parser finds in `text`, in its order, each reduced to type,
/// subtype and suffix, and that the same text always gives the same elements.
#[verifier::external_body]
fn parse_media_types(text: &str) -> (items: Vec<Option<MediaRange>>)
    requires
        is_header_text(text@),
    ensures
        media_ranges(items@) == media_type_list(text@),
{
    MediaTypeList::new(text)
        .map(|item| item.ok().map(|media_type| MediaRange {
            ty: media_type.ty.as_str().to_owned(),
            subty: media_type.subty.as_str().to_owned(),
            suffix: media_type.suffix.map(|suffix| suffix.as_str().to_owned()),
        }))
        .collect()
}

/// Trusted: `mime::TEXT_HTML_UTF_8` as text. The contract claims the text that
/// the constant is declared with.
#[verifier::external_body]
fn text_html_utf_8() -> (content_type: String)
    ensures
        content_type@ == "text/html; charset=utf-8"@,
{
    mime::TEXT_HTML_UTF_8.as_ref().to_owned()
}

fn to_ascii_lowercase(c: char) -> (lower: char)
    ensures
        lower == ascii_lowercase(c),
{
    if 'A' <= c && c <= 'Z' {
        ((c as u8) + 32) as char
    } else {
        c
    }
}

/// Compares two texts, ASCII letters without regard to case.
pub fn str_eq_ignore_ascii_case(a: &str, b: &str) -> (eq: bool)
    ensures
        eq == eq_ignore_ascii_case(a@, b@),
{
    let n = a.unicode_len();
    if n != b.unicode_len() {
        return false;
    }
    let mut i: usize = 0;
    while i < n
        invariant
            n == a@.len(),
            n == b@.len(),
            i <= n,
            forall|j: int| 0 <= j < i ==> ascii_lowercase(#[trigger] a@[j]) == ascii_lowercase(b@[j]),
        decreases n - i,
    {
        if to_ascii_lowercase(a.get_char(i)) != to_ascii_lowercase(b.get_char(i)) {
            return false;
        }
        i += 1;
    }
    true
}

/// Whether a media range names exactly `text/html`.
pub fn media_range_is_html(range: &MediaRange) -> (html: bool)
    ensures
        html == is_text_html(range@),
{
    str_eq_ignore_ascii_case(range.ty.as_str(), "text")
        && str_eq_ignore_ascii_case(range.subty.as_str(), "html")
        && range.suffix.is_none()
}

/// Whether some element of a parsed `Accept` list names `text/html`.
pub fn media_types_include_html(items: &Vec<Option<MediaRange>>) -> (found: bool)
    ensures
        found == list_has_html(media_ranges(items@)),
{
    let mut i: usize = 0;
    while i < items.len()
        invariant
            i <= items.len(),
            forall|j: int|
                0 <= j < i ==> !(#[trigger] media_ranges(items@)[j] matches Some(range) && is_text_html(
                    range,
                )),
        decreases items.len() - i,
    {
        match &items[i] {
            Some(range) => {
                if media_range_is_html(range) {
                    assert(media_ranges(items@)[i as int] == Some(range@));
                    return true;
                }
            },
            None => {},
        }
        i += 1;
    }
    false
}

/// Whether a request prefers a page over data: some value of its `Accept`
/// header is text and lists `text/html`.
pub fn prefers_html(accept: &Vec<Vec<u8>>) -> (html: bool)
    ensures
        html == headers_prefer_html(accept@),
{
    let mut i: usize = 0;
    while i < accept.len()
        invariant
            i <= accept.len(),
            forall|j: int| 0 <= j < i ==> !value_prefers_html(#[trigger] accept@[j]@),
        decreases accept.len() - i,
    {
        match header_value_to_str(&accept[i]) {
            Some(text) => {
                assert(is_header_text(text@));
                let items = parse_media_types(text.as_str());
                if media_types_include_html(&items) {
                    return true;
                }
            },
            None => {},
        }
        i += 1;
    }
    false
}

/// Serves static pages such as the home page and the sandbox.
pub struct StaticPageLayer {
    static_page: Option<String>,
}

impl StaticPageLayer {
    /// The document this layer serves, if any.
    pub closed spec fn page(&self) -> Option<Seq<char>> {
        match self.static_page {
            Some(page) => Some(page@),
            None => None,
        }
    }

    /// Whether the layer answers `request` itself: it has a document, the
    /// method is `GET`, and the request prefers a page.
    pub open spec fn serves<T>(&self, request: Request<T>) -> bool {
        &&& self.page() is Some
        &&& request.method == Method::Get
        &&& headers_prefer_html(request.accept@)
    }

    /// A layer that serves the given document, or none. This is for a host
    /// that renders its page itself.
    pub fn with_page(static_page: Option<String>) -> (layer: StaticPageLayer)
        ensures
            layer.page() == match static_page {
                Some(page) => Some(page@),
                None => None,
            },
    {
        StaticPageLayer { static_page }
    }

    /// Picks the document once, from the configuration.
    pub fn new(configuration: &Configuration) -> (layer: StaticPageLayer)
        ensures
            layer.page() == configuration.selected_page(),
    {
        let static_page = if configuration.sandbox.enabled {
            Some(sandbox_page_content())
        } else if configuration.homepage.enabled {
            Some(home_page_content())
        } else {
            None
        };
        StaticPageLayer { static_page }
    }

    /// What the layer makes of a request. Where it serves the request, the
    /// answer is the break value: status 200, the HTML content type and the
    /// document, with the request's context. Otherwise the request continues
    /// as it came.
    pub open spec fn checkpoints<T>(
        &self,
        request: Request<T>,
        flow: ControlFlow<Response<T>, Request<T>>,
    ) -> bool {
        if self.serves(request) {
            flow matches ControlFlow::Break(response) && {
                &&& response.status == 200
                &&& response.content_type@ == "text/html; charset=utf-8"@
                &&& Some(response.body@) == self.page()
                &&& response.context == request.context
            }
        } else {
            flow == ControlFlow::<Response<T>, Request<T>>::Continue(request)
        }
    }

    /// Decides one request: answers it with the document, or lets it pass.
    pub fn checkpoint<T>(&self, request: Request<T>) -> (flow: ControlFlow<Response<T>, Request<T>>)
        ensures
            self.checkpoints(request, flow),
    {
        match &self.static_page {
            Some(page) => {
                let is_get = match &request.method {
                    Method::Get => true,
                    _ => false,
                };
                if is_get && prefers_html(&request.accept) {
                    ControlFlow::Break(
                        Response {
                            status: 200,
                            content_type: text_html_utf_8(),
                            body: page.clone(),
                            context: request.context,
                        },
                    )
                } else {
                    ControlFlow::Continue(request)
                }
            },
            None => ControlFlow::Continue(request),
        }
    }
}

/// The page that a layer serves is fixed when the layer is made: whatever two
/// requests it answers, and whatever it was asked in between, both answers
/// carry the same document, the same status and the same content type.
pub proof fn served_page_never_changes<T, U>(
    layer: StaticPageLayer,
    first: Request<T>,
    first_answer: Response<T>,
    second: Request<U>,
    second_answer: Response<U>,
)
    requires
        layer.checkpoints(first, ControlFlow::Break(first_answer)),
        layer.checkpoints(second, ControlFlow::Break(second_answer)),
    ensures
        first_answer.body@ == second_answer.body@,
        first_answer.status == second_answer.status,
        first_answer.content_type@ == second_answer.content_type@,
        Some(first_answer.body@) == layer.page(),
{
}

/// The layer as a unit of the router stage: it decides on the way in and
/// leaves responses alone on the way out.
impl<T> StageUnit<Request<T>, Response<T>> for StaticPageLayer {
    open spec fn request_flow(
        &self,
        request: Request<T>,
        flow: ControlFlow<Response<T>, Request<T>>,
    ) -> bool {
        self.checkpoints(request, flow)
    }

    open spec fn response_flow(&self, inner: Response<T>, outer: Response<T>) -> bool {
        outer == inner
    }

    fn on_request(&self, request: Request<T>) -> (flow: ControlFlow<Response<T>, Request<T>>) {
        self.checkpoint(request)
    }

    fn on_response(&self, response: Response<T>) -> (outer: Response<T>) {
        response
    }
}

} // verus!
