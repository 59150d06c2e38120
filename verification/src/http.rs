//! Routing of requests and the shape of responses.

use vstd::prelude::*;
use vstd::string::*;
use vstd::utf8::encode_utf8;

verus! {

/// The one path that triggers a scrape.
pub const METRICS_PATH: &'static str = "/metrics";

/// The static page that every other path is answered with.
pub const LANDING_PAGE: &'static str = "<html>
<head><title>SoftEther Exporter</title></head>
<body>
<h1>SoftEther Exporter</h1>
<p><a href=\"/metrics\">Metrics</a></p>
</body>
</html>";

/// The media type of the text exposition format.
pub const TEXT_FORMAT: &'static str = "text/plain; version=0.0.4";

/// The media type of the landing page.
pub const HTML: &'static str = "text/html";

/// The media type of the body that reports a failed encoding.
pub const PLAIN_TEXT: &'static str = "text/plain";

/// Where a request goes.
#[derive(Clone, Copy, Debug, PartialEq, Eq, Structural)]
pub enum Route {
    /// The metrics path: refresh, encode, respond.
    Metrics,
    /// Any other path: the landing page.
    Landing,
}

/// A response, ready to be written out.
#[derive(Debug, PartialEq, Eq)]
pub struct Response {
    pub status: u16,
    pub content_type: String,
    pub body: Vec<u8>,
}

/// A response as a mathematical value.
pub struct ResponseView {
    pub status: u16,
    pub content_type: Seq<char>,
    pub body: Seq<u8>,
}

impl View for Response {
    type V = ResponseView;

    open spec fn view(&self) -> ResponseView {
        ResponseView { status: self.status, content_type: self.content_type@, body: self.body@ }
    }
}

/// The route of a request path.
pub open spec fn route_of(path: Seq<char>) -> Route {
    if path == METRICS_PATH@ {
        Route::Metrics
    } else {
        Route::Landing
    }
}

/// The response to a request off the metrics path: the landing page.
pub open spec fn landing_response() -> ResponseView {
    ResponseView { status: 200, content_type: HTML@, body: encode_utf8(LANDING_PAGE@) }
}

/// The response to a scrape: the encoded gauges, under the media type of the
/// text exposition format.
pub open spec fn metrics_response(body: Seq<u8>) -> ResponseView {
    ResponseView { status: 200, content_type: TEXT_FORMAT@, body }
}

/// The response to a scrape whose encoding failed: an error for this request
/// alone, with the text of the failure as its body.
pub open spec fn failure_response(error: Seq<char>) -> ResponseView {
    ResponseView { status: 500, content_type: PLAIN_TEXT@, body: encode_utf8(error) }
}

/// Routes a request path: an exact match on the metrics path is a scrape,
/// everything else is the landing page.
pub fn route(path: &str) -> (r: Route)
    ensures
        r == route_of(path@),
{
    let given = String::from_str(path);
    let metrics = String::from_str(METRICS_PATH);
    if given == metrics {
        Route::Metrics
    } else {
        Route::Landing
    }
}

/// Asks `prometheus::TextEncoder`, through `prometheus::Encoder::format_type`,
/// for the media type that it declares for its output. The contract claims
/// that this is the text of the crate's constant `TEXT_FORMAT`, which the
/// method returns as it stands.
#[verifier::external_body]
fn exposition_format() -> (format: String)
    ensures
        format@ == TEXT_FORMAT@,
{
    prometheus::Encoder::format_type(&prometheus::TextEncoder::new()).to_string()
}

impl Response {
    /// The response to a request off the metrics path.
    pub fn landing() -> (r: Response)
        ensures
            r@ == landing_response(),
    {
        Response {
            status: 200,
            content_type: String::from_str(HTML),
            body: LANDING_PAGE.as_bytes_vec(),
        }
    }

    /// The response to a scrape, given the encoded gauges.
    pub fn metrics(body: Vec<u8>) -> (r: Response)
        ensures
            r@ == metrics_response(body@),
    {
        Response { status: 200, content_type: exposition_format(), body }
    }

    /// The response to a scrape whose encoding failed.
    pub fn encoding_failure(error: &str) -> (r: Response)
        ensures
            r@ == failure_response(error@),
    {
        Response {
            status: 500,
            content_type: String::from_str(PLAIN_TEXT),
            body: error.as_bytes_vec(),
        }
    }
}

} // verus!
