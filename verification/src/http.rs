//! HTTP requests and responses as the handlers see them.

use vstd::prelude::*;

verus! {

/// The media type of JSON response bodies.
pub const JSON_CONTENT_TYPE: &'static str = "application/json";

/// The body of a request.
pub enum Body {
    Empty,
    Text(String),
    Binary(Vec<u8>),
}

/// A request: the raw path it was sent to and its body.
pub struct Request {
    pub path: String,
    pub body: Body,
}

/// A response: status code, `content-type` header if any, and body.
pub struct Response {
    pub status: u16,
    pub content_type: Option<String>,
    pub body: String,
}

/// `response` is a 400 with no content type and an empty body.
pub open spec fn is_bad_request(response: Response) -> bool {
    &&& response.status == 400
    &&& response.content_type is None
    &&& response.body@ == Seq::<char>::empty()
}

/// `response` is a 200 with no content type and the body `body`.
pub open spec fn is_plain_ok(response: Response, body: Seq<char>) -> bool {
    &&& response.status == 200
    &&& response.content_type is None
    &&& response.body@ == body
}

/// `response` is a 200 whose body `body` is JSON.
pub open spec fn is_json_ok(response: Response, body: Seq<char>) -> bool {
    &&& response.status == 200
    &&& response.content_type matches Some(t) && t@ == JSON_CONTENT_TYPE@
    &&& response.body@ == body
}

/// The answer to a request that the service does not serve.
pub fn bad_request() -> (response: Response)
    ensures
        is_bad_request(response),
{
    Response { status: 400, content_type: None, body: String::new() }
}

/// A 200 with the plain body `body`.
pub fn plain_ok(body: String) -> (response: Response)
    ensures
        is_plain_ok(response, body@),
{
    Response { status: 200, content_type: None, body }
}

/// A 200 with the JSON body `body`.
pub fn json_ok(body: String) -> (response: Response)
    ensures
        is_json_ok(response, body@),
{
    Response { status: 200, content_type: Some(JSON_CONTENT_TYPE.to_owned()), body }
}

} // verus!
