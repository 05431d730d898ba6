use vstd::prelude::*;

use crate::error::EzcurlError;
use crate::request::{
    body_bytes, empty_header_name_message, header_pairs, headers_valid, method_name, pairs_model,
    HttpMethod, HttpRequest,
};

verus! {

#[verifier::external_type_specification]
#[verifier::external_body]
pub struct ExUrl(reqwest::Url);

#[verifier::external_type_specification]
#[verifier::external_body]
pub struct ExMethod(reqwest::Method);

/// Whether `reqwest::Url::parse` accepts the text as an absolute URL.
pub uninterp spec fn url_parses(text: Seq<char>) -> bool;

/// The URL that `reqwest::Url::parse` makes of a text it accepts.
pub uninterp spec fn parsed_url(text: Seq<char>) -> reqwest::Url;

/// `reqwest::Url::parse`; the URL standard's parsing rules are left to the names
/// `url_parses` (whether the text is accepted) and `parsed_url` (the URL it gives).
#[verifier::external_body]
fn parse_url(text: &str) -> (r: Option<reqwest::Url>)
    ensures
        r is Some <==> url_parses(text@),
        r matches Some(u) ==> u == parsed_url(text@),
{
    reqwest::Url::parse(text).ok()
}

/// The transport's method value for a standard method name.
pub uninterp spec fn method_named(name: Seq<char>) -> reqwest::Method;

/// `reqwest::Method::from_bytes`: its source returns, for each of the standard method
/// names, the one fixed value of that method (named `method_named`). For other names
/// nothing is stated.
#[verifier::external_body]
fn method_from_name(name: &str) -> (r: Option<reqwest::Method>)
    ensures
        (name@ == "GET"@ || name@ == "POST"@ || name@ == "PUT"@ || name@ == "PATCH"@ || name@
            == "DELETE"@ || name@ == "HEAD"@ || name@ == "OPTIONS"@) ==> r == Some(
            method_named(name@),
        ),
{
    reqwest::Method::from_bytes(name.as_bytes()).ok()
}

impl HttpMethod {
    /// The transport's value for this method, made from the method's name.
    pub fn as_reqwest_method(self) -> (r: reqwest::Method)
        ensures
            r == method_named(method_name(self)),
    {
        let name = self.as_str();
        proof {
            reveal_strlit("GET");
            reveal_strlit("POST");
            reveal_strlit("PUT");
            reveal_strlit("PATCH");
            reveal_strlit("DELETE");
            reveal_strlit("HEAD");
            reveal_strlit("OPTIONS");
        }
        match method_from_name(name) {
            Some(m) => m,
            None => vstd::pervasive::unreached(),
        }
    }
}

/// A request checked and ready for the transport: method, parsed URL, the headers to
/// send and the body bytes.
pub struct PreparedRequest {
    pub method: reqwest::Method,
    pub url: reqwest::Url,
    pub headers: Vec<(String, String)>,
    pub body: Option<Vec<u8>>,
}

pub open spec fn body_model(b: Option<Vec<u8>>) -> Option<Seq<u8>> {
    match b {
        Some(b) => Some(b@),
        None => None,
    }
}

/// Everything that sending a request decides before the transfer: the URL must parse
/// (else `InvalidUrl` with the URL's text), then every header row that is sent must have
/// a name (else `InvalidHeader`); the body is sent only when it is not empty.
pub fn prepare_request(request: &HttpRequest) -> (r: Result<PreparedRequest, EzcurlError>)
    ensures
        r is Ok <==> url_parses(request@.url.text) && headers_valid(request@.headers.rows),
        !url_parses(request@.url.text) ==> (r matches Err(EzcurlError::InvalidUrl(u)) && u@
            == request@.url.text),
        url_parses(request@.url.text) && !headers_valid(request@.headers.rows) ==> (r matches Err(
            EzcurlError::InvalidHeader(m),
        ) && m@ == empty_header_name_message()),
        r matches Ok(p) ==> pairs_model(p.headers@) == header_pairs(request@.headers.rows)
            && body_model(p.body) == body_bytes(request@.body) && p.method == method_named(
            method_name(request@.method),
        ) && p.url == parsed_url(request@.url.text),
{
    let url_text = request.url();
    let url = match parse_url(url_text.as_str()) {
        Some(url) => url,
        None => return Err(EzcurlError::InvalidUrl(url_text)),
    };
    let headers = match request.header_values() {
        Ok(headers) => headers,
        Err(e) => return Err(e),
    };
    let body = request.body();
    Ok(PreparedRequest { method: request.method().as_reqwest_method(), url, headers, body })
}

} // verus!
