use vstd::prelude::*;

use crate::request::{HttpRequest, RequestModel};
use crate::response::{HttpResponse, ResponseModel};

verus! {

pub open spec fn response_model(r: Option<HttpResponse>) -> Option<ResponseModel> {
    match r {
        Some(r) => Some(r@),
        None => None,
    }
}

pub open spec fn text_model(t: Option<String>) -> Option<Seq<char>> {
    match t {
        Some(t) => Some(t@),
        None => None,
    }
}

/// The abstract state of a history entry.
pub struct EntryModel {
    pub request: RequestModel,
    pub response: Option<ResponseModel>,
    pub error: Option<Seq<char>>,
}

/// A request that was sent, with the response it got or the error it met.
pub struct HistoryEntry {
    request: HttpRequest,
    response: Option<HttpResponse>,
    error: Option<String>,
}

impl View for HistoryEntry {
    type V = EntryModel;

    closed spec fn view(&self) -> EntryModel {
        EntryModel {
            request: self.request@,
            response: response_model(self.response),
            error: text_model(self.error),
        }
    }
}

/// A copy of an optional response.
pub fn copy_response(r: &Option<HttpResponse>) -> (c: Option<HttpResponse>)
    ensures
        response_model(c) == response_model(*r),
{
    match r {
        Some(r) => Some(r.clone()),
        None => None,
    }
}

/// A copy of an optional text.
pub fn copy_text(t: &Option<String>) -> (c: Option<String>)
    ensures
        text_model(c) == text_model(*t),
{
    match t {
        Some(t) => Some(t.clone()),
        None => None,
    }
}

/// The text of an optional `String`, borrowed.
pub fn text_ref(t: &Option<String>) -> (r: Option<&str>)
    ensures
        r matches Some(s) ==> text_model(*t) == Some(s@),
        r is None <==> t is None,
{
    match t {
        Some(t) => Some(t.as_str()),
        None => None,
    }
}

/// An optional response, borrowed.
pub fn response_ref(r: &Option<HttpResponse>) -> (o: Option<&HttpResponse>)
    ensures
        o matches Some(x) ==> response_model(*r) == Some(x@),
        o is None <==> r is None,
{
    match r {
        Some(x) => Some(x),
        None => None,
    }
}

impl Clone for HistoryEntry {
    fn clone(&self) -> (r: Self)
        ensures
            r@ == self@,
    {
        HistoryEntry {
            request: self.request.clone(),
            response: copy_response(&self.response),
            error: copy_text(&self.error),
        }
    }
}

impl HistoryEntry {
    pub fn new(request: HttpRequest, response: Option<HttpResponse>, error: Option<String>) -> (r:
        Self)
        ensures
            r@ == (EntryModel {
                request: request@,
                response: response_model(response),
                error: text_model(error),
            }),
    {
        HistoryEntry { request, response, error }
    }

    pub fn request(&self) -> (r: &HttpRequest)
        ensures
            r@ == self@.request,
    {
        &self.request
    }

    pub fn response(&self) -> (r: Option<&HttpResponse>)
        ensures
            r matches Some(x) ==> self@.response == Some(x@),
            r is None <==> self@.response is None,
    {
        response_ref(&self.response)
    }

    pub fn error(&self) -> (r: Option<&str>)
        ensures
            r matches Some(s) ==> self@.error == Some(s@),
            r is None <==> self@.error is None,
    {
        text_ref(&self.error)
    }

    /// The request, the response and the error, taken apart.
    pub fn into_parts(self) -> (r: (HttpRequest, Option<HttpResponse>, Option<String>))
        ensures
            r.0@ == self@.request,
            response_model(r.1) == self@.response,
            text_model(r.2) == self@.error,
    {
        (self.request, self.response, self.error)
    }
}

} // verus!
