use vstd::prelude::*;

use crate::request::pairs_model;

verus! {

/// The abstract state of a response: status code, headers in the order received, body.
pub struct ResponseModel {
    pub status: u16,
    pub headers: Seq<(Seq<char>, Seq<char>)>,
    pub body: Seq<u8>,
}

/// A response as received: status code, headers in the order received, body bytes.
pub struct HttpResponse {
    status: u16,
    headers: Vec<(String, String)>,
    body: Vec<u8>,
}

impl View for HttpResponse {
    type V = ResponseModel;

    closed spec fn view(&self) -> ResponseModel {
        ResponseModel { status: self.status, headers: pairs_model(self.headers@), body: self.body@ }
    }
}

/// A copy of the (name, value) pairs.
pub fn copy_pairs(pairs: &Vec<(String, String)>) -> (r: Vec<(String, String)>)
    ensures
        pairs_model(r@) == pairs_model(pairs@),
{
    let mut r: Vec<(String, String)> = Vec::new();
    let mut i: usize = 0;
    while i < pairs.len()
        invariant
            i <= pairs@.len(),
            pairs_model(r@) == pairs_model(pairs@.take(i as int)),
        decreases pairs@.len() - i,
    {
        let ghost before = r@;
        let (name, value) = (pairs[i].0.clone(), pairs[i].1.clone());
        r.push((name, value));
        assert(pairs_model(r@) =~= pairs_model(before).push((pairs@[i as int].0@, pairs@[i as int].1@)));
        assert(pairs@.take(i + 1) =~= pairs@.take(i as int).push(pairs@[i as int]));
        assert(pairs_model(pairs@.take(i + 1)) =~= pairs_model(pairs@.take(i as int)).push(
            (pairs@[i as int].0@, pairs@[i as int].1@),
        ));
        i = i + 1;
    }
    assert(pairs@.take(i as int) =~= pairs@);
    r
}

impl Clone for HttpResponse {
    fn clone(&self) -> (r: Self)
        ensures
            r@ == self@,
    {
        HttpResponse {
            status: self.status,
            headers: copy_pairs(&self.headers),
            body: vstd::slice::slice_to_vec(self.body.as_slice()),
        }
    }
}

impl HttpResponse {
    pub fn new(status: u16, headers: Vec<(String, String)>, body: Vec<u8>) -> (r: Self)
        ensures
            r@ == (ResponseModel { status, headers: pairs_model(headers@), body: body@ }),
    {
        HttpResponse { status, headers, body }
    }

    pub fn status(&self) -> (r: u16)
        ensures
            r == self@.status,
    {
        self.status
    }

    pub fn headers(&self) -> (r: &[(String, String)])
        ensures
            pairs_model(r@) == self@.headers,
    {
        self.headers.as_slice()
    }

    pub fn body(&self) -> (r: &[u8])
        ensures
            r@ == self@.body,
    {
        self.body.as_slice()
    }
}

} // verus!
