//! The proxy's normalized request and response representations, decoupled
//! from the wire format, together with their mathematical views.

use vstd::prelude::*;

verus! {

/// View of a header list as a sequence of (name, value) character sequences.
pub open spec fn headers_view(h: Seq<(String, String)>) -> Seq<(Seq<char>, Seq<char>)> {
    h.map_values(|p: (String, String)| (p.0@, p.1@))
}

/// An inbound request in canonical form. It is produced once by the external
/// parser and never mutated afterward; `request_id` is unique per inbound
/// request.
pub struct CanonicalRequest {
    pub request_id: String,
    /// The licensing operation this request performs.
    pub kind: String,
    pub method: String,
    pub path: String,
    pub headers: Vec<(String, String)>,
    pub body: Vec<u8>,
}

pub struct CanonicalRequestV {
    pub request_id: Seq<char>,
    pub kind: Seq<char>,
    pub method: Seq<char>,
    pub path: Seq<char>,
    pub headers: Seq<(Seq<char>, Seq<char>)>,
    pub body: Seq<u8>,
}

impl View for CanonicalRequest {
    type V = CanonicalRequestV;

    open spec fn view(&self) -> CanonicalRequestV {
        CanonicalRequestV {
            request_id: self.request_id@,
            kind: self.kind@,
            method: self.method@,
            path: self.path@,
            headers: headers_view(self.headers@),
            body: self.body@,
        }
    }
}

/// A cached response in canonical form, identified by the `request_id` of the
/// request it answers. One is created only when an upstream call returns a
/// success-classified status.
pub struct CanonicalResponse {
    pub request_id: String,
    pub status: u16,
    pub headers: Vec<(String, String)>,
    pub body: Vec<u8>,
}

pub struct CanonicalResponseV {
    pub request_id: Seq<char>,
    pub status: u16,
    pub headers: Seq<(Seq<char>, Seq<char>)>,
    pub body: Seq<u8>,
}

impl View for CanonicalResponse {
    type V = CanonicalResponseV;

    open spec fn view(&self) -> CanonicalResponseV {
        CanonicalResponseV {
            request_id: self.request_id@,
            status: self.status,
            headers: headers_view(self.headers@),
            body: self.body@,
        }
    }
}

/// A network-level response as plain values: status, headers, body bytes.
pub struct HttpReply {
    pub status: u16,
    pub headers: Vec<(String, String)>,
    pub body: Vec<u8>,
}

pub struct HttpReplyV {
    pub status: u16,
    pub headers: Seq<(Seq<char>, Seq<char>)>,
    pub body: Seq<u8>,
}

impl View for HttpReply {
    type V = HttpReplyV;

    open spec fn view(&self) -> HttpReplyV {
        HttpReplyV { status: self.status, headers: headers_view(self.headers@), body: self.body@ }
    }
}

/// The canonical response recorded for `rq` when the upstream answered with
/// `rp`: it keeps the request's identifier and the reply's status, headers
/// and body unchanged.
pub open spec fn response_of_reply(rq: CanonicalRequestV, rp: HttpReplyV) -> CanonicalResponseV {
    CanonicalResponseV {
        request_id: rq.request_id,
        status: rp.status,
        headers: rp.headers,
        body: rp.body,
    }
}

/// The network response that a cached canonical response reconstitutes to:
/// its status, headers and body, unchanged.
pub open spec fn reply_of_response(rs: CanonicalResponseV) -> HttpReplyV {
    HttpReplyV { status: rs.status, headers: rs.headers, body: rs.body }
}

fn clone_bytes(v: &Vec<u8>) -> (r: Vec<u8>)
    ensures
        r@ == v@,
{
    let mut r: Vec<u8> = Vec::new();
    let mut i: usize = 0;
    while i < v.len()
        invariant
            i <= v.len(),
            r@ == v@.take(i as int),
        decreases v.len() - i,
    {
        r.push(v[i]);
        proof {
            assert(v@.take(i + 1 as int) =~= v@.take(i as int).push(v@[i as int]));
        }
        i = i + 1;
    }
    proof {
        assert(v@.take(v@.len() as int) =~= v@);
    }
    r
}

fn clone_headers(v: &Vec<(String, String)>) -> (r: Vec<(String, String)>)
    ensures
        headers_view(r@) == headers_view(v@),
{
    let mut r: Vec<(String, String)> = Vec::new();
    let mut i: usize = 0;
    while i < v.len()
        invariant
            i <= v.len(),
            r@.len() == i,
            forall|j: int|
                0 <= j < i ==> (#[trigger] r@[j]).0@ == v@[j].0@ && r@[j].1@ == v@[j].1@,
        decreases v.len() - i,
    {
        let name = v[i].0.clone();
        let value = v[i].1.clone();
        r.push((name, value));
        i = i + 1;
    }
    proof {
        assert(headers_view(r@) =~~= headers_view(v@));
    }
    r
}

impl Clone for CanonicalRequest {
    fn clone(&self) -> (r: Self)
        ensures
            r@ == self@,
    {
        CanonicalRequest {
            request_id: self.request_id.clone(),
            kind: self.kind.clone(),
            method: self.method.clone(),
            path: self.path.clone(),
            headers: clone_headers(&self.headers),
            body: clone_bytes(&self.body),
        }
    }
}

impl Clone for HttpReply {
    fn clone(&self) -> (r: Self)
        ensures
            r@ == self@,
    {
        HttpReply {
            status: self.status,
            headers: clone_headers(&self.headers),
            body: clone_bytes(&self.body),
        }
    }
}

impl Clone for CanonicalResponse {
    fn clone(&self) -> (r: Self)
        ensures
            r@ == self@,
    {
        CanonicalResponse {
            request_id: self.request_id.clone(),
            status: self.status,
            headers: clone_headers(&self.headers),
            body: clone_bytes(&self.body),
        }
    }
}

impl CanonicalResponse {
    /// Builds the canonical response to cache for `req` out of the network
    /// reply `reply`: the request's identifier with the reply's status,
    /// headers and body.
    pub fn from_network(req: &CanonicalRequest, reply: &HttpReply) -> (r: CanonicalResponse)
        ensures
            r@ == response_of_reply(req@, reply@),
    {
        CanonicalResponse {
            request_id: req.request_id.clone(),
            status: reply.status,
            headers: clone_headers(&reply.headers),
            body: clone_bytes(&reply.body),
        }
    }

    /// Reconstitutes this cached response as a network response, status,
    /// headers and body unchanged.
    pub fn to_network(&self) -> (r: HttpReply)
        ensures
            r@ == reply_of_response(self@),
    {
        HttpReply {
            status: self.status,
            headers: clone_headers(&self.headers),
            body: clone_bytes(&self.body),
        }
    }
}

/// Status classification shared by the live path and the batch-replay path:
/// a status is success-classified exactly when it lies in the 2xx range.
pub open spec fn success_status(status: u16) -> bool {
    200 <= status < 300
}

/// Decides whether `status` is success-classified (2xx).
pub fn is_success_status(status: u16) -> (r: bool)
    ensures
        r == success_status(status),
{
    200 <= status && status < 300
}

} // verus!
