//! The request/response envelope exchanged between callers and the bridge:
//! method, target, version, a case-preserving multi-valued header
//! collection, and a body.

use vstd::prelude::*;

verus! {

/// Request method of the envelope.
#[derive(Clone, Copy, PartialEq, Eq, Structural, Debug)]
pub enum Method {
    Get,
    Head,
    Post,
    Put,
    Delete,
    Options,
    Trace,
    Patch,
}

/// Protocol version carried by the envelope. `Http2` is the multiplexed
/// mode a transport may advertise as its negotiated protocol.
#[derive(Clone, Copy, PartialEq, Eq, Structural, Debug)]
pub enum Version {
    Http10,
    Http11,
    Http2,
}

/// A response status code, kept as its numeric value.
#[derive(Clone, Copy, PartialEq, Eq, Structural, Debug)]
pub struct StatusCode {
    /// The numeric code, between 100 and 999.
    pub code: u16,
}

impl StatusCode {
    /// The range a status code may occupy.
    pub open spec fn valid(self) -> bool {
        100 <= self.code <= 999
    }

    /// The server-error class: `5xx`.
    pub open spec fn spec_is_server_error(&self) -> bool {
        500 <= self.code <= 599
    }

    /// The client-error class: `4xx`.
    pub open spec fn spec_is_client_error(&self) -> bool {
        400 <= self.code <= 499
    }

    /// The success class: `2xx`.
    pub open spec fn spec_is_success(&self) -> bool {
        200 <= self.code <= 299
    }

    /// Build a status code from its numeric value.
    pub fn new(code: u16) -> (r: StatusCode)
        requires
            100 <= code <= 999,
        ensures
            r.code == code,
            r.valid(),
    {
        StatusCode { code }
    }

    /// Whether the code belongs to the server-error class.
    #[verifier::when_used_as_spec(spec_is_server_error)]
    pub fn is_server_error(&self) -> (r: bool)
        ensures
            r == self.spec_is_server_error(),
    {
        500 <= self.code && self.code <= 599
    }

    /// Whether the code belongs to the client-error class.
    #[verifier::when_used_as_spec(spec_is_client_error)]
    pub fn is_client_error(&self) -> (r: bool)
        ensures
            r == self.spec_is_client_error(),
    {
        400 <= self.code && self.code <= 499
    }

    /// Whether the code belongs to the success class.
    #[verifier::when_used_as_spec(spec_is_success)]
    pub fn is_success(&self) -> (r: bool)
        ensures
            r == self.spec_is_success(),
    {
        200 <= self.code && self.code <= 299
    }
}

/// A multi-valued header collection. The bridge never interprets header
/// contents; it only carries them and duplicates them when a request is
/// cloned, so the collection is a sequence of name/value pairs.
#[derive(Debug)]
pub struct HeaderMap {
    /// The header fields, in insertion order.
    pub entries: Vec<(String, String)>,
}

impl View for HeaderMap {
    type V = Seq<(Seq<char>, Seq<char>)>;

    open spec fn view(&self) -> Seq<(Seq<char>, Seq<char>)> {
        Seq::new(self.entries@.len(), |i: int| (self.entries@[i].0@, self.entries@[i].1@))
    }
}

impl HeaderMap {
    /// An empty collection.
    pub fn new() -> (r: HeaderMap)
        ensures
            r@ == Seq::<(Seq<char>, Seq<char>)>::empty(),
    {
        let r = HeaderMap { entries: Vec::new() };
        proof {
            assert(r@ =~= Seq::<(Seq<char>, Seq<char>)>::empty());
        }
        r
    }

    /// Append one header field.
    pub fn insert(&mut self, name: String, value: String)
        ensures
            final(self)@ == old(self)@.push((name@, value@)),
    {
        let ghost before = self@;
        self.entries.push((name, value));
        proof {
            assert(self@ =~= before.push((name@, value@)));
        }
    }

    /// Number of header fields.
    pub fn len(&self) -> (r: usize)
        ensures
            r == self@.len(),
    {
        self.entries.len()
    }

    /// A fresh collection holding the same fields in the same order.
    pub fn duplicate(&self) -> (r: HeaderMap)
        ensures
            r@ == self@,
    {
        let mut out: Vec<(String, String)> = Vec::new();
        let mut i: usize = 0;
        while i < self.entries.len()
            invariant
                i <= self.entries@.len(),
                out@.len() == i,
                forall|j: int|
                    0 <= j < i ==> out@[j].0@ == self.entries@[j].0@ && out@[j].1@
                        == self.entries@[j].1@,
            decreases self.entries@.len() - i,
        {
            let name = self.entries[i].0.clone();
            let value = self.entries[i].1.clone();
            out.push((name, value));
            i += 1;
        }
        let r = HeaderMap { entries: out };
        proof {
            assert(r@ =~= self@);
        }
        r
    }
}

/// A request envelope, generic in its body type.
#[derive(Debug)]
pub struct Request<B> {
    /// Request method.
    pub method: Method,
    /// Request target.
    pub uri: String,
    /// Protocol version.
    pub version: Version,
    /// Header collection.
    pub headers: HeaderMap,
    /// The streaming body.
    pub body: B,
}

/// A response envelope, generic in its body type.
#[derive(Debug)]
pub struct Response<B> {
    /// Response status.
    pub status: StatusCode,
    /// Protocol version.
    pub version: Version,
    /// Header collection.
    pub headers: HeaderMap,
    /// The streaming body.
    pub body: B,
}

/// Two requests carry the same envelope when everything but the body agrees.
pub open spec fn same_request_envelope<A, B>(a: Request<A>, b: Request<B>) -> bool {
    &&& a.method == b.method
    &&& a.uri@ == b.uri@
    &&& a.version == b.version
    &&& a.headers@ == b.headers@
}

/// Two responses carry the same envelope when everything but the body agrees.
pub open spec fn same_response_envelope<A, B>(a: Response<A>, b: Response<B>) -> bool {
    &&& a.status == b.status
    &&& a.version == b.version
    &&& a.headers@ == b.headers@
}

impl<B> Request<B> {
    /// A request with the given body and the default envelope: `GET /`.
    pub fn new(body: B) -> (r: Request<B>)
        ensures
            r.method == Method::Get,
            r.uri@ == "/"@,
            r.version == Version::Http11,
            r.headers@ == Seq::<(Seq<char>, Seq<char>)>::empty(),
            r.body == body,
    {
        Request {
            method: Method::Get,
            uri: "/".to_string(),
            version: Version::Http11,
            headers: HeaderMap::new(),
            body,
        }
    }
}

impl<B> Response<B> {
    /// A response with the given body and the default envelope: `200`.
    pub fn new(body: B) -> (r: Response<B>)
        ensures
            r.status.code == 200,
            r.version == Version::Http11,
            r.headers@ == Seq::<(Seq<char>, Seq<char>)>::empty(),
            r.body == body,
    {
        Response {
            status: StatusCode { code: 200 },
            version: Version::Http11,
            headers: HeaderMap::new(),
            body,
        }
    }
}

} // verus!
