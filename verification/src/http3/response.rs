//! HTTP/3 responses.
use vstd::prelude::*;
use crate::keyed_map::KeyedMap;
use vstd::string::StringSliceAdditionalSpecFns;

verus! {

/// HTTP/3 response
#[derive(Debug)]
pub struct Response {
    pub status: u16,
    pub headers: KeyedMap<String>,
    pub body: Vec<u8>,
}

/// The bytes of a string as UTF-8.
pub fn utf8_bytes(s: &str) -> (r: Vec<u8>)
    ensures
        r@ == s.spec_bytes(),
{
    let b = s.as_bytes();
    let n = b.len();
    let mut out: Vec<u8> = Vec::new();
    let mut i: usize = 0;
    while i < n
        invariant
            n == b@.len(),
            i <= n,
            out@ == b@.subrange(0, i as int),
        decreases n - i,
    {
        out.push(b[i]);
        assert(b@.subrange(0, i + 1) =~= b@.subrange(0, i as int).push(b@[i as int]));
        i = i + 1;
    }
    assert(b@.subrange(0, n as int) =~= b@);
    out
}

impl Response {
    /// A response with status `status`, no headers and an empty body.
    pub fn new(status: u16) -> (r: Self)
        ensures
            r.status == status,
            r.headers.wf(),
            r.headers@ == Map::<Seq<char>, String>::empty(),
            r.body@.len() == 0,
    {
        Response { status, headers: KeyedMap::new(), body: Vec::new() }
    }

    /// A 200 OK response.
    pub fn ok() -> (r: Self)
        ensures
            r.status == 200,
            r.headers.wf(),
            r.headers@ == Map::<Seq<char>, String>::empty(),
            r.body@.len() == 0,
    {
        Self::new(200)
    }

    /// A 404 Not Found response.
    pub fn not_found() -> (r: Self)
        ensures
            r.status == 404,
            r.headers.wf(),
            r.headers@ == Map::<Seq<char>, String>::empty(),
            r.body@.len() == 0,
    {
        Self::new(404)
    }

    /// A 500 Internal Server Error response.
    pub fn internal_error() -> (r: Self)
        ensures
            r.status == 500,
            r.headers.wf(),
            r.headers@ == Map::<Seq<char>, String>::empty(),
            r.body@.len() == 0,
    {
        Self::new(500)
    }

    /// The response with header `key` set to `value`.
    pub fn header(self, key: &str, value: &str) -> (r: Self)
        requires
            self.headers.wf(),
        ensures
            r.status == self.status,
            r.body == self.body,
            r.headers.wf(),
            r.headers@.dom() == self.headers@.dom().insert(key@),
            r.headers@[key@]@ == value@,
            forall|k: Seq<char>| k != key@ && #[trigger] self.headers@.contains_key(k) ==> r.headers@[k] == self.headers@[k],
    {
        let mut s = self;
        s.headers.insert(String::from_str(key), String::from_str(value));
        s
    }

    /// The response with body `body`.
    pub fn body(self, body: Vec<u8>) -> (r: Self)
        ensures
            r.status == self.status,
            r.headers == self.headers,
            r.body == body,
    {
        let mut s = self;
        s.body = body;
        s
    }

    /// The response with a JSON body: the content type is `application/json`.
    pub fn json(self, json: &str) -> (r: Self)
        requires
            self.headers.wf(),
        ensures
            r.status == self.status,
            r.headers.wf(),
            r.headers@.dom() == self.headers@.dom().insert("Content-Type"@),
            r.headers@["Content-Type"@]@ == "application/json"@,
            forall|k: Seq<char>| k != "Content-Type"@ && #[trigger] self.headers@.contains_key(k) ==> r.headers@[k] == self.headers@[k],
            r.body@ == json.spec_bytes(),
    {
        self.header("Content-Type", "application/json").body(utf8_bytes(json))
    }

    /// The response with a text body: the content type is `text/plain`.
    pub fn text(self, text: &str) -> (r: Self)
        requires
            self.headers.wf(),
        ensures
            r.status == self.status,
            r.headers.wf(),
            r.headers@.dom() == self.headers@.dom().insert("Content-Type"@),
            r.headers@["Content-Type"@]@ == "text/plain"@,
            forall|k: Seq<char>| k != "Content-Type"@ && #[trigger] self.headers@.contains_key(k) ==> r.headers@[k] == self.headers@[k],
            r.body@ == text.spec_bytes(),
    {
        self.header("Content-Type", "text/plain").body(utf8_bytes(text))
    }
}

} // verus!
