//! HTTP/3 requests.
use vstd::prelude::*;
use crate::keyed_map::KeyedMap;

verus! {

/// HTTP/3 request
#[derive(Debug)]
pub struct Request {
    pub method: String,
    pub path: String,
    pub headers: KeyedMap<String>,
    pub body: Vec<u8>,
}

impl Request {
    /// A request with no headers and an empty body.
    pub fn new(method: &str, path: &str) -> (r: Self)
        ensures
            r.method@ == method@,
            r.path@ == path@,
            r.headers.wf(),
            r.headers@ == Map::<Seq<char>, String>::empty(),
            r.body@.len() == 0,
    {
        Request {
            method: String::from_str(method),
            path: String::from_str(path),
            headers: KeyedMap::new(),
            body: Vec::new(),
        }
    }

    /// The request with header `key` set to `value`.
    pub fn header(self, key: &str, value: &str) -> (r: Self)
        requires
            self.headers.wf(),
        ensures
            r.method == self.method,
            r.path == self.path,
            r.body == self.body,
            r.headers.wf(),
            r.headers@.dom() == self.headers@.dom().insert(key@),
            r.headers@[key@]@ == value@,
            forall|k: Seq<char>| k != key@ && #[trigger] self.headers@.contains_key(k) ==> r.headers@[k] == self.headers@[k],
    {
        let mut s = self;
        s.headers.insert(String::from_str(key), String::from_str(value));
        s
    }

    /// The request with body `body`.
    pub fn body(self, body: Vec<u8>) -> (r: Self)
        ensures
            r.method == self.method,
            r.path == self.path,
            r.headers == self.headers,
            r.body == body,
    {
        let mut s = self;
        s.body = body;
        s
    }

    /// The value of header `key`, if it is set.
    pub fn get_header(&self, key: &str) -> (r: Option<&String>)
        requires
            self.headers.wf(),
        ensures
            match r {
                Some(v) => self.headers@.contains_key(key@) && *v == self.headers@[key@],
                None => !self.headers@.contains_key(key@),
            },
    {
        self.headers.get(key)
    }
}

impl Default for Request {
    fn default() -> (r: Self)
        ensures
            r.method@ == "GET"@,
            r.path@ == "/"@,
            r.headers.wf(),
            r.headers@ == Map::<Seq<char>, String>::empty(),
            r.body@.len() == 0,
    {
        Self::new("GET", "/")
    }
}

} // verus!
