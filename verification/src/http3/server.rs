//! HTTP/3 server: answers HEADERS frames through a request handler.
use vstd::prelude::*;
use vstd::utf8::encode_utf8;
use crate::http3::Http3Error;
use crate::http3::frame::{Frame, FrameType};
use crate::http3::request::Request;
use crate::http3::response::{Response, utf8_bytes};
use crate::text::{decimal, decimal_string};

verus! {

/// The header lines of `entries`, one `key: value` line each, in order.
pub open spec fn header_lines(entries: Seq<(String, String)>) -> Seq<char>
    decreases entries.len(),
{
    if entries.len() == 0 {
        Seq::empty()
    } else {
        header_lines(entries.drop_last()) + entries.last().0@ + ": "@ + entries.last().1@ + "\r\n"@
    }
}

/// The text head of a response: its status line, its header lines and a blank line.
pub open spec fn response_head(r: Response) -> Seq<char> {
    ":status: "@ + decimal(r.status as nat) + "\r\n"@ + header_lines(r.headers.entries@) + "\r\n"@
}

/// The payload of the HEADERS frame that carries `r`: its head in UTF-8, then its body.
pub open spec fn response_payload(r: Response) -> Seq<u8> {
    encode_utf8(response_head(r)) + r.body@
}

/// The request that a HEADERS frame stands for: `GET /`, with no headers and no body.
pub open spec fn is_default_request(q: Request) -> bool {
    &&& q.method@ == "GET"@
    &&& q.path@ == "/"@
    &&& q.headers.wf()
    &&& q.headers@ == Map::<Seq<char>, String>::empty()
    &&& q.body@.len() == 0
}

/// HTTP/3 server
pub struct Http3Server<F> where F: Fn(Request) -> Response {
    handler: F,
}

impl<F> Http3Server<F> where F: Fn(Request) -> Response {
    /// The handler can be called on any request.
    #[verifier::type_invariant]
    spec fn callable(self) -> bool {
        forall|q: Request| #[trigger] call_requires(self.handler, (q,))
    }

    /// The function that answers requests.
    pub closed spec fn handler(&self) -> F {
        self.handler
    }

    /// A server that answers requests with `handler`.
    pub fn new(handler: F) -> (r: Self)
        requires
            forall|q: Request| #[trigger] call_requires(handler, (q,)),
        ensures
            r.handler() == handler,
    {
        Http3Server { handler }
    }

    /// The request that the payload of a HEADERS frame carries.
    fn parse_request(_payload: &Vec<u8>) -> (r: Result<Request, Http3Error>)
        ensures
            r matches Ok(q) && is_default_request(q),
    {
        Ok(Request::new("GET", "/"))
    }

    /// The HEADERS frame that carries `response`.
    pub fn encode_response(response: Response) -> (r: Frame)
        ensures
            r.frame_type == FrameType::Headers,
            r.payload@ == response_payload(response),
    {
        let mut head = String::from_str(":status: ");
        let status = decimal_string(response.status as u64);
        head.append(status.as_str());
        head.append("\r\n");
        let n = response.headers.entries.len();
        let mut i: usize = 0;
        while i < n
            invariant
                n == response.headers.entries@.len(),
                i <= n,
                head@ == ":status: "@ + decimal(response.status as nat) + "\r\n"@ + header_lines(
                    response.headers.entries@.subrange(0, i as int),
                ),
            decreases n - i,
        {
            let ghost before = response.headers.entries@.subrange(0, i as int);
            head.append(response.headers.entries[i].0.as_str());
            head.append(": ");
            head.append(response.headers.entries[i].1.as_str());
            head.append("\r\n");
            proof {
                let after = response.headers.entries@.subrange(0, i + 1);
                assert(after.drop_last() =~= before);
                assert(after.last() == response.headers.entries@[i as int]);
                assert(head@ =~= ":status: "@ + decimal(response.status as nat) + "\r\n"@ + header_lines(after));
            }
            i = i + 1;
        }
        assert(response.headers.entries@.subrange(0, n as int) =~= response.headers.entries@);
        head.append("\r\n");
        let mut payload = utf8_bytes(head.as_str());
        let mut body = response.body;
        payload.append(&mut body);
        assert(payload@ =~= response_payload(response));
        Frame::headers(payload)
    }

    /// Answers `frame`: a HEADERS frame by the handler's response to the request it
    /// carries, a DATA frame by `ACK`, any other frame by an empty SETTINGS frame.
    pub fn handle_frame(&self, frame: Frame) -> (r: Result<Frame, Http3Error>)
        ensures
            r is Ok,
            frame.frame_type == FrameType::Headers ==> exists|q: Request, a: Response|
                is_default_request(q) && call_ensures(self.handler(), (q,), a) && r->Ok_0.frame_type
                    == FrameType::Headers && r->Ok_0.payload@ == response_payload(a),
            frame.frame_type == FrameType::Data ==> r->Ok_0.frame_type == FrameType::Data && r->Ok_0.payload@
                == seq![0x41u8, 0x43u8, 0x4bu8],
            frame.frame_type != FrameType::Headers && frame.frame_type != FrameType::Data ==> r->Ok_0.frame_type
                == FrameType::Settings && r->Ok_0.payload@.len() == 0,
    {
        proof {
            use_type_invariant(self);
        }
        match frame.frame_type {
            FrameType::Headers => {
                let request = match Self::parse_request(&frame.payload) {
                    Ok(q) => q,
                    Err(e) => return Err(e),
                };
                let ghost q = request;
                let response = (self.handler)(request);
                let ghost a = response;
                let out = Self::encode_response(response);
                assert(is_default_request(q) && call_ensures(self.handler(), (q,), a));
                Ok(out)
            },
            FrameType::Data => {
                let ack: Vec<u8> = vec![0x41u8, 0x43u8, 0x4bu8];
                Ok(Frame::data(ack))
            },
            _ => Ok(Frame::settings()),
        }
    }
}

} // verus!
