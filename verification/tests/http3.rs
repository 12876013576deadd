use jetstream_proto::http3::frame::{Frame, FrameType};
use jetstream_proto::http3::request::Request;
use jetstream_proto::http3::response::Response;
use jetstream_proto::http3::server::Http3Server;
use jetstream_proto::http3::Http3Error;

#[test]
fn test_request_builder() {
    let req = Request::new("POST", "/api/data")
        .header("Content-Type", "application/json")
        .header("Authorization", "Bearer token")
        .body(b"{\"key\":\"value\"}".to_vec());

    assert_eq!(req.method, "POST");
    assert_eq!(req.path, "/api/data");
    assert_eq!(req.headers.len(), 2);
    assert_eq!(req.get_header("Content-Type").unwrap(), "application/json");
}

#[test]
fn test_response_builder() {
    let resp = Response::ok().header("Content-Type", "application/json").json("{\"status\":\"ok\"}");

    assert_eq!(resp.status, 200);
    assert_eq!(resp.headers.get("Content-Type").unwrap(), "application/json");
    assert!(!resp.body.is_empty());
}

#[test]
fn test_response_shortcuts() {
    assert_eq!(Response::ok().status, 200);
    assert_eq!(Response::not_found().status, 404);
    assert_eq!(Response::internal_error().status, 500);
}

#[test]
fn response_text_sets_body_and_type() {
    let resp = Response::ok().text("hi");
    assert_eq!(resp.body, b"hi".to_vec());
    assert_eq!(resp.headers.get("Content-Type").unwrap(), "text/plain");
}

#[test]
fn request_header_replaces_value() {
    let req = Request::new("GET", "/").header("a", "1").header("a", "2");
    assert_eq!(req.headers.len(), 1);
    assert_eq!(req.get_header("a").unwrap(), "2");
    assert!(req.get_header("b").is_none());
}

#[test]
fn test_frame_encode_decode() {
    let original = Frame::data(b"Hello HTTP/3".to_vec());
    let encoded = original.encode();
    let decoded = Frame::decode(encoded).unwrap();

    assert_eq!(decoded.frame_type, FrameType::Data);
    assert_eq!(decoded.payload, b"Hello HTTP/3".to_vec());
}

#[test]
fn test_varint_encoding() {
    let mut buf = Vec::new();
    Frame::encode_varint(&mut buf, 42);
    assert_eq!(buf.len(), 1);

    let mut buf = Vec::new();
    Frame::encode_varint(&mut buf, 1000);
    assert!(buf.len() >= 2);
}

#[test]
fn varint_exact_bytes_and_roundtrip() {
    let mut buf = Vec::new();
    Frame::encode_varint(&mut buf, 37);
    assert_eq!(buf, vec![0x25]);

    let mut buf = Vec::new();
    Frame::encode_varint(&mut buf, 15293);
    assert_eq!(buf, vec![0x7b, 0xbd]);
    assert_eq!(Frame::decode_varint(&buf, 0).unwrap(), (15293, 2));

    let mut buf = Vec::new();
    Frame::encode_varint(&mut buf, 494_878_333);
    assert_eq!(buf, vec![0x9d, 0x7f, 0x3e, 0x7d]);
    assert_eq!(Frame::decode_varint(&buf, 0).unwrap(), (494_878_333, 4));

    let mut buf = Vec::new();
    Frame::encode_varint(&mut buf, 151_288_809_941_952_652);
    assert_eq!(buf, vec![0xc2, 0x19, 0x7c, 0x5e, 0xff, 0x14, 0xe8, 0x8c]);
    assert_eq!(Frame::decode_varint(&buf, 0).unwrap(), (151_288_809_941_952_652, 8));
}

#[test]
fn decode_errors() {
    assert!(matches!(Frame::decode(vec![]), Err(Http3Error::InvalidFrame(_))));
    // a DATA frame that announces 5 bytes but carries 2
    assert!(matches!(Frame::decode(vec![0x00, 0x05, 1, 2]), Err(Http3Error::InvalidFrame(_))));
    // unknown frame type
    assert!(Frame::decode(vec![0x02, 0x00]).is_err());
    // truncated varint
    assert!(Frame::decode_varint(&vec![0x40], 0).is_err());
}

#[test]
fn frame_type_codes() {
    assert_eq!(FrameType::from_u64(0x01), Some(FrameType::Headers));
    assert_eq!(FrameType::from_u64(0x04), Some(FrameType::Settings));
    assert_eq!(FrameType::from_u64(0x02), None);
    assert_eq!(FrameType::Data.code(), 0);
    assert_eq!(FrameType::Goaway.code(), 0x07);
}

#[test]
fn test_http3_server() {
    let handler = |_req: Request| Response::ok().text("Hello HTTP/3");

    let server = Http3Server::new(handler);

    let request_frame = Frame::headers(b"GET / HTTP/3".to_vec());
    let response_frame = server.handle_frame(request_frame).unwrap();

    assert_eq!(response_frame.frame_type, FrameType::Headers);
}

#[test]
fn server_frames_by_type() {
    let server = Http3Server::new(|req: Request| {
        let mut r = Response::new(201);
        if req.method == "GET" && req.path == "/" {
            r = r.body(b"root".to_vec());
        }
        r
    });
    let out = server.handle_frame(Frame::headers(vec![])).unwrap();
    assert_eq!(out.frame_type, FrameType::Headers);
    assert_eq!(out.payload, b":status: 201\r\n\r\nroot".to_vec());

    let ack = server.handle_frame(Frame::data(vec![1, 2, 3])).unwrap();
    assert_eq!(ack.frame_type, FrameType::Data);
    assert_eq!(ack.payload, b"ACK".to_vec());

    let other = server.handle_frame(Frame::settings()).unwrap();
    assert_eq!(other.frame_type, FrameType::Settings);
    assert!(other.payload.is_empty());
}

#[test]
fn encode_response_layout() {
    let resp = Response::new(404).header("x", "y").body(b"gone".to_vec());
    let frame = Http3Server::<fn(Request) -> Response>::encode_response(resp);
    assert_eq!(frame.payload, b":status: 404\r\nx: y\r\n\r\ngone".to_vec());
}
