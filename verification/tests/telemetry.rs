use jetstream_proto::keyed_map::KeyedMap;
use opentelemetry::trace::{SpanContext, SpanId, TraceContextExt, TraceFlags, TraceId, TraceState};
use jetstream_proto::otel::context::{insert_all, TraceContext};
use jetstream_proto::otel::{Span, Tracer};
use jetstream_proto::text::{decimal_string, hex_string};

#[test]
fn test_span_creation() {
    let mut span = Span::new("test_span");
    span.set_attribute("key", "value");
    assert_eq!(span.name(), "test_span");
    assert_eq!(span.attributes().get("key").unwrap(), "value");
}

#[test]
fn test_tracer() {
    let tracer = Tracer::new("test_service");
    let span = tracer.start_span("test");
    assert_eq!(span.name(), "test");
    assert_eq!(tracer.service_name(), "test_service");
}

#[test]
fn span_events_and_duration() {
    let mut span = Span::new_at("op", 1_000);
    let mut attrs = KeyedMap::new();
    attrs.insert("k".to_string(), "v".to_string());
    span.add_event("started".to_string(), attrs);
    assert_eq!(span.events.len(), 1);
    assert_eq!(span.events[0].0, "started");
    span.set_attribute("key", "a");
    span.set_attribute("key", "b");
    assert_eq!(span.attributes().len(), 1);
    assert_eq!(span.attributes().get("key").unwrap(), "b");
    assert_eq!(span.end_at(1_250), 250);
    assert_eq!(Span::new_at("x", 500).end_at(400), 0);
}

#[test]
fn test_trace_context_creation() {
    let context = TraceContext::new();
    assert!(!context.trace_id().is_empty());
}

#[test]
fn trace_context_ids_are_padded_hex() {
    let ctx = TraceContext::from_ids(0x4bf9_2f35_77b3_4da6_a3ce_929d_0e0e_4736, 0x00f0_67aa_0ba9_02b7, 1);
    assert_eq!(ctx.trace_id(), "4bf92f3577b34da6a3ce929d0e0e4736");
    assert_eq!(ctx.span_id(), "00f067aa0ba902b7");
    assert_eq!(ctx.trace_flags, 1);
    let zero = TraceContext::from_ids(0, 0, 0);
    assert_eq!(zero.trace_id(), "00000000000000000000000000000000");
    assert_eq!(zero.span_id(), "0000000000000000");
}

#[test]
fn trace_context_extracts_traceparent() {
    let mut headers = KeyedMap::new();
    headers.insert(
        "traceparent".to_string(),
        "00-4bf92f3577b34da6a3ce929d0e0e4736-00f067aa0ba902b7-01".to_string(),
    );
    let ctx = TraceContext::extract(&headers);
    assert_eq!(ctx.trace_id(), "4bf92f3577b34da6a3ce929d0e0e4736");
    assert_eq!(ctx.span_id(), "00f067aa0ba902b7");
    assert_eq!(ctx.trace_flags, 1);
    // Unknown flag bits are dropped; only the sampled bit is kept
    let mut other = KeyedMap::new();
    other.insert(
        "traceparent".to_string(),
        "00-4bf92f3577b34da6a3ce929d0e0e4736-00f067aa0ba902b7-08".to_string(),
    );
    assert_eq!(TraceContext::extract(&other).trace_flags, 0);
}

#[test]
fn trace_context_malformed_header_falls_back() {
    let mut headers = KeyedMap::new();
    headers.insert("traceparent".to_string(), "not-a-header".to_string());
    // No span is current on this thread: the fallback ids are all zero
    let ctx = TraceContext::extract(&headers);
    assert_eq!(ctx.trace_id(), "00000000000000000000000000000000");
    assert_eq!(ctx.span_id(), "0000000000000000");
}

#[test]
fn test_context_inject_extract() {
    // The original test needs a valid span made current
    let sc = SpanContext::new(
        TraceId::from(0x4bf9_2f35_77b3_4da6_a3ce_929d_0e0e_4736u128),
        SpanId::from(0x00f0_67aa_0ba9_02b7u64),
        TraceFlags::SAMPLED,
        true,
        TraceState::default(),
    );
    let _guard = opentelemetry::Context::current().with_remote_span_context(sc).attach();
    let context = TraceContext::new();
    let mut headers = KeyedMap::new();

    context.inject(&mut headers);
    assert!(headers.len() > 0);
    assert_eq!(
        headers.get("traceparent").unwrap(),
        "00-4bf92f3577b34da6a3ce929d0e0e4736-00f067aa0ba902b7-01"
    );
    assert!(headers.get("tracestate").is_some());

    let extracted = TraceContext::extract(&headers);
    assert_eq!(extracted.trace_id(), context.trace_id());
    assert_eq!(extracted.span_id(), context.span_id());
}

#[test]
fn trace_context_metadata_and_inject() {
    let mut ctx = TraceContext::from_ids(1, 2, 0);
    ctx.add_metadata("tenant".to_string(), "acme".to_string());
    assert_eq!(ctx.metadata().get("tenant").unwrap(), "acme");

    let mut headers = KeyedMap::new();
    headers.insert("x".to_string(), "1".to_string());
    ctx.inject(&mut headers);
    assert_eq!(headers.get("x").unwrap(), "1");
}

#[test]
fn insert_all_keeps_last_of_repeated_keys() {
    let mut m = KeyedMap::new();
    m.insert("a".to_string(), "0".to_string());
    let pairs = vec![
        ("b".to_string(), "1".to_string()),
        ("a".to_string(), "2".to_string()),
        ("b".to_string(), "3".to_string()),
    ];
    insert_all(&mut m, &pairs);
    assert_eq!(m.len(), 2);
    assert_eq!(m.get("a").unwrap(), "2");
    assert_eq!(m.get("b").unwrap(), "3");
}

#[test]
fn number_text() {
    assert_eq!(decimal_string(0), "0");
    assert_eq!(decimal_string(1234567890), "1234567890");
    assert_eq!(hex_string(0xabc, 4), "0abc");
    assert_eq!(hex_string(0xabc, 2), "bc");
}

#[test]
fn test_logging_initialization() {
    // Logging is set up by the application; nothing in the library needs it.
    assert!(true);
}
