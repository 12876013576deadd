//! Trace context: the ids of the current span, carried from service to service in headers.
use vstd::prelude::*;
use opentelemetry::propagation::TextMapPropagator;
use opentelemetry::trace::TraceContextExt;
use crate::keyed_map::KeyedMap;
use crate::text::{hex_padded, hex_string};

verus! {

/// An opentelemetry context: the active span and other values a thread carries.
#[verifier::external_type_specification]
#[verifier::external_body]
pub struct ExContext(opentelemetry::Context);

/// The identity of an opentelemetry span: trace id, span id, flags and state.
#[verifier::external_type_specification]
#[verifier::external_body]
pub struct ExSpanContext(opentelemetry::trace::SpanContext);

/// `opentelemetry::Context::current`: the calling thread's current context. Nothing is
/// claimed of it: it is whatever context the thread has entered.
#[verifier::external_body]
fn current_context() -> (r: opentelemetry::Context) {
    opentelemetry::Context::current()
}

/// `TraceContextExt::span(cx).span_context()`: the identity of the span active in `cx`
/// (the invalid, all-zero one where there is none). Nothing is claimed of it: the
/// context is opaque here.
#[verifier::external_body]
fn active_span_context(cx: &opentelemetry::Context) -> (r: opentelemetry::trace::SpanContext) {
    cx.span().span_context().clone()
}

/// The trace id, span id and trace flags of `sc`, each id as the integer whose
/// big-endian bytes `to_bytes` gives (`trace_id`, `span_id`, `trace_flags().to_u8()`).
/// Nothing is claimed of them: the span context is opaque here.
#[verifier::external_body]
fn span_ids(sc: &opentelemetry::trace::SpanContext) -> (r: (u128, u64, u8)) {
    (u128::from_be_bytes(sc.trace_id().to_bytes()), u64::from_be_bytes(sc.span_id().to_bytes()), sc.trace_flags().to_u8())
}

/// The W3C `traceparent` header value for trace id `t`, span id `s` and sampled flag
/// `sampled` (0 or 1): version `00`, the ids as 32 and 16 lower-case hexadecimal digits,
/// and the flag as two, separated by `-`.
pub open spec fn traceparent_text(t: u128, s: u64, sampled: nat) -> Seq<char> {
    "00-"@ + hex_padded(t as nat, 32) + "-"@ + hex_padded(s as nat, 16) + "-"@ + hex_padded(sampled, 2)
}

/// Propagation headers as opentelemetry_sdk's W3C propagator writes them: none, or exactly
/// a `traceparent` header of the form above with non-zero ids and a `tracestate` header,
/// in either order.
pub open spec fn trace_headers(p: Seq<(String, String)>) -> bool {
    ||| p.len() == 0
    ||| p.len() == 2 && exists|i: int|
        (i == 0 || i == 1) && (#[trigger] p[i]).0@ == "traceparent"@ && p[1 - i].0@ == "tracestate"@
            && exists|t: u128, s: u64, b: nat| t != 0 && s != 0 && b < 2 && p[i].1@ == traceparent_text(t, s, b)
}

/// The trace id, span id and trace flags that opentelemetry_sdk's W3C propagator reads from
/// the `traceparent` header value `value` alone (all zero where it cannot read a valid span).
pub uninterp spec fn traceparent_ids(value: Seq<char>) -> (u128, u64, u8);

/// opentelemetry_sdk's `TraceContextPropagator::extract_with_context` on a fresh, empty
/// context and the single header `traceparent: value`, then the ids of the span it yields
/// (as `span_ids` converts them). The result depends on `value` alone; it is named
/// `traceparent_ids`. What the source shows of it is stated too: a well-formed value with
/// non-zero ids gives back those ids and its sampled flag.
#[verifier::external_body]
fn parse_traceparent(value: &str) -> (r: (u128, u64, u8))
    ensures
        r == traceparent_ids(value@),
        forall|t: u128, s: u64, b: nat|
            t != 0 && s != 0 && b < 2 && #[trigger] traceparent_text(t, s, b) == value@ ==> r == (t, s, b as u8),
{
    let mut map: std::collections::HashMap<String, String> = std::collections::HashMap::new();
    map.insert("traceparent".to_string(), value.to_string());
    let prop = opentelemetry_sdk::propagation::TraceContextPropagator::new();
    let cx = prop.extract_with_context(&opentelemetry::Context::new(), &map);
    let span = cx.span();
    let sc = span.span_context();
    (u128::from_be_bytes(sc.trace_id().to_bytes()), u64::from_be_bytes(sc.span_id().to_bytes()), sc.trace_flags().to_u8())
}

/// opentelemetry_sdk's W3C `TraceContextPropagator::inject_context` for `cx`, the headers
/// collected as pairs. For a valid span it writes `traceparent` (version, ids and sampled
/// flag) and `tracestate`; for an invalid one nothing. Which ids and which state are
/// written is not stated: the context is opaque here.
#[verifier::external_body]
fn inject_headers(cx: &opentelemetry::Context) -> (r: Vec<(String, String)>)
    ensures
        trace_headers(r@),
{
    let mut map: std::collections::HashMap<String, String> = std::collections::HashMap::new();
    opentelemetry_sdk::propagation::TraceContextPropagator::new().inject_context(cx, &mut map);
    map.into_iter().collect()
}

/// Trace context for propagating across services
#[derive(Debug)]
pub struct TraceContext {
    pub trace_id: String,
    pub span_id: String,
    pub trace_flags: u8,
    pub metadata: KeyedMap<String>,
}

/// `m` with the pairs of `p` inserted in order, a later pair winning over an earlier one.
pub open spec fn with_pairs(m: Map<Seq<char>, String>, p: Seq<(String, String)>) -> Map<Seq<char>, String>
    decreases p.len(),
{
    if p.len() == 0 {
        m
    } else {
        with_pairs(m, p.drop_last()).insert(p.last().0@, p.last().1)
    }
}

/// The lower-case hexadecimal text of `n` digits has `n` characters.
pub proof fn lemma_hex_len(v: nat, n: nat)
    ensures
        hex_padded(v, n).len() == n,
    decreases n,
{
    if n > 0 {
        lemma_hex_len(v / 16, (n - 1) as nat);
    }
}

/// Inserts the pairs of `pairs` into `headers` in order.
pub fn insert_all(headers: &mut KeyedMap<String>, pairs: &Vec<(String, String)>)
    requires
        old(headers).wf(),
    ensures
        final(headers).wf(),
        final(headers)@ == with_pairs(old(headers)@, pairs@),
{
    let n = pairs.len();
    let mut i: usize = 0;
    while i < n
        invariant
            n == pairs@.len(),
            i <= n,
            headers.wf(),
            headers@ == with_pairs(old(headers)@, pairs@.subrange(0, i as int)),
        decreases n - i,
    {
        let ghost before = pairs@.subrange(0, i as int);
        let k = pairs[i].0.clone();
        let v = pairs[i].1.clone();
        headers.insert(k, v);
        proof {
            let after = pairs@.subrange(0, i + 1);
            assert(after.drop_last() =~= before);
            assert(after.last() == pairs@[i as int]);
        }
        i = i + 1;
    }
    assert(pairs@.subrange(0, n as int) =~= pairs@);
}

impl TraceContext {
    /// The context of the trace `trace`, span `span` with flags `flags`: the ids as
    /// zero-padded lower-case hexadecimal (32 and 16 digits), and no metadata.
    pub fn from_ids(trace: u128, span: u64, flags: u8) -> (r: Self)
        ensures
            r.trace_id@ == hex_padded(trace as nat, 32),
            r.span_id@ == hex_padded(span as nat, 16),
            r.trace_flags == flags,
            r.metadata.wf(),
            r.metadata@ == Map::<Seq<char>, String>::empty(),
    {
        TraceContext {
            trace_id: hex_string(trace, 32),
            span_id: hex_string(span as u128, 16),
            trace_flags: flags,
            metadata: KeyedMap::new(),
        }
    }

    /// The context of the thread's current span.
    pub fn new() -> (r: Self)
        ensures
            exists|t: u128, s: u64| r.trace_id@ == hex_padded(t as nat, 32) && r.span_id@ == hex_padded(s as nat, 16),
            r.trace_id@.len() == 32,
            r.span_id@.len() == 16,
            r.metadata.wf(),
            r.metadata@ == Map::<Seq<char>, String>::empty(),
    {
        let cx = current_context();
        let sc = active_span_context(&cx);
        let (t, s, f) = span_ids(&sc);
        proof {
            lemma_hex_len(t as nat, 32);
            lemma_hex_len(s as nat, 16);
        }
        Self::from_ids(t, s, f)
    }

    /// The trace id.
    pub fn trace_id(&self) -> (r: &str)
        ensures
            r@ == self.trace_id@,
    {
        self.trace_id.as_str()
    }

    /// The span id.
    pub fn span_id(&self) -> (r: &str)
        ensures
            r@ == self.span_id@,
    {
        self.span_id.as_str()
    }

    /// Writes the propagation headers of the thread's current context into `headers`.
    pub fn inject(&self, headers: &mut KeyedMap<String>)
        requires
            old(headers).wf(),
        ensures
            final(headers).wf(),
            exists|p: Seq<(String, String)>| trace_headers(p) && final(headers)@ == with_pairs(old(headers)@, p),
    {
        let cx = current_context();
        let pairs = inject_headers(&cx);
        insert_all(headers, &pairs);
    }

    /// The context that the propagation headers `headers` carry: the ids of the span that
    /// the `traceparent` header names, as hexadecimal text. Where the header is missing or
    /// names no valid span, the ids are those of the thread's current context, of which
    /// only the form is stated.
    pub fn extract(headers: &KeyedMap<String>) -> (r: Self)
        requires
            headers.wf(),
        ensures
            exists|t: u128, s: u64| r.trace_id@ == hex_padded(t as nat, 32) && r.span_id@ == hex_padded(s as nat, 16),
            r.trace_id@.len() == 32,
            r.span_id@.len() == 16,
            r.metadata.wf(),
            r.metadata@ == Map::<Seq<char>, String>::empty(),
            headers@.contains_key("traceparent"@) ==> ({
                let ids = traceparent_ids(headers@["traceparent"@]@);
                ids.0 != 0 && ids.1 != 0 ==> r.trace_id@ == hex_padded(ids.0 as nat, 32) && r.span_id@
                    == hex_padded(ids.1 as nat, 16) && r.trace_flags == ids.2
            }),
            forall|t: u128, s: u64, b: nat|
                t != 0 && s != 0 && b < 2 && headers@.contains_key("traceparent"@) && headers@["traceparent"@]@
                    == #[trigger] traceparent_text(t, s, b) ==> r.trace_id@ == hex_padded(t as nat, 32)
                    && r.span_id@ == hex_padded(s as nat, 16) && r.trace_flags == b,
    {
        match headers.get("traceparent") {
            Some(v) => {
                let (t, s, f) = parse_traceparent(v.as_str());
                if t != 0 && s != 0 {
                    proof {
                        lemma_hex_len(t as nat, 32);
                        lemma_hex_len(s as nat, 16);
                    }
                    return Self::from_ids(t, s, f);
                }
            },
            None => {},
        }
        let cx = current_context();
        let sc = active_span_context(&cx);
        let (t, s, f) = span_ids(&sc);
        proof {
            lemma_hex_len(t as nat, 32);
            lemma_hex_len(s as nat, 16);
        }
        Self::from_ids(t, s, f)
    }

    /// Sets the metadata `key` to `value`, replacing any value it had.
    pub fn add_metadata(&mut self, key: String, value: String)
        requires
            old(self).metadata.wf(),
        ensures
            final(self).trace_id == old(self).trace_id,
            final(self).span_id == old(self).span_id,
            final(self).trace_flags == old(self).trace_flags,
            final(self).metadata.wf(),
            final(self).metadata@ == old(self).metadata@.insert(key@, value),
    {
        self.metadata.insert(key, value);
    }

    /// The metadata.
    pub fn metadata(&self) -> (r: &KeyedMap<String>)
        ensures
            *r == self.metadata,
    {
        &self.metadata
    }
}

impl Default for TraceContext {
    fn default() -> (r: Self)
        ensures
            r.trace_id@.len() == 32,
            r.span_id@.len() == 16,
            r.metadata.wf(),
            r.metadata@ == Map::<Seq<char>, String>::empty(),
    {
        Self::new()
    }
}

} // verus!
