//! Spans and tracers: named, timed units of work that carry string attributes and events.
//! Times are milliseconds on each span's own monotonic clock, which starts when the
//! span does.
use vstd::prelude::*;
use crate::clock::Stopwatch;
use crate::keyed_map::KeyedMap;

pub mod context;

verus! {

/// Trace span
#[derive(Debug)]
pub struct Span {
    pub name: String,
    /// When the span started, in milliseconds.
    pub start_time: u64,
    pub attributes: KeyedMap<String>,
    pub events: Vec<(String, KeyedMap<String>)>,
    /// The monotonic clock that `end` reads; it starts when the span is made
    pub clock: Stopwatch,
}

/// The time from `start` to `now`, or 0 where the clock went back.
pub open spec fn elapsed_ms(start: u64, now: u64) -> nat {
    if now >= start { (now - start) as nat } else { 0 }
}

impl Span {
    /// A span named `name` that starts at `now`, with no attributes and no events.
    pub fn new_at(name: &str, now: u64) -> (r: Self)
        ensures
            r.name@ == name@,
            r.start_time == now,
            r.attributes.wf(),
            r.attributes@ == Map::<Seq<char>, String>::empty(),
            r.events@.len() == 0,
    {
        Span {
            name: String::from_str(name),
            start_time: now,
            attributes: KeyedMap::new(),
            events: Vec::new(),
            clock: Stopwatch::start(),
        }
    }

    /// A span named `name` that starts now (time 0 of its clock), with no attributes and
    /// no events.
    pub fn new(name: &str) -> (r: Self)
        ensures
            r.name@ == name@,
            r.start_time == 0,
            r.attributes.wf(),
            r.attributes@ == Map::<Seq<char>, String>::empty(),
            r.events@.len() == 0,
    {
        Self::new_at(name, 0)
    }

    /// Sets attribute `key` to `value`, replacing any value it had.
    pub fn set_attribute(&mut self, key: &str, value: &str)
        requires
            old(self).attributes.wf(),
        ensures
            final(self).name == old(self).name,
            final(self).start_time == old(self).start_time,
            final(self).events == old(self).events,
            final(self).attributes.wf(),
            final(self).attributes@.dom() == old(self).attributes@.dom().insert(key@),
            final(self).attributes@[key@]@ == value@,
            forall|k: Seq<char>|
                k != key@ && #[trigger] old(self).attributes@.contains_key(k) ==> final(self).attributes@[k]
                    == old(self).attributes@[k],
    {
        self.attributes.insert(String::from_str(key), String::from_str(value));
    }

    /// Records the event `name` with its attributes `attrs` after the events recorded so far.
    pub fn add_event(&mut self, name: String, attrs: KeyedMap<String>)
        ensures
            final(self).name == old(self).name,
            final(self).start_time == old(self).start_time,
            final(self).attributes == old(self).attributes,
            final(self).events@ == old(self).events@.push((name, attrs)),
    {
        self.events.push((name, attrs));
    }

    /// Ends the span at `now`; the result is how long it lasted, in milliseconds.
    pub fn end_at(self, now: u64) -> (r: u64)
        ensures
            r == elapsed_ms(self.start_time, now),
    {
        if now >= self.start_time { now - self.start_time } else { 0 }
    }

    /// Ends the span now; the result is how long it lasted, in milliseconds.
    pub fn end(self) -> (r: u64)
        ensures
            exists|now: u64| r == elapsed_ms(self.start_time, now),
    {
        let now = self.clock.elapsed_ms();
        self.end_at(now)
    }

    /// The span's name.
    pub fn name(&self) -> (r: &str)
        ensures
            r@ == self.name@,
    {
        self.name.as_str()
    }

    /// The span's attributes.
    pub fn attributes(&self) -> (r: &KeyedMap<String>)
        ensures
            *r == self.attributes,
    {
        &self.attributes
    }
}

/// Simple tracer
#[derive(Debug)]
pub struct Tracer {
    pub service_name: String,
}

impl Tracer {
    /// A tracer for the service `service_name`.
    pub fn new(service_name: &str) -> (r: Self)
        ensures
            r.service_name@ == service_name@,
    {
        Tracer { service_name: String::from_str(service_name) }
    }

    /// A new span named `name`, started now.
    pub fn start_span(&self, name: &str) -> (r: Span)
        ensures
            r.name@ == name@,
            r.start_time == 0,
            r.attributes.wf(),
            r.attributes@ == Map::<Seq<char>, String>::empty(),
            r.events@.len() == 0,
    {
        Span::new(name)
    }

    /// The name of the traced service.
    pub fn service_name(&self) -> (r: &str)
        ensures
            r@ == self.service_name@,
    {
        self.service_name.as_str()
    }
}

} // verus!
