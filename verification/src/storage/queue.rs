//! The bookkeeping of the stores: FIFO queue positions, stored counters, and keys.
//!
//! A topic's queue keeps two counters, `head` and `tail`. Message number `i` (from 1)
//! sits at the key of `i`; enqueueing writes at `tail + 1` and moves `tail` there,
//! dequeueing takes `head + 1` and moves `head` there.
use vstd::prelude::*;
use crate::storage::codec::{be_value, u64_from_be};
use crate::text::{decimal, decimal_string};

verus! {

/// The value of a stored counter: 0 when nothing is stored, the big-endian number of
/// eight stored bytes, and `None` when the stored value is not eight bytes long.
pub open spec fn counter_of(stored: Option<Seq<u8>>) -> Option<nat> {
    match stored {
        None => Some(0),
        Some(b) => if b.len() == 8 { Some(be_value(b)) } else { None },
    }
}

/// The bytes of a stored value, if there is one.
pub open spec fn stored_bytes(stored: Option<Vec<u8>>) -> Option<Seq<u8>> {
    match stored {
        None => None,
        Some(b) => Some(b@),
    }
}

/// The value of a stored counter (see `counter_of`).
pub fn decode_counter(stored: &Option<Vec<u8>>) -> (r: Option<u64>)
    ensures
        match r {
            Some(v) => counter_of(stored_bytes(*stored)) == Some(v as nat),
            None => counter_of(stored_bytes(*stored)) is None,
        },
{
    match stored {
        None => Some(0),
        Some(b) => {
            if b.len() == 8 {
                Some(u64_from_be(b.as_slice()))
            } else {
                None
            }
        },
    }
}

/// The number of messages waiting between the counters `head` and `tail`.
pub fn queue_len(head: u64, tail: u64) -> (r: u64)
    ensures
        r == (if tail >= head { tail - head } else { 0 }),
{
    if tail >= head { tail - head } else { 0 }
}

/// The position after `idx`: where the next message goes after `tail`, or where the
/// next message to take sits after `head`.
pub fn next_slot(idx: u64) -> (r: u64)
    requires
        idx < u64::MAX,
    ensures
        r == idx + 1,
{
    idx + 1
}

/// The key of version `version` of the object `key`: `key:version`.
pub fn version_key(key: &str, version: u64) -> (r: String)
    ensures
        r@ == key@ + ":"@ + decimal(version as nat),
{
    let mut s = String::from_str(key);
    s.append(":");
    let v = decimal_string(version);
    s.append(v.as_str());
    s
}

/// The key under which the latest version of the object `key` is recorded: `key:latest`.
pub fn latest_key(key: &str) -> (r: String)
    ensures
        r@ == key@ + ":latest"@,
{
    let mut s = String::from_str(key);
    s.append(":latest");
    s
}

/// Enqueueing one message makes a queue one longer, and dequeueing one from a queue
/// that has messages makes it one shorter.
pub proof fn lemma_queue_len_steps(head: u64, tail: u64)
    requires
        head <= tail,
    ensures
        tail < u64::MAX ==> (if tail + 1 >= head { tail + 1 - head } else { 0 }) == (if tail >= head { tail - head } else { 0 }) + 1,
        head < tail ==> (if tail >= head + 1 { tail - (head + 1) } else { 0 }) == (if tail >= head { tail - head } else { 0 }) - 1,
{
}

} // verus!
