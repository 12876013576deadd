//! Multi-hop tunnels: the configuration of a chain of hops and the states of its parts.
pub mod buffer_pool;
pub mod config;
pub mod engine;
pub mod hop;
pub mod traffic;
pub mod xray;

use vstd::prelude::*;
use crate::text::concat;

verus! {

/// Multi-hop errors, each with its message.
#[derive(Debug)]
pub enum MultiHopError {
    Config(String),
    Hop(String),
    Routing(String),
    Engine(String),
}

/// The text of an error: its kind, a colon and its message.
pub open spec fn error_text(e: MultiHopError) -> Seq<char> {
    match e {
        MultiHopError::Config(m) => "Configuration error: "@ + m@,
        MultiHopError::Hop(m) => "Hop error: "@ + m@,
        MultiHopError::Routing(m) => "Routing error: "@ + m@,
        MultiHopError::Engine(m) => "Engine error: "@ + m@,
    }
}

impl MultiHopError {
    /// The text of the error.
    pub fn message(&self) -> (r: String)
        ensures
            r@ == error_text(*self),
    {
        match self {
            MultiHopError::Config(m) => concat("Configuration error: ", m.as_str()),
            MultiHopError::Hop(m) => concat("Hop error: ", m.as_str()),
            MultiHopError::Routing(m) => concat("Routing error: ", m.as_str()),
            MultiHopError::Engine(m) => concat("Engine error: ", m.as_str()),
        }
    }
}

} // verus!
