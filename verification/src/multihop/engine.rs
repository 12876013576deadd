//! The decisions of the engine that runs a chain of hops: when traffic may pass, and
//! how a failed start is reported.
use vstd::prelude::*;
use crate::multihop::{MultiHopError, error_text};
use crate::multihop::hop::EngineState;
use crate::text::{decimal, decimal_string};

verus! {

/// The name of an engine state.
pub open spec fn state_text(s: EngineState) -> Seq<char> {
    match s {
        EngineState::Uninitialized => "Uninitialized"@,
        EngineState::Initializing => "Initializing"@,
        EngineState::Running => "Running"@,
        EngineState::Stopping => "Stopping"@,
        EngineState::Stopped => "Stopped"@,
        EngineState::Failed => "Failed"@,
    }
}

/// The name of an engine state.
pub fn state_name(s: EngineState) -> (r: &'static str)
    ensures
        r@ == state_text(s),
{
    match s {
        EngineState::Uninitialized => "Uninitialized",
        EngineState::Initializing => "Initializing",
        EngineState::Running => "Running",
        EngineState::Stopping => "Stopping",
        EngineState::Stopped => "Stopped",
        EngineState::Failed => "Failed",
    }
}

/// Whether traffic may pass through an engine in state `state` whose router is
/// (`router_ready`) or is not built: only a running engine with a router lets it pass.
pub fn admit_traffic(state: EngineState, router_ready: bool) -> (r: Result<(), MultiHopError>)
    ensures
        state != EngineState::Running ==> (r matches Err(MultiHopError::Engine(m)) && m@
            == "Engine not running (state: "@ + state_text(state) + ")"@),
        state == EngineState::Running && !router_ready ==> (r matches Err(MultiHopError::Engine(m)) && m@
            == "Router not initialized"@),
        state == EngineState::Running && router_ready ==> r is Ok,
{
    if state != EngineState::Running {
        let mut m = String::from_str("Engine not running (state: ");
        m.append(state_name(state));
        m.append(")");
        return Err(MultiHopError::Engine(m));
    }
    if !router_ready {
        return Err(MultiHopError::Engine(String::from_str("Router not initialized")));
    }
    Ok(())
}

/// The error that reports that hop number `idx` failed to start with `e`.
pub fn hop_start_error(idx: usize, e: &MultiHopError) -> (r: MultiHopError)
    ensures
        r matches MultiHopError::Engine(m) && m@ == "Failed to start hop "@ + decimal(idx as nat) + ": "@
            + error_text(*e),
{
    let mut m = String::from_str("Failed to start hop ");
    let n = decimal_string(idx as u64);
    m.append(n.as_str());
    m.append(": ");
    let t = e.message();
    m.append(t.as_str());
    MultiHopError::Engine(m)
}

/// The state an engine is in after its start: running when every hop started,
/// still initializing when one failed.
pub fn state_after_start(all_started: bool) -> (r: EngineState)
    ensures
        all_started ==> r == EngineState::Running,
        !all_started ==> r == EngineState::Initializing,
{
    if all_started { EngineState::Running } else { EngineState::Initializing }
}

} // verus!
