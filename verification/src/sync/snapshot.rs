//! Snapshot synchronisation: a replica sends its whole state at once.
use vstd::prelude::*;
use crate::sync::delta::{State, regs_view, join_registers, absorb_registers};

verus! {

/// A copy of a replica's state, versioned by its latest write time.
#[derive(Debug)]
pub struct Snapshot {
    pub state: State,
    pub version: u64,
}

/// Creates and applies snapshots.
pub struct SnapshotSync {}

impl SnapshotSync {
    /// A snapshot of `state`, whose version is the state's latest write time.
    pub fn create_snapshot(state: &State) -> (r: Snapshot)
        requires
            state.wf(),
        ensures
            r.state.wf(),
            regs_view(r.state.registers@) == regs_view(state.registers@),
            r.state.last_modified == state.last_modified,
            r.version == state.last_modified,
    {
        Snapshot { state: state.duplicate(), version: state.last_modified }
    }

    /// Takes a snapshot into `current_state`: each register is merged into the one of the
    /// same name or added, and the latest write time rises to the snapshot's version.
    pub fn apply_snapshot(current_state: &mut State, snapshot: Snapshot)
        requires
            old(current_state).wf(),
            snapshot.state.wf(),
        ensures
            final(current_state).wf(),
            regs_view(final(current_state).registers@) == join_registers(
                regs_view(old(current_state).registers@),
                regs_view(snapshot.state.registers@),
            ),
            final(current_state).last_modified == if snapshot.version > old(
                current_state,
            ).last_modified {
                snapshot.version
            } else {
                old(current_state).last_modified
            },
    {
        absorb_registers(&mut current_state.registers, &snapshot.state.registers);
        if snapshot.version > current_state.last_modified {
            current_state.last_modified = snapshot.version;
        }
    }
}

} // verus!
