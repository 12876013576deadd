//! The manager's rule for opening subflows as network interfaces appear.
use vstd::prelude::*;
use crate::address::IpAddress;

verus! {

/// The id of the subflow to open on an interface with address `ip`, given the local
/// addresses of the subflows open so far: none for a loopback interface or for an
/// address that already has a subflow, else the next number (the count so far,
/// truncated to 32 bits).
pub fn subflow_for_interface(existing: &[IpAddress], ip: IpAddress, is_loopback: bool) -> (r: Option<u32>)
    ensures
        is_loopback ==> r is None,
        !is_loopback && existing@.contains(ip) ==> r is None,
        !is_loopback && !existing@.contains(ip) ==> r == Some(existing@.len() as u32),
{
    if is_loopback {
        return None;
    }
    let mut i: usize = 0;
    while i < existing.len()
        invariant
            i <= existing@.len(),
            forall|j: int| 0 <= j < i ==> existing@[j] != ip,
        decreases existing@.len() - i,
    {
        if existing[i] == ip {
            return None;
        }
        i = i + 1;
    }
    Some(#[verifier::truncate] (existing.len() as u32))
}

} // verus!
