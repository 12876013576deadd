//! ICE: candidate addresses of the two peers, their priorities, and the choice of the
//! address to use.
use vstd::prelude::*;
use crate::address::SocketAddress;
use crate::element::str_equal;

verus! {

/// Kind of an ICE candidate address
#[derive(Debug, Clone, Copy, PartialEq, Eq, Hash, Structural)]
pub enum CandidateType {
    Host,
    ServerReflexive,
    PeerReflexive,
    Relayed,
}

/// The priority of a candidate of type `t`: direct addresses first, relays last.
pub open spec fn spec_priority(t: CandidateType) -> u32 {
    match t {
        CandidateType::Host => 100,
        CandidateType::ServerReflexive => 80,
        CandidateType::PeerReflexive => 60,
        CandidateType::Relayed => 40,
    }
}

/// The name of a candidate type on the wire.
pub open spec fn type_text(t: CandidateType) -> Seq<char> {
    match t {
        CandidateType::Host => "host"@,
        CandidateType::ServerReflexive => "srflx"@,
        CandidateType::PeerReflexive => "prflx"@,
        CandidateType::Relayed => "relay"@,
    }
}

impl CandidateType {
    /// The priority of a local candidate of this type.
    pub fn priority(self) -> (r: u32)
        ensures
            r == spec_priority(self),
    {
        match self {
            CandidateType::Host => 100,
            CandidateType::ServerReflexive => 80,
            CandidateType::PeerReflexive => 60,
            CandidateType::Relayed => 40,
        }
    }

    /// The name of the type on the wire.
    pub fn name(self) -> (r: &'static str)
        ensures
            r@ == type_text(self),
    {
        match self {
            CandidateType::Host => "host",
            CandidateType::ServerReflexive => "srflx",
            CandidateType::PeerReflexive => "prflx",
            CandidateType::Relayed => "relay",
        }
    }

    /// The type named `s` on the wire, if there is one.
    pub fn from_name(s: &str) -> (r: Option<CandidateType>)
        ensures
            match r {
                Some(t) => type_text(t) == s@,
                None => forall|t: CandidateType| type_text(t) != s@,
            },
    {
        if str_equal(s, "host") {
            Some(CandidateType::Host)
        } else if str_equal(s, "srflx") {
            Some(CandidateType::ServerReflexive)
        } else if str_equal(s, "prflx") {
            Some(CandidateType::PeerReflexive)
        } else if str_equal(s, "relay") {
            Some(CandidateType::Relayed)
        } else {
            None
        }
    }
}

/// Reading back the name of a type gives the type.
pub proof fn lemma_type_name_roundtrip(t: CandidateType, u: CandidateType)
    ensures
        type_text(t) == type_text(u) ==> t == u,
{
    reveal_strlit("host");
    reveal_strlit("srflx");
    reveal_strlit("prflx");
    reveal_strlit("relay");
    assert("host"@.len() == 4 && "srflx"@.len() == 5 && "prflx"@.len() == 5 && "relay"@.len() == 5);
    assert("srflx"@[0] == 's' && "prflx"@[0] == 'p' && "relay"@[0] == 'r');
    if type_text(t) == type_text(u) && t != u {
        assert(type_text(t).len() == type_text(u).len());
        assert(type_text(t)[0] == type_text(u)[0]);
    }
}

/// A candidate address
#[derive(Debug, Clone, Copy, PartialEq, Eq, Hash, Structural)]
pub struct Candidate {
    pub addr: SocketAddress,
    pub candidate_type: CandidateType,
    pub priority: u32,
}

/// The candidates of both peers and the address chosen by the connectivity checks.
#[derive(Debug)]
pub struct IceAgent {
    pub local_candidates: Vec<Candidate>,
    pub remote_candidates: Vec<Candidate>,
    pub peer_id: String,
    pub target_peer_id: Option<String>,
    pub selected_candidate: Option<SocketAddress>,
    /// The TURN server to ask for a relayed address, if one is set.
    pub turn_server: Option<SocketAddress>,
}

/// `c` is a candidate of highest priority among `cs`.
pub open spec fn is_best(cs: Seq<Candidate>, c: Candidate) -> bool {
    cs.contains(c) && forall|j: int| 0 <= j < cs.len() ==> (#[trigger] cs[j]).priority <= c.priority
}

/// `s` lists the candidates by priority, highest first.
pub open spec fn by_priority(s: Seq<Candidate>) -> bool {
    forall|a: int, b: int| 0 <= a < b < s.len() ==> (#[trigger] s[a]).priority >= (#[trigger] s[b]).priority
}

/// Adds `c` to the set `v` (kept without duplicates).
fn insert_candidate(v: &mut Vec<Candidate>, c: Candidate)
    requires
        old(v)@.no_duplicates(),
    ensures
        final(v)@.no_duplicates(),
        final(v)@.to_set() == old(v)@.to_set().insert(c),
        old(v)@.contains(c) ==> final(v)@ == old(v)@,
        !old(v)@.contains(c) ==> final(v)@ == old(v)@.push(c),
{
    let mut i: usize = 0;
    while i < v.len()
        invariant
            *v == *old(v),
            old(v)@.no_duplicates(),
            i <= v@.len(),
            forall|j: int| 0 <= j < i ==> v@[j] != c,
        decreases v@.len() - i,
    {
        if v[i] == c {
            assert(old(v)@.to_set().insert(c) =~= old(v)@.to_set());
            return;
        }
        i = i + 1;
    }
    let ghost before = v@;
    v.push(c);
    proof {
        before.lemma_push_to_set_commute(c);
        assert forall|a: int, b: int| 0 <= a < b < v@.len() implies v@[a] != v@[b] by {
            if b == before.len() {
                assert(before[a] != c);
            }
        }
    }
}

impl IceAgent {
    /// The candidate lists have no duplicates.
    pub open spec fn wf(&self) -> bool {
        &&& self.local_candidates@.no_duplicates()
        &&& self.remote_candidates@.no_duplicates()
    }

    /// An agent for the peer `peer_id`, with no candidates, no target and no choice yet.
    pub fn new(peer_id: String) -> (r: Self)
        ensures
            r.wf(),
            r.local_candidates@.len() == 0,
            r.remote_candidates@.len() == 0,
            r.peer_id == peer_id,
            r.target_peer_id is None,
            r.selected_candidate is None,
            r.turn_server is None,
    {
        IceAgent {
            local_candidates: Vec::new(),
            remote_candidates: Vec::new(),
            peer_id,
            target_peer_id: None,
            selected_candidate: None,
            turn_server: None,
        }
    }

    /// Uses the TURN server at `addr` for relayed candidates.
    pub fn set_turn_server(&mut self, addr: SocketAddress)
        ensures
            final(self).turn_server == Some(addr),
            final(self).local_candidates == old(self).local_candidates,
            final(self).remote_candidates == old(self).remote_candidates,
            final(self).selected_candidate == old(self).selected_candidate,
    {
        self.turn_server = Some(addr);
    }

    /// Sends candidates to the peer `target`.
    pub fn set_target_peer(&mut self, target: String)
        ensures
            final(self).target_peer_id == Some(target),
            final(self).local_candidates == old(self).local_candidates,
            final(self).remote_candidates == old(self).remote_candidates,
            final(self).selected_candidate == old(self).selected_candidate,
    {
        self.target_peer_id = Some(target);
    }

    /// Adds the local address `addr` of type `c_type`, with that type's priority.
    pub fn add_local_candidate(&mut self, addr: SocketAddress, c_type: CandidateType)
        requires
            old(self).wf(),
        ensures
            final(self).wf(),
            final(self).local_candidates@.to_set() == old(self).local_candidates@.to_set().insert(
                Candidate { addr, candidate_type: c_type, priority: spec_priority(c_type) },
            ),
            final(self).remote_candidates == old(self).remote_candidates,
            final(self).selected_candidate == old(self).selected_candidate,
    {
        let c = Candidate { addr, candidate_type: c_type, priority: c_type.priority() };
        insert_candidate(&mut self.local_candidates, c);
    }

    /// Adds a candidate that the peer announced.
    pub fn add_remote_candidate(&mut self, c: Candidate)
        requires
            old(self).wf(),
        ensures
            final(self).wf(),
            final(self).remote_candidates@.to_set() == old(self).remote_candidates@.to_set().insert(c),
            final(self).local_candidates == old(self).local_candidates,
            final(self).selected_candidate == old(self).selected_candidate,
    {
        insert_candidate(&mut self.remote_candidates, c);
    }

    /// Records the address that passed the connectivity check.
    pub fn select_candidate(&mut self, addr: SocketAddress)
        ensures
            final(self).selected_candidate == Some(addr),
            final(self).local_candidates == old(self).local_candidates,
            final(self).remote_candidates == old(self).remote_candidates,
    {
        self.selected_candidate = Some(addr);
    }

    /// The address chosen by the connectivity checks, if any.
    pub fn get_selected_candidate(&self) -> (r: Option<SocketAddress>)
        ensures
            r == self.selected_candidate,
    {
        self.selected_candidate
    }

    /// The number of remote candidates.
    pub fn remote_candidates_count(&self) -> (r: usize)
        ensures
            r == self.remote_candidates@.len(),
    {
        self.remote_candidates.len()
    }

    /// The address to use: the one chosen by the connectivity checks, else the address
    /// of a remote candidate of highest priority, else none.
    pub fn get_best_remote_candidate(&self) -> (r: Option<SocketAddress>)
        ensures
            self.selected_candidate is Some ==> r == self.selected_candidate,
            self.selected_candidate is None && self.remote_candidates@.len() == 0 ==> r is None,
            self.selected_candidate is None && self.remote_candidates@.len() > 0 ==> exists|c: Candidate|
                is_best(self.remote_candidates@, c) && r == Some(c.addr),
    {
        if let Some(addr) = self.selected_candidate {
            return Some(addr);
        }
        let n = self.remote_candidates.len();
        if n == 0 {
            return None;
        }
        let mut best: usize = 0;
        let mut i: usize = 1;
        while i < n
            invariant
                n == self.remote_candidates@.len(),
                1 <= i <= n,
                best < i,
                forall|j: int|
                    0 <= j < i ==> (#[trigger] self.remote_candidates@[j]).priority
                        <= self.remote_candidates@[best as int].priority,
            decreases n - i,
        {
            if self.remote_candidates[i].priority > self.remote_candidates[best].priority {
                best = i;
            }
            i = i + 1;
        }
        let c = self.remote_candidates[best];
        assert(self.remote_candidates@[best as int] == c);
        assert(is_best(self.remote_candidates@, c));
        Some(c.addr)
    }

    /// The remote candidates in the order to check them: highest priority first.
    pub fn check_order(&self) -> (r: Vec<Candidate>)
        requires
            self.wf(),
        ensures
            r@.len() == self.remote_candidates@.len(),
            r@.to_set() == self.remote_candidates@.to_set(),
            r@.no_duplicates(),
            by_priority(r@),
    {
        let src = &self.remote_candidates;
        let n = src.len();
        let mut out: Vec<Candidate> = Vec::new();
        let mut i: usize = 0;
        while i < n
            invariant
                n == src@.len(),
                src@.no_duplicates(),
                i <= n,
                out@.len() == i,
                out@.no_duplicates(),
                out@.to_set() == src@.subrange(0, i as int).to_set(),
                by_priority(out@),
            decreases n - i,
        {
            let c = src[i];
            let mut pos: usize = 0;
            while pos < out.len() && out[pos].priority >= c.priority
                invariant
                    pos <= out@.len(),
                    forall|k: int| 0 <= k < pos ==> (#[trigger] out@[k]).priority >= c.priority,
                decreases out@.len() - pos,
            {
                pos = pos + 1;
            }
            let ghost before = out@;
            proof {
                assert(!before.contains(c)) by {
                    if before.contains(c) {
                        assert(src@.subrange(0, i as int).to_set().contains(c));
                        let j = choose|j: int| 0 <= j < i && src@.subrange(0, i as int)[j] == c;
                        assert(src@[j] == src@[i as int]);
                    }
                }
            }
            out.insert(pos, c);
            proof {
                assert(out@ =~= before.subrange(0, pos as int).push(c) + before.subrange(pos as int, before.len() as int));
                assert forall|k: int| 0 <= k < out@.len() implies #[trigger] out@[k] == (if k < pos {
                    before[k]
                } else if k == pos {
                    c
                } else {
                    before[k - 1]
                }) by {}
                assert forall|a: int, b: int| 0 <= a < b < out@.len() implies (#[trigger] out@[a]).priority
                    >= (#[trigger] out@[b]).priority by {
                    if b == pos {
                        assert(out@[a] == before[a]);
                    } else if a == pos {
                        assert(out@[b] == before[b - 1]);
                        if b - 1 > pos as int {
                            assert(before[pos as int].priority >= before[b - 1].priority);
                        }
                    }
                }
                assert forall|a: int, b: int| 0 <= a < b < out@.len() implies out@[a] != out@[b] by {
                    if a == pos as int {
                        assert(before.contains(out@[b]));
                    } else if b == pos as int {
                        assert(before.contains(out@[a]));
                    }
                }
                assert forall|x: Candidate| out@.to_set().contains(x) == src@.subrange(0, i + 1).to_set().contains(x) by {
                    if out@.contains(x) {
                        let k = choose|k: int| 0 <= k < out@.len() && out@[k] == x;
                        if k != pos {
                            let kk = if k < pos { k } else { k - 1 };
                            assert(before[kk] == x);
                            assert(before.to_set().contains(x));
                            let j = choose|j: int| 0 <= j < i && src@.subrange(0, i as int)[j] == x;
                            assert(src@.subrange(0, i + 1)[j] == x);
                        } else {
                            assert(src@.subrange(0, i + 1)[i as int] == x);
                        }
                    }
                    if src@.subrange(0, i + 1).contains(x) {
                        let s1 = src@.subrange(0, i + 1);
                        let j = choose|j: int| 0 <= j < s1.len() && s1[j] == x;
                        if j == i {
                            assert(out@[pos as int] == x);
                        } else {
                            assert(src@.subrange(0, i as int)[j] == x);
                            assert(src@.subrange(0, i as int).to_set().contains(x));
                            assert(before.to_set().contains(x));
                            let k = choose|k: int| 0 <= k < before.len() && before[k] == x;
                            if k < pos {
                                assert(out@[k] == x);
                            } else {
                                assert(out@[k + 1] == x);
                            }
                        }
                    }
                }
                assert(out@.to_set() =~= src@.subrange(0, i + 1).to_set());
            }
            i = i + 1;
        }
        assert(src@.subrange(0, n as int) =~= src@);
        out
    }
}

/// Local candidates rank host first, then server-reflexive, then peer-reflexive, then
/// relayed, with the priorities 100, 80, 60 and 40.
pub proof fn lemma_candidate_priority_order()
    ensures
        spec_priority(CandidateType::Host) == 100,
        spec_priority(CandidateType::ServerReflexive) == 80,
        spec_priority(CandidateType::PeerReflexive) == 60,
        spec_priority(CandidateType::Relayed) == 40,
        spec_priority(CandidateType::Host) > spec_priority(CandidateType::ServerReflexive),
        spec_priority(CandidateType::ServerReflexive) > spec_priority(CandidateType::PeerReflexive),
        spec_priority(CandidateType::PeerReflexive) > spec_priority(CandidateType::Relayed),
{
}

/// Candidate types go by their ICE names on the wire (RFC 8445, section 15.1): `host`,
/// `srflx`, `prflx` and `relay`.
pub proof fn lemma_candidate_type_names()
    ensures
        type_text(CandidateType::Host) == "host"@,
        type_text(CandidateType::ServerReflexive) == "srflx"@,
        type_text(CandidateType::PeerReflexive) == "prflx"@,
        type_text(CandidateType::Relayed) == "relay"@,
{
}

} // verus!
