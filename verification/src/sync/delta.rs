//! Delta synchronisation: replicas exchange the registers written since a time.
use vstd::prelude::*;
use crate::keyed_map::KeyedMap;
use crate::sync::crdt::{LWWRegister, RegisterView, lww_join, lemma_lww_idempotent, lemma_lww_commutative, lemma_lww_associative};

verus! {

/// The abstract value of a map of byte registers.
pub type RegistersView = Map<Seq<char>, RegisterView<Seq<u8>>>;

/// The registers of a map, each by its abstract value.
pub open spec fn regs_view(m: Map<Seq<char>, LWWRegister<Vec<u8>>>) -> RegistersView {
    m.map_values(|r: LWWRegister<Vec<u8>>| r@)
}

/// Viewing a map after an insertion is inserting the view.
pub proof fn lemma_regs_view_insert(m: Map<Seq<char>, LWWRegister<Vec<u8>>>, k: Seq<char>, v: LWWRegister<Vec<u8>>)
    ensures
        regs_view(m.insert(k, v)) == regs_view(m).insert(k, v@),
{
    assert(regs_view(m.insert(k, v)) =~= regs_view(m).insert(k, v@));
}

/// Two maps of registers combined key by key: a key in both takes the winning write.
pub open spec fn join_registers<V>(
    a: Map<Seq<char>, RegisterView<V>>,
    b: Map<Seq<char>, RegisterView<V>>,
) -> Map<Seq<char>, RegisterView<V>> {
    Map::new(
        |k: Seq<char>| a.contains_key(k) || b.contains_key(k),
        |k: Seq<char>|
            if a.contains_key(k) && b.contains_key(k) {
                lww_join(a[k], b[k])
            } else if a.contains_key(k) {
                a[k]
            } else {
                b[k]
            },
    )
}

/// The registers written after `since`.
pub open spec fn written_after(m: RegistersView, since: u64) -> RegistersView {
    Map::new(|k: Seq<char>| m.contains_key(k) && m[k].1 > since, |k: Seq<char>| m[k])
}

/// The replicated state: named byte registers and the latest write time seen.
#[derive(Debug)]
pub struct State {
    pub registers: KeyedMap<LWWRegister<Vec<u8>>>,
    pub last_modified: u64,
}

impl State {
    /// The register map has one entry per name.
    pub open spec fn wf(&self) -> bool {
        self.registers.wf()
    }

    /// A copy of the state.
    pub fn duplicate(&self) -> (r: State)
        requires
            self.wf(),
        ensures
            r.wf(),
            regs_view(r.registers@) == regs_view(self.registers@),
            r.last_modified == self.last_modified,
    {
        State { registers: copy_registers(&self.registers), last_modified: self.last_modified }
    }
}

/// The registers changed since some time.
#[derive(Debug)]
pub struct Delta {
    pub changes: KeyedMap<LWWRegister<Vec<u8>>>,
}

/// Replica that tracks a state and exchanges deltas of it.
pub struct DeltaSync {
    state: State,
}

impl View for DeltaSync {
    type V = (RegistersView, u64);

    closed spec fn view(&self) -> (RegistersView, u64) {
        (regs_view(self.state.registers@), self.state.last_modified)
    }
}

/// A copy of a map of registers.
pub fn copy_registers(m: &KeyedMap<LWWRegister<Vec<u8>>>) -> (r: KeyedMap<LWWRegister<Vec<u8>>>)
    requires
        m.wf(),
    ensures
        r.wf(),
        regs_view(r@) == regs_view(m@),
{
    let mut out: KeyedMap<LWWRegister<Vec<u8>>> = KeyedMap::new();
    let n = m.entries.len();
    let mut i: usize = 0;
    proof {
        m.lemma_prefix_ends();
        assert(regs_view(out@) =~= regs_view(m.prefix(0)));
    }
    while i < n
        invariant
            m.wf(),
            out.wf(),
            n == m.entries@.len(),
            i <= n,
            regs_view(out@) == regs_view(m.prefix(i as int)),
        decreases n - i,
    {
        let k = m.entries[i].0.clone();
        let v = m.entries[i].1.duplicate();
        let ghost before = out@;
        let ghost kk = k@;
        let ghost vv = v;
        out.insert(k, v);
        proof {
            m.lemma_prefix_step(i as int);
            m.lemma_entry(i as int);
            lemma_regs_view_insert(before, kk, vv);
            lemma_regs_view_insert(m.prefix(i as int), kk, m.entries@[i as int].1);
            assert(regs_view(out@) =~= regs_view(m.prefix(i + 1)));
        }
        i = i + 1;
    }
    proof {
        m.lemma_prefix_ends();
    }
    out
}

/// Takes every register of `source` into `target`: a name present in both keeps the
/// winning write, a new name is added.
pub fn absorb_registers(
    target: &mut KeyedMap<LWWRegister<Vec<u8>>>,
    source: &KeyedMap<LWWRegister<Vec<u8>>>,
)
    requires
        old(target).wf(),
        source.wf(),
    ensures
        final(target).wf(),
        regs_view(final(target)@) == join_registers(regs_view(old(target)@), regs_view(source@)),
{
    let ghost t0 = regs_view(target@);
    let n = source.entries.len();
    let mut i: usize = 0;
    proof {
        source.lemma_prefix_ends();
        assert(regs_view(target@) =~= join_registers(t0, regs_view(source.prefix(0))));
    }
    while i < n
        invariant
            target.wf(),
            source.wf(),
            n == source.entries@.len(),
            i <= n,
            regs_view(target@) == join_registers(t0, regs_view(source.prefix(i as int))),
        decreases n - i,
    {
        let ghost before = regs_view(target@);
        let ghost k = source.entries@[i as int].0@;
        proof {
            source.lemma_prefix_step(i as int);
            source.lemma_entry(i as int);
        }
        let ghost src = source@[k]@;
        let ghost expect = if t0.contains_key(k) { lww_join(t0[k], src) } else { src };
        let incoming = source.entries[i].1.duplicate();
        let merged = match target.get(source.entries[i].0.as_str()) {
            Some(cur) => {
                let mut m = cur.duplicate();
                m.merge(incoming);
                assert(before.contains_key(k) && before[k] == cur@);
                assert(m@ == expect);
                m
            },
            None => {
                assert(!before.contains_key(k));
                assert(incoming@ == expect);
                incoming
            },
        };
        let key = source.entries[i].0.clone();
        let ghost tm = target@;
        let ghost mv = merged;
        target.insert(key, merged);
        proof {
            let p0 = regs_view(source.prefix(i as int));
            let p1 = regs_view(source.prefix(i + 1));
            assert(!p0.contains_key(k));
            lemma_regs_view_insert(source.prefix(i as int), k, source.entries@[i as int].1);
            assert(p1 == p0.insert(k, source@[k]@));
            lemma_regs_view_insert(tm, k, mv);
            assert(regs_view(target@) == before.insert(k, mv@));
            assert(join_registers(t0, p1) =~= join_registers(t0, p0).insert(k, mv@));
        }
        i = i + 1;
    }
    proof {
        source.lemma_prefix_ends();
    }
}

impl DeltaSync {
    /// The state is well formed.
    pub closed spec fn wf(&self) -> bool {
        self.state.wf()
    }

    /// A replica with no registers.
    pub fn new() -> (r: Self)
        ensures
            r.wf(),
            r@ == (Map::<Seq<char>, RegisterView<Seq<u8>>>::empty(), 0u64),
    {
        let r = DeltaSync { state: State { registers: KeyedMap::new(), last_modified: 0 } };
        assert(regs_view(r.state.registers@) =~= Map::<Seq<char>, RegisterView<Seq<u8>>>::empty());
        r
    }

    /// Writes `value` under `key` at `timestamp` from `node_id`, replacing what the key held,
    /// and raises the latest write time to `timestamp` if it is later.
    pub fn update(&mut self, key: String, value: Vec<u8>, timestamp: u64, node_id: String)
        requires
            old(self).wf(),
        ensures
            final(self).wf(),
            final(self)@.0 == old(self)@.0.insert(key@, (value@, timestamp, node_id@)),
            final(self)@.1 == if timestamp > old(self)@.1 { timestamp } else { old(self)@.1 },
    {
        let ghost k = key@;
        let register = LWWRegister::new(value, timestamp, node_id);
        let ghost rv = register@;
        let ghost before = regs_view(self.state.registers@);
        self.state.registers.insert(key, register);
        if timestamp > self.state.last_modified {
            self.state.last_modified = timestamp;
        }
        assert(regs_view(self.state.registers@) =~= before.insert(k, rv));
    }

    /// The registers written after `since`.
    pub fn get_delta(&self, since: u64) -> (r: Delta)
        requires
            self.wf(),
        ensures
            r.changes.wf(),
            regs_view(r.changes@) == written_after(self@.0, since),
    {
        let m = &self.state.registers;
        let ghost all = regs_view(m@);
        let mut changes: KeyedMap<LWWRegister<Vec<u8>>> = KeyedMap::new();
        let n = m.entries.len();
        let mut i: usize = 0;
        proof {
            m.lemma_prefix_ends();
            assert(regs_view(changes@) =~= written_after(regs_view(m.prefix(0)), since));
        }
        while i < n
            invariant
                m.wf(),
                changes.wf(),
                n == m.entries@.len(),
                i <= n,
                regs_view(changes@) == written_after(regs_view(m.prefix(i as int)), since),
            decreases n - i,
        {
            let ghost before = regs_view(changes@);
            proof {
                m.lemma_prefix_step(i as int);
                m.lemma_entry(i as int);
            }
            let ghost cm = changes@;
            if m.entries[i].1.timestamp() > since {
                let k = m.entries[i].0.clone();
                let v = m.entries[i].1.duplicate();
                proof {
                    lemma_regs_view_insert(cm, k@, v);
                }
                changes.insert(k, v);
            }
            proof {
                lemma_regs_view_insert(m.prefix(i as int), m.entries@[i as int].0@, m.entries@[i as int].1);
                assert(regs_view(changes@) =~= written_after(regs_view(m.prefix(i + 1)), since));
            }
            i = i + 1;
        }
        proof {
            m.lemma_prefix_ends();
        }
        Delta { changes }
    }

    /// Takes in a delta: each register is merged into the one of the same name,
    /// or added if the name is new. The latest write time is left as it was.
    pub fn apply_delta(&mut self, delta: Delta)
        requires
            old(self).wf(),
            delta.changes.wf(),
        ensures
            final(self).wf(),
            final(self)@.0 == join_registers(old(self)@.0, regs_view(delta.changes@)),
            final(self)@.1 == old(self)@.1,
    {
        absorb_registers(&mut self.state.registers, &delta.changes);
    }
}

/// Taking in a register map twice changes nothing more than taking it in once.
pub proof fn lemma_join_registers_idempotent<V>(
    a: Map<Seq<char>, RegisterView<V>>,
    b: Map<Seq<char>, RegisterView<V>>,
)
    ensures
        join_registers(join_registers(a, b), b) == join_registers(a, b),
        join_registers(a, a) == a,
{
    assert forall|k: Seq<char>| #[trigger] a.contains_key(k) && b.contains_key(k) implies lww_join(
        lww_join(a[k], b[k]),
        b[k],
    ) == lww_join(a[k], b[k]) by {
        lemma_lww_idempotent(a[k], b[k]);
    }
    assert forall|k: Seq<char>| #[trigger] a.contains_key(k) implies lww_join(a[k], a[k]) == a[k] by {
        lemma_lww_idempotent(a[k], a[k]);
    }
    assert(join_registers(join_registers(a, b), b) =~= join_registers(a, b));
    assert(join_registers(a, a) =~= a);
}

/// A replica that takes in its own delta keeps its state: every register it sends
/// is already the one it holds.
pub proof fn lemma_own_delta_is_noop<V>(a: Map<Seq<char>, RegisterView<V>>, since: u64)
    ensures
        join_registers(
            a,
            Map::new(|k: Seq<char>| a.contains_key(k) && a[k].1 > since, |k: Seq<char>| a[k]),
        ) == a,
{
    let d = Map::new(|k: Seq<char>| a.contains_key(k) && a[k].1 > since, |k: Seq<char>| a[k]);
    assert forall|k: Seq<char>| #[trigger] a.contains_key(k) implies lww_join(a[k], a[k]) == a[k] by {
        lemma_lww_idempotent(a[k], a[k]);
    }
    assert(join_registers(a, d) =~= a);
}

/// Two replicas that take in each other's registers hold the same registers, unless
/// some name was written by the same node at the same time with different values.
pub proof fn lemma_join_registers_commutative<V>(
    a: Map<Seq<char>, RegisterView<V>>,
    b: Map<Seq<char>, RegisterView<V>>,
)
    requires
        forall|k: Seq<char>|
            #![trigger a[k], b[k]]
            a.contains_key(k) && b.contains_key(k) ==> a[k].1 != b[k].1 || a[k].2 != b[k].2 || a[k] == b[k],
    ensures
        join_registers(a, b) == join_registers(b, a),
{
    assert forall|k: Seq<char>| #[trigger] a.contains_key(k) && b.contains_key(k) implies lww_join(a[k], b[k])
        == lww_join(b[k], a[k]) by {
        lemma_lww_commutative(a[k], b[k]);
    }
    assert(join_registers(a, b) =~= join_registers(b, a));
}

/// The order in which three replicas' registers are taken in does not matter.
pub proof fn lemma_join_registers_associative<V>(
    a: Map<Seq<char>, RegisterView<V>>,
    b: Map<Seq<char>, RegisterView<V>>,
    c: Map<Seq<char>, RegisterView<V>>,
)
    ensures
        join_registers(join_registers(a, b), c) == join_registers(a, join_registers(b, c)),
{
    assert forall|k: Seq<char>| #![trigger a[k], b[k], c[k]] a.contains_key(k) && b.contains_key(k) && c.contains_key(k)
        implies lww_join(lww_join(a[k], b[k]), c[k]) == lww_join(a[k], lww_join(b[k], c[k])) by {
        lemma_lww_associative(a[k], b[k], c[k]);
    }
    assert(join_registers(join_registers(a, b), c) =~= join_registers(a, join_registers(b, c)));
}

} // verus!
