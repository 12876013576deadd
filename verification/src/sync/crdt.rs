//! Conflict-free replicated data types: a last-write-wins register and two
//! observed-remove sets.
use vstd::prelude::*;
use crate::element::{Element, lex_gt, str_greater, lemma_lex_irreflexive, lemma_lex_asymmetric,
    lemma_lex_transitive, lemma_lex_equal};
use crate::sync::pair_set::{PairSet, occurs, listed, lemma_listed};

verus! {

/// Last-Write-Wins register: a value with the time and the node that wrote it.
#[derive(Debug)]
pub struct LWWRegister<T> {
    value: T,
    timestamp: u64,
    node_id: String,
}

/// The abstract value of a register: value, timestamp and node.
pub type RegisterView<V> = (V, u64, Seq<char>);

/// The write `b` wins over the write `a`: it is later, or as late and from a node
/// whose identifier is greater.
pub open spec fn lww_wins<V>(b: RegisterView<V>, a: RegisterView<V>) -> bool {
    b.1 > a.1 || (b.1 == a.1 && lex_gt(b.2, a.2))
}

/// The register that results when `a` takes in `b`.
pub open spec fn lww_join<V>(a: RegisterView<V>, b: RegisterView<V>) -> RegisterView<V> {
    if lww_wins(b, a) {
        b
    } else {
        a
    }
}

impl<T: Element> View for LWWRegister<T> {
    type V = RegisterView<T::V>;

    closed spec fn view(&self) -> RegisterView<T::V> {
        (self.value@, self.timestamp, self.node_id@)
    }
}

impl<T: Element> LWWRegister<T> {
    /// A register holding `value`, written at `timestamp` by `node_id`.
    pub fn new(value: T, timestamp: u64, node_id: String) -> (r: Self)
        ensures
            r@ == (value@, timestamp, node_id@),
    {
        LWWRegister { value, timestamp, node_id }
    }

    /// The value.
    pub fn value(&self) -> (r: &T)
        ensures
            r@ == self@.0,
    {
        &self.value
    }

    /// The time of the write.
    pub fn timestamp(&self) -> (r: u64)
        ensures
            r == self@.1,
    {
        self.timestamp
    }

    /// A copy of the register.
    pub fn duplicate(&self) -> (r: Self)
        ensures
            r@ == self@,
    {
        LWWRegister {
            value: self.value.duplicate(),
            timestamp: self.timestamp,
            node_id: self.node_id.clone(),
        }
    }

    /// Takes in `other`: it replaces this register if it is later, or as late and
    /// from a node whose identifier is greater.
    pub fn merge(&mut self, other: LWWRegister<T>)
        ensures
            final(self)@ == lww_join(old(self)@, other@),
    {
        if other.timestamp > self.timestamp {
            *self = other;
        } else if other.timestamp == self.timestamp {
            if str_greater(&other.node_id, &self.node_id) {
                *self = other;
            }
        }
    }
}

/// Taking in a register twice changes nothing more than taking it in once,
/// and a register taken into itself stays as it is.
pub proof fn lemma_lww_idempotent<V>(a: RegisterView<V>, b: RegisterView<V>)
    ensures
        lww_join(a, a) == a,
        lww_join(lww_join(a, b), b) == lww_join(a, b),
{
    lemma_lex_irreflexive(a.2, 0);
    lemma_lex_irreflexive(b.2, 0);
}

/// Two replicas that take in each other's register end with the same register,
/// unless the two writes came from the same node at the same time with different values.
pub proof fn lemma_lww_commutative<V>(a: RegisterView<V>, b: RegisterView<V>)
    requires
        a.1 != b.1 || a.2 != b.2 || a == b,
    ensures
        lww_join(a, b) == lww_join(b, a),
{
    lemma_lex_asymmetric(a.2, b.2, 0);
    if a.1 == b.1 && !lex_gt(a.2, b.2) && !lex_gt(b.2, a.2) {
        lemma_lex_equal(a.2, b.2);
    }
}

/// `lww_wins` orders writes strictly and totally up to their time and node.
pub proof fn lemma_lww_wins_order<V>(a: RegisterView<V>, b: RegisterView<V>)
    ensures
        !lww_wins(a, a),
        lww_wins(a, b) ==> !lww_wins(b, a),
        !lww_wins(a, b) && !lww_wins(b, a) ==> a.1 == b.1 && a.2 == b.2,
{
    lemma_lex_irreflexive(a.2, 0);
    lemma_lex_asymmetric(a.2, b.2, 0);
    if !lww_wins(a, b) && !lww_wins(b, a) {
        lemma_lex_equal(a.2, b.2);
    }
}

/// `lww_wins` is transitive.
pub proof fn lemma_lww_wins_transitive<V>(a: RegisterView<V>, b: RegisterView<V>, c: RegisterView<V>)
    ensures
        lww_wins(a, b) && lww_wins(b, c) ==> lww_wins(a, c),
{
    if lww_wins(a, b) && lww_wins(b, c) && a.1 == b.1 && b.1 == c.1 {
        lemma_lex_transitive(a.2, b.2, c.2, 0);
    }
}

/// The order in which three registers are taken in does not matter.
pub proof fn lemma_lww_associative<V>(a: RegisterView<V>, b: RegisterView<V>, c: RegisterView<V>)
    ensures
        lww_join(lww_join(a, b), c) == lww_join(a, lww_join(b, c)),
{
    lemma_lww_wins_order(a, b);
    lemma_lww_wins_order(b, c);
    lemma_lww_wins_order(a, c);
    lemma_lww_wins_transitive(a, b, c);
    lemma_lww_wins_transitive(a, c, b);
    lemma_lww_wins_transitive(b, a, c);
    lemma_lww_wins_transitive(b, c, a);
    lemma_lww_wins_transitive(c, a, b);
    lemma_lww_wins_transitive(c, b, a);
}

/// Observed-remove set (add wins): the state is the set of (element, tag) pairs
/// whose additions have been seen and whose removals have not.
pub struct ORSet<T> {
    entries: PairSet<T, String>,
}

impl<T: Element> View for ORSet<T> {
    type V = Set<(T::V, Seq<char>)>;

    closed spec fn view(&self) -> Set<(T::V, Seq<char>)> {
        self.entries@
    }
}

impl<T: Element> ORSet<T> {
    /// An empty set.
    pub fn new() -> (r: Self)
        ensures
            r@ == Set::<(T::V, Seq<char>)>::empty(),
    {
        ORSet { entries: PairSet::new() }
    }

    /// Adds `element` under the tag `tag`.
    pub fn add(&mut self, element: T, tag: String)
        ensures
            final(self)@ == old(self)@.insert((element@, tag@)),
    {
        self.entries.insert(element, tag);
    }

    /// Removes the tags `tags` of `element`; the element stays while it keeps another tag.
    pub fn remove(&mut self, element: &T, tags: Vec<String>)
        ensures
            final(self)@ == old(self)@.filter(
                |p: (T::V, Seq<char>)|
                    !(p.0 == element@ && exists|k: int| 0 <= k < tags@.len() && #[trigger] tags@[k]@ == p.1),
            ),
    {
        self.entries.remove_tags(element, &tags);
    }

    /// Whether `element` has a tag.
    pub fn contains(&self, element: &T) -> (r: bool)
        ensures
            r == occurs(self@, element@),
    {
        self.entries.has_element(element)
    }

    /// The elements in the set, each once.
    pub fn elements(&self) -> (r: Vec<T>)
        ensures
            forall|a: int, b: int| 0 <= a < b < r@.len() ==> r@[a]@ != r@[b]@,
            forall|x: T::V| listed(r@, x) <==> #[trigger] occurs(self@, x),
    {
        self.entries.elements()
    }

    /// Takes in the state of another replica: the union of the tagged elements.
    pub fn merge(&mut self, other: ORSet<T>)
        ensures
            final(self)@ == old(self)@.union(other@),
    {
        self.entries.union_with(other.entries);
    }
}

/// The abstract value of a set with tombstones: the (element, timestamp) pairs
/// added and the ones removed.
pub type TombstoneView<V> = (Set<(V, u64)>, Set<(V, u64)>);

/// An element is present when one of its additions has not been removed.
pub open spec fn tombstone_contains<V>(s: TombstoneView<V>, x: V) -> bool {
    exists|ts: u64| s.0.contains((x, ts)) && !s.1.contains((x, ts))
}

/// The state after taking in another replica's state.
pub open spec fn tombstone_join<V>(a: TombstoneView<V>, b: TombstoneView<V>) -> TombstoneView<V> {
    (a.0.union(b.0), a.1.union(b.1))
}

/// Observed-remove set that keeps the removed additions as tombstones.
pub struct ORSetWithTombstones<T> {
    add_set: PairSet<T, u64>,
    remove_set: PairSet<T, u64>,
}

impl<T: Element> View for ORSetWithTombstones<T> {
    type V = TombstoneView<T::V>;

    closed spec fn view(&self) -> TombstoneView<T::V> {
        (self.add_set@, self.remove_set@)
    }
}

impl<T: Element> ORSetWithTombstones<T> {
    /// An empty set.
    pub fn new() -> (r: Self)
        ensures
            r@ == (Set::<(T::V, u64)>::empty(), Set::<(T::V, u64)>::empty()),
    {
        ORSetWithTombstones { add_set: PairSet::new(), remove_set: PairSet::new() }
    }

    /// Records the addition of `element` at `timestamp`.
    pub fn add(&mut self, element: T, timestamp: u64)
        ensures
            final(self)@ == (old(self)@.0.insert((element@, timestamp)), old(self)@.1),
    {
        self.add_set.insert(element, timestamp);
    }

    /// Records the removal of the addition of `element` at `timestamp`.
    pub fn remove(&mut self, element: T, timestamp: u64)
        ensures
            final(self)@ == (old(self)@.0, old(self)@.1.insert((element@, timestamp))),
    {
        self.remove_set.insert(element, timestamp);
    }

    /// Whether some addition of `element` has not been removed.
    pub fn contains(&self, element: &T) -> (r: bool)
        ensures
            r == tombstone_contains(self@, element@),
    {
        let mut r = false;
        let ghost adds = self.add_set@;
        let ghost removes = self.remove_set@;
        let stamps = self.add_set.elements_tagged(element);
        let n = stamps.len();
        let mut i: usize = 0;
        while i < n
            invariant
                n == stamps@.len(),
                i <= n,
                adds == self.add_set@,
                removes == self.remove_set@,
                forall|ts: u64| adds.contains((element@, ts)) <==> #[trigger] listed(stamps@, ts),
                r <==> exists|j: int| 0 <= j < i && !removes.contains((element@, #[trigger] stamps@[j])),
            decreases n - i,
        {
            let ts = stamps[i];
            if !self.remove_set.contains_pair(element, &ts) {
                r = true;
            }
            i = i + 1;
        }
        proof {
            if r {
                let j = choose|j: int| 0 <= j < n && !removes.contains((element@, #[trigger] stamps@[j]));
                lemma_listed(stamps@, j);
                let t: u64 = stamps@[j];
                assert(t@ == t);
                assert(adds.contains((element@, t)));
                assert(!removes.contains((element@, t)));
                assert(self@.0 == adds && self@.1 == removes);
                assert(tombstone_contains(self@, element@));
            }
            if tombstone_contains(self@, element@) {
                let ts = choose|ts: u64| adds.contains((element@, ts)) && !removes.contains((element@, ts));
                assert(listed(stamps@, ts));
                let j = choose|j: int| 0 <= j < n && #[trigger] stamps@[j]@ == ts;
                assert(stamps@[j]@ == stamps@[j]);
                assert(!removes.contains((element@, stamps@[j])));
            }
        }
        r
    }

    /// Takes in the state of another replica: the union of additions and of removals.
    pub fn merge(&mut self, other: ORSetWithTombstones<T>)
        ensures
            final(self)@ == tombstone_join(old(self)@, other@),
    {
        self.add_set.union_with(other.add_set);
        self.remove_set.union_with(other.remove_set);
    }
}

/// Merging set states is commutative, associative and idempotent, so replicas that
/// have taken in the same states agree on every element.
pub proof fn lemma_tombstone_join_semilattice<V>(
    a: TombstoneView<V>,
    b: TombstoneView<V>,
    c: TombstoneView<V>,
)
    ensures
        tombstone_join(a, b) == tombstone_join(b, a),
        tombstone_join(tombstone_join(a, b), c) == tombstone_join(a, tombstone_join(b, c)),
        tombstone_join(a, a) == a,
{
    assert(a.0.union(b.0) =~= b.0.union(a.0));
    assert(a.1.union(b.1) =~= b.1.union(a.1));
    assert(a.0.union(b.0).union(c.0) =~= a.0.union(b.0.union(c.0)));
    assert(a.1.union(b.1).union(c.1) =~= a.1.union(b.1.union(c.1)));
    assert(a.0.union(a.0) =~= a.0);
    assert(a.1.union(a.1) =~= a.1);
}

/// A removal is never undone by merging: after taking in any state, the removed
/// addition is still removed, so it no longer makes its element present.
pub proof fn lemma_tombstone_remove_wins<V>(a: TombstoneView<V>, b: TombstoneView<V>, x: V, ts: u64)
    requires
        a.1.contains((x, ts)),
    ensures
        tombstone_join(a, b).1.contains((x, ts)),
        tombstone_join(b, a).1.contains((x, ts)),
{
}

/// An addition whose tag no replica has removed makes the element present after merging.
pub proof fn lemma_tombstone_add_survives<V>(a: TombstoneView<V>, b: TombstoneView<V>, x: V, ts: u64)
    requires
        a.0.contains((x, ts)),
        !a.1.contains((x, ts)),
        !b.1.contains((x, ts)),
    ensures
        tombstone_contains(tombstone_join(a, b), x),
{
    assert(tombstone_join(a, b).0.contains((x, ts)));
}

/// Observed-remove sets converge: merging is commutative, associative and idempotent.
pub proof fn lemma_orset_join_semilattice<V>(a: Set<V>, b: Set<V>, c: Set<V>)
    ensures
        a.union(b) == b.union(a),
        a.union(b).union(c) == a.union(b.union(c)),
        a.union(a) == a,
{
    assert(a.union(b) =~= b.union(a));
    assert(a.union(b).union(c) =~= a.union(b.union(c)));
    assert(a.union(a) =~= a);
}

} // verus!
