//! A finite set of (element, tag) pairs, the state of the observed-remove sets.
use vstd::prelude::*;
use crate::element::Element;

verus! {

/// A set of pairs, each an element and a tag that marks one addition or removal of it.
#[derive(Debug)]
pub struct PairSet<T, G> {
    pairs: Vec<(T, G)>,
}

/// The abstract value of one stored pair.
pub open spec fn pair_view<T: View, G: View>(x: (T, G)) -> (T::V, G::V) {
    (x.0@, x.1@)
}

/// Some pair of `s` has first component `x`.
pub open spec fn occurs<A, B>(s: Set<(A, B)>, x: A) -> bool {
    exists|g: B| s.contains((x, g))
}

impl<T: Element, G: Element> View for PairSet<T, G> {
    type V = Set<(T::V, G::V)>;

    closed spec fn view(&self) -> Set<(T::V, G::V)> {
        self.pairs@.map_values(|x: (T, G)| pair_view(x)).to_set()
    }
}

impl<T: Element, G: Element> PairSet<T, G> {
    proof fn lemma_view_contains(&self, i: int)
        requires
            0 <= i < self.pairs@.len(),
        ensures
            self@.contains(pair_view(self.pairs@[i])),
    {
        let s = self.pairs@.map_values(|x: (T, G)| pair_view(x));
        assert(s[i] == pair_view(self.pairs@[i]));
    }

    proof fn lemma_view_member(&self, p: (T::V, G::V))
        requires
            self@.contains(p),
        ensures
            exists|i: int| 0 <= i < self.pairs@.len() && pair_view(#[trigger] self.pairs@[i]) == p,
    {
        let s = self.pairs@.map_values(|x: (T, G)| pair_view(x));
        let i = choose|i: int| 0 <= i < s.len() && s[i] == p;
        assert(pair_view(self.pairs@[i]) == p);
    }

    /// An empty set.
    pub fn new() -> (r: Self)
        ensures
            r@ == Set::<(T::V, G::V)>::empty(),
    {
        let r = PairSet { pairs: Vec::new() };
        proof {
            assert forall|p: (T::V, G::V)| !r@.contains(p) by {
                if r@.contains(p) {
                    r.lemma_view_member(p);
                }
            }
            assert(r@ =~= Set::<(T::V, G::V)>::empty());
        }
        r
    }

    /// Whether the pair (`e`, `g`) is in the set.
    pub fn contains_pair(&self, e: &T, g: &G) -> (r: bool)
        ensures
            r == self@.contains((e@, g@)),
    {
        let n = self.pairs.len();
        let mut i: usize = 0;
        while i < n
            invariant
                n == self.pairs@.len(),
                i <= n,
                forall|j: int| 0 <= j < i ==> pair_view(#[trigger] self.pairs@[j]) != (e@, g@),
            decreases n - i,
        {
            if self.pairs[i].0.same(e) && self.pairs[i].1.same(g) {
                proof {
                    self.lemma_view_contains(i as int);
                }
                return true;
            }
            i = i + 1;
        }
        proof {
            if self@.contains((e@, g@)) {
                self.lemma_view_member((e@, g@));
            }
        }
        false
    }

    /// Whether some pair has element `e`.
    pub fn has_element(&self, e: &T) -> (r: bool)
        ensures
            r == occurs(self@, e@),
    {
        let n = self.pairs.len();
        let mut i: usize = 0;
        while i < n
            invariant
                n == self.pairs@.len(),
                i <= n,
                forall|j: int| 0 <= j < i ==> (#[trigger] self.pairs@[j]).0@ != e@,
            decreases n - i,
        {
            if self.pairs[i].0.same(e) {
                proof {
                    self.lemma_view_contains(i as int);
                    assert(self@.contains((e@, self.pairs@[i as int].1@)));
                }
                return true;
            }
            i = i + 1;
        }
        proof {
            assert forall|g: G::V| !self@.contains((e@, g)) by {
                if self@.contains((e@, g)) {
                    self.lemma_view_member((e@, g));
                }
            }
        }
        false
    }

    /// Adds the pair (`e`, `g`).
    pub fn insert(&mut self, e: T, g: G)
        ensures
            final(self)@ == old(self)@.insert((e@, g@)),
    {
        let ghost old_set = *self;
        if !self.contains_pair(&e, &g) {
            let ghost p = (e@, g@);
            self.pairs.push((e, g));
            proof {
                let n = old_set.pairs@.len() as int;
                assert forall|q: (T::V, G::V)| #[trigger] self@.contains(q) implies old_set@.insert(
                    p,
                ).contains(q) by {
                    self.lemma_view_member(q);
                    let i = choose|i: int|
                        0 <= i < self.pairs@.len() && pair_view(#[trigger] self.pairs@[i]) == q;
                    if i < n {
                        assert(self.pairs@[i] == old_set.pairs@[i]);
                        old_set.lemma_view_contains(i);
                    }
                }
                assert forall|q: (T::V, G::V)| #[trigger] old_set@.insert(p).contains(q) implies self@.contains(q) by {
                    if q == p {
                        self.lemma_view_contains(n);
                    } else {
                        old_set.lemma_view_member(q);
                        let i = choose|i: int|
                            0 <= i < old_set.pairs@.len() && pair_view(#[trigger] old_set.pairs@[i]) == q;
                        assert(self.pairs@[i] == old_set.pairs@[i]);
                        self.lemma_view_contains(i);
                    }
                }
                assert(self@ =~= old_set@.insert(p));
            }
        } else {
            assert(self@ =~= old_set@.insert((e@, g@)));
        }
    }

    /// Adds every pair of `other`.
    pub fn union_with(&mut self, other: PairSet<T, G>)
        ensures
            final(self)@ == old(self)@.union(other@),
    {
        let ghost old_set = *self;
        let mut rest = other.pairs;
        let ghost all = rest@;
        let n = rest.len();
        let mut i: usize = 0;
        while i < n
            invariant
                n == all.len(),
                i <= n,
                rest@ == all,
                self@ == old_set@.union(
                    all.subrange(0, i as int).map_values(|x: (T, G)| pair_view(x)).to_set(),
                ),
            decreases n - i,
        {
            let e = rest[i].0.duplicate();
            let g = rest[i].1.duplicate();
            self.insert(e, g);
            proof {
                let s0 = all.subrange(0, i as int).map_values(|x: (T, G)| pair_view(x));
                let s1 = all.subrange(0, i + 1).map_values(|x: (T, G)| pair_view(x));
                assert(s1 =~= s0.push(pair_view(all[i as int])));
                s0.lemma_push_to_set_commute(pair_view(all[i as int]));
                assert(self@ =~= old_set@.union(s1.to_set()));
            }
            i = i + 1;
        }
        proof {
            assert(all.subrange(0, n as int) =~= all);
            let o = PairSet { pairs: rest };
            assert(o@ == other@);
        }
    }

    /// Takes away every pair with element `e` and a tag whose view is among `tags`.
    pub fn remove_tags(&mut self, e: &T, tags: &Vec<G>)
        ensures
            final(self)@ == old(self)@.filter(
                |p: (T::V, G::V)| !(p.0 == e@ && exists|k: int| 0 <= k < tags@.len() && #[trigger] tags@[k]@ == p.1),
            ),
    {
        let ghost old_set = *self;
        let ghost target = old_set@.filter(
            |p: (T::V, G::V)| !(p.0 == e@ && exists|k: int| 0 <= k < tags@.len() && #[trigger] tags@[k]@ == p.1),
        );
        let mut kept: Vec<(T, G)> = Vec::new();
        let n = self.pairs.len();
        let mut i: usize = 0;
        while i < n
            invariant
                n == self.pairs@.len(),
                *self == old_set,
                target == old_set@.filter(
                    |p: (T::V, G::V)|
                        !(p.0 == e@ && exists|k: int| 0 <= k < tags@.len() && #[trigger] tags@[k]@ == p.1),
                ),
                i <= n,
                forall|j: int| 0 <= j < kept@.len() ==> target.contains(pair_view(#[trigger] kept@[j])),
                forall|j: int|
                    0 <= j < i && target.contains(pair_view(#[trigger] self.pairs@[j])) ==> exists|k: int|
                        0 <= k < kept@.len() && pair_view(#[trigger] kept@[k]) == pair_view(self.pairs@[j]),
            decreases n - i,
        {
            let keep = if self.pairs[i].0.same(e) {
                !Self::tag_listed(tags, &self.pairs[i].1)
            } else {
                true
            };
            let ghost before = kept@;
            proof {
                self.lemma_view_contains(i as int);
                assert(keep == target.contains(pair_view(self.pairs@[i as int])));
            }
            if keep {
                let x = (self.pairs[i].0.duplicate(), self.pairs[i].1.duplicate());
                kept.push(x);
                proof {
                    assert(pair_view(kept@[kept@.len() - 1]) == pair_view(self.pairs@[i as int]));
                }
            }
            proof {
                assert forall|j: int| 0 <= j < kept@.len() implies target.contains(
                    pair_view(#[trigger] kept@[j]),
                ) by {
                    if j < before.len() {
                        assert(kept@[j] == before[j]);
                    }
                }
                assert forall|j: int|
                    0 <= j < i + 1 && target.contains(pair_view(#[trigger] self.pairs@[j])) implies exists|k: int|
                    0 <= k < kept@.len() && pair_view(#[trigger] kept@[k]) == pair_view(self.pairs@[j]) by {
                    if j < i {
                        let k = choose|k: int|
                            0 <= k < before.len() && pair_view(#[trigger] before[k]) == pair_view(
                                self.pairs@[j],
                            );
                        assert(kept@[k] == before[k]);
                    } else {
                        assert(pair_view(kept@[kept@.len() - 1]) == pair_view(self.pairs@[i as int]));
                    }
                }
            }
            i = i + 1;
        }
        self.pairs = kept;
        proof {
            assert forall|q: (T::V, G::V)| #[trigger] self@.contains(q) implies target.contains(q) by {
                self.lemma_view_member(q);
            }
            assert forall|q: (T::V, G::V)| #[trigger] target.contains(q) implies self@.contains(q) by {
                old_set.lemma_view_member(q);
                let j = choose|j: int|
                    0 <= j < old_set.pairs@.len() && pair_view(#[trigger] old_set.pairs@[j]) == q;
                let k = choose|k: int|
                    0 <= k < self.pairs@.len() && pair_view(#[trigger] self.pairs@[k]) == pair_view(
                        old_set.pairs@[j],
                    );
                self.lemma_view_contains(k);
            }
            assert(self@ =~= target);
        }
    }

    fn tag_listed(tags: &Vec<G>, g: &G) -> (r: bool)
        ensures
            r == exists|k: int| 0 <= k < tags@.len() && #[trigger] tags@[k]@ == g@,
    {
        let n = tags.len();
        let mut i: usize = 0;
        while i < n
            invariant
                n == tags@.len(),
                i <= n,
                forall|k: int| 0 <= k < i ==> (#[trigger] tags@[k])@ != g@,
            decreases n - i,
        {
            if tags[i].same(g) {
                return true;
            }
            i = i + 1;
        }
        false
    }

    /// The elements that occur in some pair, each once.
    pub fn elements(&self) -> (r: Vec<T>)
        ensures
            forall|a: int, b: int| 0 <= a < b < r@.len() ==> r@[a]@ != r@[b]@,
            forall|x: T::V| listed(r@, x) <==> #[trigger] occurs(self@, x),
    {
        let mut out: Vec<T> = Vec::new();
        let n = self.pairs.len();
        let mut i: usize = 0;
        while i < n
            invariant
                n == self.pairs@.len(),
                i <= n,
                forall|a: int, b: int| 0 <= a < b < out@.len() ==> out@[a]@ != out@[b]@,
                forall|k: int| 0 <= k < out@.len() ==> first_of_prefix(self.pairs@, i as int, #[trigger] out@[k]@),
                forall|j: int| 0 <= j < i ==> listed(out@, (#[trigger] self.pairs@[j]).0@),
            decreases n - i,
        {
            let found = Self::listed_in(&out, &self.pairs[i].0);
            let ghost before = out@;
            let ghost x = self.pairs@[i as int].0@;
            if !found {
                let y = self.pairs[i].0.duplicate();
                out.push(y);
            }
            proof {
                assert(first_of_prefix(self.pairs@, i + 1, x));
                assert(listed(out@, x)) by {
                    if found {
                        let q = choose|q: int| 0 <= q < before.len() && #[trigger] before[q]@ == x;
                        assert(out@[q] == before[q]);
                    } else {
                        assert(out@[before.len() as int]@ == x);
                    }
                }
                assert forall|j: int| 0 <= j < i + 1 implies listed(out@, (#[trigger] self.pairs@[j]).0@) by {
                    if j < i {
                        let y = self.pairs@[j].0@;
                        let k = choose|k: int| 0 <= k < before.len() && #[trigger] before[k]@ == y;
                        assert(out@[k] == before[k]);
                    }
                }
                assert forall|k: int| 0 <= k < out@.len() implies first_of_prefix(
                    self.pairs@,
                    i + 1,
                    #[trigger] out@[k]@,
                ) by {
                    if k < before.len() {
                        assert(out@[k] == before[k]);
                        let y = before[k]@;
                        let j = choose|j: int| 0 <= j < i && #[trigger] self.pairs@[j].0@ == y;
                        assert(0 <= j < i + 1 && self.pairs@[j].0@ == y);
                    }
                }
                assert forall|a: int, b: int| 0 <= a < b < out@.len() implies out@[a]@ != out@[b]@ by {
                    if b >= before.len() {
                        assert(out@[a] == before[a]);
                    } else {
                        assert(out@[a] == before[a]);
                        assert(out@[b] == before[b]);
                    }
                }
            }
            i = i + 1;
        }
        proof {
            assert forall|x: T::V| listed(out@, x) implies occurs(self@, x) by {
                let k = choose|k: int| 0 <= k < out@.len() && #[trigger] out@[k]@ == x;
                assert(first_of_prefix(self.pairs@, n as int, out@[k]@));
                let j = choose|j: int| 0 <= j < n && #[trigger] self.pairs@[j].0@ == x;
                self.lemma_view_contains(j);
                assert(self@.contains((x, self.pairs@[j].1@)));
            }
            assert forall|x: T::V| occurs(self@, x) implies listed(out@, x) by {
                let g = choose|g: G::V| self@.contains((x, g));
                self.lemma_view_member((x, g));
                let j = choose|j: int|
                    0 <= j < self.pairs@.len() && pair_view(#[trigger] self.pairs@[j]) == (x, g);
                assert(self.pairs@[j].0@ == x);
            }
        }
        out
    }

    /// The tags paired with `e`.
    pub fn elements_tagged(&self, e: &T) -> (r: Vec<G>)
        ensures
            forall|g: G::V| self@.contains((e@, g)) <==> #[trigger] listed(r@, g),
    {
        let mut out: Vec<G> = Vec::new();
        let n = self.pairs.len();
        let mut i: usize = 0;
        while i < n
            invariant
                n == self.pairs@.len(),
                i <= n,
                forall|k: int|
                    0 <= k < out@.len() ==> self@.contains((e@, (#[trigger] out@[k])@)),
                forall|j: int|
                    0 <= j < i && (#[trigger] self.pairs@[j]).0@ == e@ ==> listed(out@, self.pairs@[j].1@),
            decreases n - i,
        {
            let ghost before = out@;
            proof {
                self.lemma_view_contains(i as int);
            }
            if self.pairs[i].0.same(e) {
                let g = self.pairs[i].1.duplicate();
                out.push(g);
            }
            proof {
                assert forall|k: int| 0 <= k < out@.len() implies self@.contains((e@, (#[trigger] out@[k])@)) by {
                    if k < before.len() {
                        assert(out@[k] == before[k]);
                    }
                }
                assert forall|j: int|
                    0 <= j < i + 1 && (#[trigger] self.pairs@[j]).0@ == e@ implies listed(out@, self.pairs@[j].1@) by {
                    if j < i {
                        let k = choose|k: int| 0 <= k < before.len() && #[trigger] before[k]@ == self.pairs@[j].1@;
                        assert(out@[k] == before[k]);
                    } else {
                        assert(out@[before.len() as int]@ == self.pairs@[j].1@);
                    }
                }
            }
            i = i + 1;
        }
        proof {
            assert forall|g: G::V| self@.contains((e@, g)) implies #[trigger] listed(out@, g) by {
                self.lemma_view_member((e@, g));
                let j = choose|j: int| 0 <= j < self.pairs@.len() && pair_view(#[trigger] self.pairs@[j]) == (e@, g);
                assert(self.pairs@[j].0@ == e@);
            }
            assert forall|g: G::V| #[trigger] listed(out@, g) implies self@.contains((e@, g)) by {
                let k = choose|k: int| 0 <= k < out@.len() && #[trigger] out@[k]@ == g;
            }
        }
        out
    }

    fn listed_in(v: &Vec<T>, e: &T) -> (r: bool)
        ensures
            r == listed(v@, e@),
    {
        let n = v.len();
        let mut k: usize = 0;
        while k < n
            invariant
                n == v@.len(),
                k <= n,
                forall|q: int| 0 <= q < k ==> (#[trigger] v@[q])@ != e@,
            decreases n - k,
        {
            if v[k].same(e) {
                return true;
            }
            k = k + 1;
        }
        false
    }
}

/// Some item of `v` has view `x`.
pub open spec fn listed<T: View>(v: Seq<T>, x: T::V) -> bool {
    exists|k: int| 0 <= k < v.len() && #[trigger] v[k]@ == x
}

/// The item at `k` is listed.
pub proof fn lemma_listed<T: View>(v: Seq<T>, k: int)
    requires
        0 <= k < v.len(),
    ensures
        listed(v, v[k]@),
{
}

/// One of the first `i` pairs has element `x`.
pub open spec fn first_of_prefix<T: View, G>(pairs: Seq<(T, G)>, i: int, x: T::V) -> bool {
    exists|j: int| 0 <= j < i && #[trigger] pairs[j].0@ == x
}

} // verus!
