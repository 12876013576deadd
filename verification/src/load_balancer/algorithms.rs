//! Load balancing algorithms: round robin, least connections, weighted round robin and
//! consistent hashing.
use vstd::prelude::*;
use std::collections::hash_map::DefaultHasher;
use std::hash::Hasher;
use vstd::std_specs::hash::DefaultHasherAdditionalSpecFns;
use vstd::utf8::encode_utf8;
use vstd::string::StringSliceAdditionalSpecFns;
use crate::load_balancer::{Backend, BackendView, views, first_min, first_min_index, lemma_first_min_unique};
use crate::text::{decimal, decimal_string};

verus! {

/// The routing key of a request, by its text.
pub open spec fn key_view(key: Option<&str>) -> Option<Seq<char>> {
    match key {
        Some(s) => Some(s@),
        None => None,
    }
}

/// A way of choosing a backend for a request.
pub trait BalancingAlgorithm: Sized {
    /// The algorithm can make a choice among backends (with no backends, none is needed).
    spec fn ready(&self) -> bool;

    /// The position among `backends` that the algorithm chooses for a request with the
    /// routing key `key`, or none.
    spec fn choice(&self, backends: Seq<BackendView>, key: Option<Seq<char>>) -> Option<int>;

    /// The algorithm after it has made that choice.
    spec fn after_choice(&self, backends: Seq<BackendView>, key: Option<Seq<char>>) -> Self;

    /// Chooses one of `backends` for a request with the optional routing `key`; a copy of
    /// the chosen backend is returned.
    fn select(&mut self, backends: &[Backend], key: Option<&str>) -> (r: Option<Backend>)
        requires
            old(self).ready() || backends@.len() == 0,
        ensures
            old(self).ready() ==> final(self).ready(),
            *final(self) == old(self).after_choice(views(backends@), key_view(key)),
            match old(self).choice(views(backends@), key_view(key)) {
                Some(i) => (r matches Some(b) && 0 <= i < backends@.len() && b@ == backends@[i]@),
                None => r is None,
            },
            backends@.len() == 0 ==> r is None,
    ;
}

/// `c + 1`, wrapping around past the largest `usize`.
pub open spec fn next_count(c: usize) -> usize {
    if c == usize::MAX {
        0
    } else {
        (c + 1) as usize
    }
}

/// Round-robin algorithm
#[derive(Debug)]
pub struct RoundRobin {
    pub counter: usize,
}

impl RoundRobin {
    /// Starts with the first backend.
    pub fn new() -> (r: Self)
        ensures
            r.counter == 0,
    {
        RoundRobin { counter: 0 }
    }
}

impl Default for RoundRobin {
    fn default() -> (r: Self)
        ensures
            r.counter == 0,
    {
        Self::new()
    }
}

impl BalancingAlgorithm for RoundRobin {
    open spec fn ready(&self) -> bool {
        true
    }

    /// The backend at the count modulo the number of backends.
    open spec fn choice(&self, backends: Seq<BackendView>, key: Option<Seq<char>>) -> Option<int> {
        if backends.len() > 0 {
            Some((self.counter as int) % (backends.len() as int))
        } else {
            None
        }
    }

    /// The count moves on after each choice.
    open spec fn after_choice(&self, backends: Seq<BackendView>, key: Option<Seq<char>>) -> Self {
        if backends.len() > 0 {
            RoundRobin { counter: next_count(self.counter) }
        } else {
            *self
        }
    }

    /// The backends in turn: the one at the count modulo their number, then the count
    /// moves on.
    fn select(&mut self, backends: &[Backend], key: Option<&str>) -> (r: Option<Backend>) {
        if backends.len() == 0 {
            return None;
        }
        let index = self.counter % backends.len();
        self.counter = self.counter.wrapping_add(1);
        let b = backends[index].duplicate();
        let ghost bg = b;
        let r = Some(b);
        assert(r->0 == bg);
        r
    }
}

/// Least connections algorithm
#[derive(Debug)]
pub struct LeastConnections;

impl LeastConnections {
    pub fn new() -> (r: Self) {
        LeastConnections
    }
}

impl Default for LeastConnections {
    fn default() -> (r: Self) {
        Self::new()
    }
}

/// The active connections of each backend.
pub open spec fn connection_counts(backends: Seq<BackendView>) -> Seq<u64> {
    backends.map_values(|b: BackendView| b.3 as u64)
}

fn counts_of(backends: &[Backend]) -> (r: Vec<u64>)
    ensures
        r@ == connection_counts(views(backends@)),
{
    let mut out: Vec<u64> = Vec::new();
    let n = backends.len();
    let mut i: usize = 0;
    while i < n
        invariant
            n == backends@.len(),
            i <= n,
            out@ == connection_counts(views(backends@.subrange(0, i as int))),
        decreases n - i,
    {
        out.push(backends[i].active_connections as u64);
        assert(connection_counts(views(backends@.subrange(0, i + 1))) =~= connection_counts(
            views(backends@.subrange(0, i as int)),
        ).push(backends@[i as int].active_connections as u64));
        i = i + 1;
    }
    assert(backends@.subrange(0, n as int) =~= backends@);
    out
}

impl BalancingAlgorithm for LeastConnections {
    open spec fn ready(&self) -> bool {
        true
    }

    /// The first backend with the fewest active connections.
    open spec fn choice(&self, backends: Seq<BackendView>, key: Option<Seq<char>>) -> Option<int> {
        if backends.len() > 0 {
            Some(choose|i: int| first_min(connection_counts(backends), i))
        } else {
            None
        }
    }

    open spec fn after_choice(&self, backends: Seq<BackendView>, key: Option<Seq<char>>) -> Self {
        *self
    }

    /// The first backend with the fewest active connections.
    fn select(&mut self, backends: &[Backend], key: Option<&str>) -> (r: Option<Backend>) {
        if backends.len() == 0 {
            return None;
        }
        let counts = counts_of(backends);
        let i = first_min_index(counts.as_slice());
        proof {
            let c = connection_counts(views(backends@));
            let k = choose|k: int| first_min(c, k);
            lemma_first_min_unique(c, i as int, k);
        }
        let b = backends[i].duplicate();
        let ghost bg = b;
        let r = Some(b);
        assert(r->0 == bg);
        r
    }
}

/// Weighted round-robin algorithm
#[derive(Debug)]
pub struct WeightedRoundRobin {
    pub counter: usize,
}

impl WeightedRoundRobin {
    /// Starts at the first unit of weight.
    pub fn new() -> (r: Self)
        ensures
            r.counter == 0,
    {
        WeightedRoundRobin { counter: 0 }
    }
}

impl Default for WeightedRoundRobin {
    fn default() -> (r: Self)
        ensures
            r.counter == 0,
    {
        Self::new()
    }
}

/// The sum of the weights of the first `n` backends, wrapping around at 2^32.
pub open spec fn weight_sum(backends: Seq<BackendView>, n: int) -> u32
    decreases n,
{
    if n <= 0 {
        0
    } else {
        ((weight_sum(backends, n - 1) + backends[n - 1].2) % 0x1_0000_0000) as u32
    }
}

/// The backend whose share of weight holds the unit `target`, looking from position `i`;
/// the first backend if the shares run out.
pub open spec fn weighted_pick(backends: Seq<BackendView>, target: int, i: int) -> int
    decreases backends.len() - i,
{
    if i >= backends.len() || i < 0 {
        0
    } else if target < backends[i].2 {
        i
    } else {
        weighted_pick(backends, target - backends[i].2, i + 1)
    }
}

/// The weighted pick is a position of a non-empty list.
pub proof fn lemma_weighted_pick_range(backends: Seq<BackendView>, target: int, i: int)
    requires
        backends.len() > 0,
    ensures
        0 <= weighted_pick(backends, target, i) < backends.len(),
    decreases backends.len() - i,
{
    if !(i >= backends.len() || i < 0) && !(target < backends[i].2) {
        lemma_weighted_pick_range(backends, target - backends[i].2, i + 1);
    }
}

impl WeightedRoundRobin {
    /// The unit of weight that the count points at, among `total` units.
    pub open spec fn unit(&self, total: u32) -> int {
        ((self.counter as int) % 0x1_0000_0000) % (total as int)
    }
}

impl BalancingAlgorithm for WeightedRoundRobin {
    open spec fn ready(&self) -> bool {
        true
    }

    /// Each backend in turn as many times as its weight: the unit at the count modulo the
    /// total weight picks the backend; none when the total weight is zero.
    open spec fn choice(&self, backends: Seq<BackendView>, key: Option<Seq<char>>) -> Option<int> {
        let total = weight_sum(backends, backends.len() as int);
        if backends.len() > 0 && total > 0 {
            Some(weighted_pick(backends, self.unit(total), 0))
        } else {
            None
        }
    }

    /// The count moves on after each choice that is made.
    open spec fn after_choice(&self, backends: Seq<BackendView>, key: Option<Seq<char>>) -> Self {
        if backends.len() > 0 && weight_sum(backends, backends.len() as int) > 0 {
            WeightedRoundRobin { counter: next_count(self.counter) }
        } else {
            *self
        }
    }

    fn select(&mut self, backends: &[Backend], key: Option<&str>) -> (r: Option<Backend>) {
        if backends.len() == 0 {
            return None;
        }
        let ghost vs = views(backends@);
        let n = backends.len();
        let mut total: u32 = 0;
        let mut k: usize = 0;
        while k < n
            invariant
                n == backends@.len(),
                vs == views(backends@),
                k <= n,
                total == weight_sum(vs, k as int),
            decreases n - k,
        {
            total = total.wrapping_add(backends[k].weight);
            k = k + 1;
        }
        if total == 0 {
            return None;
        }
        let c: u64 = self.counter as u64;
        let ghost start: int = old(self).unit(total);
        assert(c as u32 == c % 0x1_0000_0000) by (bit_vector);
        let mut target: u32 = (#[verifier::truncate] (c as u32)) % total;
        self.counter = self.counter.wrapping_add(1);
        assert(self.counter == next_count(old(self).counter));
        proof {
            lemma_weighted_pick_range(vs, start, 0);
        }
        let mut i: usize = 0;
        while i < n
            invariant
                n == backends@.len(),
                vs == views(backends@),
                i <= n,
                total > 0,
                total == weight_sum(vs, n as int),
                self.counter == next_count(old(self).counter),
                start == old(self).unit(total),
                weighted_pick(vs, start, 0) == weighted_pick(vs, target as int, i as int),
            decreases n - i,
        {
            if target < backends[i].weight {
                let b = backends[i].duplicate();
                let ghost bg = b;
                let r = Some(b);
                assert(r->0 == bg);
                return r;
            }
            target = target - backends[i].weight;
            i = i + 1;
        }
        let b = backends[0].duplicate();
        let ghost bg = b;
        let r = Some(b);
        assert(r->0 == bg);
        r
    }
}

/// Consistent hashing algorithm
#[derive(Debug)]
pub struct ConsistentHash {
    pub virtual_nodes: usize,
}

impl ConsistentHash {
    /// Hashing over `virtual_nodes` points per backend.
    pub fn new(virtual_nodes: usize) -> (r: Self)
        ensures
            r.virtual_nodes == virtual_nodes,
    {
        ConsistentHash { virtual_nodes }
    }
}

impl Default for ConsistentHash {
    fn default() -> (r: Self)
        ensures
            r.virtual_nodes == 150,
    {
        Self::new(150)
    }
}

/// The hash of a string, as `Hash for str` feeds it to the default hasher: its UTF-8
/// bytes, then the byte 0xFF.
pub open spec fn str_hash(s: Seq<char>) -> u64 {
    DefaultHasher::spec_finish(seq![encode_utf8(s), seq![0xffu8]])
}

/// The hash of `key` with the standard library's default hasher.
pub fn hash_key(key: &str) -> (r: u64)
    ensures
        r == str_hash(key@),
{
    let mut hasher = DefaultHasher::new();
    hasher.write(key.as_bytes());
    let mut tail: Vec<u8> = Vec::new();
    tail.push(0xff);
    assert(tail@ =~= seq![0xffu8]);
    hasher.write(tail.as_slice());
    assert(hasher@ =~= seq![encode_utf8(key@), seq![0xffu8]]);
    hasher.finish()
}

/// The distance from the key hash `h` back to the point of a backend with identifier `id`
/// in bucket `bucket`.
pub open spec fn point_distance(h: u64, id: Seq<char>, bucket: nat) -> u64 {
    ((h - str_hash(id + ":"@ + decimal(bucket))) % 0x1_0000_0000_0000_0000) as u64
}

/// The distances of each backend's point from the key hash `h`.
pub open spec fn point_distances(backends: Seq<BackendView>, h: u64, bucket: nat) -> Seq<u64> {
    backends.map_values(|b: BackendView| point_distance(h, b.0, bucket))
}

impl ConsistentHash {
    /// The bucket of the key hash `h`.
    pub open spec fn bucket(&self, h: u64) -> nat {
        (h as int % self.virtual_nodes as int) as nat
    }
}

/// The text hashed for a request: its key, or "default".
pub open spec fn routing_text(key: Option<Seq<char>>) -> Seq<char> {
    match key {
        Some(s) => s,
        None => "default"@,
    }
}

impl BalancingAlgorithm for ConsistentHash {
    open spec fn ready(&self) -> bool {
        self.virtual_nodes > 0
    }

    /// The first backend whose point lies closest behind the key's hash.
    open spec fn choice(&self, backends: Seq<BackendView>, key: Option<Seq<char>>) -> Option<int> {
        if backends.len() > 0 {
            let h = str_hash(routing_text(key));
            Some(choose|i: int| first_min(point_distances(backends, h, self.bucket(h)), i))
        } else {
            None
        }
    }

    open spec fn after_choice(&self, backends: Seq<BackendView>, key: Option<Seq<char>>) -> Self {
        *self
    }

    /// The first backend whose point lies closest behind the key's hash; the key is
    /// "default" when none is given.
    fn select(&mut self, backends: &[Backend], key: Option<&str>) -> (r: Option<Backend>) {
        if backends.len() == 0 {
            return None;
        }
        let k = match key {
            Some(s) => s,
            None => "default",
        };
        assert(k@ == routing_text(key_view(key)));
        let hash = hash_key(k);
        let bucket = hash % (self.virtual_nodes as u64);
        let suffix = decimal_string(bucket);
        let ghost b_nat = bucket as nat;
        let ghost vs = views(backends@);
        let mut dists: Vec<u64> = Vec::new();
        let n = backends.len();
        let mut i: usize = 0;
        while i < n
            invariant
                n == backends@.len(),
                vs == views(backends@),
                i <= n,
                suffix@ == decimal(b_nat),
                dists@ == point_distances(views(backends@.subrange(0, i as int)), hash, b_nat),
            decreases n - i,
        {
            let mut point = backends[i].id.clone();
            point.append(":");
            point.append(suffix.as_str());
            let ph = hash_key(point.as_str());
            dists.push(hash.wrapping_sub(ph));
            assert(point_distances(views(backends@.subrange(0, i + 1)), hash, b_nat) =~= point_distances(
                views(backends@.subrange(0, i as int)),
                hash,
                b_nat,
            ).push(point_distance(hash, backends@[i as int].id@, b_nat)));
            i = i + 1;
        }
        assert(backends@.subrange(0, n as int) =~= backends@);
        let j = first_min_index(dists.as_slice());
        assert(b_nat == old(self).bucket(hash));
        proof {
            let d = point_distances(vs, hash, b_nat);
            let c = choose|c: int| first_min(d, c);
            lemma_first_min_unique(d, j as int, c);
        }
        let b = backends[j].duplicate();
        let ghost bg = b;
        let r = Some(b);
        assert(r->0 == bg);
        r
    }
}

/// The sum of the weights of the first `n` backends.
pub open spec fn weight_prefix(backends: Seq<BackendView>, n: int) -> int
    decreases n,
{
    if n <= 0 {
        0
    } else {
        weight_prefix(backends, n - 1) + backends[n - 1].2
    }
}

/// The choices that weighted round robin, starting as `alg`, makes for consecutive
/// requests over `backends` with the routing keys `keys`: by the contract of
/// `BalancingAlgorithm::select`, the `j`-th of consecutive `select` calls returns the
/// backend at the `j`-th of these positions (none where it is none).
pub open spec fn weighted_choices(
    alg: WeightedRoundRobin,
    backends: Seq<BackendView>,
    keys: Seq<Option<Seq<char>>>,
) -> Seq<Option<int>>
    decreases keys.len(),
{
    if keys.len() == 0 {
        Seq::empty()
    } else {
        seq![alg.choice(backends, keys[0])] + weighted_choices(
            alg.after_choice(backends, keys[0]),
            backends,
            keys.drop_first(),
        )
    }
}

/// How many of the choices `cs` are position `i`.
pub open spec fn times_chosen(cs: Seq<Option<int>>, i: int) -> nat
    decreases cs.len(),
{
    if cs.len() == 0 {
        0
    } else {
        (if cs[0] == Some(i) { 1nat } else { 0nat }) + times_chosen(cs.drop_first(), i)
    }
}

/// How many of the `m` units `c`, `c + 1`, ... taken modulo `w` lie in `[lo, hi)`.
pub open spec fn units_in(c: int, m: nat, w: int, lo: int, hi: int) -> nat
    decreases m,
{
    if m == 0 {
        0
    } else {
        (if lo <= c % w < hi { 1nat } else { 0nat }) + units_in(c + 1, (m - 1) as nat, w, lo, hi)
    }
}

proof fn lemma_prefix_mono(backends: Seq<BackendView>, a: int, b: int)
    requires
        0 <= a <= b <= backends.len(),
    ensures
        weight_prefix(backends, a) <= weight_prefix(backends, b),
    decreases b,
{
    if a < b {
        lemma_prefix_mono(backends, a, b - 1);
    }
}

proof fn lemma_prefix_wraps_not(backends: Seq<BackendView>, n: int)
    requires
        0 <= n <= backends.len(),
        weight_prefix(backends, n) <= u32::MAX,
    ensures
        weight_sum(backends, n) == weight_prefix(backends, n),
    decreases n,
{
    if n > 0 {
        lemma_prefix_mono(backends, n - 1, n);
        lemma_prefix_wraps_not(backends, n - 1);
    }
}

/// From position `k` on, the unit `t` (counted from the share of `k`) falls to the backend
/// whose share holds it.
proof fn lemma_pick_share(backends: Seq<BackendView>, t: int, k: int)
    requires
        0 <= k <= backends.len(),
        0 <= t,
        t + weight_prefix(backends, k) < weight_prefix(backends, backends.len() as int),
    ensures
        k <= weighted_pick(backends, t, k) < backends.len(),
        forall|i: int|
            k <= i < backends.len() ==> (weighted_pick(backends, t, k) == i <==> weight_prefix(backends, i) <= t
                + weight_prefix(backends, k) < #[trigger] weight_prefix(backends, i + 1)),
    decreases backends.len() - k,
{
    let n = backends.len() as int;
    if k == n {
        assert(false);
    } else if t < backends[k].2 {
        assert forall|i: int| k < i < n implies weight_prefix(backends, k + 1) <= #[trigger] weight_prefix(backends, i) by {
            lemma_prefix_mono(backends, k + 1, i);
        }
    } else {
        lemma_pick_share(backends, t - backends[k].2, k + 1);
    }
}

proof fn lemma_units_last(c: int, m: nat, w: int, lo: int, hi: int)
    ensures
        units_in(c, m + 1, w, lo, hi) == units_in(c, m, w, lo, hi) + (if lo <= (c + m) % w < hi { 1nat } else { 0nat }),
    decreases m,
{
    let f = if lo <= c % w < hi { 1nat } else { 0nat };
    assert(units_in(c, m + 1, w, lo, hi) == f + units_in(c + 1, m, w, lo, hi));
    if m > 0 {
        lemma_units_last(c + 1, (m - 1) as nat, w, lo, hi);
        assert(c + 1 + (m - 1) == c + m);
        assert(units_in(c, m, w, lo, hi) == f + units_in(c + 1, (m - 1) as nat, w, lo, hi));
    } else {
        assert(units_in(c + 1, 0, w, lo, hi) == 0);
        assert(units_in(c, 0, w, lo, hi) == 0);
    }
}

proof fn lemma_units_shift(c: int, w: int, lo: int, hi: int)
    requires
        w > 0,
    ensures
        units_in(c + 1, w as nat, w, lo, hi) == units_in(c, w as nat, w, lo, hi),
{
    lemma_units_last(c + 1, (w - 1) as nat, w, lo, hi);
    vstd::arithmetic::div_mod::lemma_mod_add_multiples_vanish(c, w);
    assert(c + 1 + (w - 1) == w + c);
}

proof fn lemma_units_from(c: nat, w: int, lo: int, hi: int)
    requires
        w > 0,
    ensures
        units_in(c as int, w as nat, w, lo, hi) == units_in(0, w as nat, w, lo, hi),
    decreases c,
{
    if c > 0 {
        lemma_units_shift(c - 1, w, lo, hi);
        lemma_units_from((c - 1) as nat, w, lo, hi);
    }
}

proof fn lemma_units_prefix(m: nat, w: int, lo: int, hi: int)
    requires
        0 <= lo <= hi <= w,
        m <= w,
    ensures
        units_in(0, m, w, lo, hi) == (if m <= lo { 0 } else if m <= hi { m - lo } else { hi - lo }),
    decreases m,
{
    if m > 0 {
        lemma_units_prefix((m - 1) as nat, w, lo, hi);
        lemma_units_last(0, (m - 1) as nat, w, lo, hi);
        vstd::arithmetic::div_mod::lemma_small_mod((m - 1) as nat, w as nat);
    }
}

proof fn lemma_times_as_units(alg: WeightedRoundRobin, backends: Seq<BackendView>, keys: Seq<Option<Seq<char>>>, i: int)
    requires
        backends.len() > 0,
        0 <= i < backends.len(),
        0 < weight_prefix(backends, backends.len() as int) <= u32::MAX,
        alg.counter + keys.len() <= 0x1_0000_0000,
    ensures
        times_chosen(weighted_choices(alg, backends, keys), i) == units_in(
            alg.counter as int,
            keys.len(),
            weight_prefix(backends, backends.len() as int),
            weight_prefix(backends, i),
            weight_prefix(backends, i + 1),
        ),
    decreases keys.len(),
{
    let n = backends.len() as int;
    let w = weight_prefix(backends, n);
    if keys.len() > 0 {
        lemma_prefix_wraps_not(backends, n);
        let c = alg.counter as int;
        vstd::arithmetic::div_mod::lemma_small_mod(c as nat, 0x1_0000_0000);
        vstd::arithmetic::div_mod::lemma_mod_pos_bound(c, w);
        assert(alg.unit(weight_sum(backends, n)) == c % w);
        assert(weight_prefix(backends, 0) == 0);
        lemma_pick_share(backends, c % w, 0);
        assert(weighted_pick(backends, c % w, 0) == i <==> weight_prefix(backends, i) <= c % w + weight_prefix(backends, 0) < weight_prefix(backends, i + 1));
        let cs = weighted_choices(alg, backends, keys);
        let next = alg.after_choice(backends, keys[0]);
        let rest = weighted_choices(next, backends, keys.drop_first());
        assert(cs.drop_first() =~= rest);
        assert(cs[0] == Some(weighted_pick(backends, c % w, 0)));
        assert(weighted_pick(backends, c % w, 0) == i <==> weight_prefix(backends, i) <= c % w < weight_prefix(backends, i + 1));
        let lo = weight_prefix(backends, i);
        let hi = weight_prefix(backends, i + 1);
        let m = (keys.len() - 1) as nat;
        lemma_times_as_units(next, backends, keys.drop_first(), i);
        assert(times_chosen(cs, i) == (if cs[0] == Some(i) { 1nat } else { 0nat }) + times_chosen(rest, i));
        assert(units_in(c, keys.len(), w, lo, hi) == (if lo <= c % w < hi { 1nat } else { 0nat }) + units_in(c + 1, m, w, lo, hi));
        if keys.len() > 1 {
            assert(next.counter == alg.counter + 1);
        } else {
            assert(units_in(c + 1, m, w, lo, hi) == 0);
            assert(units_in(next.counter as int, m, w, lo, hi) == 0);
        }
    } else {
        assert(weighted_choices(alg, backends, keys) =~= Seq::<Option<int>>::empty());
    }
}

/// Weighted round robin gives each backend its weight: over as many consecutive requests
/// as the total weight, whatever their routing keys, each backend is chosen exactly as many
/// times as its weight (a backend of weight 0 never), as long as the total weight fits in
/// 32 bits and the count does not pass 2^32 on the way.
pub proof fn lemma_weighted_round_robin_shares(
    alg: WeightedRoundRobin,
    backends: Seq<BackendView>,
    keys: Seq<Option<Seq<char>>>,
    i: int,
)
    requires
        0 <= i < backends.len(),
        weight_prefix(backends, backends.len() as int) <= u32::MAX,
        keys.len() == weight_prefix(backends, backends.len() as int),
        alg.counter + keys.len() <= 0x1_0000_0000,
    ensures
        times_chosen(weighted_choices(alg, backends, keys), i) == backends[i].2,
        weight_prefix(backends, backends.len() as int) == 0 ==> forall|key: Option<Seq<char>>|
            #[trigger] alg.choice(backends, key) is None,
{
    let n = backends.len() as int;
    let w = weight_prefix(backends, n);
    lemma_prefix_mono(backends, i + 1, n);
    lemma_prefix_mono(backends, 0, i);
    lemma_prefix_wraps_not(backends, n);
    if w == 0 {
        assert(weighted_choices(alg, backends, keys) =~= Seq::<Option<int>>::empty());
    } else {
        lemma_times_as_units(alg, backends, keys, i);
        lemma_units_from(alg.counter as nat, w, weight_prefix(backends, i), weight_prefix(backends, i + 1));
        lemma_units_prefix(w as nat, w, weight_prefix(backends, i), weight_prefix(backends, i + 1));
    }
}

} // verus!
