//! Negotiation of the protocol version and of the optional features of a connection.
use vstd::prelude::*;

verus! {

/// Protocol version
pub const CURRENT_VERSION: u8 = 1;
pub const MIN_SUPPORTED_VERSION: u8 = 1;
pub const MAX_SUPPORTED_VERSION: u8 = 1;

/// Feature flags
#[derive(Debug, Clone, Copy, PartialEq, Eq, Hash, Structural)]
pub enum Feature {
    /// QUIC transport support
    QuicTransport,
    /// TCP transport support
    TcpTransport,
    /// UDP transport support (always supported)
    UdpTransport,
    /// ChaCha20-Poly1305 encryption
    ChaCha20Poly1305,
    /// AES-256-GCM encryption
    Aes256Gcm,
    /// Zstd compression
    ZstdCompression,
    /// LZ4 compression
    Lz4Compression,
    /// Brotli compression
    BrotliCompression,
    /// 0-RTT connection resumption
    ZeroRttResumption,
    /// Connection migration
    ConnectionMigration,
    /// Multiplexing
    Multiplexing,
    /// Proof-of-Work challenge
    ProofOfWork,
}

/// A set of features.
#[derive(Debug, Clone)]
pub struct FeatureSet {
    features: Vec<Feature>,
}

impl View for FeatureSet {
    type V = Set<Feature>;

    closed spec fn view(&self) -> Set<Feature> {
        self.features@.to_set()
    }
}

/// The features offered by default.
pub open spec fn default_features() -> Set<Feature> {
    set![Feature::UdpTransport, Feature::ChaCha20Poly1305, Feature::ZstdCompression, Feature::Multiplexing]
}

/// Every feature.
pub open spec fn all_features() -> Set<Feature> {
    default_features().union(
        set![
            Feature::TcpTransport,
            Feature::QuicTransport,
            Feature::Aes256Gcm,
            Feature::Lz4Compression,
            Feature::BrotliCompression,
            Feature::ZeroRttResumption,
            Feature::ConnectionMigration,
            Feature::ProofOfWork,
        ],
    )
}

impl FeatureSet {
    /// No feature is listed twice.
    pub closed spec fn wf(&self) -> bool {
        self.features@.no_duplicates()
    }

    /// An empty set.
    pub fn new() -> (r: Self)
        ensures
            r.wf(),
            r@ == Set::<Feature>::empty(),
    {
        let r = FeatureSet { features: Vec::new() };
        assert(r@ =~= Set::<Feature>::empty());
        r
    }

    /// UDP transport, ChaCha20-Poly1305, Zstd compression and multiplexing.
    pub fn with_defaults() -> (r: Self)
        ensures
            r.wf(),
            r@ == default_features(),
    {
        let mut r = FeatureSet::new();
        r.add(Feature::UdpTransport);
        r.add(Feature::ChaCha20Poly1305);
        r.add(Feature::ZstdCompression);
        r.add(Feature::Multiplexing);
        assert(r@ =~= default_features());
        r
    }

    /// Adds `feature`.
    pub fn add(&mut self, feature: Feature)
        requires
            old(self).wf(),
        ensures
            final(self).wf(),
            final(self)@ == old(self)@.insert(feature),
    {
        let ghost before = self.features@;
        if !self.has(feature) {
            self.features.push(feature);
            proof {
                before.lemma_push_to_set_commute(feature);
                assert forall|a: int, b: int|
                    0 <= a < b < self.features@.len() implies self.features@[a] != self.features@[b] by {
                    if b == before.len() {
                        assert(before.contains(before[a]));
                    }
                }
            }
        } else {
            assert(self@ =~= before.to_set().insert(feature));
        }
    }

    /// Removes `feature`.
    pub fn remove(&mut self, feature: Feature)
        requires
            old(self).wf(),
        ensures
            final(self).wf(),
            final(self)@ == old(self)@.remove(feature),
    {
        let ghost before = self.features@;
        let n = self.features.len();
        let mut i: usize = 0;
        while i < n
            invariant
                n == self.features@.len(),
                self.features@ == before,
                old(self).features@ == before,
                before.no_duplicates(),
                i <= n,
                forall|j: int| 0 <= j < i ==> self.features@[j] != feature,
            decreases n - i,
        {
            if self.features[i] == feature {
                self.features.remove(i);
                proof {
                    let ii = i as int;
                    let after = self.features@;
                    assert(after =~= before.remove(ii));
                    assert forall|a: int, b: int| 0 <= a < b < after.len() implies after[a] != after[b] by {
                        let oa = if a < ii { a } else { a + 1 };
                        let ob = if b < ii { b } else { b + 1 };
                        assert(before[oa] != before[ob]);
                    }
                    assert forall|x: Feature| #[trigger] after.to_set().contains(x) <==> before.to_set().remove(feature).contains(x) by {
                        if after.contains(x) {
                            let k = choose|k: int| 0 <= k < after.len() && after[k] == x;
                            let ok = if k < ii { k } else { k + 1 };
                            assert(before[ok] == x);
                            assert(before[ok] != before[ii]);
                        }
                        if before.contains(x) && x != feature {
                            let k = choose|k: int| 0 <= k < before.len() && before[k] == x;
                            assert(k != ii);
                            let nk = if k < ii { k } else { k - 1 };
                            assert(after[nk] == x);
                        }
                    }
                    assert(after.to_set() =~= before.to_set().remove(feature));
                    assert(self@ == after.to_set());
                    assert(old(self)@ == before.to_set());
                }
                return;
            }
            i = i + 1;
        }
        assert(self@ =~= before.to_set().remove(feature));
    }

    /// Whether `feature` is in the set.
    pub fn has(&self, feature: Feature) -> (r: bool)
        ensures
            r == self@.contains(feature),
    {
        let n = self.features.len();
        let mut i: usize = 0;
        while i < n
            invariant
                n == self.features@.len(),
                i <= n,
                forall|j: int| 0 <= j < i ==> self.features@[j] != feature,
            decreases n - i,
        {
            if self.features[i] == feature {
                assert(self.features@.contains(feature));
                return true;
            }
            i = i + 1;
        }
        false
    }

    /// The features in both sets.
    pub fn intersect(&self, other: &FeatureSet) -> (r: FeatureSet)
        requires
            self.wf(),
        ensures
            r.wf(),
            r@ == self@.intersect(other@),
    {
        let mut out: Vec<Feature> = Vec::new();
        let n = self.features.len();
        let mut i: usize = 0;
        while i < n
            invariant
                n == self.features@.len(),
                self.wf(),
                i <= n,
                out@.no_duplicates(),
                out@.to_set() == self.features@.subrange(0, i as int).to_set().intersect(other@),
                forall|x: Feature| #[trigger] out@.contains(x) ==> self.features@.subrange(0, i as int).contains(x),
            decreases n - i,
        {
            let f = self.features[i];
            let ghost before = out@;
            let ghost pre = self.features@.subrange(0, i as int);
            proof {
                assert(self.features@.subrange(0, i + 1) =~= pre.push(f));
                pre.lemma_push_to_set_commute(f);
                if pre.contains(f) {
                    let k = choose|k: int| 0 <= k < pre.len() && pre[k] == f;
                    assert(self.features@[k] == self.features@[i as int]);
                }
            }
            if other.has(f) {
                out.push(f);
                proof {
                    before.lemma_push_to_set_commute(f);
                    assert forall|a: int, b: int| 0 <= a < b < out@.len() implies out@[a] != out@[b] by {
                        if b == before.len() {
                            assert(before.contains(before[a]));
                        }
                    }
                    assert forall|x: Feature| #[trigger] out@.contains(x) implies self.features@.subrange(0, i + 1).contains(x) by {
                        if x != f {
                            let k = choose|k: int| 0 <= k < out@.len() && out@[k] == x;
                            assert(before[k] == x);
                            assert(before.contains(x));
                            let j = choose|j: int| 0 <= j < pre.len() && pre[j] == x;
                            assert(self.features@.subrange(0, i + 1)[j] == x);
                        } else {
                            assert(self.features@.subrange(0, i + 1)[i as int] == x);
                        }
                    }
                }
            } else {
                proof {
                    assert forall|x: Feature| #[trigger] out@.contains(x) implies self.features@.subrange(0, i + 1).contains(x) by {
                        let j = choose|j: int| 0 <= j < pre.len() && pre[j] == x;
                        assert(self.features@.subrange(0, i + 1)[j] == x);
                    }
                }
            }
            proof {
                assert(out@.to_set() =~= self.features@.subrange(0, i + 1).to_set().intersect(other@));
            }
            i = i + 1;
        }
        proof {
            assert(self.features@.subrange(0, n as int) =~= self.features@);
        }
        FeatureSet { features: out }
    }

    /// The number of features.
    pub fn len(&self) -> (r: usize)
        requires
            self.wf(),
        ensures
            r == self@.len(),
    {
        proof {
            self.features@.unique_seq_to_set();
        }
        self.features.len()
    }

    /// Whether the set is empty.
    pub fn is_empty(&self) -> (r: bool)
        requires
            self.wf(),
        ensures
            r == (self@.len() == 0),
    {
        proof {
            self.features@.unique_seq_to_set();
        }
        self.features.len() == 0
    }
}

/// Negotiation result
#[derive(Debug, Clone)]
pub struct NegotiationResult {
    pub version: u8,
    pub features: FeatureSet,
}

/// Protocol negotiator
#[derive(Debug, Clone)]
pub struct ProtocolNegotiator {
    supported_versions: Vec<u8>,
    supported_features: FeatureSet,
}

/// `v` is offered by both sides.
pub open spec fn common_version(ours: Seq<u8>, theirs: Seq<u8>, v: u8) -> bool {
    ours.contains(v) && theirs.contains(v)
}

/// The highest version that both sides offer, if any.
pub open spec fn best_version(ours: Seq<u8>, theirs: Seq<u8>, r: Option<u8>) -> bool {
    match r {
        Some(v) => common_version(ours, theirs, v) && forall|w: u8| #[trigger] common_version(ours, theirs, w) ==> w <= v,
        None => forall|w: u8| !#[trigger] common_version(ours, theirs, w),
    }
}

impl ProtocolNegotiator {
    /// The negotiator's feature set is well formed.
    pub closed spec fn wf(&self) -> bool {
        self.supported_features.wf()
    }

    /// The versions this side supports.
    pub closed spec fn versions(&self) -> Seq<u8> {
        self.supported_versions@
    }

    /// The features this side supports.
    pub closed spec fn features(&self) -> Set<Feature> {
        self.supported_features@
    }

    /// Supports protocol version 1 and every feature.
    pub fn new() -> (r: Self)
        ensures
            r.wf(),
            r.versions() == seq![MIN_SUPPORTED_VERSION, CURRENT_VERSION],
            r.features() == all_features(),
    {
        let mut supported_features = FeatureSet::with_defaults();
        supported_features.add(Feature::TcpTransport);
        supported_features.add(Feature::QuicTransport);
        supported_features.add(Feature::Aes256Gcm);
        supported_features.add(Feature::Lz4Compression);
        supported_features.add(Feature::BrotliCompression);
        supported_features.add(Feature::ZeroRttResumption);
        supported_features.add(Feature::ConnectionMigration);
        supported_features.add(Feature::ProofOfWork);
        let mut supported_versions: Vec<u8> = Vec::new();
        supported_versions.push(MIN_SUPPORTED_VERSION);
        supported_versions.push(CURRENT_VERSION);
        let r = ProtocolNegotiator { supported_versions, supported_features };
        assert(r.versions() =~= seq![MIN_SUPPORTED_VERSION, CURRENT_VERSION]);
        assert(r.features() =~= all_features());
        r
    }

    /// The highest common version and the common features, or none without a common version.
    pub fn negotiate(&self, client_versions: &[u8], client_features: &FeatureSet) -> (r: Option<
        NegotiationResult,
    >)
        requires
            self.wf(),
        ensures
            r is None <==> best_version(self.versions(), client_versions@, None),
            r matches Some(res) ==> best_version(self.versions(), client_versions@, Some(res.version))
                && res.features.wf() && res.features@ == self.features().intersect(client_features@),
    {
        let version = match self.select_version(client_versions) {
            Some(v) => v,
            None => {
                return None;
            },
        };
        let features = self.supported_features.intersect(client_features);
        Some(NegotiationResult { version, features })
    }

    /// The highest version that both sides support, if any.
    pub fn select_version(&self, client_versions: &[u8]) -> (r: Option<u8>)
        ensures
            best_version(self.versions(), client_versions@, r),
    {
        let mut best: Option<u8> = None;
        let n = self.supported_versions.len();
        let mut i: usize = 0;
        while i < n
            invariant
                n == self.supported_versions@.len(),
                i <= n,
                best_version(self.supported_versions@.subrange(0, i as int), client_versions@, best),
            decreases n - i,
        {
            let v = self.supported_versions[i];
            let ghost pre = self.supported_versions@.subrange(0, i as int);
            let ghost post = self.supported_versions@.subrange(0, i + 1);
            proof {
                assert(post =~= pre.push(v));
                assert forall|w: u8| #[trigger] common_version(post, client_versions@, w) <==> (
                common_version(pre, client_versions@, w) || (w == v && client_versions@.contains(v))) by {
                    if post.contains(w) {
                        let k = choose|k: int| 0 <= k < post.len() && post[k] == w;
                        if k < pre.len() {
                            assert(pre[k] == w);
                        }
                    }
                    if pre.contains(w) {
                        let k = choose|k: int| 0 <= k < pre.len() && pre[k] == w;
                        assert(post[k] == w);
                    }
                    if w == v {
                        assert(post[i as int] == w);
                    }
                }
            }
            if Self::offered(client_versions, v) {
                match best {
                    Some(b) => {
                        if v > b {
                            best = Some(v);
                        }
                    },
                    None => {
                        best = Some(v);
                    },
                }
            }
            i = i + 1;
        }
        proof {
            assert(self.supported_versions@.subrange(0, n as int) =~= self.supported_versions@);
        }
        best
    }

    fn offered(versions: &[u8], v: u8) -> (r: bool)
        ensures
            r == versions@.contains(v),
    {
        let n = versions.len();
        let mut i: usize = 0;
        while i < n
            invariant
                n == versions@.len(),
                i <= n,
                forall|j: int| 0 <= j < i ==> versions@[j] != v,
            decreases n - i,
        {
            if versions[i] == v {
                assert(versions@[i as int] == v);
                return true;
            }
            i = i + 1;
        }
        false
    }

    /// The versions this side supports.
    pub fn supported_versions(&self) -> (r: &[u8])
        ensures
            r@ == self.versions(),
    {
        self.supported_versions.as_slice()
    }

    /// The features this side supports.
    pub fn supported_features(&self) -> (r: &FeatureSet)
        requires
            self.wf(),
        ensures
            r.wf(),
            r@ == self.features(),
    {
        &self.supported_features
    }

    /// Whether `version` is supported.
    pub fn supports_version(&self, version: u8) -> (r: bool)
        ensures
            r == self.versions().contains(version),
    {
        Self::offered(self.supported_versions.as_slice(), version)
    }

    /// Whether `feature` is supported.
    pub fn supports_feature(&self, feature: Feature) -> (r: bool)
        ensures
            r == self.features().contains(feature),
    {
        self.supported_features.has(feature)
    }
}

impl Default for FeatureSet {
    fn default() -> (r: Self)
        ensures
            r.wf(),
            r@ == default_features(),
    {
        Self::with_defaults()
    }
}

impl Default for ProtocolNegotiator {
    fn default() -> (r: Self)
        ensures
            r.wf(),
            r.versions() == seq![MIN_SUPPORTED_VERSION, CURRENT_VERSION],
            r.features() == all_features(),
    {
        Self::new()
    }
}

/// The two sides of a negotiation agree: the common features do not depend on which side
/// computes them, and the chosen version is offered by both and is the highest such.
pub proof fn lemma_negotiation_symmetric(ours: Seq<u8>, theirs: Seq<u8>, a: Set<Feature>, b: Set<Feature>, v: u8)
    requires
        best_version(ours, theirs, Some(v)),
    ensures
        a.intersect(b) == b.intersect(a),
        best_version(theirs, ours, Some(v)),
        ours.contains(v) && theirs.contains(v),
{
    assert(a.intersect(b) =~= b.intersect(a));
    assert forall|w: u8| #[trigger] common_version(theirs, ours, w) implies w <= v by {
        assert(common_version(ours, theirs, w));
    }
}

} // verus!
