//! Big-endian byte encoding of counters and indices, as the stores keep them.
use vstd::prelude::*;

verus! {

/// 256 to the power `n`.
pub open spec fn byte_power(n: nat) -> nat
    decreases n,
{
    if n == 0 { 1 } else { 256 * byte_power((n - 1) as nat) }
}

/// The number that the bytes `s` write in big-endian order.
pub open spec fn be_value(s: Seq<u8>) -> nat
    decreases s.len(),
{
    if s.len() == 0 { 0 } else { be_value(s.drop_last()) * 256 + s.last() as nat }
}

/// The last `n` bytes of `v` in big-endian order.
pub open spec fn be_bytes(v: nat, n: nat) -> Seq<u8>
    decreases n,
{
    if n == 0 { Seq::empty() } else { be_bytes(v / 256, (n - 1) as nat).push((v % 256) as u8) }
}

/// `n` bytes hold any number below 256 to the power `n`.
pub proof fn lemma_be_value_bound(s: Seq<u8>)
    ensures
        be_value(s) < byte_power(s.len()),
    decreases s.len(),
{
    if s.len() > 0 {
        let d = s.drop_last();
        lemma_be_value_bound(d);
        let a = be_value(d);
        let p = byte_power(d.len());
        let b = s.last();
        assert(a * 256 + b < 256 * p) by (nonlinear_arith)
            requires
                a < p,
                0 <= b < 256,
        ;
    }
}

/// Decoding the `n` bytes of a number below 256 to the power `n` gives the number back.
pub proof fn lemma_be_roundtrip(v: nat, n: nat)
    requires
        v < byte_power(n),
    ensures
        be_bytes(v, n).len() == n,
        be_value(be_bytes(v, n)) == v,
    decreases n,
{
    if n > 0 {
        let p = byte_power((n - 1) as nat);
        assert(v / 256 < p) by (nonlinear_arith)
            requires
                v < 256 * p,
        ;
        lemma_be_roundtrip(v / 256, (n - 1) as nat);
        let s = be_bytes(v, n);
        assert(s.drop_last() =~= be_bytes(v / 256, (n - 1) as nat));
    }
}

/// 2 to the power 64 is 256 to the power 8.
pub proof fn lemma_u64_bytes()
    ensures
        byte_power(8) == 0x1_0000_0000_0000_0000,
{
    reveal_with_fuel(byte_power, 9);
}

/// The last `n` bytes of `v`, most significant first.
pub fn encode_be(v: u64, n: usize) -> (r: Vec<u8>)
    ensures
        r@ == be_bytes(v as nat, n as nat),
    decreases n,
{
    if n == 0 {
        let r: Vec<u8> = Vec::new();
        assert(r@ =~= be_bytes(v as nat, 0));
        r
    } else {
        let mut r = encode_be(v / 256, n - 1);
        r.push((v % 256) as u8);
        r
    }
}

/// The eight bytes of `v`, most significant first (`u64::to_be_bytes`).
pub fn u64_to_be(v: u64) -> (r: Vec<u8>)
    ensures
        r@ == be_bytes(v as nat, 8),
        r@.len() == 8,
        be_value(r@) == v,
{
    proof {
        lemma_u64_bytes();
        lemma_be_roundtrip(v as nat, 8);
    }
    encode_be(v, 8)
}

/// The number that eight bytes write, most significant first (`u64::from_be_bytes`).
pub fn u64_from_be(b: &[u8]) -> (r: u64)
    requires
        b@.len() == 8,
    ensures
        r == be_value(b@),
{
    let mut acc: u64 = 0;
    let mut i: usize = 0;
    while i < 8
        invariant
            b@.len() == 8,
            i <= 8,
            acc == be_value(b@.subrange(0, i as int)),
        decreases 8 - i,
    {
        let ghost pre = b@.subrange(0, i as int);
        proof {
            lemma_be_value_bound(pre);
            lemma_u64_bytes();
            let p = byte_power(i as nat);
            assert(p <= byte_power(7)) by {
                lemma_byte_power_mono(i as nat, 7);
            }
            reveal_with_fuel(byte_power, 8);
            assert(acc * 256 + 255 < 0x1_0000_0000_0000_0000) by (nonlinear_arith)
                requires
                    acc < p,
                    p <= 0x100_0000_0000_0000,
            ;
            let post = b@.subrange(0, i + 1);
            assert(post.drop_last() =~= pre);
        }
        acc = acc * 256 + b[i] as u64;
        i = i + 1;
    }
    assert(b@.subrange(0, 8) =~= b@);
    acc
}

/// Powers of 256 grow with the exponent.
pub proof fn lemma_byte_power_mono(a: nat, b: nat)
    requires
        a <= b,
    ensures
        byte_power(a) <= byte_power(b),
    decreases b,
{
    if a < b {
        lemma_byte_power_mono(a, (b - 1) as nat);
    }
}

/// Reading back the eight bytes written for `v` gives `v`.
pub proof fn lemma_u64_roundtrip(v: u64)
    ensures
        be_bytes(v as nat, 8).len() == 8,
        be_value(be_bytes(v as nat, 8)) == v,
{
    lemma_u64_bytes();
    lemma_be_roundtrip(v as nat, 8);
}

} // verus!
