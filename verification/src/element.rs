//! Values that the replicated data types store and compare by their abstract value,
//! and the lexicographic order on strings that breaks ties between replicas.
use vstd::prelude::*;

verus! {

/// A value that can be compared with another and duplicated, both by its view.
pub trait Element: View + Sized {
    /// Whether two values have the same view.
    fn same(&self, other: &Self) -> (r: bool)
        ensures
            r == (self@ == other@),
    ;

    /// A copy with the same view.
    fn duplicate(&self) -> (r: Self)
        ensures
            r@ == self@,
    ;
}

impl Element for String {
    fn same(&self, other: &Self) -> (r: bool) {
        *self == *other
    }

    fn duplicate(&self) -> (r: Self) {
        self.clone()
    }
}

impl Element for u64 {
    fn same(&self, other: &Self) -> (r: bool) {
        *self == *other
    }

    fn duplicate(&self) -> (r: Self) {
        *self
    }
}

impl Element for i32 {
    fn same(&self, other: &Self) -> (r: bool) {
        *self == *other
    }

    fn duplicate(&self) -> (r: Self) {
        *self
    }
}

impl Element for Vec<u8> {
    fn same(&self, other: &Self) -> (r: bool) {
        let n = self.len();
        if n != other.len() {
            return false;
        }
        let mut i: usize = 0;
        while i < n
            invariant
                n == self@.len(),
                n == other@.len(),
                i <= n,
                forall|j: int| 0 <= j < i ==> self@[j] == other@[j],
            decreases n - i,
        {
            if self[i] != other[i] {
                return false;
            }
            i = i + 1;
        }
        assert(self@ =~= other@);
        true
    }

    fn duplicate(&self) -> (r: Self) {
        let r = self.clone();
        assert(r@ =~= self@);
        r
    }
}

/// Strict lexicographic order on character sequences, from position `i` on,
/// comparing characters by their code points (the order of `str` in Rust).
pub open spec fn lex_gt_at(a: Seq<char>, b: Seq<char>, i: int) -> bool
    decreases a.len() - i,
{
    if i < 0 {
        false
    } else if i >= b.len() {
        i < a.len()
    } else if i >= a.len() {
        false
    } else if a[i] != b[i] {
        (a[i] as int) > (b[i] as int)
    } else {
        lex_gt_at(a, b, i + 1)
    }
}

/// `a` comes strictly after `b` in lexicographic order.
pub open spec fn lex_gt(a: Seq<char>, b: Seq<char>) -> bool {
    lex_gt_at(a, b, 0)
}

/// Whether `a` is strictly greater than `b` in lexicographic order.
pub fn str_greater(a: &String, b: &String) -> (r: bool)
    ensures
        r == lex_gt(a@, b@),
{
    let sa = a.as_str();
    let sb = b.as_str();
    let na = sa.unicode_len();
    let nb = sb.unicode_len();
    let mut i: usize = 0;
    while i < na && i < nb
        invariant
            na == a@.len(),
            nb == b@.len(),
            sa@ == a@,
            sb@ == b@,
            i <= na,
            i <= nb,
            lex_gt(a@, b@) == lex_gt_at(a@, b@, i as int),
        decreases na - i,
    {
        let ca = sa.get_char(i);
        let cb = sb.get_char(i);
        if ca != cb {
            return (ca as u32) > (cb as u32);
        }
        i = i + 1;
    }
    i < na && i >= nb
}

/// Whether two strings hold the same characters.
pub fn str_equal(a: &str, b: &str) -> (r: bool)
    ensures
        r == (a@ == b@),
{
    let na = a.unicode_len();
    let nb = b.unicode_len();
    if na != nb {
        return false;
    }
    let mut i: usize = 0;
    while i < na
        invariant
            na == a@.len(),
            nb == b@.len(),
            na == nb,
            i <= na,
            forall|j: int| 0 <= j < i ==> a@[j] == b@[j],
        decreases na - i,
    {
        if a.get_char(i) != b.get_char(i) {
            return false;
        }
        i = i + 1;
    }
    assert(a@ =~= b@);
    true
}

/// Nothing is greater than itself.
pub proof fn lemma_lex_irreflexive(a: Seq<char>, i: int)
    requires
        0 <= i,
    ensures
        !lex_gt_at(a, a, i),
    decreases a.len() - i,
{
    if i < a.len() {
        lemma_lex_irreflexive(a, i + 1);
    }
}

/// Of two sequences, at most one is greater than the other.
pub proof fn lemma_lex_asymmetric(a: Seq<char>, b: Seq<char>, i: int)
    requires
        0 <= i,
    ensures
        lex_gt_at(a, b, i) ==> !lex_gt_at(b, a, i),
    decreases a.len() - i,
{
    if i < a.len() && i < b.len() && a[i] == b[i] {
        lemma_lex_asymmetric(a, b, i + 1);
    }
}

/// Two sequences neither of which is greater than the other agree from `i` on.
pub proof fn lemma_lex_total(a: Seq<char>, b: Seq<char>, i: int)
    requires
        0 <= i <= a.len(),
        i <= b.len(),
        !lex_gt_at(a, b, i),
        !lex_gt_at(b, a, i),
    ensures
        a.len() == b.len(),
        forall|j: int| i <= j < a.len() ==> a[j] == b[j],
    decreases a.len() - i,
{
    if i < a.len() && i < b.len() {
        if a[i] == b[i] {
            lemma_lex_total(a, b, i + 1);
        } else {
            assert((a[i] as int) != (b[i] as int));
        }
    }
}

/// The lexicographic order is transitive.
pub proof fn lemma_lex_transitive(a: Seq<char>, b: Seq<char>, c: Seq<char>, i: int)
    requires
        0 <= i,
        lex_gt_at(a, b, i),
        lex_gt_at(b, c, i),
    ensures
        lex_gt_at(a, c, i),
    decreases a.len() - i,
{
    if i < a.len() && i < b.len() && i < c.len() && a[i] == b[i] && b[i] == c[i] {
        lemma_lex_transitive(a, b, c, i + 1);
    }
}

/// Equal sequences when neither is greater than the other.
pub proof fn lemma_lex_equal(a: Seq<char>, b: Seq<char>)
    requires
        !lex_gt(a, b),
        !lex_gt(b, a),
    ensures
        a == b,
{
    lemma_lex_total(a, b, 0);
    assert(a =~= b);
}

} // verus!
