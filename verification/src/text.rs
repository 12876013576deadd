//! Decimal and hexadecimal text of integers.
use vstd::prelude::*;

verus! {

/// The character of the digit `d` (0 to 15), in lower case for the letters.
pub open spec fn digit_char(d: nat) -> char {
    if d == 0 { '0' }
    else if d == 1 { '1' }
    else if d == 2 { '2' }
    else if d == 3 { '3' }
    else if d == 4 { '4' }
    else if d == 5 { '5' }
    else if d == 6 { '6' }
    else if d == 7 { '7' }
    else if d == 8 { '8' }
    else if d == 9 { '9' }
    else if d == 10 { 'a' }
    else if d == 11 { 'b' }
    else if d == 12 { 'c' }
    else if d == 13 { 'd' }
    else if d == 14 { 'e' }
    else { 'f' }
}

/// The decimal digits of `v`, without leading zeros.
pub open spec fn decimal(v: nat) -> Seq<char>
    decreases v,
{
    if v < 10 {
        seq![digit_char(v)]
    } else {
        decimal(v / 10).push(digit_char(v % 10))
    }
}

/// The last `n` hexadecimal digits of `v`, padded with zeros.
pub open spec fn hex_padded(v: nat, n: nat) -> Seq<char>
    decreases n,
{
    if n == 0 {
        Seq::empty()
    } else {
        hex_padded(v / 16, (n - 1) as nat).push(digit_char(v % 16))
    }
}

/// The text of the digit `d`.
pub fn digit_str(d: u64) -> (r: &'static str)
    requires
        d < 16,
    ensures
        r@ == seq![digit_char(d as nat)],
{
    proof {
        reveal_strlit("0");
        reveal_strlit("1");
        reveal_strlit("2");
        reveal_strlit("3");
        reveal_strlit("4");
        reveal_strlit("5");
        reveal_strlit("6");
        reveal_strlit("7");
        reveal_strlit("8");
        reveal_strlit("9");
        reveal_strlit("a");
        reveal_strlit("b");
        reveal_strlit("c");
        reveal_strlit("d");
        reveal_strlit("e");
        reveal_strlit("f");
    }
    let r = if d == 0 { "0" }
    else if d == 1 { "1" }
    else if d == 2 { "2" }
    else if d == 3 { "3" }
    else if d == 4 { "4" }
    else if d == 5 { "5" }
    else if d == 6 { "6" }
    else if d == 7 { "7" }
    else if d == 8 { "8" }
    else if d == 9 { "9" }
    else if d == 10 { "a" }
    else if d == 11 { "b" }
    else if d == 12 { "c" }
    else if d == 13 { "d" }
    else if d == 14 { "e" }
    else { "f" };
    assert(r@ =~= seq![digit_char(d as nat)]);
    r
}

/// The decimal text of `v`.
pub fn decimal_string(v: u64) -> (r: String)
    ensures
        r@ == decimal(v as nat),
    decreases v,
{
    if v < 10 {
        String::from_str(digit_str(v))
    } else {
        let mut s = decimal_string(v / 10);
        s.append(digit_str(v % 10));
        s
    }
}

/// The last `n` hexadecimal digits of `v`, in lower case and padded with zeros.
pub fn hex_string(v: u128, n: usize) -> (r: String)
    ensures
        r@ == hex_padded(v as nat, n as nat),
    decreases n,
{
    if n == 0 {
        let r = String::new();
        assert(r@ =~= hex_padded(v as nat, 0));
        r
    } else {
        let mut s = hex_string(v / 16, n - 1);
        s.append(digit_str((v % 16) as u64));
        s
    }
}

/// `a` followed by `b`.
pub fn concat(a: &str, b: &str) -> (r: String)
    ensures
        r@ == a@ + b@,
{
    let mut s = String::from_str(a);
    s.append(b);
    s
}

} // verus!
