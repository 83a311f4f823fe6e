//! Decimal rendering of unsigned integers.

use vstd::prelude::*;
use vstd::arithmetic::div_mod::lemma_fundamental_div_mod;
use vstd::string::StringExecFns;
use crate::hex::hex_digit;
use crate::hex::hex_str;
use crate::hex::lemma_hex_digit_injective;

verus! {

/// The decimal rendering of a non-negative integer, most significant digit
/// first, with no leading zeros (a lone zero renders as `0`).
pub open spec fn dec_spec(n: int) -> Seq<char>
    recommends
        0 <= n,
    decreases n,
{
    if n < 10 {
        seq![hex_digit(n)]
    } else {
        dec_spec(n / 10).push(hex_digit(n % 10))
    }
}

/// A decimal rendering is never empty, and is a single character exactly for
/// values below ten.
pub proof fn lemma_dec_len(n: int)
    requires
        0 <= n,
    ensures
        dec_spec(n).len() >= 1,
        n < 10 <==> dec_spec(n).len() == 1,
    decreases n,
{
    if n >= 10 {
        lemma_dec_len(n / 10);
    }
}

/// Law: distinct non-negative integers have distinct decimal renderings.
pub proof fn lemma_dec_injective(a: int, b: int)
    requires
        0 <= a,
        0 <= b,
        dec_spec(a) == dec_spec(b),
    ensures
        a == b,
    decreases a,
{
    if a < 10 && b < 10 {
        assert(dec_spec(a)[0] == hex_digit(a));
        assert(dec_spec(b)[0] == hex_digit(b));
        lemma_hex_digit_injective(a, b);
    } else if a < 10 {
        lemma_dec_len(a);
        lemma_dec_len(b);
    } else if b < 10 {
        lemma_dec_len(a);
        lemma_dec_len(b);
    } else {
        assert(dec_spec(a).last() == hex_digit(a % 10));
        assert(dec_spec(b).last() == hex_digit(b % 10));
        lemma_hex_digit_injective(a % 10, b % 10);
        assert(dec_spec(a / 10) =~= dec_spec(a).drop_last());
        assert(dec_spec(b / 10) =~= dec_spec(b).drop_last());
        lemma_dec_injective(a / 10, b / 10);
        lemma_fundamental_div_mod(a, 10);
        lemma_fundamental_div_mod(b, 10);
    }
}

/// Appends the decimal rendering of `n` to `s`.
pub fn push_dec(s: &mut String, n: u64)
    ensures
        final(s)@ == old(s)@ + dec_spec(n as int),
    decreases n,
{
    let d: u8 = (n % 10) as u8;
    if n >= 10 {
        push_dec(s, n / 10);
    }
    s.append(hex_str(d));
    proof {
        assert(s@ =~= old(s)@ + dec_spec(n as int));
    }
}

/// The decimal rendering of `n` as a fresh string.
pub fn decimal_string(n: u64) -> (r: String)
    ensures
        r@ == dec_spec(n as int),
{
    let mut r = String::new();
    push_dec(&mut r, n);
    proof {
        assert(r@ =~= dec_spec(n as int));
    }
    r
}

} // verus!
