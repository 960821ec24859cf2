use vstd::arithmetic::div_mod::{
    lemma_mod_add_multiples_vanish, lemma_mod_sub_multiples_vanish, lemma_small_mod,
};
use vstd::prelude::*;

verus! {

/// The number of distinct `u64` values.
pub open spec fn modulus() -> int {
    u64::MAX as int + 1
}

/// The `u64` that a mathematical integer wraps to: its residue modulo 2^64.
pub open spec fn wrapped(x: int) -> u64 {
    (x % modulus()) as u64
}

/// A value in `0..2^64` wraps to itself, and so do its neighbours one
/// modulus above and below.
proof fn lemma_wrapped_near(y: int)
    requires
        0 <= y < modulus(),
    ensures
        wrapped(y) == y,
        wrapped(y + modulus()) == y,
        wrapped(y - modulus()) == y,
{
    lemma_small_mod(y as nat, modulus() as nat);
    lemma_mod_add_multiples_vanish(y, modulus());
    lemma_mod_sub_multiples_vanish(y, modulus());
}

/// Returns `left + right`, wrapping around on overflow.
pub fn add(left: u64, right: u64) -> (r: u64)
    ensures
        r == wrapped(left + right),
        left + right <= u64::MAX ==> r == left + right,
        left + right > u64::MAX ==> r == left + right - modulus(),
{
    proof {
        if left + right > u64::MAX {
            lemma_wrapped_near(left + right - modulus());
        } else {
            lemma_wrapped_near(left + right);
        }
    }
    left.wrapping_add(right)
}

/// Returns `left - right`, wrapping around when `right > left`.
pub fn subtract(left: u64, right: u64) -> (r: u64)
    ensures
        r == wrapped(left - right),
        right <= left ==> r == left - right,
        right > left ==> r == left - right + modulus(),
{
    proof {
        if left < right {
            lemma_wrapped_near(left - right + modulus());
        } else {
            lemma_wrapped_near(left - right);
        }
    }
    left.wrapping_sub(right)
}

/// Returns `left * right`, wrapping around on overflow.
pub fn multiply(left: u64, right: u64) -> (r: u64)
    ensures
        r == wrapped(left * right),
        left * right <= u64::MAX ==> r == left * right,
{
    left.wrapping_mul(right)
}

/// Returns the integer quotient `left / right`, or `None` when `right` is zero.
pub fn divide(left: u64, right: u64) -> (r: Option<u64>)
    ensures
        right == 0 ==> r is None,
        right != 0 ==> r == Some((left / right) as u64),
{
    if right == 0 {
        None
    } else {
        Some(left / right)
    }
}

/// When the sum of `a` and `b` fits in a `u64`, `add(a, b)` is exactly that sum.
pub proof fn lemma_add_exact(a: u64, b: u64)
    requires
        a + b <= u64::MAX,
    ensures
        wrapped(a + b) == a + b,
{
    lemma_wrapped_near(a + b);
}

/// `add(a, b)` and `add(b, a)` give the same value.
pub proof fn lemma_add_commutative(a: u64, b: u64)
    ensures
        wrapped(a + b) == wrapped(b + a),
{
}

/// Subtracting a value from itself gives zero.
pub proof fn lemma_subtract_self(a: u64)
    ensures
        wrapped(a - a) == 0,
{
    lemma_wrapped_near(0);
}

/// Multiplying by zero gives zero, and multiplying by one gives the value back.
pub proof fn lemma_multiply_identities(a: u64)
    ensures
        wrapped(a * 0) == 0,
        wrapped(a * 1) == a,
{
    lemma_wrapped_near(0);
    lemma_wrapped_near(a as int);
}

} // verus!
