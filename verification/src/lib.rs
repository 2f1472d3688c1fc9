//! A sans-I/O implementation of the client side of the X Input Method
//! protocol: framing, message transport over client messages and the
//! connection handshake, each stated and proved against a contract.
pub mod connection;
pub mod frame;
pub mod message;
pub mod protocol;
pub mod xproto;

use vstd::prelude::*;

verus! {

/// `val` rounded up to the next multiple of `factor`.
pub open spec fn spec_roundup(val: int, factor: int) -> int {
    (val + factor - 1) / factor * factor
}

/// Round `val` up to the nearest multiple of `factor`.
pub fn roundup(val: usize, factor: usize) -> (r: usize)
    requires
        factor > 0,
        val + factor - 1 <= usize::MAX,
    ensures
        r == spec_roundup(val as int, factor as int),
        r % factor == 0,
        val <= r < val + factor,
{
    let sum = val + (factor - 1);
    let q = sum / factor;
    proof {
        lemma_roundup_bounds(val as int, factor as int);
        vstd::arithmetic::div_mod::lemma_fundamental_div_mod(sum as int, factor as int);
        vstd::arithmetic::mul::lemma_mul_is_commutative(q as int, factor as int);
    }
    q * factor
}

/// The rounded value is the least multiple of `factor` that is at least `val`.
pub proof fn lemma_roundup_bounds(val: int, factor: int)
    requires
        factor > 0,
        val >= 0,
    ensures
        spec_roundup(val, factor) % factor == 0,
        val <= spec_roundup(val, factor) < val + factor,
{
    let s = val + factor - 1;
    let q = s / factor;
    vstd::arithmetic::div_mod::lemma_fundamental_div_mod(s, factor);
    vstd::arithmetic::div_mod::lemma_mod_multiples_basic(q, factor);
    assert(0 <= s % factor < factor) by {
        vstd::arithmetic::div_mod::lemma_mod_pos_bound(s, factor);
    }
    assert(q * factor == factor * q) by {
        vstd::arithmetic::mul::lemma_mul_is_commutative(q, factor);
    }
}

} // verus!
