//! Power-of-two size classes.
//!
//! The texture cache is indexed by the power-of-two exponent (the *size
//! class*) of a texture's width and height.  This module computes exact
//! powers of two and the floor of the base-two logarithm, the two
//! operations the cache's key space is built from.

use vstd::prelude::*;
use vstd::arithmetic::power2::{
    pow2,
    lemma_pow2_adds,
    lemma_pow2_strictly_increases,
    lemma_pow2_unfold,
    lemma2_to64,
};

verus! {

/// The size class of a dimension, as a mathematical function: the largest
/// e with 2^e <= x (and 0 for x == 0, which no texture can have).
pub open spec fn size_class(x: nat) -> nat
    decreases x,
{
    if x <= 1 {
        0
    } else {
        1 + size_class(x / 2)
    }
}

/// The size class is the floor of the base-two logarithm: 2^class fits in
/// the dimension and the next power of two does not.
pub proof fn lemma_size_class_bounds(x: nat)
    requires
        x >= 1,
    ensures
        pow2(size_class(x)) <= x < pow2(size_class(x) + 1),
    decreases x,
{
    lemma2_to64();
    if x > 1 {
        lemma_size_class_bounds(x / 2);
        lemma_pow2_unfold(size_class(x));
        lemma_pow2_unfold(size_class(x) + 1);
    }
}

/// Any exponent whose power-of-two bounds bracket the dimension is its
/// size class: the class is unique.
pub proof fn lemma_size_class_unique(x: nat, e: nat)
    requires
        x >= 1,
        pow2(e) <= x < pow2(e + 1),
    ensures
        e == size_class(x),
{
    lemma_size_class_bounds(x);
    let c = size_class(x);
    if e < c {
        if e + 1 < c {
            lemma_pow2_strictly_increases(e + 1, c);
        }
        assert(false);
    }
    if e > c {
        if c + 1 < e {
            lemma_pow2_strictly_increases(c + 1, e);
        }
        assert(false);
    }
}

/// Size classes of 32-bit dimensions stay below 32.
pub proof fn lemma_size_class_small(x: nat)
    requires
        1 <= x <= u32::MAX,
    ensures
        size_class(x) < 32,
{
    lemma_size_class_bounds(x);
    lemma2_to64();
    if size_class(x) >= 32 {
        if size_class(x) > 32 {
            lemma_pow2_strictly_increases(32, size_class(x));
        }
        assert(false);
    }
}

/// 2^e for exponents small enough that the result fits in a `u32`.
pub fn pow2_u32(e: u32) -> (r: u32)
    requires
        e < 32,
    ensures
        r == pow2(e as nat),
{
    proof {
        lemma2_to64();
    }
    let mut i: u32 = 0;
    let mut p: u32 = 1;
    while i < e
        invariant
            i <= e < 32,
            p == pow2(i as nat),
        decreases e - i,
    {
        proof {
            lemma2_to64();
            if (i + 1) as nat <= 31 {
                lemma_pow2_strictly_increases((i + 1) as nat, 32);
            }
        }
        p = p * 2;
        i = i + 1;
    }
    p
}

/// The size class of a dimension: the largest e with 2^e <= x.
pub fn log2_floor(x: u32) -> (r: u32)
    requires
        x >= 1,
    ensures
        r == size_class(x as nat),
        pow2(r as nat) <= x < pow2((r + 1) as nat),
        r < 32,
{
    proof {
        lemma2_to64();
    }
    let mut e: u32 = 0;
    let mut p: u32 = 1;
    while p <= x / 2
        invariant
            x >= 1,
            1 <= p <= x,
            p == pow2(e as nat),
            e < 32,
        decreases x - p,
    {
        proof {
            lemma_pow2_adds(e as nat, 1);
            lemma2_to64();
        }
        p = p * 2;
        e = e + 1;
        proof {
            assert(e < 32) by {
                if e as nat >= 32 {
                    if e as nat > 32 {
                        lemma_pow2_strictly_increases(32, e as nat);
                    }
                    assert(pow2(e as nat) >= pow2(32));
                    assert(false);
                }
            }
        }
    }
    proof {
        lemma_pow2_adds(e as nat, 1);
        lemma2_to64();
        lemma_size_class_unique(x as nat, e as nat);
    }
    e
}

} // verus!
