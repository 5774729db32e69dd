//! Integer hashing for spatial queries.
use vstd::prelude::*;
use vstd::arithmetic::div_mod::{lemma_add_mod_noop, lemma_mul_mod_noop_left};

verus! {

/// The multiplier of the spatial hash (the 32-bit golden ratio).
pub const HASH_MULTIPLIER: u32 = 0x9e37_79b9;

/// The residue of `v` modulo 2^32, in `0..2^32`.
pub open spec fn mod32(v: int) -> int {
    v % 0x1_0000_0000
}

/// The spatial hash of `(x, y)` under `seed`: with K the multiplier and all
/// values taken modulo 2^32, ((seed * K + x) * K + y) * K.
pub open spec fn spatial_hash_value(x: i32, y: i32, seed: i32) -> int {
    mod32(
        (((mod32(seed as int) * HASH_MULTIPLIER + mod32(x as int)) * HASH_MULTIPLIER + mod32(
            y as int,
        )) * HASH_MULTIPLIER),
    )
}

proof fn lemma_i32_as_u32(v: i32)
    ensures
        (v as u32) as int == mod32(v as int),
{
    assert((v as u32) as int == if v >= 0 {
        v as int
    } else {
        v + 0x1_0000_0000
    }) by (bit_vector);
}

/// Pseudo-random hash of a cell for spatial queries.
pub fn spatial_hash(x: i32, y: i32, seed: i32) -> (h: u32)
    ensures
        h == spatial_hash_value(x, y, seed),
{
    let ghost m: int = 0x1_0000_0000;
    let ghost k: int = HASH_MULTIPLIER as int;
    proof {
        lemma_i32_as_u32(seed);
        lemma_i32_as_u32(x);
        lemma_i32_as_u32(y);
    }
    let mut hash = seed as u32;
    hash = hash.wrapping_mul(HASH_MULTIPLIER);
    let ghost h1: int = mod32(seed as int) * k;
    assert(hash == h1 % m);
    hash = hash.wrapping_add(x as u32);
    let ghost h2: int = h1 + mod32(x as int);
    proof {
        lemma_add_mod_noop(h1, mod32(x as int), m);
    }
    assert(hash == h2 % m);
    hash = hash.wrapping_mul(HASH_MULTIPLIER);
    let ghost h3: int = h2 * k;
    proof {
        lemma_mul_mod_noop_left(h2, k, m);
    }
    assert(hash == h3 % m);
    hash = hash.wrapping_add(y as u32);
    let ghost h4: int = h3 + mod32(y as int);
    proof {
        lemma_add_mod_noop(h3, mod32(y as int), m);
    }
    assert(hash == h4 % m);
    hash = hash.wrapping_mul(HASH_MULTIPLIER);
    proof {
        lemma_mul_mod_noop_left(h4, k, m);
    }
    hash
}

} // verus!
