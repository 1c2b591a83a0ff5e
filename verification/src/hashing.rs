//! Stable integer hashes shared by the generators: the SplitMix64 finaliser,
//! FNV-1a over the bytes of a block key, and the coordinate mixers built on them.

use vstd::prelude::*;
use vstd::wrapping::u64_specs::{wrapping_add, wrapping_mul};
use vstd::string::StringSliceAdditionalSpecFns;

verus! {

/// Golden-ratio increment of SplitMix64.
pub const SPLITMIX_GAMMA: u64 = 0x9E37_79B9_7F4A_7C15;

pub const SPLITMIX_MUL_1: u64 = 0xBF58_476D_1CE4_E5B9;

pub const SPLITMIX_MUL_2: u64 = 0x94D0_49BB_1331_11EB;

pub const FNV_OFFSET_BASIS: u64 = 0xCBF2_9CE4_8422_2325;

pub const FNV_PRIME: u64 = 0x0000_0100_0000_01B3;

/// The SplitMix64 output function applied to `value`.
#[verifier::opaque]
pub open spec fn spec_splitmix64(value: u64) -> u64 {
    let a = wrapping_add(value, SPLITMIX_GAMMA);
    let b = wrapping_mul(a ^ (a >> 30u64), SPLITMIX_MUL_1);
    let c = wrapping_mul(b ^ (b >> 27u64), SPLITMIX_MUL_2);
    c ^ (c >> 31u64)
}

/// FNV-1a (64-bit) of a byte string.
pub open spec fn spec_fnv1a(bytes: Seq<u8>) -> u64
    decreases bytes.len(),
{
    if bytes.len() == 0 {
        FNV_OFFSET_BASIS
    } else {
        wrapping_mul(spec_fnv1a(bytes.drop_last()) ^ (bytes.last() as u64), FNV_PRIME)
    }
}

/// FNV-1a of the UTF-8 bytes of a string.
pub open spec fn spec_stable_str_hash(value: &str) -> u64 {
    spec_fnv1a(value.spec_bytes())
}

/// Rotation of a 64-bit word left by 17 bits.
pub open spec fn spec_rotate_left_17(value: u64) -> u64 {
    (value << 17u64) | (value >> 47u64)
}

/// A signed coordinate sign-extended to 64 bits and reinterpreted as unsigned.
pub open spec fn coord_bits(value: i32) -> u64 {
    value as u64
}

/// SplitMix64 output function.
pub fn splitmix64(value: u64) -> (out: u64)
    ensures
        out == spec_splitmix64(value),
{
    reveal(spec_splitmix64);
    let mut value = value.wrapping_add(SPLITMIX_GAMMA);
    value = (value ^ (value >> 30)).wrapping_mul(SPLITMIX_MUL_1);
    value = (value ^ (value >> 27)).wrapping_mul(SPLITMIX_MUL_2);
    value ^ (value >> 31)
}

/// SplitMix64 as the hydrology and prototype noise layers use it (same
/// increment as [`splitmix64`]).
pub fn seedless_splitmix64(value: u64) -> (out: u64)
    ensures
        out == spec_splitmix64(value),
{
    splitmix64(value)
}

/// FNV-1a over the UTF-8 bytes of `value`; stable across runs and platforms.
pub fn stable_str_hash(value: &str) -> (hash: u64)
    ensures
        hash == spec_stable_str_hash(value),
{
    let bytes = value.as_bytes();
    let mut hash: u64 = FNV_OFFSET_BASIS;
    let mut index: usize = 0;
    while index < bytes.len()
        invariant
            bytes@ == value.spec_bytes(),
            index <= bytes@.len(),
            hash == spec_fnv1a(bytes@.subrange(0, index as int)),
        decreases bytes@.len() - index,
    {
        proof {
            let next = bytes@.subrange(0, index + 1);
            assert(next.drop_last() =~= bytes@.subrange(0, index as int));
            assert(next.last() == bytes@[index as int]);
        }
        hash = (hash ^ (bytes[index] as u64)).wrapping_mul(FNV_PRIME);
        index = index + 1;
    }
    proof {
        assert(bytes@.subrange(0, bytes@.len() as int) =~= bytes@);
    }
    hash
}

/// Rotates a 64-bit word left by 17 bits.
pub fn rotate_left_17(value: u64) -> (out: u64)
    ensures
        out == spec_rotate_left_17(value),
{
    (value << 17u64) | (value >> 47u64)
}

/// A coordinate's bits as the hash mixers consume them (`i32` to `i64` to `u64`).
pub fn coord_to_bits(value: i32) -> (bits: u64)
    ensures
        bits == coord_bits(value),
        value >= 0 ==> bits == value,
        value < 0 ==> bits == value + 0x1_0000_0000_0000_0000,
{
    proof {
        if value < 0 {
            assert((value as u64) == value + 0x1_0000_0000_0000_0000) by (bit_vector)
                requires value < 0;
        }
    }
    #[verifier::truncate] ((value as i64) as u64)
}

/// Whether two strings hold the same characters.
pub fn str_eq(a: &str, b: &str) -> (same: bool)
    ensures
        same == (a@ == b@),
{
    let x = a.as_bytes();
    let y = b.as_bytes();
    proof {
        vstd::utf8::encode_utf8_decode_utf8(a@);
        vstd::utf8::encode_utf8_decode_utf8(b@);
    }
    if x.len() != y.len() {
        return false;
    }
    let mut index: usize = 0;
    while index < x.len()
        invariant
            x@ == a.spec_bytes(),
            y@ == b.spec_bytes(),
            x@.len() == y@.len(),
            index <= x@.len(),
            forall|k: int| 0 <= k < index ==> x@[k] == y@[k],
        decreases x@.len() - index,
    {
        if x[index] != y[index] {
            return false;
        }
        index = index + 1;
    }
    proof {
        assert(x@ =~= y@);
    }
    true
}

/// Seed of the rock prop roll for the column `(world_x, world_z)`.
pub open spec fn spec_rock_placement_seed(seed: u64, world_x: i32, world_z: i32) -> u64 {
    let mixed = seed ^ wrapping_mul(coord_bits(world_x), SPLITMIX_GAMMA) ^ wrapping_mul(
        coord_bits(world_z),
        SPLITMIX_MUL_1,
    );
    let a = wrapping_add(mixed, SPLITMIX_MUL_2);
    let b = wrapping_mul(a ^ (a >> 30u64), SPLITMIX_MUL_1);
    let c = wrapping_mul(b ^ (b >> 27u64), SPLITMIX_MUL_2);
    c ^ (c >> 31u64)
}

/// Per-column seed of the rock prop placement roll.
pub fn rock_placement_seed(seed: u64, world_x: i32, world_z: i32) -> (out: u64)
    ensures
        out == spec_rock_placement_seed(seed, world_x, world_z),
{
    let mut value = seed ^ coord_to_bits(world_x).wrapping_mul(SPLITMIX_GAMMA)
        ^ coord_to_bits(world_z).wrapping_mul(SPLITMIX_MUL_1);
    value = value.wrapping_add(SPLITMIX_MUL_2);
    value = (value ^ (value >> 30)).wrapping_mul(SPLITMIX_MUL_1);
    value = (value ^ (value >> 27)).wrapping_mul(SPLITMIX_MUL_2);
    value ^ (value >> 31)
}

} // verus!
