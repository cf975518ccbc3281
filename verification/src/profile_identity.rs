//! Generated identities of profiles that carry no explicit GUID.

use vstd::prelude::*;
use vstd::string::StringSliceAdditionalSpecFns;

verus! {

/// FNV-1a 64-bit prime.
pub const FNV_PRIME: u64 = 0x0000_0100_0000_01b3;

/// Starting value of the hash over name, then source.
pub const NAME_FIRST_SEED: u64 = 0xcbf2_9ce4_8422_2325;

/// Starting value of the hash over source, then name.
pub const SOURCE_FIRST_SEED: u64 = 0x8422_2325_cbf2_9ce4;

/// FNV-1a: for each byte, xor it in, then multiply by the prime modulo 2^64.
pub open spec fn fnv1a(hash: u64, bytes: Seq<u8>) -> u64
    decreases bytes.len(),
{
    if bytes.len() == 0 {
        hash
    } else {
        fnv1a((hash ^ (bytes[0] as u64)).wrapping_mul(FNV_PRIME), bytes.drop_first())
    }
}

/// Byte `k` (0 = most significant) of the big-endian form of `value`.
pub open spec fn be_byte(value: u64, k: int) -> u8 {
    ((value >> ((8 * (7 - k)) as u64)) & 0xff) as u8
}

/// The generated GUID of a profile: the big-endian hash of name, NUL,
/// source, followed by that of source, NUL, name, with the UUID version
/// nibble set to 5 and the variant bits to `10`.
pub open spec fn spec_profile_guid(name: Seq<u8>, source: Seq<u8>) -> Seq<u8> {
    let first = fnv1a(NAME_FIRST_SEED, name + seq![0u8] + source);
    let second = fnv1a(SOURCE_FIRST_SEED, source + seq![0u8] + name);
    Seq::new(
        16,
        |i: int|
            if i == 6 {
                (be_byte(first, 6) & 0x0f) | 0x50
            } else if i == 8 {
                (be_byte(second, 0) & 0x3f) | 0x80
            } else if i < 8 {
                be_byte(first, i)
            } else {
                be_byte(second, i - 8)
            },
    )
}

/// The bytes of an optional text; none for `None`.
pub open spec fn optional_bytes(text: Option<&str>) -> Seq<u8> {
    match text {
        Some(t) => t.spec_bytes(),
        None => Seq::empty(),
    }
}

fn append_bytes(out: &mut Vec<u8>, bytes: &[u8])
    ensures
        final(out)@ == old(out)@ + bytes@,
{
    let mut i: usize = 0;
    while i < bytes.len()
        invariant
            i <= bytes@.len(),
            out@ == old(out)@ + bytes@.subrange(0, i as int),
        decreases bytes@.len() - i,
    {
        out.push(bytes[i]);
        assert(bytes@.subrange(0, i + 1) =~= bytes@.subrange(0, i as int).push(bytes@[i as int]));
        i = i + 1;
    }
    assert(bytes@.subrange(0, bytes@.len() as int) =~= bytes@);
}

fn hash_bytes(seed: u64, bytes: &[u8]) -> (r: u64)
    ensures
        r == fnv1a(seed, bytes@),
{
    let mut hash = seed;
    let mut i: usize = 0;
    assert(bytes@.subrange(0, bytes@.len() as int) =~= bytes@);
    while i < bytes.len()
        invariant
            i <= bytes@.len(),
            fnv1a(seed, bytes@) == fnv1a(hash, bytes@.subrange(i as int, bytes@.len() as int)),
        decreases bytes@.len() - i,
    {
        assert(bytes@.subrange(i as int, bytes@.len() as int).drop_first() =~= bytes@.subrange(
            i + 1,
            bytes@.len() as int,
        ));
        hash = (hash ^ (bytes[i] as u64)).wrapping_mul(FNV_PRIME);
        i = i + 1;
    }
    assert(bytes@.subrange(bytes@.len() as int, bytes@.len() as int) =~= Seq::<u8>::empty());
    hash
}

fn be(value: u64, k: u64) -> (r: u8)
    requires
        k < 8,
    ensures
        r == be_byte(value, k as int),
{
    ((value >> (8 * (7 - k))) & 0xff) as u8
}

/// A deterministic identity for a profile named `name` from `source`.
pub fn generate_profile_guid(name: &str, source: Option<&str>) -> (r: [u8; 16])
    ensures
        r@ == spec_profile_guid(name.spec_bytes(), optional_bytes(source)),
{
    let name_bytes = name.as_bytes();
    let source_bytes: &[u8] = match source {
        Some(s) => s.as_bytes(),
        None => &[],
    };
    let mut forward: Vec<u8> = Vec::new();
    append_bytes(&mut forward, name_bytes);
    forward.push(0);
    append_bytes(&mut forward, source_bytes);
    let mut backward: Vec<u8> = Vec::new();
    append_bytes(&mut backward, source_bytes);
    backward.push(0);
    append_bytes(&mut backward, name_bytes);
    assert(forward@ =~= name.spec_bytes() + seq![0u8] + optional_bytes(source));
    assert(backward@ =~= optional_bytes(source) + seq![0u8] + name.spec_bytes());
    let first = hash_bytes(NAME_FIRST_SEED, forward.as_slice());
    let second = hash_bytes(SOURCE_FIRST_SEED, backward.as_slice());
    let r = [
        be(first, 0),
        be(first, 1),
        be(first, 2),
        be(first, 3),
        be(first, 4),
        be(first, 5),
        (be(first, 6) & 0x0f) | 0x50,
        be(first, 7),
        (be(second, 0) & 0x3f) | 0x80,
        be(second, 1),
        be(second, 2),
        be(second, 3),
        be(second, 4),
        be(second, 5),
        be(second, 6),
        be(second, 7),
    ];
    assert(r@ =~= spec_profile_guid(name.spec_bytes(), optional_bytes(source)));
    r
}

/// A generated GUID is a version-5 UUID of the RFC 4122 variant.
pub proof fn law_generated_guid_is_version_5(name: Seq<u8>, source: Seq<u8>)
    ensures
        spec_profile_guid(name, source).len() == 16,
        spec_profile_guid(name, source)[6] >> 4u8 == 5,
        spec_profile_guid(name, source)[8] >> 6u8 == 2,
{
    let g = spec_profile_guid(name, source);
    let a = g[6];
    let b = g[8];
    let first = fnv1a(NAME_FIRST_SEED, name + seq![0u8] + source);
    let second = fnv1a(SOURCE_FIRST_SEED, source + seq![0u8] + name);
    let x = be_byte(first, 6);
    let y = be_byte(second, 0);
    assert(a == (x & 0x0f) | 0x50);
    assert(b == (y & 0x3f) | 0x80);
    assert(((x & 0x0f) | 0x50) >> 4u8 == 5) by (bit_vector);
    assert(((y & 0x3f) | 0x80) >> 6u8 == 2) by (bit_vector);
}

} // verus!
