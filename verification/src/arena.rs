use vstd::prelude::*;

verus! {

use aliu::Pod;

// The growable byte store behind the allocation tracker is `aliu::Pod<u8>`,
// a flat vector that always allocates with at least 8-byte alignment.  The
// small trusted surface below gives it a mathematical contents, and every
// word-level access is built on top of it in verified code.

/// The byte store itself.  Verus cannot see through `aliu`'s allocator
/// trait, so the pod is held in a field of a struct that Verus treats as
/// opaque; the trusted functions below are its whole interface.
#[verifier::external_body]
pub struct ByteStore {
    data: Pod<u8>,
}

/// What a `ByteStore` holds, as the sequence of its bytes in order.
pub uninterp spec fn pod_bytes(p: ByteStore) -> Seq<u8>;

/// Relies on aliu::Pod::new: a freshly created pod holds no elements.
#[verifier::external_body]
pub(crate) fn pod_new() -> (r: ByteStore)
    ensures
        pod_bytes(r) == Seq::<u8>::empty(),
{
    ByteStore { data: Pod::new() }
}

/// Relies on aliu::Pod::len: the number of elements currently held.
#[verifier::external_body]
pub(crate) fn pod_len(p: &ByteStore) -> (r: usize)
    ensures
        r == pod_bytes(*p).len(),
{
    p.data.len()
}

/// Relies on aliu::Pod::push: appends one element at the end.
#[verifier::external_body]
pub(crate) fn pod_push(p: &mut ByteStore, v: u8)
    ensures
        pod_bytes(*final(p)) == pod_bytes(*old(p)).push(v),
{
    p.data.push(v);
}

/// Relies on the `Index<u32>` impl of aliu::Pod: reads the element at an
/// in-bounds index.
#[verifier::external_body]
pub(crate) fn pod_get(p: &ByteStore, i: u32) -> (r: u8)
    requires
        i < pod_bytes(*p).len(),
    ensures
        r == pod_bytes(*p)[i as int],
{
    p.data[i]
}

/// Relies on the `IndexMut<u32>` impl of aliu::Pod: overwrites the element
/// at an in-bounds index.
#[verifier::external_body]
pub(crate) fn pod_set(p: &mut ByteStore, i: u32, v: u8)
    requires
        i < pod_bytes(*old(p)).len(),
    ensures
        pod_bytes(*final(p)) == pod_bytes(*old(p)).update(i as int, v),
{
    p.data[i] = v;
}

/// Relies on the `Deref<Target = [u8]>` impl of aliu::Pod: borrows all held
/// elements as one slice.
#[verifier::external_body]
pub(crate) fn pod_slice(p: &ByteStore) -> (r: &[u8])
    ensures
        r@ == pod_bytes(*p),
{
    &*p.data
}

// Little-endian words read out of a byte sequence.  All multi-byte values in
// the arena (instruction words, register cells, pointers) use this layout.

/// The 16-bit little-endian word starting at byte `at`.
pub open spec fn word16_at(b: Seq<u8>, at: int) -> u16 {
    (b[at] as u16) | ((b[at + 1] as u16) << 8)
}

/// The 32-bit little-endian word starting at byte `at`.
pub open spec fn word32_at(b: Seq<u8>, at: int) -> u32 {
    (b[at] as u32) | ((b[at + 1] as u32) << 8) | ((b[at + 2] as u32) << 16) | ((b[at + 3] as u32)
        << 24)
}

/// The 64-bit little-endian word starting at byte `at`.
pub open spec fn word64_at(b: Seq<u8>, at: int) -> u64 {
    (b[at] as u64) | ((b[at + 1] as u64) << 8) | ((b[at + 2] as u64) << 16) | ((b[at + 3] as u64)
        << 24) | ((b[at + 4] as u64) << 32) | ((b[at + 5] as u64) << 40) | ((b[at + 6] as u64)
        << 48) | ((b[at + 7] as u64) << 56)
}

pub(crate) fn read_word16(p: &ByteStore, at: u32) -> (r: u16)
    requires
        at + 2 <= pod_bytes(*p).len(),
        pod_bytes(*p).len() <= 0xFFFF_FFF8,
    ensures
        r == word16_at(pod_bytes(*p), at as int),
{
    let b0 = pod_get(p, at);
    let b1 = pod_get(p, at + 1);
    (b0 as u16) | ((b1 as u16) << 8)
}

pub(crate) fn read_word32(p: &ByteStore, at: u32) -> (r: u32)
    requires
        at + 4 <= pod_bytes(*p).len(),
        pod_bytes(*p).len() <= 0xFFFF_FFF8,
    ensures
        r == word32_at(pod_bytes(*p), at as int),
{
    let b0 = pod_get(p, at);
    let b1 = pod_get(p, at + 1);
    let b2 = pod_get(p, at + 2);
    let b3 = pod_get(p, at + 3);
    (b0 as u32) | ((b1 as u32) << 8) | ((b2 as u32) << 16) | ((b3 as u32) << 24)
}

pub(crate) fn read_word64(p: &ByteStore, at: u32) -> (r: u64)
    requires
        at + 8 <= pod_bytes(*p).len(),
        pod_bytes(*p).len() <= 0xFFFF_FFF8,
    ensures
        r == word64_at(pod_bytes(*p), at as int),
{
    let b0 = pod_get(p, at);
    let b1 = pod_get(p, at + 1);
    let b2 = pod_get(p, at + 2);
    let b3 = pod_get(p, at + 3);
    let b4 = pod_get(p, at + 4);
    let b5 = pod_get(p, at + 5);
    let b6 = pod_get(p, at + 6);
    let b7 = pod_get(p, at + 7);
    (b0 as u64) | ((b1 as u64) << 8) | ((b2 as u64) << 16) | ((b3 as u64) << 24) | ((b4 as u64)
        << 32) | ((b5 as u64) << 40) | ((b6 as u64) << 48) | ((b7 as u64) << 56)
}

/// Byte `k` of a 64-bit value in little-endian order.
pub open spec fn u64_le_byte(v: u64, k: int) -> u8 {
    (v >> ((8 * k) as u64)) as u8
}

/// Byte `k` of a 32-bit value in little-endian order.
pub open spec fn u32_le_byte(v: u32, k: int) -> u8 {
    (v >> ((8 * k) as u32)) as u8
}

/// Byte `k` of a 16-bit value in little-endian order.
pub open spec fn u16_le_byte(v: u16, k: int) -> u8 {
    (v >> ((8 * k) as u16)) as u8
}

/// The byte sequence with a 64-bit little-endian value stored at `at`.
pub open spec fn store64_at(b: Seq<u8>, at: int, v: u64) -> Seq<u8> {
    Seq::new(
        b.len(),
        |i: int|
            if at <= i < at + 8 {
                u64_le_byte(v, i - at)
            } else {
                b[i]
            },
    )
}

/// The byte sequence with a 32-bit little-endian value stored at `at`.
pub open spec fn store32_at(b: Seq<u8>, at: int, v: u32) -> Seq<u8> {
    Seq::new(
        b.len(),
        |i: int|
            if at <= i < at + 4 {
                u32_le_byte(v, i - at)
            } else {
                b[i]
            },
    )
}

/// The byte sequence with a 16-bit little-endian value stored at `at`.
pub open spec fn store16_at(b: Seq<u8>, at: int, v: u16) -> Seq<u8> {
    Seq::new(
        b.len(),
        |i: int|
            if at <= i < at + 2 {
                u16_le_byte(v, i - at)
            } else {
                b[i]
            },
    )
}

/// A run of `n` zeroed bytes.
pub open spec fn zero_bytes(n: int) -> Seq<u8> {
    Seq::new(n as nat, |i: int| 0u8)
}

/// A word equation at `at` pins each of the eight bytes there, so a
/// sequence that holds the word and agrees elsewhere is exactly the
/// stored-word sequence.
pub proof fn lemma_store64_bridge(b0: Seq<u8>, b1: Seq<u8>, at: int, v: u64)
    requires
        b1.len() == b0.len(),
        0 <= at,
        at + 8 <= b0.len(),
        word64_at(b1, at) == v,
        forall|i: int| 0 <= i < b0.len() && !(at <= i < at + 8) ==> b1[i] == b0[i],
    ensures
        b1 =~= store64_at(b0, at, v),
{
    let c0 = b1[at];
    let c1 = b1[at + 1];
    let c2 = b1[at + 2];
    let c3 = b1[at + 3];
    let c4 = b1[at + 4];
    let c5 = b1[at + 5];
    let c6 = b1[at + 6];
    let c7 = b1[at + 7];
    assert(c0 == (v >> 0u64) as u8 && c1 == (v >> 8u64) as u8 && c2 == (v >> 16u64) as u8 && c3 == (
    v >> 24u64) as u8 && c4 == (v >> 32u64) as u8 && c5 == (v >> 40u64) as u8 && c6 == (v
        >> 48u64) as u8 && c7 == (v >> 56u64) as u8) by (bit_vector)
        requires
            (c0 as u64) | ((c1 as u64) << 8) | ((c2 as u64) << 16) | ((c3 as u64) << 24) | ((
            c4 as u64) << 32) | ((c5 as u64) << 40) | ((c6 as u64) << 48) | ((c7 as u64) << 56)
                == v,
    ;
}

/// The 32-bit version of the same bridging fact.
pub proof fn lemma_store32_bridge(b0: Seq<u8>, b1: Seq<u8>, at: int, v: u32)
    requires
        b1.len() == b0.len(),
        0 <= at,
        at + 4 <= b0.len(),
        word32_at(b1, at) == v,
        forall|i: int| 0 <= i < b0.len() && !(at <= i < at + 4) ==> b1[i] == b0[i],
    ensures
        b1 =~= store32_at(b0, at, v),
{
    let c0 = b1[at];
    let c1 = b1[at + 1];
    let c2 = b1[at + 2];
    let c3 = b1[at + 3];
    assert(c0 == (v >> 0u32) as u8 && c1 == (v >> 8u32) as u8 && c2 == (v >> 16u32) as u8 && c3 == (
    v >> 24u32) as u8) by (bit_vector)
        requires
            (c0 as u32) | ((c1 as u32) << 8) | ((c2 as u32) << 16) | ((c3 as u32) << 24) == v,
    ;
}

/// The 16-bit version of the same bridging fact.
pub proof fn lemma_store16_bridge(b0: Seq<u8>, b1: Seq<u8>, at: int, v: u16)
    requires
        b1.len() == b0.len(),
        0 <= at,
        at + 2 <= b0.len(),
        word16_at(b1, at) == v,
        forall|i: int| 0 <= i < b0.len() && !(at <= i < at + 2) ==> b1[i] == b0[i],
    ensures
        b1 =~= store16_at(b0, at, v),
{
    let c0 = b1[at];
    let c1 = b1[at + 1];
    assert(c0 == (v >> 0u16) as u8 && c1 == (v >> 8u16) as u8) by (bit_vector)
        requires
            (c0 as u16) | ((c1 as u16) << 8) == v,
    ;
}

/// Splitting a 64-bit value into its little-endian bytes and reassembling
/// them gives the value back.
proof fn lemma_u64_le_bytes_roundtrip(v: u64)
    by (bit_vector)
    ensures
        ((v as u8) as u64) | ((((v >> 8) as u8) as u64) << 8) | ((((v >> 16) as u8) as u64) << 16)
            | ((((v >> 24) as u8) as u64) << 24) | ((((v >> 32) as u8) as u64) << 32) | ((((v
            >> 40) as u8) as u64) << 40) | ((((v >> 48) as u8) as u64) << 48) | ((((v
            >> 56) as u8) as u64) << 56) == v,
{
}

/// Splitting a 32-bit value into its little-endian bytes and reassembling
/// them gives the value back.
proof fn lemma_u32_le_bytes_roundtrip(v: u32)
    by (bit_vector)
    ensures
        ((v as u8) as u32) | ((((v >> 8) as u8) as u32) << 8) | ((((v >> 16) as u8) as u32) << 16)
            | ((((v >> 24) as u8) as u32) << 24) == v,
{
}

/// Splitting a 16-bit value into its little-endian bytes and reassembling
/// them gives the value back.
proof fn lemma_u16_le_bytes_roundtrip(v: u16)
    by (bit_vector)
    ensures
        ((v as u8) as u16) | ((((v >> 8) as u8) as u16) << 8) == v,
{
}

pub(crate) fn write_word16(p: &mut ByteStore, at: u32, v: u16)
    requires
        at + 2 <= pod_bytes(*old(p)).len(),
        pod_bytes(*old(p)).len() <= 0xFFFF_FFF8,
    ensures
        pod_bytes(*final(p)).len() == pod_bytes(*old(p)).len(),
        forall|i: int|
            0 <= i < pod_bytes(*old(p)).len() && !(at <= i < at + 2) ==> pod_bytes(*final(p))[i]
                == pod_bytes(*old(p))[i],
        word16_at(pod_bytes(*final(p)), at as int) == v,
{
    pod_set(p, at, v as u8);
    pod_set(p, at + 1, (v >> 8) as u8);
    proof {
        lemma_u16_le_bytes_roundtrip(v);
    }
}

pub(crate) fn write_word32(p: &mut ByteStore, at: u32, v: u32)
    requires
        at + 4 <= pod_bytes(*old(p)).len(),
        pod_bytes(*old(p)).len() <= 0xFFFF_FFF8,
    ensures
        pod_bytes(*final(p)).len() == pod_bytes(*old(p)).len(),
        forall|i: int|
            0 <= i < pod_bytes(*old(p)).len() && !(at <= i < at + 4) ==> pod_bytes(*final(p))[i]
                == pod_bytes(*old(p))[i],
        word32_at(pod_bytes(*final(p)), at as int) == v,
{
    pod_set(p, at, v as u8);
    pod_set(p, at + 1, (v >> 8) as u8);
    pod_set(p, at + 2, (v >> 16) as u8);
    pod_set(p, at + 3, (v >> 24) as u8);
    proof {
        lemma_u32_le_bytes_roundtrip(v);
    }
}

pub(crate) fn write_word64(p: &mut ByteStore, at: u32, v: u64)
    requires
        at + 8 <= pod_bytes(*old(p)).len(),
        pod_bytes(*old(p)).len() <= 0xFFFF_FFF8,
    ensures
        pod_bytes(*final(p)).len() == pod_bytes(*old(p)).len(),
        forall|i: int|
            0 <= i < pod_bytes(*old(p)).len() && !(at <= i < at + 8) ==> pod_bytes(*final(p))[i]
                == pod_bytes(*old(p))[i],
        word64_at(pod_bytes(*final(p)), at as int) == v,
{
    pod_set(p, at, v as u8);
    pod_set(p, at + 1, (v >> 8) as u8);
    pod_set(p, at + 2, (v >> 16) as u8);
    pod_set(p, at + 3, (v >> 24) as u8);
    pod_set(p, at + 4, (v >> 32) as u8);
    pod_set(p, at + 5, (v >> 40) as u8);
    pod_set(p, at + 6, (v >> 48) as u8);
    pod_set(p, at + 7, (v >> 56) as u8);
    proof {
        lemma_u64_le_bytes_roundtrip(v);
    }
}

} // verus!
