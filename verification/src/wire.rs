//! Little-endian fields inside a fixed-size record image.
use vstd::prelude::*;

verus! {

/// An IEEE-754 binary32 number, kept as its bit pattern.
#[derive(Debug, Clone, Copy, PartialEq, Eq, Structural)]
pub struct Binary32 {
    pub bits: u32,
}

/// The unsigned 32-bit integer whose little-endian bytes are `s[at .. at + 4]`.
pub open spec fn u32_at(s: Seq<u8>, at: int) -> u32
    recommends
        0 <= at,
        at + 4 <= s.len(),
{
    (s[at] as int + 0x100 * (s[at + 1] as int) + 0x1_0000 * (s[at + 2] as int) + 0x100_0000 * (s[at
        + 3] as int)) as u32
}

/// The signed 32-bit integer whose little-endian two's-complement bytes are
/// `s[at .. at + 4]`.
pub open spec fn i32_at(s: Seq<u8>, at: int) -> i32
    recommends
        0 <= at,
        at + 4 <= s.len(),
{
    let u = u32_at(s, at);
    if u < 0x8000_0000 {
        u as i32
    } else {
        (u - 0x1_0000_0000) as i32
    }
}

/// The binary32 number whose little-endian bytes are `s[at .. at + 4]`.
pub open spec fn binary32_at(s: Seq<u8>, at: int) -> Binary32
    recommends
        0 <= at,
        at + 4 <= s.len(),
{
    Binary32 { bits: u32_at(s, at) }
}

/// The error of `bytemuck`'s casts, carried through without being looked into.
#[verifier::external_type_specification]
#[verifier::external_body]
pub struct ExPodCastError(bytemuck::PodCastError);

/// Takes a byte slice as the image of a record of `N` bytes.
///
/// This is `bytemuck::try_from_bytes` at the type `[u8; N]`, believed and not
/// proved: the cast succeeds exactly when the slice has `N` bytes (a byte array
/// asks for no alignment), and the array then holds the bytes of the slice in
/// their order.
#[verifier::external_body]
pub(crate) fn cast_record<const N: usize>(bytes: &[u8]) -> (r: Result<
    &[u8; N],
    bytemuck::PodCastError,
>)
    ensures
        r is Ok <==> bytes@.len() == N,
        r is Ok ==> r->Ok_0@ == bytes@,
{
    bytemuck::try_from_bytes::<[u8; N]>(bytes)
}

/// Reads the unsigned 32-bit field at byte offset `at` of a record image.
pub fn read_u32<const N: usize>(record: &[u8; N], at: usize) -> (r: u32)
    requires
        at + 4 <= N,
    ensures
        r == u32_at(record@, at as int),
{
    let b0: u32 = record[at] as u32;
    let b1: u32 = record[at + 1] as u32;
    let b2: u32 = record[at + 2] as u32;
    let b3: u32 = record[at + 3] as u32;
    b0 + 0x100 * b1 + 0x1_0000 * b2 + 0x100_0000 * b3
}

/// Reads the signed 32-bit field at byte offset `at` of a record image.
pub fn read_i32<const N: usize>(record: &[u8; N], at: usize) -> (r: i32)
    requires
        at + 4 <= N,
    ensures
        r == i32_at(record@, at as int),
{
    let u: i64 = read_u32(record, at) as i64;
    if u < 0x8000_0000 {
        u as i32
    } else {
        (u - 0x1_0000_0000) as i32
    }
}

/// Reads the binary32 field at byte offset `at` of a record image.
pub fn read_binary32<const N: usize>(record: &[u8; N], at: usize) -> (r: Binary32)
    requires
        at + 4 <= N,
    ensures
        r == binary32_at(record@, at as int),
{
    Binary32 { bits: read_u32(record, at) }
}

/// An unsigned 32-bit field holds each of its four bytes: where two buffers
/// give the same value at an offset, they hold the same bytes there.
pub proof fn lemma_u32_at_keeps_bytes(a: Seq<u8>, b: Seq<u8>, at: int)
    requires
        0 <= at,
        at + 4 <= a.len(),
        at + 4 <= b.len(),
        u32_at(a, at) == u32_at(b, at),
    ensures
        a[at] == b[at],
        a[at + 1] == b[at + 1],
        a[at + 2] == b[at + 2],
        a[at + 3] == b[at + 3],
{
}

/// A signed 32-bit field holds each of its four bytes.
pub proof fn lemma_i32_at_keeps_bytes(a: Seq<u8>, b: Seq<u8>, at: int)
    requires
        0 <= at,
        at + 4 <= a.len(),
        at + 4 <= b.len(),
        i32_at(a, at) == i32_at(b, at),
    ensures
        a[at] == b[at],
        a[at + 1] == b[at + 1],
        a[at + 2] == b[at + 2],
        a[at + 3] == b[at + 3],
{
    lemma_u32_at_keeps_bytes(a, b, at);
}

/// A binary32 field holds each of its four bytes.
pub proof fn lemma_binary32_at_keeps_bytes(a: Seq<u8>, b: Seq<u8>, at: int)
    requires
        0 <= at,
        at + 4 <= a.len(),
        at + 4 <= b.len(),
        binary32_at(a, at) == binary32_at(b, at),
    ensures
        a[at] == b[at],
        a[at + 1] == b[at + 1],
        a[at + 2] == b[at + 2],
        a[at + 3] == b[at + 3],
{
    lemma_u32_at_keeps_bytes(a, b, at);
}

} // verus!
