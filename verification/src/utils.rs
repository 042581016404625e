//! Small conversions and digests shared by the other modules.

use vstd::prelude::*;

verus! {

/// The SHA-256 digest of a byte sequence, as `sha2` computes it.
pub uninterp spec fn sha256_digest(bytes: Seq<u8>) -> Seq<u8>;

/// The character that `hex` writes for a value below sixteen.
pub open spec fn hex_digit(nibble: int) -> char {
    if nibble < 10 {
        (48 + nibble) as u8 as char
    } else {
        (87 + nibble) as u8 as char
    }
}

/// Lower-case hexadecimal text of a byte sequence: two characters per byte,
/// the high half first.
pub open spec fn hex_lower(bytes: Seq<u8>) -> Seq<char> {
    Seq::new(
        2 * bytes.len(),
        |i: int| if i % 2 == 0 {
            hex_digit(bytes[i / 2] as int / 16)
        } else {
            hex_digit(bytes[i / 2] as int % 16)
        },
    )
}

/// `TryFrom<Vec<T>>` of std for `[T; N]`: the conversion keeps every element
/// in place when the length is exactly `N`, the only case admitted here.
#[verifier::external_body]
fn into_array<T, const N: usize>(v: Vec<T>) -> (arr: [T; N])
    requires
        v@.len() == N,
    ensures
        arr@ == v@,
{
    let converted: Result<[T; N], Vec<T>> = v.try_into();
    converted.ok().unwrap()
}

/// `sha2::Sha256::digest`: the result is the SHA-256 digest of the input,
/// which is always 32 bytes long.
#[verifier::external_body]
fn sha256(bytes: &Vec<u8>) -> (digest: Vec<u8>)
    ensures
        digest@ == sha256_digest(bytes@),
        digest@.len() == 32,
{
    <sha2::Sha256 as sha2::Digest>::digest(bytes).to_vec()
}

/// `hex::encode`: lower-case hexadecimal text, two characters per byte.
#[verifier::external_body]
fn hex_encode(bytes: &Vec<u8>) -> (text: String)
    ensures
        text@ == hex_lower(bytes@),
{
    hex::encode(bytes)
}

/// Turns a vector of exactly `N` elements into an array.
pub fn vec_to_arr<T, const N: usize>(v: Vec<T>) -> (arr: [T; N])
    requires
        v@.len() == N,
    ensures
        arr@ == v@,
{
    into_array(v)
}

/// Copies an array of bytes into a vector.
pub fn arr_to_vec<const N: usize>(arr: &[u8; N]) -> (v: Vec<u8>)
    ensures
        v@ == arr@,
{
    let mut out: Vec<u8> = Vec::new();
    let mut i: usize = 0;
    while i < N
        invariant
            i <= N,
            arr@.len() == N,
            out@ =~= arr@.subrange(0, i as int),
        decreases N - i,
    {
        out.push(arr[i]);
        i += 1;
    }
    assert(arr@.subrange(0, N as int) =~= arr@);
    out
}

/// Copies a vector of bytes.
pub fn copy_bytes(bytes: &Vec<u8>) -> (v: Vec<u8>)
    ensures
        v@ == bytes@,
{
    let mut out: Vec<u8> = Vec::new();
    let mut i: usize = 0;
    while i < bytes.len()
        invariant
            i <= bytes@.len(),
            out@ =~= bytes@.subrange(0, i as int),
        decreases bytes@.len() - i,
    {
        out.push(bytes[i]);
        i += 1;
    }
    assert(bytes@.subrange(0, bytes@.len() as int) =~= bytes@);
    out
}

/// The SHA-256 digest of `bytes` as lower-case hexadecimal text.
pub fn hash_bytes_sha256(bytes: Vec<u8>) -> (text: String)
    ensures
        text@ == hex_lower(sha256_digest(bytes@)),
        text@.len() == 64,
{
    let digest = sha256(&bytes);
    hex_encode(&digest)
}

} // verus!
