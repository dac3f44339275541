//! Fixed little-endian byte encodings used on the wire: the nonce is fed to the
//! hash as four little-endian bytes, and the score is read from the first four
//! digest bytes in the same order, whatever the host's native byte order.
use vstd::prelude::*;

verus! {

/// The four little-endian bytes of a nonce.
pub open spec fn nonce_bytes(n: u32) -> Seq<u8> {
    seq![
        (n as int % 256) as u8,
        (n as int / 256 % 256) as u8,
        (n as int / 65536 % 256) as u8,
        (n as int / 16777216 % 256) as u8,
    ]
}

/// The unsigned integer held little-endian in the first four bytes of `b`.
pub open spec fn le_u32(b: Seq<u8>) -> int
    recommends
        b.len() >= 4,
{
    b[0] as int + 256 * b[1] as int + 65536 * b[2] as int + 16777216 * b[3] as int
}

/// Encodes a nonce as four little-endian bytes.
pub fn encode_nonce(n: u32) -> (r: [u8; 4])
    ensures
        r@ == nonce_bytes(n),
{
    let r: [u8; 4] = [
        (n % 256) as u8,
        (n / 256 % 256) as u8,
        (n / 65536 % 256) as u8,
        (n / 16777216 % 256) as u8,
    ];
    assert(r@ =~= nonce_bytes(n));
    r
}

/// Reads the first four bytes of a digest as a little-endian unsigned integer.
pub fn decode_score(digest: &[u8; 32]) -> (r: u32)
    ensures
        r as int == le_u32(digest@),
{
    let b0 = digest[0] as u32;
    let b1 = digest[1] as u32;
    let b2 = digest[2] as u32;
    let b3 = digest[3] as u32;
    b0 + 256 * b1 + 65536 * b2 + 16777216 * b3
}

/// Decoding the four bytes of an encoded nonce gives the nonce back: the
/// nonce and the score share one byte order.
pub proof fn lemma_le_round_trip(n: u32)
    ensures
        le_u32(nonce_bytes(n)) == n as int,
{
    let x = n as int;
    assert(x == x % 256 + 256 * (x / 256 % 256) + 65536 * (x / 65536 % 256)
        + 16777216 * (x / 16777216 % 256)) by (nonlinear_arith)
        requires
            0 <= x < 0x1_0000_0000,
    ;
}

} // verus!
