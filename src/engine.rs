//! The proof-of-work engine: one Argon2d hash per nonce, the score read
//! little-endian from the digest, and a search from a first nonce upwards.
use vstd::prelude::*;

use crate::encoding::{decode_score, encode_nonce, le_u32, nonce_bytes};

verus! {

/// Difficulty threshold: a digest whose score is below it is a valid proof.
/// A larger target makes the puzzle easier.
pub const TARGET: u32 = 10_000_000;

/// Why a payload cannot be worked on.
#[derive(Debug, Clone, Copy, PartialEq, Eq, Structural)]
pub enum PowError {
    /// The payload is outside what the hash takes as a salt (8 to 2^32 - 1 bytes).
    InvalidInput,
    /// No nonce in the whole 32-bit range meets the target.
    Exhausted,
}

/// The 32-byte Argon2d tag, at the hash library's default cost parameters,
/// with `payload` as both password and salt, `key` as the secret key and no
/// associated data.
pub uninterp spec fn argon2d_tag(payload: Seq<u8>, key: Seq<u8>) -> Seq<u8>;

/// A payload the hash accepts: it serves as the salt, which must hold 8 to
/// 2^32 - 1 bytes.
pub open spec fn valid_payload(p: Seq<u8>) -> bool {
    8 <= p.len() <= 0xffff_ffff
}

/// The digest meets the target.
pub open spec fn digest_meets_target(d: Seq<u8>) -> bool {
    le_u32(d) < TARGET as int
}

/// The nonce solves the puzzle for the payload.
pub open spec fn solves(p: Seq<u8>, n: u32) -> bool {
    digest_meets_target(argon2d_tag(p, nonce_bytes(n)))
}

/// `n` solves the puzzle and no smaller nonce does.
pub open spec fn is_least_solution(p: Seq<u8>, n: u32) -> bool {
    solves(p, n) && forall|m: u32| m < n ==> !solves(p, m)
}

/// What checking a nonce gives.
pub open spec fn check_spec(p: Seq<u8>, n: u32) -> Result<bool, PowError> {
    if valid_payload(p) {
        Ok(solves(p, n))
    } else {
        Err(PowError::InvalidInput)
    }
}

/// What solving gives: the least solving nonce.
pub open spec fn solve_spec(p: Seq<u8>) -> Result<u32, PowError> {
    if !valid_payload(p) {
        Err(PowError::InvalidInput)
    } else if exists|n: u32| solves(p, n) {
        Ok(choose|n: u32| is_least_solution(p, n))
    } else {
        Err(PowError::Exhausted)
    }
}

/// Relies on argon2rs's `Argon2::default(Variant::Argon2d)` and `Argon2::hash`:
/// at the default cost parameters the 32-byte tag depends on the password,
/// salt, secret key and associated data alone. `hash` asserts a salt of 8 to
/// 2^32 - 1 bytes, a password of at most 2^32 - 1 bytes and a key of at most
/// 32 bytes.
#[verifier::external_body]
fn argon2d_hash(payload: &[u8], key: &[u8; 4]) -> (r: [u8; 32])
    requires
        valid_payload(payload@),
    ensures
        r@ == argon2d_tag(payload@, key@),
{
    let mut out = [0u8; 32];
    argon2rs::Argon2::default(argon2rs::Variant::Argon2d).hash(&mut out, payload, payload, key, &[]);
    out
}

/// Whether a digest's little-endian score is below the target.
pub fn meets_target(digest: &[u8; 32]) -> (r: bool)
    ensures
        r == digest_meets_target(digest@),
{
    decode_score(digest) < TARGET
}

/// Hashes the payload with one nonce and compares its score with the target.
fn try_nonce(bin: &[u8], nonce: u32) -> (r: bool)
    requires
        valid_payload(bin@),
    ensures
        r == solves(bin@, nonce),
{
    let key = encode_nonce(nonce);
    let digest = argon2d_hash(bin, &key);
    meets_target(&digest)
}

/// Checks a claimed nonce with a single hash.
pub fn check(bin: &[u8], nonce: u32) -> (r: Result<bool, PowError>)
    ensures
        r == check_spec(bin@, nonce),
{
    if bin.len() < 8 || bin.len() > 0xffff_ffff {
        return Err(PowError::InvalidInput);
    }
    Ok(try_nonce(bin, nonce))
}

/// Tries the nonces from `first` to `last`, both included, in increasing
/// order, and returns the first that solves the puzzle. A host can call it on
/// successive ranges to bound the work done per call.
pub fn search(bin: &[u8], first: u32, last: u32) -> (r: Result<Option<u32>, PowError>)
    ensures
        match r {
            Err(e) => e == PowError::InvalidInput && !valid_payload(bin@),
            Ok(None) => valid_payload(bin@) && forall|m: u32|
                first <= m <= last ==> !solves(bin@, m),
            Ok(Some(n)) => valid_payload(bin@) && first <= n <= last && solves(bin@, n)
                && forall|m: u32| first <= m < n ==> !solves(bin@, m),
        },
{
    if bin.len() < 8 || bin.len() > 0xffff_ffff {
        return Err(PowError::InvalidInput);
    }
    if first > last {
        return Ok(None);
    }
    let mut i: u64 = first as u64;
    while i <= last as u64
        invariant
            valid_payload(bin@),
            first <= i <= last as u64 + 1,
            forall|m: u32| first <= m < i ==> !solves(bin@, m),
        decreases last as u64 + 1 - i,
    {
        let nonce = i as u32;
        if try_nonce(bin, nonce) {
            return Ok(Some(nonce));
        }
        i = i + 1;
    }
    Ok(None)
}

/// Finds the least nonce that solves the puzzle for the payload.
pub fn pow(bin: &[u8]) -> (r: Result<u32, PowError>)
    ensures
        r == solve_spec(bin@),
{
    match search(bin, 0, u32::MAX) {
        Err(e) => Err(e),
        Ok(None) => {
            assert forall|m: u32| !solves(bin@, m) by {
                assert(0 <= m <= u32::MAX);
            }
            Err(PowError::Exhausted)
        },
        Ok(Some(n)) => {
            proof {
                lemma_least_solution_unique(bin@, n);
            }
            Ok(n)
        },
    }
}

/// A payload has at most one least solution, so `solve_spec` names it.
proof fn lemma_least_solution_unique(p: Seq<u8>, n: u32)
    requires
        valid_payload(p),
        is_least_solution(p, n),
    ensures
        solve_spec(p) == Ok::<u32, PowError>(n),
{
    let k = choose|k: u32| is_least_solution(p, k);
    assert(is_least_solution(p, k));
    if k < n {
        assert(!solves(p, k));
    } else if n < k {
        assert(!solves(p, n));
    }
}

} // verus!
