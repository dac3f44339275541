//! Properties relating the solver, the verifier and the score.
use vstd::prelude::*;

use crate::encoding::{le_u32, nonce_bytes};
use crate::engine::{
    argon2d_tag, check_spec, digest_meets_target, is_least_solution, solve_spec, solves,
    valid_payload, PowError, TARGET,
};

verus! {

/// Where some nonce solves the puzzle, a least one does.
pub proof fn lemma_least_solution_exists(p: Seq<u8>, n: u32)
    requires
        solves(p, n),
    ensures
        exists|k: u32| is_least_solution(p, k),
    decreases n,
{
    if !is_least_solution(p, n) {
        let m = choose|m: u32| m < n && solves(p, m);
        lemma_least_solution_exists(p, m);
    }
}

/// The verifier agrees with the solver: the nonce that solving returns checks
/// as valid. Solving fails on a valid payload only when no nonce at all
/// solves it.
pub proof fn lemma_solution_verifies(p: Seq<u8>)
    ensures
        solve_spec(p) is Ok ==> check_spec(p, solve_spec(p)->Ok_0) == Ok::<bool, PowError>(true),
        valid_payload(p) && (exists|n: u32| solves(p, n)) ==> solve_spec(p) is Ok,
{
    if valid_payload(p) && exists|n: u32| solves(p, n) {
        let n = choose|n: u32| solves(p, n);
        lemma_least_solution_exists(p, n);
    }
}

/// The search is monotonic: every nonce below the one that solving returns
/// checks as invalid.
pub proof fn lemma_solution_is_least(p: Seq<u8>, m: u32)
    requires
        solve_spec(p) is Ok,
        m < solve_spec(p)->Ok_0,
    ensures
        check_spec(p, m) == Ok::<bool, PowError>(false),
{
    assert(exists|n: u32| solves(p, n));
    let w = choose|n: u32| solves(p, n);
    lemma_least_solution_exists(p, w);
    assert(is_least_solution(p, solve_spec(p)->Ok_0));
}

/// Checking is a function of the payload and the nonce: equal inputs give
/// equal results.
pub proof fn lemma_check_deterministic(p: Seq<u8>, q: Seq<u8>, n: u32, k: u32)
    requires
        p == q,
        n == k,
    ensures
        check_spec(p, n) == check_spec(q, k),
{
}

/// At the threshold: a score of one below the target passes, a score equal to
/// the target fails.
pub proof fn lemma_threshold_boundary(p: Seq<u8>, n: u32)
    requires
        valid_payload(p),
    ensures
        le_u32(argon2d_tag(p, nonce_bytes(n))) == TARGET - 1 ==> check_spec(p, n)
            == Ok::<bool, PowError>(true),
        le_u32(argon2d_tag(p, nonce_bytes(n))) == TARGET as int ==> check_spec(p, n)
            == Ok::<bool, PowError>(false),
{
}

/// Whether a digest passes depends on its first four bytes alone, read
/// little-endian, so any two verifiers holding the same digest agree.
pub proof fn lemma_score_depends_on_bytes(d: Seq<u8>, e: Seq<u8>)
    requires
        d.len() >= 4,
        e.len() >= 4,
        d.take(4) == e.take(4),
    ensures
        digest_meets_target(d) == digest_meets_target(e),
{
    assert(d[0] == d.take(4)[0] && d[1] == d.take(4)[1] && d[2] == d.take(4)[2] && d[3]
        == d.take(4)[3]);
    assert(e[0] == e.take(4)[0] && e[1] == e.take(4)[1] && e[2] == e.take(4)[2] && e[3]
        == e.take(4)[3]);
}

} // verus!
