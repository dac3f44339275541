use rogpow::encoding::{decode_score, encode_nonce};
use rogpow::engine::{check, meets_target, pow, search, PowError, TARGET};

const PAYLOAD: &[u8] = b"hello world";

fn digest_with_score(score: u32) -> [u8; 32] {
    let mut d = [0xffu8; 32];
    d[0] = (score % 256) as u8;
    d[1] = (score / 256 % 256) as u8;
    d[2] = (score / 65536 % 256) as u8;
    d[3] = (score / 16777216) as u8;
    d
}

#[test]
fn nonce_is_encoded_little_endian() {
    assert_eq!(encode_nonce(0), [0, 0, 0, 0]);
    assert_eq!(encode_nonce(1), [1, 0, 0, 0]);
    assert_eq!(encode_nonce(0x0102_0304), [4, 3, 2, 1]);
    assert_eq!(encode_nonce(u32::MAX), [0xff, 0xff, 0xff, 0xff]);
}

#[test]
fn score_is_decoded_little_endian() {
    let mut d = [0u8; 32];
    d[0] = 0x80;
    d[1] = 0x96;
    d[2] = 0x98;
    assert_eq!(decode_score(&d), 10_000_000);
    d[4] = 0xff;
    assert_eq!(decode_score(&d), 10_000_000);
    assert_eq!(decode_score(&[0xffu8; 32]), u32::MAX);
    assert_eq!(decode_score(&[0u8; 32]), 0);
}

#[test]
fn nonce_round_trips_through_score_order() {
    for n in [0u32, 1, 255, 256, 10_000_000, 0xdead_beef, u32::MAX] {
        let mut d = [0u8; 32];
        d[..4].copy_from_slice(&encode_nonce(n));
        assert_eq!(decode_score(&d), n);
    }
}

#[test]
fn threshold_boundary() {
    assert_eq!(TARGET, 10_000_000);
    assert!(meets_target(&digest_with_score(TARGET - 1)));
    assert!(!meets_target(&digest_with_score(TARGET)));
    assert!(meets_target(&digest_with_score(0)));
    assert!(!meets_target(&digest_with_score(u32::MAX)));
}

#[test]
fn short_payloads_are_invalid_input() {
    assert_eq!(check(b"", 0), Err(PowError::InvalidInput));
    assert_eq!(check(b"hello", 0), Err(PowError::InvalidInput));
    assert_eq!(check(b"1234567", 7), Err(PowError::InvalidInput));
    assert_eq!(pow(b""), Err(PowError::InvalidInput));
    assert_eq!(pow(b"hello"), Err(PowError::InvalidInput));
    assert_eq!(search(b"hello", 0, 10), Err(PowError::InvalidInput));
}

#[test]
fn empty_range_searches_nothing() {
    assert_eq!(search(PAYLOAD, 5, 4), Ok(None));
    assert_eq!(search(PAYLOAD, u32::MAX, 0), Ok(None));
}

#[test]
fn check_is_deterministic() {
    let a = check(PAYLOAD, 3);
    let b = check(PAYLOAD, 3);
    assert!(a.is_ok());
    assert_eq!(a, b);
}

#[test]
fn digest_depends_on_nonce() {
    let results: Vec<bool> = (0u32..4).map(|n| check(PAYLOAD, n).unwrap()).collect();
    assert!(results.iter().any(|ok| !ok));
}

#[test]
fn search_agrees_with_check() {
    let last = 5u32;
    match search(PAYLOAD, 0, last).unwrap() {
        Some(n) => {
            assert!(n <= last);
            assert_eq!(check(PAYLOAD, n), Ok(true));
            for m in 0..n {
                assert_eq!(check(PAYLOAD, m), Ok(false));
            }
        }
        None => {
            for m in 0..=last {
                assert_eq!(check(PAYLOAD, m), Ok(false));
            }
        }
    }
}

#[test]
fn search_from_an_offset_starts_there() {
    let r = search(PAYLOAD, 2, 3).unwrap();
    if let Some(n) = r {
        assert!((2..=3).contains(&n));
        assert_eq!(check(PAYLOAD, n), Ok(true));
    } else {
        assert_eq!(check(PAYLOAD, 2), Ok(false));
        assert_eq!(check(PAYLOAD, 3), Ok(false));
    }
}

#[test]
fn solve_returns_least_checking_nonce() {
    let payload = b"payload 000037";
    assert_eq!(pow(payload), Ok(0));
    assert_eq!(check(payload, 0), Ok(true));
    assert_eq!(search(payload, 0, 3), Ok(Some(0)));
}

#[test]
fn solution_verifies_in_separate_call() {
    let payload = b"payload 000037".to_vec();
    let n = pow(&payload).unwrap();
    let copy = payload.clone();
    assert_eq!(check(&copy, n), Ok(true));
}
