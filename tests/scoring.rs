use relay_rank::eligibility::{filter, Candidate};
use relay_rank::ranking::{is_nan, order_key_of, shortlist, RankError};
use relay_rank::relay::{Relay, RelayInformation};
use relay_rank::tally::{tally, Tally};
use relay_rank::SHORTLIST_LEN;

const KEY_HEX: &str = "79be667ef9dcbbac55a06295ce870b07029bfcdb2dce28d959f2815b16f81798";
const NOW: i64 = 1_700_000_000;

fn candidate(success: u64, failure: u64, last: Option<u64>) -> Candidate {
    let relay = Relay {
        url: "wss://relay.example.com/".to_string(),
        success_count: success,
        failure_count: failure,
        last_connected_at: last,
        last_general_eose_at: None,
        rank: 3,
        hidden: false,
        usage_bits: 0,
        nip11: Some(RelayInformation {
            pubkey: Some(KEY_HEX.to_string()),
            payments_url: None,
            has_fees: false,
        }),
        last_attempt_nip11: None,
    };
    filter(relay).expect("eligible")
}

/// The score formula of the ranking program, on the library's diagnostics.
fn score(t: &Tally) -> f32 {
    let rate = t.success as f32 / t.attempts as f32;
    let log_attempts = (t.attempts as f32).log2();
    let age_penalty_divisor = 1.0 + t.ago as f32 / 86400.0;
    rate.powf(1.414) * log_attempts * log_attempts / age_penalty_divisor
}

#[test]
fn tally_counts_and_age() {
    let c = candidate(50, 5, Some((NOW - 3600) as u64));
    assert_eq!(
        tally(&c, NOW),
        Some(Tally { ago: 3600, attempts: 55, success: 50 })
    );
}

#[test]
fn tally_without_last_connection_counts_from_epoch() {
    let c = candidate(1, 0, None);
    assert_eq!(tally(&c, NOW), Some(Tally { ago: NOW, attempts: 1, success: 1 }));
}

#[test]
fn tally_future_connection_gives_negative_age() {
    let c = candidate(2, 2, Some((NOW + 10) as u64));
    assert_eq!(tally(&c, NOW).unwrap().ago, -10);
}

#[test]
fn tally_overflow_is_refused() {
    let c = candidate(u64::MAX, 1, Some(0));
    assert_eq!(tally(&c, NOW), None);
    let c = candidate(1, 1, Some(u64::MAX));
    assert_eq!(tally(&c, -1), None);
    let c = candidate(u64::MAX - 1, 1, Some(0));
    assert_eq!(tally(&c, NOW).unwrap().attempts, u64::MAX);
}

#[test]
fn tally_is_repeatable() {
    let c = candidate(7, 3, Some(12345));
    let a = tally(&c, NOW).unwrap();
    let b = tally(&c, NOW).unwrap();
    assert_eq!(a, b);
    assert_eq!(score(&a).to_bits(), score(&b).to_bits());
}

#[test]
fn single_attempt_scores_zero() {
    let t = tally(&candidate(1, 0, Some((NOW - 5) as u64)), NOW).unwrap();
    assert_eq!(t.attempts, 1);
    assert_eq!(score(&t), 0.0);
    let t = tally(&candidate(1, 0, None), NOW).unwrap();
    assert_eq!(score(&t), 0.0);
}

#[test]
fn end_to_end_higher_rate_and_attempts_ranks_first() {
    let a = tally(&candidate(50, 5, Some((NOW - 3600) as u64)), NOW).unwrap();
    let b = tally(&candidate(5, 5, Some((NOW - 3600) as u64)), NOW).unwrap();
    assert_eq!((a.attempts, a.success), (55, 50));
    assert_eq!((b.attempts, b.success), (10, 5));
    assert_eq!(a.ago, b.ago);
    let bits = vec![score(&b).to_bits(), score(&a).to_bits()];
    assert_eq!(shortlist(&bits, SHORTLIST_LEN), Ok(vec![1, 0]));
}

#[test]
fn nan_detection() {
    assert!(is_nan(f32::NAN.to_bits()));
    assert!(is_nan((-f32::NAN).to_bits()));
    assert!(!is_nan(f32::INFINITY.to_bits()));
    assert!(!is_nan(f32::NEG_INFINITY.to_bits()));
    assert!(!is_nan(0.0f32.to_bits()));
}

#[test]
fn order_key_agrees_with_float_order() {
    let values = [
        f32::NEG_INFINITY,
        -3.5,
        -1.0,
        -f32::MIN_POSITIVE,
        -0.0,
        0.0,
        f32::MIN_POSITIVE,
        0.25,
        1.0,
        1.5,
        f32::MAX,
        f32::INFINITY,
    ];
    for x in values.iter() {
        for y in values.iter() {
            let kx = order_key_of(x.to_bits());
            let ky = order_key_of(y.to_bits());
            assert_eq!(kx < ky, x < y, "{} {}", x, y);
            assert_eq!(kx == ky, x == y, "{} {}", x, y);
        }
    }
    assert_eq!(order_key_of(1.0f32.to_bits()), 0x3f80_0000);
    assert_eq!(order_key_of((-1.0f32).to_bits()), -0x3f80_0000);
}

#[test]
fn shortlist_sorts_descending_with_ties_in_input_order() {
    let scores: Vec<f32> = vec![0.5, 2.0, -1.0, 2.0, 0.0, -0.0, 7.25];
    let bits: Vec<u32> = scores.iter().map(|s| s.to_bits()).collect();
    assert_eq!(shortlist(&bits, SHORTLIST_LEN), Ok(vec![6, 1, 3, 0, 4, 5, 2]));
}

#[test]
fn shortlist_truncates_to_limit() {
    let bits: Vec<u32> = (0..30).map(|i| (i as f32).to_bits()).collect();
    let out = shortlist(&bits, SHORTLIST_LEN).unwrap();
    assert_eq!(SHORTLIST_LEN, 20);
    assert_eq!(out.len(), 20);
    let expected: Vec<usize> = (10..30).rev().collect();
    assert_eq!(out, expected);
}

#[test]
fn shortlist_of_nothing_is_empty() {
    assert_eq!(shortlist(&Vec::new(), SHORTLIST_LEN), Ok(vec![]));
    assert_eq!(shortlist(&vec![1.0f32.to_bits()], 0), Ok(vec![]));
}

#[test]
fn shortlist_fails_at_first_nan() {
    let bits = vec![1.0f32.to_bits(), f32::NAN.to_bits(), 2.0f32.to_bits(), f32::NAN.to_bits()];
    assert_eq!(
        shortlist(&bits, SHORTLIST_LEN),
        Err(RankError::NotComparable { index: 1 })
    );
}
