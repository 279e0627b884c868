use block_stream::backoff::{Backoff, MAX_ATTEMPT};

#[test]
fn new_accepts_only_positive_base_within_cap() {
    assert_eq!(Backoff::new(500, 30_000), Some(Backoff { base_ms: 500, cap_ms: 30_000 }));
    assert_eq!(Backoff::new(7, 7), Some(Backoff { base_ms: 7, cap_ms: 7 }));
    assert_eq!(Backoff::new(0, 30_000), None);
    assert_eq!(Backoff::new(31, 30), None);
}

#[test]
fn standard_policy_values() {
    assert_eq!(Backoff::standard(), Backoff { base_ms: 500, cap_ms: 30_000 });
}

#[test]
fn plain_delay_doubles_until_the_cap() {
    let b = Backoff::standard();
    assert_eq!(b.plain(0), 500);
    assert_eq!(b.plain(1), 1_000);
    assert_eq!(b.plain(2), 2_000);
    assert_eq!(b.plain(3), 4_000);
    assert_eq!(b.plain(4), 8_000);
    assert_eq!(b.plain(5), 16_000);
    assert_eq!(b.plain(6), 30_000);
    assert_eq!(b.plain(7), 30_000);
    assert_eq!(b.plain(MAX_ATTEMPT), 30_000);
    assert_eq!(b.plain(u32::MAX), 30_000);
}

#[test]
fn plain_delay_at_machine_limits() {
    let b = Backoff { base_ms: 1, cap_ms: u64::MAX };
    assert_eq!(b.plain(0), 1);
    assert_eq!(b.plain(10), 1_024);
    assert_eq!(b.plain(63), 1u64 << 63);
    assert_eq!(b.plain(64), u64::MAX);
    assert_eq!(b.delay(64, u64::MAX), u64::MAX);
    assert_eq!(b.delay(63, 5), (1u64 << 63) + 5);
}

#[test]
fn jitter_adds_at_most_the_plain_delay() {
    let b = Backoff::standard();
    assert_eq!(b.delay(0, 0), 500);
    assert_eq!(b.delay(0, 250), 750);
    assert_eq!(b.delay(0, 500), 1_000);
    assert_eq!(b.delay(0, 501), 500);
    assert_eq!(b.delay(1, 1_234), 1_000 + 1_234 % 1_001);
    assert_eq!(b.delay(5, 16_000), 30_000);
    assert_eq!(b.delay(5, 13_999), 29_999);
    assert_eq!(b.delay(6, 12_345), 30_000);
}

#[test]
fn delays_never_shrink_and_never_exceed_the_cap() {
    let b = Backoff { base_ms: 3, cap_ms: 1_000 };
    let jitters: [u64; 5] = [0, 1, 17, 999_999, u64::MAX];
    let mut attempt: u32 = 0;
    while attempt < 70 {
        for j1 in jitters {
            for j2 in jitters {
                let now = b.delay(attempt, j1);
                let next = b.delay(attempt + 1, j2);
                assert!(now <= next);
                assert!(next <= 1_000);
                assert!(now >= 3);
            }
        }
        attempt += 1;
    }
    for j in jitters {
        assert_eq!(b.delay(MAX_ATTEMPT, j), 1_000);
    }
}
