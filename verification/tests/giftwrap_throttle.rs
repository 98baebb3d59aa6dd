use whitenoise::whitenoise::event_processor::giftwrap_throttle::{
    fail_open, reported_level, GiftwrapThrottle, PARTS_PER_TOKEN,
};

const SECOND: u64 = 1_000_000_000;

fn bucket(now: u64) -> GiftwrapThrottle {
    GiftwrapThrottle::new(60, 2_000_000, now)
}

#[test]
fn trickle_at_legitimate_rate_never_throttles() {
    let mut bucket = bucket(0);
    let mut accepted = 0u32;
    for i in 0..30 {
        if bucket.try_acquire_at(i * SECOND) {
            accepted += 1;
        }
    }
    assert_eq!(accepted, 30, "all legitimate welcomes must pass");
}

#[test]
fn flood_is_capped_at_capacity_then_refills() {
    let t0 = 5 * SECOND;
    let mut bucket = bucket(t0);
    let mut accepted_burst = 0u32;
    for _ in 0..10_000 {
        if bucket.try_acquire_at(t0) {
            accepted_burst += 1;
        }
    }
    assert_eq!(accepted_burst, 60, "burst must be bounded by capacity");

    let t1 = t0 + 10 * SECOND;
    let mut accepted_refill = 0u32;
    for _ in 0..10_000 {
        if bucket.try_acquire_at(t1) {
            accepted_refill += 1;
        }
    }
    assert_eq!(
        accepted_refill, 20,
        "post-burst refill must be exactly refill_per_sec * elapsed"
    );
}

#[test]
fn refill_caps_at_capacity_not_unbounded() {
    let mut bucket = bucket(0);
    let t1 = 3600 * SECOND;
    let mut accepted = 0u32;
    for _ in 0..1_000 {
        if bucket.try_acquire_at(t1) {
            accepted += 1;
        }
    }
    assert_eq!(accepted, 60, "accumulated tokens must be capped at capacity");
}

#[test]
fn under_sustained_flood_throughput_equals_refill_rate() {
    let mut bucket = bucket(0);
    let mut accepted = 0u32;
    for s in 0..5u64 {
        for i in 0..1_000u64 {
            if bucket.try_acquire_at((s * 1000 + i) * 1_000_000) {
                accepted += 1;
            }
        }
    }
    assert!(
        (69..=71).contains(&accepted),
        "expected ~70 accepted under sustained flood, got {accepted}"
    );
}

#[test]
fn poisoned_lock_fails_open() {
    assert!(fail_open(None));
    assert!(fail_open(Some(true)));
    assert!(!fail_open(Some(false)));
    assert_eq!(reported_level(None), 0);
    assert_eq!(reported_level(Some(7)), 7);
}

#[test]
fn level_is_counted_in_parts_of_a_token() {
    let mut bucket = bucket(0);
    assert_eq!(bucket.tokens(), 60 * PARTS_PER_TOKEN);
    assert!(bucket.try_acquire(0));
    assert_eq!(bucket.tokens(), 59 * PARTS_PER_TOKEN);
    // A quarter of a second brings half a token back, and one is taken.
    assert!(bucket.try_acquire(SECOND / 4));
    assert_eq!(bucket.tokens(), 58 * PARTS_PER_TOKEN + PARTS_PER_TOKEN / 2);
}

#[test]
fn clock_that_goes_back_brings_nothing() {
    let mut bucket = bucket(10 * SECOND);
    while bucket.try_acquire_at(10 * SECOND) {}
    assert!(!bucket.try_acquire_at(0));
    assert!(!bucket.try_acquire_at(SECOND / 4));
    assert!(bucket.try_acquire_at(SECOND / 2));
}

#[test]
fn default_bucket_takes_sixty_at_once() {
    let mut bucket = GiftwrapThrottle::default_for_account(0);
    let mut accepted = 0u32;
    while bucket.try_acquire(0) {
        accepted += 1;
    }
    assert_eq!(accepted, 60);
    assert!(bucket.try_acquire(SECOND / 2));
    assert!(!bucket.try_acquire(SECOND / 2));
}
