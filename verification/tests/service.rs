use zkproof_worker::service::{Config, Liveness, LIVENESS_MARGIN_SECS};

fn config(floor: u32, workers: u32, interval: u32) -> Config {
    Config {
        database_url: String::from("postgres://localhost/queue"),
        listen_database_channel: String::from("verify_proof_requests"),
        notify_database_channel: String::from("event_ciphertext_computed"),
        pg_polling_interval: interval,
        pg_pool_connections: floor,
        worker_thread_count: workers,
    }
}

const SECOND: u128 = 1_000_000_000;

#[test]
fn pool_size_is_the_floor_or_three_per_worker() {
    assert_eq!(config(10, 2, 5).pool_connections(), 10);
    assert_eq!(config(10, 4, 5).pool_connections(), 12);
    assert_eq!(config(12, 4, 5).pool_connections(), 12);
    assert_eq!(config(0, 0, 5).pool_connections(), 0);
    assert_eq!(config(0, 1, 5).pool_connections(), 3);
    assert_eq!(config(u32::MAX, 1, 5).pool_connections(), u32::MAX);
    assert_eq!(config(1, u32::MAX / 3, 5).pool_connections(), u32::MAX);
}

#[test]
fn threshold_is_interval_plus_margin() {
    assert_eq!(LIVENESS_MARGIN_SECS, 10);
    assert_eq!(config(1, 1, 5).liveness_threshold(), 15);
    assert_eq!(config(1, 1, 0).liveness_threshold(), 10);
    assert_eq!(config(1, 1, u32::MAX).liveness_threshold(), u32::MAX as u64 + 10);
}

#[test]
fn alive_for_fewer_whole_seconds_than_the_threshold() {
    let mut liveness = Liveness::new();
    liveness.record(100 * SECOND);
    assert!(liveness.is_alive(100 * SECOND, 5));
    assert!(liveness.is_alive(114 * SECOND, 5));
    assert!(liveness.is_alive(115 * SECOND - 1, 5));
    assert!(!liveness.is_alive(115 * SECOND, 5));
    assert!(!liveness.is_alive(1000 * SECOND, 5));
}

#[test]
fn a_sign_of_life_from_the_future_does_not_count() {
    let mut liveness = Liveness::new();
    liveness.record(100 * SECOND);
    assert!(!liveness.is_alive(100 * SECOND - 1, 5));
    assert!(!liveness.is_alive(0, 5));
}

#[test]
fn without_a_sign_of_life_the_pool_is_dead() {
    let liveness = Liveness::new();
    assert_eq!(liveness.last_active, 0);
    assert!(!liveness.is_alive(1_700_000_000 * SECOND, 5));
    assert!(liveness.is_alive(14 * SECOND, 5));
}

#[test]
fn the_latest_sign_of_life_counts() {
    let mut liveness = Liveness::new();
    liveness.record(100 * SECOND);
    liveness.record(200 * SECOND);
    assert_eq!(liveness.last_active, 200 * SECOND);
    assert!(liveness.is_alive(210 * SECOND, 1));
    assert!(!liveness.is_alive(211 * SECOND, 1));
}

#[test]
fn the_largest_interval_does_not_overflow() {
    let mut liveness = Liveness::new();
    liveness.record(0);
    assert!(liveness.is_alive((u32::MAX as u128 + 9) * SECOND, u32::MAX));
    assert!(!liveness.is_alive((u32::MAX as u128 + 10) * SECOND, u32::MAX));
    assert!(liveness.is_alive(u128::MAX, u32::MAX) == false);
}
