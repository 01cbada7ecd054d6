use puente_balanza::cache::Cache;
use puente_balanza::ingest::ingest_chunk;

#[test]
fn empty_cache_has_nothing() {
    let c = Cache::new();
    assert_eq!(c.get_if_valid(1000, 0), None);
    assert_eq!(c.get_if_valid(u64::MAX, 5000), None);
}

#[test]
fn publish_then_read_within_threshold() {
    let mut c = Cache::new();
    c.set(b"12.34kg\n".to_vec(), 100);
    assert_eq!(c.get_if_valid(0, 100), Some(b"12.34kg\n".to_vec()));
    assert_eq!(c.get_if_valid(500, 600), Some(b"12.34kg\n".to_vec()));
}

#[test]
fn publish_then_read_past_threshold() {
    let mut c = Cache::new();
    c.set(b"12.34kg\n".to_vec(), 100);
    assert_eq!(c.get_if_valid(500, 601), None);
    assert_eq!(c.get_if_valid(0, 101), None);
}

#[test]
fn stale_reading_after_one_and_a_half_seconds() {
    let mut c = Cache::new();
    c.set(b"OK\n".to_vec(), 0);
    assert_eq!(c.get_if_valid(1000, 1500), None);
    assert_eq!(c.get_if_valid(2000, 1500), Some(b"OK\n".to_vec()));
}

#[test]
fn clock_behind_capture_counts_as_age_zero() {
    let mut c = Cache::new();
    c.set(b"1".to_vec(), 500);
    assert_eq!(c.get_if_valid(0, 400), Some(b"1".to_vec()));
}

#[test]
fn later_publish_replaces_earlier() {
    let mut c = Cache::new();
    c.set(b"first\n".to_vec(), 10);
    c.set(b"second\n".to_vec(), 20);
    assert_eq!(c.get_if_valid(100, 30), Some(b"second\n".to_vec()));
    assert_eq!(c.get_if_valid(15, 30), Some(b"second\n".to_vec()));
    assert_eq!(c.get_if_valid(5, 30), None);
}

#[test]
fn ingest_publishes_readings_only() {
    let mut c = Cache::new();
    assert!(ingest_chunk(&mut c, b"12.34kg\n", 7));
    assert_eq!(c.get_if_valid(0, 7), Some(b"12.34kg\n".to_vec()));
    assert!(!ingest_chunk(&mut c, b"00000", 9));
    assert!(!ingest_chunk(&mut c, b"", 9));
    assert!(!ingest_chunk(&mut c, b"Count        Weight/kg\n", 9));
    assert_eq!(c.get_if_valid(2, 9), Some(b"12.34kg\n".to_vec()));
}
