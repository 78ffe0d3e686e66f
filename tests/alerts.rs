use sysoracle::alert::{cpu_alert, memory_alert, AlertEngine};
use sysoracle::metrics::Metrics;

fn metrics(cpu_tenths: u64, used: u64, total: u64) -> Metrics {
    Metrics { cpu_tenths, memory_used: used, memory_total: total }
}

#[test]
fn new_feed_is_empty() {
    let e = AlertEngine::new();
    assert!(e.list().is_empty());
}

#[test]
fn push_puts_newest_first() {
    let mut e = AlertEngine::new();
    e.push("a".to_string(), 0);
    e.push("b".to_string(), 1);
    e.push("c".to_string(), 2);
    assert_eq!(e.list(), vec!["c".to_string(), "b".to_string(), "a".to_string()]);
}

#[test]
fn repeated_push_is_stored_once() {
    let mut e = AlertEngine::new();
    e.push("same".to_string(), 0);
    e.push("same".to_string(), 5);
    assert_eq!(e.list(), vec!["same".to_string()]);
}

#[test]
fn only_adjacent_duplicates_are_suppressed() {
    let mut e = AlertEngine::new();
    e.push("A".to_string(), 0);
    e.push("B".to_string(), 1);
    e.push("A".to_string(), 2);
    assert_eq!(e.list(), vec!["A".to_string(), "B".to_string(), "A".to_string()]);
}

#[test]
fn feed_never_exceeds_its_bound() {
    let mut e = AlertEngine::new();
    for i in 0..25u64 {
        e.push(format!("alert {}", i), i);
        assert!(e.list().len() <= 10);
    }
    let l = e.list();
    assert_eq!(l.len(), 10);
    assert_eq!(l[0], "alert 24");
    assert_eq!(l[9], "alert 15");
}

#[test]
fn eviction_drops_the_oldest() {
    let mut e = AlertEngine::with_limits(2, 1000);
    e.push("one".to_string(), 0);
    e.push("two".to_string(), 1);
    e.push("three".to_string(), 2);
    assert_eq!(e.list(), vec!["three".to_string(), "two".to_string()]);
}

#[test]
fn zero_bound_holds_nothing() {
    let mut e = AlertEngine::with_limits(0, 1000);
    e.push("x".to_string(), 0);
    assert!(e.list().is_empty());
}

#[test]
fn cleanup_removes_alerts_at_their_lifetime() {
    let mut e = AlertEngine::new();
    e.push("old".to_string(), 0);
    e.push("mid".to_string(), 5_000);
    e.push("new".to_string(), 10_000);
    e.cleanup(20_000);
    assert_eq!(e.list(), vec!["new".to_string(), "mid".to_string()]);
    e.cleanup(24_999);
    assert_eq!(e.list(), vec!["new".to_string(), "mid".to_string()]);
    e.cleanup(25_000);
    assert_eq!(e.list(), vec!["new".to_string()]);
}

#[test]
fn cleanup_keeps_alerts_from_the_future() {
    let mut e = AlertEngine::new();
    e.push("later".to_string(), 50_000);
    e.cleanup(100);
    assert_eq!(e.list(), vec!["later".to_string()]);
}

#[test]
fn cleanup_removes_from_any_position() {
    let mut e = AlertEngine::with_limits(10, 100);
    e.push("a".to_string(), 200);
    e.push("b".to_string(), 50);
    e.push("c".to_string(), 210);
    e.cleanup(220);
    assert_eq!(e.list(), vec!["c".to_string(), "a".to_string()]);
}

#[test]
fn cpu_check_formats_one_decimal() {
    let m = metrics(810, 0, 100);
    assert_eq!(cpu_alert(&m), Some("High CPU usage: 81.0%".to_string()));
}

#[test]
fn cpu_check_needs_more_than_eighty() {
    assert_eq!(cpu_alert(&metrics(800, 0, 100)), None);
    assert_eq!(cpu_alert(&metrics(801, 0, 100)), Some("High CPU usage: 80.1%".to_string()));
}

#[test]
fn memory_check_fires_at_ninety_percent() {
    let m = metrics(0, 90, 100);
    assert_eq!(memory_alert(&m), Some("High Memory usage: 90.0%".to_string()));
}

#[test]
fn memory_check_needs_more_than_eighty_five() {
    assert_eq!(memory_alert(&metrics(0, 85, 100)), None);
    assert_eq!(memory_alert(&metrics(0, 851, 1000)), Some("High Memory usage: 85.1%".to_string()));
}

#[test]
fn memory_check_with_zero_total_does_not_fire() {
    assert_eq!(memory_alert(&metrics(0, 90, 0)), None);
}

#[test]
fn update_raises_both_alerts_cpu_first() {
    let mut e = AlertEngine::new();
    e.update(&metrics(950, 95, 100), 1_000);
    assert_eq!(
        e.list(),
        vec!["High Memory usage: 95.0%".to_string(), "High CPU usage: 95.0%".to_string()]
    );
}

#[test]
fn update_repeated_each_tick_does_not_spam() {
    let mut e = AlertEngine::new();
    e.update(&metrics(900, 0, 100), 0);
    e.update(&metrics(900, 0, 100), 1_000);
    e.update(&metrics(900, 0, 100), 2_000);
    assert_eq!(e.list(), vec!["High CPU usage: 90.0%".to_string()]);
}

#[test]
fn update_expires_old_alerts() {
    let mut e = AlertEngine::new();
    e.update(&metrics(900, 0, 100), 0);
    e.update(&metrics(100, 0, 100), 20_000);
    assert!(e.list().is_empty());
}

#[test]
fn check_thresholds_does_not_clean_up() {
    let mut e = AlertEngine::new();
    e.push("stale".to_string(), 0);
    e.check_thresholds(&metrics(100, 0, 100), 60_000);
    assert_eq!(e.list(), vec!["stale".to_string()]);
}
