use media_player::clock::SharedClock;

#[test]
fn new_clock_has_no_elapsed_time() {
    let mut c = SharedClock::new();
    assert!(!c.is_playing());
    assert!(c.get_elapsed_time().is_none());
    assert_eq!(c.elapsed_at(1_000), None);
}

#[test]
fn started_clock_reports_elapsed_time() {
    let mut c = SharedClock::new();
    c.start();
    assert!(c.is_playing());
    assert!(c.get_elapsed_time().is_some());
    assert!(c.elapsed_nanos().is_some());
}

#[test]
fn elapsed_at_counts_from_reference_instant() {
    let mut c = SharedClock::new();
    c.start_at(100);
    assert_eq!(c.elapsed_at(150), Some(50));
    assert_eq!(c.elapsed_at(100), Some(0));
    assert_eq!(c.elapsed_at(40), Some(0));
}

#[test]
fn paused_clock_reports_not_available() {
    let mut c = SharedClock::new();
    c.start_at(100);
    c.pause();
    assert!(!c.is_playing());
    assert_eq!(c.elapsed_at(150), None);
    assert!(c.get_elapsed_time().is_none());
    assert!(c.elapsed_nanos().is_none());
}

#[test]
fn resume_reuses_same_reference_instant() {
    let mut c = SharedClock::new();
    c.start_at(100);
    c.pause();
    c.resume();
    // The pause is not subtracted: the elapsed time jumps forward.
    assert_eq!(c.elapsed_at(1_100), Some(1_000));
}

#[test]
fn resume_without_start_stays_unavailable() {
    let mut c = SharedClock::new();
    c.resume();
    assert!(c.is_playing());
    assert_eq!(c.elapsed_at(10), None);
    assert!(c.get_elapsed_time().is_none());
}

#[test]
fn elapsed_time_does_not_decrease_while_playing() {
    let mut c = SharedClock::new();
    c.start();
    let mut last = c.elapsed_nanos().unwrap();
    for _ in 0..1000 {
        let now = c.elapsed_nanos().unwrap();
        assert!(now >= last);
        last = now;
    }
    let a = c.get_elapsed_time().unwrap();
    let b = c.get_elapsed_time().unwrap();
    assert!(b >= a);
}

#[test]
fn elapsed_at_is_monotonic_in_the_instant() {
    let mut c = SharedClock::new();
    c.start_at(500);
    let mut last = 0u64;
    for t in [0u64, 499, 500, 501, 10_000, u64::MAX] {
        let e = c.elapsed_at(t).unwrap();
        assert!(e >= last);
        last = e;
    }
    assert_eq!(c.elapsed_at(u64::MAX), Some(u64::MAX - 500));
}

#[test]
fn now_nanos_advances() {
    let mut c = SharedClock::new();
    let a = c.now_nanos();
    let b = c.now_nanos();
    assert!(b >= a);
}

#[test]
fn elapsed_duration_matches_elapsed_nanos() {
    let mut c = SharedClock::new();
    c.start();
    let before = c.elapsed_nanos().unwrap();
    let d = c.get_elapsed_time().unwrap();
    let after = c.elapsed_nanos().unwrap();
    assert!(d >= std::time::Duration::from_nanos(before));
    assert!(d <= std::time::Duration::from_nanos(after));
}
