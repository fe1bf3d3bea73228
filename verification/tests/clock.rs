use esp_slint_boards::clock::{duration_since_start, Uptime};

#[test]
fn start_is_zero() {
    assert_eq!(duration_since_start(0), Uptime { secs: 0, nanos: 0 });
}

#[test]
fn ticks_are_microseconds() {
    assert_eq!(duration_since_start(1), Uptime { secs: 0, nanos: 1_000 });
    assert_eq!(duration_since_start(16_000), Uptime { secs: 0, nanos: 16_000_000 });
    assert_eq!(duration_since_start(12_345_678), Uptime { secs: 12, nanos: 345_678_000 });
    assert_eq!(
        duration_since_start(u64::MAX),
        Uptime { secs: 18_446_744_073_709, nanos: 551_615_000 }
    );
}

#[test]
fn time_does_not_run_backwards() {
    let mut last = (0, 0);
    for ticks in (0..10_000_000u64).step_by(333_333) {
        let now = duration_since_start(ticks);
        assert!((now.secs, now.nanos) >= last);
        last = (now.secs, now.nanos);
    }
}
