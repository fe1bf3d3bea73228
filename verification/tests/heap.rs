use esp_slint_boards::heap::report_heap_stats;

#[test]
fn heap_line() {
    assert_eq!(
        report_heap_stats("After WiFi initialization", 71_680, 92_160),
        "[HEAP STATS] After WiFi initialization: Used: 71680 bytes, Free: 92160 bytes, Total: 163840 bytes"
    );
}

#[test]
fn heap_line_with_small_and_large_numbers() {
    assert_eq!(
        report_heap_stats("", 0, 9),
        "[HEAP STATS] : Used: 0 bytes, Free: 9 bytes, Total: 9 bytes"
    );
    assert_eq!(
        report_heap_stats("x", 10, 4_294_967_285),
        "[HEAP STATS] x: Used: 10 bytes, Free: 4294967285 bytes, Total: 4294967295 bytes"
    );
}
