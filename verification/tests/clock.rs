use scanline_bridge::clock::ticks_to_millis;

#[test]
fn ticks_convert_to_whole_milliseconds() {
    // A 16 MHz system timer: 16_000 ticks per millisecond.
    assert_eq!(ticks_to_millis(0, 16_000_000), 0);
    assert_eq!(ticks_to_millis(16_000, 16_000_000), 1);
    assert_eq!(ticks_to_millis(16_000_000, 16_000_000), 1000);
    assert_eq!(ticks_to_millis(15_999, 16_000_000), 0);
}

#[test]
fn millisecond_resolution_timer_passes_through() {
    // A timer already ticking once per millisecond converts one to one.
    assert_eq!(ticks_to_millis(0, 1000), 0);
    assert_eq!(ticks_to_millis(999, 1000), 999);
    assert_eq!(ticks_to_millis(123_456, 1000), 123_456);
}
