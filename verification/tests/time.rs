use memcard::time::{ticks_as_nanoseconds, BUS_CLOCK, TIMER_CLOCK};

#[test]
fn the_timer_runs_at_a_quarter_of_the_bus_clock() {
    assert_eq!(BUS_CLOCK, 162_000_000);
    assert_eq!(TIMER_CLOCK, 40_500_000);
}

#[test]
fn no_ticks_are_no_time() {
    assert_eq!(ticks_as_nanoseconds(0), 0);
}

#[test]
fn ticks_convert_by_the_timer_clock() {
    assert_eq!(ticks_as_nanoseconds(1), 24);
    assert_eq!(ticks_as_nanoseconds(324), 8000);
    assert_eq!(ticks_as_nanoseconds(81), 2000);
    assert_eq!(ticks_as_nanoseconds(40_500_000), 1_000_000_000);
}

#[test]
fn the_largest_tick_count_does_not_overflow() {
    assert_eq!(ticks_as_nanoseconds(u32::MAX), 4294967295u64 * 8000 / 324);
    assert_eq!(ticks_as_nanoseconds(u32::MAX), 106_048_575_185);
}
