use hpet::ticks::{catch_up, hpet_next_wrap, hpet_time_after, ns_to_ticks, ticks_to_ns};

#[test]
fn next_wrap_is_the_next_multiple() {
    assert_eq!(hpet_next_wrap(0), 0x1_0000_0000);
    assert_eq!(hpet_next_wrap(0xffff_ffff), 0x1_0000_0000);
    assert_eq!(hpet_next_wrap(0x1_0000_0000), 0x2_0000_0000);
    assert_eq!(hpet_next_wrap(u64::MAX), 0);
}

#[test]
fn time_after_is_signed_distance() {
    assert!(hpet_time_after(5, 4));
    assert!(!hpet_time_after(5, 5));
    assert!(!hpet_time_after(4, 5));
    assert!(hpet_time_after(3, u64::MAX));
    assert!(!hpet_time_after(u64::MAX, 3));
    assert!(hpet_time_after(1 << 63, 0));
    assert!(hpet_time_after(0, 1 << 63));
}

#[test]
fn ticks_and_nanoseconds() {
    assert_eq!(ticks_to_ns(123), 1230);
    assert_eq!(ns_to_ticks(1239), 123);
    assert_eq!(ns_to_ticks(ticks_to_ns(0x1234_5678)), 0x1234_5678);
    assert_eq!(ticks_to_ns(1 << 63), 0);
    assert_eq!(ticks_to_ns(0x2000_0000_0000_0001), 0x4000_0000_0000_000a);
}

#[test]
fn catch_up_stops_at_the_first_period_that_is_not_over() {
    assert_eq!(catch_up(100, 30, 100), 100);
    assert_eq!(catch_up(100, 30, 50), 100);
    assert_eq!(catch_up(100, 30, 101), 130);
    assert_eq!(catch_up(100, 30, 130), 130);
    assert_eq!(catch_up(100, 30, 131), 160);
    assert_eq!(catch_up(100, 1000, 101), 1100);
}

#[test]
fn catch_up_wraps_around() {
    assert_eq!(catch_up(u64::MAX - 5, 10, u64::MAX - 1), 4);
    assert_eq!(catch_up(u64::MAX - 5, 10, 6), 14);
}

#[test]
fn catch_up_with_a_period_that_goes_backwards() {
    // Half the range forward is as far as half the range backward.
    assert_eq!(catch_up(0, 1 << 63, 10), 1 << 63);
}
