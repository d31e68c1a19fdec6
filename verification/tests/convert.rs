use os_timer::apple::{repeat_interval, start_delta, DISPATCH_TIME_FOREVER};
use os_timer::bits::{negate_u64, reinterpret_i64, reinterpret_u64, truncate_u32, truncate_u64};
use os_timer::duration::{duration_is_zero, millis_of, nanos_of, ticks_of};
use os_timer::posix::{itimerspec, timespec};
use os_timer::web::delay;
use os_timer::win32::period;
use os_timer::FileTime;

use core::time::Duration;

#[test]
fn duration_totals() {
    let d = Duration::new(3, 250_000_999);
    assert_eq!(nanos_of(d), 3_250_000_999);
    assert_eq!(nanos_of(d), d.as_nanos());
    assert_eq!(millis_of(d), 3_250);
    assert_eq!(millis_of(d), d.as_millis());
    assert_eq!(ticks_of(d), 32_500_009);
    let max = Duration::new(u64::MAX, 999_999_999);
    assert_eq!(nanos_of(max), max.as_nanos());
    assert_eq!(millis_of(max), max.as_millis());
    assert_eq!(ticks_of(max), 184_467_440_737_095_516_159_999_999);
}

#[test]
fn zero_duration() {
    assert!(duration_is_zero(Duration::from_secs(0)));
    assert!(duration_is_zero(Duration::from_millis(0)));
    assert!(!duration_is_zero(Duration::from_nanos(1)));
    assert!(!duration_is_zero(Duration::from_secs(1)));
}

#[test]
fn fixed_width_readings() {
    assert_eq!(truncate_u32(0x1_0000_0005), 5);
    assert_eq!(truncate_u32(0xffff_ffff), 0xffff_ffff);
    assert_eq!(truncate_u64(0x1_0000_0000_0000_0007), 7);
    assert_eq!(truncate_u64(u64::MAX as u128), u64::MAX);
    assert_eq!(reinterpret_i64(0), 0);
    assert_eq!(reinterpret_i64(0x7fff_ffff_ffff_ffff), i64::MAX);
    assert_eq!(reinterpret_i64(0x8000_0000_0000_0000), i64::MIN);
    assert_eq!(reinterpret_i64(u64::MAX), -1);
    assert_eq!(reinterpret_u64(-1), u64::MAX);
    assert_eq!(reinterpret_u64(i64::MIN), 0x8000_0000_0000_0000);
    assert_eq!(reinterpret_u64(42), 42);
    assert_eq!(negate_u64(0), 0);
    assert_eq!(negate_u64(1), u64::MAX);
    assert_eq!(negate_u64(10_000_000), 10_000_000u64.wrapping_neg());
}

#[test]
fn posix_program() {
    let spec = itimerspec::new(Duration::from_millis(250), Duration::from_secs(0));
    assert_eq!(spec.it_value, timespec { tv_sec: 0, tv_nsec: 250_000_000 });
    assert_eq!(spec.it_interval, timespec { tv_sec: 0, tv_nsec: 0 });
    assert!(spec.is_armed());

    let spec = itimerspec::new(Duration::from_secs(1), Duration::from_millis(300));
    assert_eq!(spec.it_value, timespec { tv_sec: 1, tv_nsec: 0 });
    assert_eq!(spec.it_interval, timespec { tv_sec: 0, tv_nsec: 300_000_000 });

    assert_eq!(timespec::from_duration(Duration::new(7, 999_999_999)), timespec { tv_sec: 7, tv_nsec: 999_999_999 });
    assert_eq!(timespec::zero(), timespec { tv_sec: 0, tv_nsec: 0 });
}

#[test]
fn posix_zero_timeout_disarms() {
    let spec = itimerspec::new(Duration::from_secs(0), Duration::from_millis(300));
    assert!(!spec.is_armed());
    assert!(!itimerspec::disarm().is_armed());
    assert_eq!(itimerspec::disarm(), itimerspec::new(Duration::from_secs(0), Duration::from_secs(0)));
    assert!(itimerspec::new(Duration::from_nanos(1), Duration::from_secs(0)).is_armed());
}

#[test]
fn posix_seconds_beyond_signed_range() {
    let ts = timespec::from_duration(Duration::new(i64::MAX as u64, 5));
    assert_eq!(ts, timespec { tv_sec: i64::MAX, tv_nsec: 5 });
    let ts = timespec::from_duration(Duration::new(i64::MAX as u64 + 1, 5));
    assert_eq!(ts, timespec { tv_sec: i64::MIN, tv_nsec: 5 });
    let ts = timespec::from_duration(Duration::new(u64::MAX, 0));
    assert_eq!(ts, timespec { tv_sec: -1, tv_nsec: 0 });
}

#[test]
fn windows_due_time_is_negative_ticks() {
    let due = FileTime::relative(Duration::from_secs(1));
    assert_eq!(due.as_ticks(), -10_000_000);
    assert_eq!(due, FileTime { low_date_time: 0xff67_6980, high_date_time: 0xffff_ffff });

    let due = FileTime::relative(Duration::from_millis(250));
    assert_eq!(due.as_ticks(), -2_500_000);

    // Nanoseconds below one tick are dropped.
    let due = FileTime::relative(Duration::new(0, 199));
    assert_eq!(due.as_ticks(), -1);
    let due = FileTime::relative(Duration::new(0, 99));
    assert_eq!(due.as_ticks(), 0);
    assert_eq!(due, FileTime { low_date_time: 0, high_date_time: 0 });
}

#[test]
fn windows_file_time_halves() {
    let ft = FileTime::from_ticks(0x0123_4567_89ab_cdef);
    assert_eq!(ft, FileTime { low_date_time: 0x89ab_cdef, high_date_time: 0x0123_4567 });
    assert_eq!(ft.as_ticks(), 0x0123_4567_89ab_cdef);
    assert_eq!(FileTime::from_ticks(-1), FileTime { low_date_time: u32::MAX, high_date_time: u32::MAX });
    assert_eq!(FileTime::from_ticks(i64::MIN).as_ticks(), i64::MIN);
    assert_eq!(FileTime::from_ticks(i64::MAX).as_ticks(), i64::MAX);
}

#[test]
fn windows_due_time_wraps_beyond_range() {
    // 2^64 ticks and more keep their low 64 bits only.
    let secs = 1_844_674_407_371u64; // 2^64 / 10^7, rounded down
    let due = FileTime::relative(Duration::new(secs, 0));
    let ticks = (secs as u128) * 10_000_000;
    assert_eq!(due.as_ticks(), (ticks as u64).wrapping_neg() as i64);
    let due = FileTime::relative(Duration::new(u64::MAX, 999_999_999));
    assert_eq!(due.as_ticks(), (184_467_440_737_095_516_159_999_999u128 as u64).wrapping_neg() as i64);
}

#[test]
fn windows_period_truncates_to_32_bits() {
    assert_eq!(period(Duration::from_millis(300)), 300);
    assert_eq!(period(Duration::new(1, 999_999)), 1000);
    assert_eq!(period(Duration::from_millis(u32::MAX as u64)), u32::MAX);
    assert_eq!(period(Duration::from_millis(u32::MAX as u64 + 1)), 0);
    assert_eq!(period(Duration::from_millis(u32::MAX as u64 + 6)), 5);
    assert_eq!(period(Duration::new(u64::MAX, 0)), (u64::MAX as u128 * 1000) as u32);
}

#[test]
fn apple_times_truncate_to_64_bits() {
    assert_eq!(start_delta(Duration::from_millis(250)), 250_000_000);
    assert_eq!(repeat_interval(Duration::from_millis(300)), 300_000_000);
    assert_eq!(start_delta(Duration::from_nanos(i64::MAX as u64)), i64::MAX);
    assert_eq!(start_delta(Duration::from_nanos(i64::MAX as u64 + 1)), i64::MIN);
    assert_eq!(start_delta(Duration::from_nanos(u64::MAX)), -1);
    assert_eq!(repeat_interval(Duration::from_nanos(u64::MAX)), u64::MAX);
    let long = Duration::new(18_446_744_073, 709_551_616); // 2^64 ns
    assert_eq!(repeat_interval(long), 0);
    assert_eq!(start_delta(long), 0);
    let max = Duration::new(u64::MAX, 999_999_999);
    assert_eq!(repeat_interval(max), max.as_nanos() as u64);
    assert_eq!(start_delta(max), max.as_nanos() as i64);
    assert_eq!(DISPATCH_TIME_FOREVER, !0u64);
}

#[test]
fn web_delay_truncates_to_32_bits() {
    assert_eq!(delay(Duration::from_millis(200)), 200);
    assert_eq!(delay(Duration::from_millis(u32::MAX as u64)), u32::MAX);
    assert_eq!(delay(Duration::from_millis(1 << 32)), 0);
    assert_eq!(delay(Duration::from_millis((1 << 32) + 9)), 9);
}
