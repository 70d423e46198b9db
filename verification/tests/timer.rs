use riscv_monitor::csr::Hart;
use riscv_monitor::timer::{
    clear_supervisor_irq, enable_supervisor_irq, get_pinned_timer_freq, get_pinned_timer_now,
    pinned_timer_freq, pinned_timer_now, trigger_supervisor_irq, Clint, PinnedTimer, Timer,
    TimerValue,
};

const FREQ: u64 = 10_000_000;

#[test]
fn to_exact_by_unit() {
    assert_eq!(TimerValue::Nanoseconds(7).to_exact(3_000_000_000), 21);
    assert_eq!(TimerValue::Nanoseconds(7).to_exact(FREQ), 0);
    assert_eq!(TimerValue::Microseconds(7).to_exact(FREQ), 70);
    assert_eq!(TimerValue::Milliseconds(7).to_exact(FREQ), 70_000);
    assert_eq!(TimerValue::Seconds(7).to_exact(FREQ), 70_000_000);
    assert_eq!(TimerValue::Exact(7).to_exact(FREQ), 7);
    assert_eq!(TimerValue::Exact(7).to_exact(0), 7);
    assert_eq!(TimerValue::Microseconds(7).to_exact(1_999_999), 7);
    assert_eq!(TimerValue::Milliseconds(7).to_exact(999), 0);
}

#[test]
fn to_exact_wraps_at_64_bits() {
    assert_eq!(TimerValue::Seconds(1 << 63).to_exact(2), 0);
    assert_eq!(TimerValue::Seconds(u64::MAX).to_exact(3), u64::MAX - 2);
    assert_eq!(TimerValue::Milliseconds(u64::MAX).to_exact(2000), u64::MAX - 1);
}

#[test]
fn conversions_between_units() {
    let v = TimerValue::Milliseconds(1_234);
    assert_eq!(v.to_nanoseconds(FREQ), TimerValue::Nanoseconds(1_234_000_000));
    assert_eq!(v.to_microseconds(FREQ), TimerValue::Microseconds(1_234_000));
    assert_eq!(v.to_milliseconds(FREQ), TimerValue::Milliseconds(1_234));
    assert_eq!(v.to_seconds(FREQ), TimerValue::Seconds(1));

    let v = TimerValue::Nanoseconds(5_999_999_999);
    assert_eq!(v.to_nanoseconds(FREQ), v);
    assert_eq!(v.to_microseconds(FREQ), TimerValue::Microseconds(5_999_999));
    assert_eq!(v.to_milliseconds(FREQ), TimerValue::Milliseconds(5_999));
    assert_eq!(v.to_seconds(FREQ), TimerValue::Seconds(5));

    let v = TimerValue::Microseconds(2_500_000);
    assert_eq!(v.to_nanoseconds(FREQ), TimerValue::Nanoseconds(2_500_000_000));
    assert_eq!(v.to_microseconds(FREQ), v);
    assert_eq!(v.to_milliseconds(FREQ), TimerValue::Milliseconds(2_500));
    assert_eq!(v.to_seconds(FREQ), TimerValue::Seconds(2));

    let v = TimerValue::Seconds(3);
    assert_eq!(v.to_nanoseconds(FREQ), TimerValue::Nanoseconds(3_000_000_000));
    assert_eq!(v.to_microseconds(FREQ), TimerValue::Microseconds(3_000_000));
    assert_eq!(v.to_milliseconds(FREQ), TimerValue::Milliseconds(3_000));
    assert_eq!(v.to_seconds(FREQ), v);

    let v = TimerValue::Exact(25_000_000);
    assert_eq!(v.to_nanoseconds(FREQ), TimerValue::Nanoseconds(2_000_000_000));
    assert_eq!(v.to_microseconds(FREQ), TimerValue::Microseconds(2_000_000));
    assert_eq!(v.to_milliseconds(FREQ), TimerValue::Milliseconds(2_000));
    assert_eq!(v.to_seconds(FREQ), TimerValue::Seconds(2));
}

#[test]
fn conversions_that_need_no_frequency() {
    assert_eq!(TimerValue::Seconds(2).to_seconds(0), TimerValue::Seconds(2));
    assert_eq!(TimerValue::Milliseconds(2_000).to_seconds(0), TimerValue::Seconds(2));
    assert_eq!(TimerValue::Seconds(u64::MAX).to_milliseconds(0), TimerValue::Milliseconds(u64::MAX - 999));
}

#[test]
fn own_unit_keeps_the_tick_count() {
    for freq in [1u64, 999, 1_000, FREQ, 3_000_000_000, u64::MAX] {
        for t in [0u64, 1, 999, 1_000_000, u64::MAX] {
            let v = TimerValue::Nanoseconds(t);
            assert_eq!(v.to_nanoseconds(freq).to_exact(freq), v.to_exact(freq));
            let v = TimerValue::Microseconds(t);
            assert_eq!(v.to_microseconds(freq).to_exact(freq), v.to_exact(freq));
            let v = TimerValue::Milliseconds(t);
            assert_eq!(v.to_milliseconds(freq).to_exact(freq), v.to_exact(freq));
            let v = TimerValue::Seconds(t);
            assert_eq!(v.to_seconds(freq).to_exact(freq), v.to_exact(freq));
            let v = TimerValue::Exact(t);
            assert_eq!(TimerValue::Exact(v.to_exact(freq)).to_exact(freq), v.to_exact(freq));
        }
    }
}

#[test]
fn to_exact_is_monotonic_without_overflow() {
    let amounts = [0u64, 1, 2, 10, 1_000, 123_456_789];
    for pair in amounts.windows(2) {
        assert!(TimerValue::Nanoseconds(pair[0]).to_exact(3_000_000_000) <= TimerValue::Nanoseconds(pair[1]).to_exact(3_000_000_000));
        assert!(TimerValue::Microseconds(pair[0]).to_exact(FREQ) <= TimerValue::Microseconds(pair[1]).to_exact(FREQ));
        assert!(TimerValue::Milliseconds(pair[0]).to_exact(FREQ) <= TimerValue::Milliseconds(pair[1]).to_exact(FREQ));
        assert!(TimerValue::Seconds(pair[0]).to_exact(FREQ) <= TimerValue::Seconds(pair[1]).to_exact(FREQ));
    }
}

#[test]
fn timer_getters() {
    let timer = Timer::new(FREQ, 0x200_0000);
    assert_eq!(timer.get_frequency(), FREQ);
    assert_eq!(timer.get_mmio_base(), 0x200_0000);
}

#[test]
fn start_fires_at_once_and_enables_the_machine_timer() {
    let timer = Timer::new(FREQ, 0x200_0000);
    let mut hart = Hart::new();
    hart.mie = 0x20;
    let mut clint = Clint { time: 5_000, target: u64::MAX };
    timer.start(&mut hart, &mut clint);
    assert_eq!(clint, Clint { time: 5_000, target: 5_000 });
    assert!(clint.time >= clint.target);
    assert_eq!(hart.mie, 0xa0);
}

#[test]
fn next_in_zero_is_due_now() {
    let timer = Timer::new(FREQ, 0x200_0000);
    for unit in [
        TimerValue::Exact(0),
        TimerValue::Nanoseconds(0),
        TimerValue::Microseconds(0),
        TimerValue::Milliseconds(0),
        TimerValue::Seconds(0),
    ] {
        let mut clint = Clint { time: 77, target: 1_000_000 };
        timer.next_in(&mut clint, unit);
        assert_eq!(clint.target, 77);
        assert!(clint.time >= clint.target);
    }
}

#[test]
fn next_in_and_next_at() {
    let timer = Timer::new(FREQ, 0x200_0000);
    let mut clint = Clint { time: 1_000, target: 0 };
    assert_eq!(timer.get_now(&clint), TimerValue::Exact(1_000));
    timer.next_in(&mut clint, TimerValue::Milliseconds(3));
    assert_eq!(clint, Clint { time: 1_000, target: 31_000 });
    assert_eq!(timer.get_next_at(&clint), TimerValue::Exact(31_000));
    timer.next_at(&mut clint, TimerValue::Seconds(2));
    assert_eq!(timer.get_next_at(&clint), TimerValue::Exact(20_000_000));
    timer.next_at(&mut clint, TimerValue::Exact(5));
    assert_eq!(timer.get_next_at(&clint), TimerValue::Exact(5));
    assert_eq!(clint.time, 1_000);
    timer.next_in(&mut clint, TimerValue::Exact(u64::MAX));
    assert_eq!(clint.target, 999);
}

#[test]
fn now_follows_the_counter() {
    let timer = Timer::new(FREQ, 0x200_0000);
    let mut last = 0;
    for time in [0u64, 1, 1, 50, 1 << 40, u64::MAX] {
        let clint = Clint { time, target: 0 };
        match timer.get_now(&clint) {
            TimerValue::Exact(now) => {
                assert_eq!(now, time);
                assert!(now >= last);
                last = now;
            }
            other => panic!("ticks expected, not {:?}", other),
        }
    }
}

#[test]
fn pinned_slot_starts_empty() {
    let slot = PinnedTimer::new();
    let clint = Clint { time: 9, target: 0 };
    assert_eq!(slot.get(), None);
    assert_eq!(get_pinned_timer_now(&slot, &clint), None);
    assert_eq!(get_pinned_timer_freq(&slot), None);
}

#[test]
fn pinned_timer_is_found_again() {
    let slot = PinnedTimer::new();
    let timer = Timer::new(FREQ, 0x200_0000);
    timer.pin(&slot);
    let clint = Clint { time: 123_456, target: 0 };
    assert_eq!(slot.get(), Some(timer));
    assert_eq!(get_pinned_timer_now(&slot, &clint), Some(TimerValue::Exact(123_456)));
    assert_eq!(get_pinned_timer_freq(&slot), Some(FREQ));
    let other = Timer::new(1, 2);
    other.pin(&slot);
    assert_eq!(get_pinned_timer_freq(&slot), Some(1));
}

#[test]
fn pinned_values_by_what_the_slot_held() {
    let clint = Clint { time: 4, target: 0 };
    let timer = Timer::new(FREQ, 0x200_0000);
    assert_eq!(pinned_timer_now(Some(timer), &clint), Some(TimerValue::Exact(4)));
    assert_eq!(pinned_timer_now(None, &clint), None);
    assert_eq!(pinned_timer_freq(Some(timer)), Some(FREQ));
    assert_eq!(pinned_timer_freq(None), None);
}

#[test]
fn supervisor_timer_interrupt_primitives() {
    let mut hart = Hart::new();
    hart.mie = 0x80;
    hart.mip = 0x2;
    enable_supervisor_irq(&mut hart);
    assert_eq!((hart.mie, hart.mip), (0xa0, 0x2));
    trigger_supervisor_irq(&mut hart);
    assert_eq!((hart.mie, hart.mip), (0xa0, 0x22));
    clear_supervisor_irq(&mut hart);
    assert_eq!((hart.mie, hart.mip), (0xa0, 0x2));
}

#[test]
fn conversions_keep_the_ticks_at_whole_frequencies() {
    let freq = 3_000_000_000u64;
    let v = TimerValue::Seconds(7);
    let ticks = v.to_exact(freq);
    assert_eq!(ticks, 21_000_000_000);
    assert_eq!(v.to_milliseconds(freq).to_exact(freq), ticks);
    assert_eq!(v.to_microseconds(freq).to_exact(freq), ticks);
    assert_eq!(v.to_nanoseconds(freq).to_exact(freq), ticks);

    let v = TimerValue::Microseconds(1_234_567);
    let ticks = v.to_exact(freq);
    assert_eq!(ticks, 3_703_701_000);
    assert_eq!(v.to_nanoseconds(freq).to_exact(freq), ticks);
    assert_eq!(v.to_milliseconds(freq).to_exact(freq), 3_702_000_000);
    assert_eq!(v.to_seconds(freq).to_exact(freq), 3_000_000_000);

    let v = TimerValue::Exact(7_500_000_001);
    assert_eq!(v.to_seconds(freq).to_exact(freq), 6_000_000_000);
    assert_eq!(v.to_nanoseconds(freq).to_exact(freq), 6_000_000_000);
}

#[test]
fn conversions_lose_less_than_one_unit() {
    let freq = 2_000_000_000u64;
    for t in [0u64, 1, 999, 1_000, 1_001, 999_999, 123_456_789, 5_000_000_001] {
        let v = TimerValue::Nanoseconds(t);
        let ticks = v.to_exact(freq);
        let micro = v.to_microseconds(freq).to_exact(freq);
        let milli = v.to_milliseconds(freq).to_exact(freq);
        let secs = v.to_seconds(freq).to_exact(freq);
        assert!(micro <= ticks && ticks - micro < freq / 1_000_000);
        assert!(milli <= ticks && ticks - milli < freq / 1_000);
        assert!(secs <= ticks && ticks - secs < freq);
        let e = TimerValue::Exact(t);
        let back = e.to_microseconds(freq).to_exact(freq);
        assert!(back <= t && t - back < freq);
    }
}

#[test]
fn conversions_at_a_ten_megahertz_timer() {
    let v = TimerValue::Milliseconds(1_500);
    assert_eq!(v.to_exact(FREQ), 15_000_000);
    assert_eq!(v.to_microseconds(FREQ).to_exact(FREQ), 15_000_000);
    assert_eq!(v.to_seconds(FREQ).to_exact(FREQ), 10_000_000);
}
