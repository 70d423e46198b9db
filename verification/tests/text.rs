use riscv_monitor::cpu::CPUDescription;
use riscv_monitor::csr::Hart;
use riscv_monitor::text::{contains, to_decimal, to_hex};

#[test]
fn search_finds_a_part_anywhere() {
    assert!(contains("hifive-unleashed-a00", "hifive-unleashed-a00"));
    assert!(contains("sifive,hifive-unleashed-a00", "hifive"));
    assert!(contains("sifive,hifive-unleashed-a00", "a00"));
    assert!(contains("sifive,hifive-unleashed-a00", "sifive,"));
    assert!(contains("aab", "ab"));
    assert!(contains("abc", ""));
    assert!(contains("", ""));
    assert!(contains("na\u{ef}ve 16550a", "16550a"));
}

#[test]
fn search_misses_what_is_not_there() {
    assert!(!contains("", "a"));
    assert!(!contains("abc", "abcd"));
    assert!(!contains("abc", "ac"));
    assert!(!contains("abc", "B"));
    assert!(!contains("16550", "16550a"));
    assert!(!contains("ab ab ab", "aba"));
}

#[test]
fn search_agrees_with_the_standard_library() {
    let texts = ["", "a", "ab", "aba", "abab", "ns16550a", "sifive,uart0", "ns16550", "xx16550axx"];
    for haystack in texts {
        for needle in texts {
            assert_eq!(contains(haystack, needle), haystack.contains(needle), "{} {}", haystack, needle);
        }
    }
}

#[test]
fn numbers_in_base_sixteen() {
    assert_eq!(to_hex(0), "0");
    assert_eq!(to_hex(9), "9");
    assert_eq!(to_hex(10), "a");
    assert_eq!(to_hex(15), "f");
    assert_eq!(to_hex(16), "10");
    assert_eq!(to_hex(0x8000_0000), "80000000");
    assert_eq!(to_hex(0xdead_beef_0123), "deadbeef0123");
    assert_eq!(to_hex(u64::MAX), "ffffffffffffffff");
    for value in [1u64, 255, 256, 4095, 0x1_0000_0000, 0x0123_4567_89ab_cdef] {
        assert_eq!(to_hex(value), format!("{:x}", value));
    }
}

#[test]
fn numbers_in_base_ten() {
    assert_eq!(to_decimal(0), "0");
    assert_eq!(to_decimal(9), "9");
    assert_eq!(to_decimal(10), "10");
    assert_eq!(to_decimal(1_000_000), "1000000");
    assert_eq!(to_decimal(usize::MAX), format!("{}", usize::MAX));
    for value in [1usize, 11, 99, 100, 101, 65_535, 4_294_967_296] {
        assert_eq!(to_decimal(value), format!("{}", value));
    }
}

#[test]
fn instruction_set_in_lower_case() {
    let mut hart = Hart::new();
    assert_eq!(CPUDescription.isa_to_lowercase_string(&hart), "rv64");
    hart.misa = (1 << 8) | (1 << 12) | (1 << 0) | (1 << 5) | (1 << 3) | (1 << 2);
    assert_eq!(CPUDescription.isa_to_lowercase_string(&hart), "rv64imafdc");
    for misa in [0u64, 1, 0x1234_5678, u64::MAX, 1 << 25, (1 << 7) | (1 << 13)] {
        hart.misa = misa;
        assert_eq!(
            CPUDescription.isa_to_lowercase_string(&hart),
            CPUDescription.isa_to_string(&hart).to_lowercase()
        );
    }
}
