use riscv_monitor::test::{end, TEST_INTERFACE_MMIO_ADDR};

#[test]
fn pass_word() {
    assert_eq!(end(Ok(0)), 0x5555);
    assert_eq!(end(Ok(99)), 0x5555);
    assert_eq!(TEST_INTERFACE_MMIO_ADDR, 0x10_0000);
}

#[test]
fn fail_word_carries_the_code() {
    assert_eq!(end(Err(1)), 0x0001_3333);
    assert_eq!(end(Err(0x1234)), 0x1234_3333);
    assert_eq!(end(Err(0xffff)), 0xffff_3333);
    assert_eq!(end(Err(0x1_0002)), 0x0002_3333);
    assert_eq!(end(Err(0)), 0x3333);
}
