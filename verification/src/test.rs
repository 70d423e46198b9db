//! Ending a test run on an emulator.
//!
//! The emulator watches one word of device memory. A magic value written
//! there ends the run, as passed or as failed with a code.

use vstd::prelude::*;

verus! {

/// Physical address of the word that the emulator watches.
pub const TEST_INTERFACE_MMIO_ADDR: u64 = 0x10_0000;

/// The word that ends a run as passed.
pub const TEST_PASS: u32 = 0x5555;

/// The low half of a word that ends a run as failed.
pub const TEST_FAIL: u32 = 0x3333;

/// The word that reports `result`: the pass word whatever was passed, or
/// the fail word with the low sixteen bits of the failure code in its upper
/// half.
pub open spec fn end_word(result: Result<u32, u32>) -> u32 {
    match result {
        Ok(_) => 0x5555u32,
        Err(e) => 0x3333u32 | (e << 16u32),
    }
}

/// The word to write to the test device to end the run with `result`:
/// `Ok` for all tests passed, `Err` with the code of the first test that
/// failed.
pub fn end(result: Result<u32, u32>) -> (word: u32)
    ensures
        word == end_word(result),
        result is Ok ==> word == 0x5555,
        result is Err ==> word % 0x1_0000 == 0x3333 && word / 0x1_0000 == result->Err_0
            % 0x1_0000,
{
    match result {
        Ok(_) => TEST_PASS,
        Err(e) => {
            let word = TEST_FAIL | (e << 16);
            assert(word % 0x1_0000 == 0x3333 && word / 0x1_0000 == e % 0x1_0000) by (bit_vector)
                requires
                    word == 0x3333u32 | (e << 16u32),
            ;
            word
        },
    }
}

} // verus!
