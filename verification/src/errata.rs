//! Known hardware defects that need a fix in software.
//!
//! Each bit of a bit field stands for one defect. Defects that the monitor
//! need not work around are not listed.

use vstd::prelude::*;
use crate::text::contains;
use crate::text::occurs_in;

verus! {

/// SiFive FU540-C000: atomic operations of the E51 core are not ordered
/// correctly.
pub const SIFIVE_FU540_C000_ROCK_3: u64 = 0;

/// SiFive FU540-C000: the L2 cache reports the address of a failed ECC
/// check wrongly.
pub const SIFIVE_FU540_C000_CCACHE_1: u64 = 1;

/// SiFive FU540-C000: the I2C interrupt cannot be cleared.
pub const SIFIVE_FU540_C000_I2C_1: u64 = 2;

/// The defects that are known of a platform whose model name is `model`.
pub open spec fn known_errata(model: Seq<char>) -> u64 {
    if occurs_in(model, "hifive-unleashed-a00"@) {
        0x7
    } else {
        0
    }
}

/// The defects of the platform with the model name `model`: those that are
/// known, and those among them that the monitor can fix. A platform that is
/// not known has none.
pub fn from_model(model: String) -> (errata: (u64, u64))
    ensures
        errata.0 == known_errata(model@),
        errata.1 == 0,
{
    let mut known: u64 = 0;
    let fixed: u64 = 0;
    if contains(model.as_str(), "hifive-unleashed-a00") {
        known = (1 << SIFIVE_FU540_C000_ROCK_3) | (1 << SIFIVE_FU540_C000_CCACHE_1) | (1
            << SIFIVE_FU540_C000_I2C_1);
        assert((1u64 << 0u64) | (1u64 << 1u64) | (1u64 << 2u64) == 0x7) by (bit_vector);
    }
    (known, fixed)
}

} // verus!
