//! The board identifier read from two strapping pins.

use vstd::prelude::*;

verus! {

/// Numeric value of the two board-identification straps: `b0` is the low bit
/// and `b1` the high bit.
pub open spec fn board_id_of(b0: bool, b1: bool) -> int {
    (if b1 { 2int } else { 0int }) + (if b0 { 1int } else { 0int })
}

/// Combines the sampled levels of the two identification pins into the
/// two-bit board identifier.
pub fn read_board_id(b0: bool, b1: bool) -> (id: u8)
    ensures
        id as int == board_id_of(b0, b1),
        id <= 3,
{
    let low: u8 = if b0 { 1 } else { 0 };
    let high: u8 = if b1 { 2 } else { 0 };
    low + high
}

} // verus!
