//! Bit-set helpers shared by every flag byte of the machine.

use vstd::prelude::*;

verus! {

/// All bits of `mask` are set in `bits`.
pub open spec fn has_all(bits: u8, mask: u8) -> bool {
    bits & mask == mask
}

/// `bits` with the bits of `mask` switched on or off.
pub open spec fn assigned(bits: u8, mask: u8, on: bool) -> u8 {
    if on {
        bits | mask
    } else {
        bits & !mask
    }
}

pub fn contains(bits: u8, mask: u8) -> (r: bool)
    ensures
        r == has_all(bits, mask),
{
    bits & mask == mask
}

pub fn assign(bits: u8, mask: u8, on: bool) -> (r: u8)
    ensures
        r == assigned(bits, mask, on),
{
    if on {
        bits | mask
    } else {
        bits & !mask
    }
}

/// Switching a mask on sets exactly its bits; switching it off clears
/// exactly its bits; either way every other bit keeps its value.
pub proof fn lemma_assigned(bits: u8, mask: u8, other: u8)
    by (bit_vector)
    ensures
        (bits | mask) & mask == mask,
        (bits & !mask) & mask == 0,
        other & mask == 0 ==> (bits | mask) & other == bits & other,
        other & mask == 0 ==> (bits & !mask) & other == bits & other,
{
}

} // verus!
