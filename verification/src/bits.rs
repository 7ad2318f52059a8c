//! Single-bit views of 8-bit register values.
//!
//! Every bitfield this chip layer touches is one bit wide, so the whole
//! register algebra reduces to reading one bit and rewriting one bit while
//! leaving the others alone.

use vstd::prelude::*;

verus! {

/// True when bit `i` of `v` is set; bit 0 is the least significant bit,
/// matching the datasheet's pin numbering within a bank.
pub open spec fn bit8(v: u8, i: u8) -> bool {
    v & (1u8 << i) != 0
}

/// `v` with bit `i` forced to `on` and every other bit unchanged.
pub open spec fn spec_bit_with(v: u8, i: u8, on: bool) -> u8 {
    if on {
        v | (1u8 << i)
    } else {
        v & !(1u8 << i)
    }
}

/// Reads one bit of a register value.
pub fn bit_get(v: u8, i: u8) -> (b: bool)
    requires
        i < 8,
    ensures
        b == bit8(v, i),
{
    v & (1u8 << i) != 0
}

/// Rewrites one bit of a register value.
pub fn bit_with(v: u8, i: u8, on: bool) -> (r: u8)
    requires
        i < 8,
    ensures
        r == spec_bit_with(v, i, on),
        bit8(r, i) == on,
        forall|j: u8| j < 8 && j != i ==> bit8(r, j) == bit8(v, j),
{
    proof {
        lemma_bit_with(v, i, on);
    }
    if on {
        v | (1u8 << i)
    } else {
        v & !(1u8 << i)
    }
}

/// The rewritten bit reads back as requested, and all other bits keep
/// their old value.
pub proof fn lemma_bit_with(v: u8, i: u8, on: bool)
    requires
        i < 8,
    ensures
        bit8(spec_bit_with(v, i, on), i) == on,
        forall|j: u8| j < 8 && j != i ==> bit8(spec_bit_with(v, i, on), j) == bit8(v, j),
{
    assert(bit8(spec_bit_with(v, i, on), i) == on) by (bit_vector)
        requires
            i < 8,
    ;
    assert forall|j: u8| j < 8 && j != i implies bit8(spec_bit_with(v, i, on), j) == bit8(v, j) by {
        lemma_bit_with_untouched(v, i, j, on);
    }
}

proof fn lemma_bit_with_untouched(v: u8, i: u8, j: u8, on: bool)
    requires
        i < 8,
        j < 8,
        i != j,
    ensures
        bit8(spec_bit_with(v, i, on), j) == bit8(v, j),
{
    assert(bit8(spec_bit_with(v, i, on), j) == bit8(v, j)) by (bit_vector)
        requires
            i < 8,
            j < 8,
            i != j,
    ;
}

} // verus!
