//! Single-bit operations on the 8-bit expander byte.
//!
//! Every control-line operation of the adapter reduces to setting, clearing
//! or testing one bit of a byte at a position in `0..=7`. The spec functions
//! here are the model that all adapter contracts are stated over.

use vstd::prelude::*;

verus! {

/// Whether bit `pos` of `s` is high.
pub open spec fn spec_bit(s: u8, pos: u8) -> bool {
    s & (1u8 << pos) != 0
}

/// `s` with bit `pos` driven to level `b`, all other bits unchanged.
pub open spec fn spec_bit_set(s: u8, pos: u8, b: bool) -> u8 {
    if b {
        s | (1u8 << pos)
    } else {
        s & !(1u8 << pos)
    }
}

/// Test one bit of a byte.
pub fn get_bit(s: u8, pos: u8) -> (r: bool)
    requires
        pos <= 7,
    ensures
        r == spec_bit(s, pos),
{
    s & (1u8 << pos) != 0
}

/// Drive one bit of a byte to the given level.
pub fn set_bit(s: u8, pos: u8, b: bool) -> (r: u8)
    requires
        pos <= 7,
    ensures
        r == spec_bit_set(s, pos, b),
{
    if b {
        s | (1u8 << pos)
    } else {
        s & !(1u8 << pos)
    }
}

/// Law: driving a line leaves exactly that line at the written level.
/// Reading back the written position yields the value written, and every
/// other position keeps its previous level.
pub proof fn lemma_bit_set_read_back(s: u8, pos: u8, q: u8, b: bool)
    requires
        pos <= 7,
        q <= 7,
    ensures
        spec_bit(spec_bit_set(s, pos, b), pos) == b,
        q != pos ==> spec_bit(spec_bit_set(s, pos, b), q) == spec_bit(s, q),
{
    assert(spec_bit(spec_bit_set(s, pos, b), pos) == b) by (bit_vector)
        requires
            pos <= 7,
    ;
    assert(q != pos ==> spec_bit(spec_bit_set(s, pos, b), q) == spec_bit(s, q)) by (bit_vector)
        requires
            pos <= 7,
            q <= 7,
    ;
}

} // verus!
