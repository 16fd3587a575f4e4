//! Decoding of a 16-bit CHIP-8 instruction word into its four nibbles.

use vstd::prelude::*;

verus! {

/// High nibble of an instruction word (bits 12..16).
pub open spec fn op_h(op: u16) -> u16 {
    (op / 0x1000) as u16
}

/// Second nibble of an instruction word (bits 8..12).
pub open spec fn op_x(op: u16) -> u16 {
    ((op / 0x100) % 16) as u16
}

/// Third nibble of an instruction word (bits 4..8).
pub open spec fn op_y(op: u16) -> u16 {
    ((op / 16) % 16) as u16
}

/// Low nibble of an instruction word (bits 0..4).
pub open spec fn op_n(op: u16) -> u16 {
    (op % 16) as u16
}

/// Low byte of an instruction word (bits 0..8).
pub open spec fn op_kk(op: u16) -> u8 {
    (op % 256) as u8
}

/// Low 12 bits of an instruction word: the address operand.
pub open spec fn op_nnn(op: u16) -> u16 {
    (op % 0x1000) as u16
}

/// Recombination of four nibbles into an instruction word.
pub open spec fn nibbles_to_op(h: u16, x: u16, y: u16, n: u16) -> int {
    h * 0x1000 + x * 0x100 + y * 16 + n
}

/// A 2-byte CHIP-8 opcode decomposed into its four 4-bit fields,
/// high to low.
pub struct Opcode {
    /// Header nibble, selects the instruction group.
    pub h1: u16,
    /// First operand nibble.
    pub v1: u16,
    /// Second operand nibble.
    pub v2: u16,
    /// Third operand nibble.
    pub v3: u16,
}

impl Opcode {
    /// Decompose a 2-byte opcode into its four nibbles.
    pub fn new(opcode: u16) -> (r: Self)
        ensures
            r.h1 == op_h(opcode),
            r.v1 == op_x(opcode),
            r.v2 == op_y(opcode),
            r.v3 == op_n(opcode),
    {
        let h1 = (opcode >> 12) & 0xf;
        let v1 = (opcode >> 8) & 0xf;
        let v2 = (opcode >> 4) & 0xf;
        let v3 = opcode & 0xf;
        proof {
            assert((opcode >> 12) & 0xf == opcode / 0x1000) by (bit_vector);
            assert((opcode >> 8) & 0xf == (opcode / 0x100) % 16) by (bit_vector);
            assert((opcode >> 4) & 0xf == (opcode / 16) % 16) by (bit_vector);
            assert(opcode & 0xf == opcode % 16) by (bit_vector);
        }
        Opcode { h1, v1, v2, v3 }
    }
}

/// Law: decoding an instruction word into its four nibbles and recombining
/// them reproduces the word exactly, for every 16-bit value.
pub proof fn lemma_decode_recombine(op: u16)
    ensures
        nibbles_to_op(op_h(op), op_x(op), op_y(op), op_n(op)) == op,
{
    assert((op / 0x1000) * 0x1000 + ((op / 0x100) % 16) * 0x100 + ((op / 16) % 16) * 16 + op % 16
        == op) by (bit_vector);
}

} // verus!
