//! Opcode fields extracted with masks and shifts.

use vstd::prelude::*;
use crate::semantics::{family, reg_x, reg_y, nibble, low_byte, address};

verus! {

/// The instruction family (high nibble).
pub fn opcode_family(op: u16) -> (r: u16)
    ensures
        r == family(op),
        r < 16,
{
    let r = op >> 12u16;
    assert(r == op / 0x1000u16 && r < 16) by (bit_vector)
        requires
            r == op >> 12u16,
    ;
    r
}

/// Register operand `X`.
pub fn opcode_x(op: u16) -> (r: usize)
    ensures
        r == reg_x(op),
        r < 16,
{
    let b = (op & 0x0F00u16) >> 8u16;
    assert(b == (op / 0x100u16) % 0x10u16) by (bit_vector)
        requires
            b == (op & 0x0F00u16) >> 8u16,
    ;
    b as usize
}

/// Register operand `Y`.
pub fn opcode_y(op: u16) -> (r: usize)
    ensures
        r == reg_y(op),
        r < 16,
{
    let b = (op & 0x00F0u16) >> 4u16;
    assert(b == (op / 0x10u16) % 0x10u16) by (bit_vector)
        requires
            b == (op & 0x00F0u16) >> 4u16,
    ;
    b as usize
}

/// Low nibble `N`.
pub fn opcode_n(op: u16) -> (r: u16)
    ensures
        r == nibble(op),
        r < 16,
{
    let b = op & 0x000Fu16;
    assert(b == op % 0x10u16) by (bit_vector)
        requires
            b == op & 0x000Fu16,
    ;
    b
}

/// Low byte `NN`.
pub fn opcode_nn(op: u16) -> (r: u8)
    ensures
        r == low_byte(op),
{
    let b = op & 0x00FFu16;
    assert(b == op % 0x100u16) by (bit_vector)
        requires
            b == op & 0x00FFu16,
    ;
    b as u8
}

/// Address operand `NNN`.
pub fn opcode_nnn(op: u16) -> (r: u16)
    ensures
        r == address(op),
        r < 0x1000,
{
    let b = op & 0x0FFFu16;
    assert(b == op % 0x1000u16) by (bit_vector)
        requires
            b == op & 0x0FFFu16,
    ;
    b
}

} // verus!
