//! The fields of a 16-bit instruction word.
//!
//! The specification reads each field as a quotient or a remainder; the executable
//! functions take it out with a mask and a shift.

use vstd::prelude::*;

verus! {

/// The top four bits: the family of the instruction.
pub open spec fn family_of(opcode: u16) -> int {
    opcode as int / 4096
}

/// Bits 8 to 11: the register operand `x`.
pub open spec fn x_of(opcode: u16) -> int {
    (opcode as int / 256) % 16
}

/// Bits 4 to 7: the register operand `y`.
pub open spec fn y_of(opcode: u16) -> int {
    (opcode as int / 16) % 16
}

/// Bits 0 to 3: the four-bit operand `n`.
pub open spec fn n_of(opcode: u16) -> int {
    opcode as int % 16
}

/// Bits 0 to 7: the byte operand `kk`.
pub open spec fn kk_of(opcode: u16) -> u8 {
    (opcode as int % 256) as u8
}

/// Bits 0 to 11: the address operand `nnn`.
pub open spec fn nnn_of(opcode: u16) -> u16 {
    (opcode as int % 4096) as u16
}

/// Whether `opcode` is a word of the instruction set. The families with a second
/// selector, 8, E and F, have words that are not; every word of the other families is
/// an instruction.
pub open spec fn is_instruction(opcode: u16) -> bool {
    let family = family_of(opcode);
    let n = n_of(opcode);
    let kk = kk_of(opcode);
    if family == 0x8 {
        n <= 0x7 || n == 0xE
    } else if family == 0xE {
        kk == 0x9E || kk == 0xA1
    } else if family == 0xF {
        kk == 0x07 || kk == 0x0A || kk == 0x15 || kk == 0x18 || kk == 0x1E || kk == 0x29 || kk == 0x33
            || kk == 0x55 || kk == 0x65
    } else {
        true
    }
}

/// The family of `opcode`.
pub fn family(opcode: u16) -> (f: u8)
    ensures
        f == family_of(opcode),
        f < 16,
{
    let f: u16 = opcode >> 12;
    assert(opcode >> 12 == opcode / 4096 && opcode >> 12 < 16) by (bit_vector);
    f as u8
}

/// The operand `x` of `opcode`, ready to index the registers.
pub fn operand_x(opcode: u16) -> (x: usize)
    ensures
        x == x_of(opcode),
        x < 16,
{
    let x: u16 = (opcode & 0x0F00) >> 8;
    assert((opcode & 0x0F00) >> 8 == (opcode / 256) % 16) by (bit_vector);
    x as usize
}

/// The operand `y` of `opcode`, ready to index the registers.
pub fn operand_y(opcode: u16) -> (y: usize)
    ensures
        y == y_of(opcode),
        y < 16,
{
    let y: u16 = (opcode & 0x00F0) >> 4;
    assert((opcode & 0x00F0) >> 4 == (opcode / 16) % 16) by (bit_vector);
    y as usize
}

/// The operand `n` of `opcode`.
pub fn operand_n(opcode: u16) -> (n: u16)
    ensures
        n == n_of(opcode),
        n < 16,
{
    let n: u16 = opcode & 0x000F;
    assert(opcode & 0x000F == opcode % 16) by (bit_vector);
    n
}

/// The operand `kk` of `opcode`.
pub fn operand_kk(opcode: u16) -> (kk: u8)
    ensures
        kk == kk_of(opcode),
{
    let kk: u16 = opcode & 0x00FF;
    assert(opcode & 0x00FF == opcode % 256) by (bit_vector);
    kk as u8
}

/// The operand `nnn` of `opcode`.
pub fn operand_nnn(opcode: u16) -> (nnn: u16)
    ensures
        nnn == nnn_of(opcode),
        nnn < 4096,
{
    let nnn: u16 = opcode & 0x0FFF;
    assert(opcode & 0x0FFF == opcode % 4096) by (bit_vector);
    nnn
}

/// The instruction word made of two bytes, `high` first.
pub fn word(high: u8, low: u8) -> (opcode: u16)
    ensures
        opcode == high * 256 + low,
{
    let opcode: u16 = (high as u16) << 8 | (low as u16);
    assert(((high as u16) << 8 | (low as u16)) == (high as u16) * 256 + (low as u16)) by (bit_vector);
    opcode
}

/// Whether `opcode` is a word of the instruction set. The machine runs a word that is
/// not as an instruction that does nothing; a host that wants to know of such words
/// asks here.
pub fn recognized(opcode: u16) -> (known: bool)
    ensures
        known == is_instruction(opcode),
{
    match family(opcode) {
        0x8 => {
            let n: u16 = operand_n(opcode);
            n <= 0x7 || n == 0xE
        },
        0xE => {
            let kk: u8 = operand_kk(opcode);
            kk == 0x9E || kk == 0xA1
        },
        0xF => {
            let kk: u8 = operand_kk(opcode);
            kk == 0x07 || kk == 0x0A || kk == 0x15 || kk == 0x18 || kk == 0x1E || kk == 0x29 || kk == 0x33
                || kk == 0x55 || kk == 0x65
        },
        _ => true,
    }
}

} // verus!
