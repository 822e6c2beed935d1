use vstd::prelude::*;

use crate::error::ChipError;

verus! {

/// A decoded CHIP-8 instruction: an opcode class together with its operand
/// fields, extracted positionally from the 16-bit opcode word. Register
/// indices are 4-bit, immediates 8-bit, addresses 12-bit and sprite heights
/// 4-bit; `wf` states those bounds.
#[derive(Clone, Copy, Debug, PartialEq, Eq, Structural)]
pub enum Inst {
    /// A machine-code call (0nnn other than CLS/RET): treated as advance-only.
    Empty,
    /// 00E0: clear the screen.
    Cls,
    /// 00EE: return from subroutine.
    Ret,
    /// 1nnn: jump to addr.
    Jmp { addr: u16 },
    /// 2nnn: call subroutine at addr.
    Call { addr: u16 },
    /// 3xkk: skip next instruction if Vx == byte.
    SV { vx: u8, byte: u8 },
    /// 4xkk: skip next instruction if Vx != byte.
    SnV { vx: u8, byte: u8 },
    /// 5xy0: skip next instruction if Vx == Vy.
    SR { vx: u8, vy: u8 },
    /// 6xkk: load byte into Vx.
    LdV { vx: u8, byte: u8 },
    /// 7xkk: add byte to Vx, wrapping; VF untouched.
    AddV { vx: u8, byte: u8 },
    /// 8xy0: load the value of Vy into Vx.
    LdR { vx: u8, vy: u8 },
    /// 8xy1: bitwise or of Vx and Vy, result in Vx.
    OrR { vx: u8, vy: u8 },
    /// 8xy2: bitwise and of Vx and Vy, result in Vx.
    AndR { vx: u8, vy: u8 },
    /// 8xy3: bitwise xor of Vx and Vy, result in Vx.
    XorR { vx: u8, vy: u8 },
    /// 8xy4: Vx = Vx + Vy wrapping; VF = 1 iff the sum overflows a byte.
    AddR { vx: u8, vy: u8 },
    /// 8xy5: Vx = Vx - Vy wrapping; VF = 1 iff Vx >= Vy before the operation.
    SubR { vx: u8, vy: u8 },
    /// 8xy6: shift right by one; VF = least-significant bit of the source.
    Shr { vx: u8, vy: u8 },
    /// 8xy7: Vx = Vy - Vx wrapping; VF = 1 iff Vy >= Vx before the operation.
    SubnR { vx: u8, vy: u8 },
    /// 8xyE: shift left by one; VF = most-significant bit of the source.
    Shl { vx: u8, vy: u8 },
    /// 9xy0: skip next instruction if Vx != Vy.
    SnR { vx: u8, vy: u8 },
    /// Annn: load addr into the index register.
    LdI { addr: u16 },
    /// Bnnn: jump to addr + V0.
    JpV0 { addr: u16 },
    /// Cxkk: Vx = (random byte) & byte.
    Rnd { vx: u8, byte: u8 },
    /// Dxyn: draw the n-byte sprite at memory[I..] at (Vx, Vy); VF = collision.
    Disp { vx: u8, vy: u8, n: u8 },
    /// Ex9E: skip next instruction if the key numbered Vx is pressed.
    SKp { vx: u8 },
    /// ExA1: skip next instruction if the key numbered Vx is not pressed.
    SKnp { vx: u8 },
    /// Fx07: Vx = delay timer.
    LdRDt { vx: u8 },
    /// Fx0A: wait for a key press and store the key's value in Vx.
    LdRKp { vx: u8 },
    /// Fx15: delay timer = Vx.
    LdDtR { vx: u8 },
    /// Fx18: sound timer = Vx.
    LdStR { vx: u8 },
    /// Fx1E: I = I + Vx, wrapping modulo the memory size.
    AddRI { vx: u8 },
    /// Fx29: I = address of the font glyph for the hex digit in Vx.
    LdIF { vx: u8 },
    /// Fx33: store the three decimal digits of Vx at I, I+1, I+2.
    LdBCDR { vx: u8 },
    /// Fx55: store registers V0..=Vx into memory starting at I.
    LdIR { vx: u8 },
    /// Fx65: load memory starting at I into registers V0..=Vx.
    LdRI { vx: u8 },
}

impl Inst {
    /// Operand fields are within the ranges their bit widths allow. Every
    /// instruction produced by decoding satisfies this.
    pub open spec fn wf(self) -> bool {
        match self {
            Inst::Empty => true,
            Inst::Cls => true,
            Inst::Ret => true,
            Inst::Jmp { addr } => addr < 4096,
            Inst::Call { addr } => addr < 4096,
            Inst::SV { vx, byte: _ } => vx < 16,
            Inst::SnV { vx, byte: _ } => vx < 16,
            Inst::SR { vx, vy } => vx < 16 && vy < 16,
            Inst::LdV { vx, byte: _ } => vx < 16,
            Inst::AddV { vx, byte: _ } => vx < 16,
            Inst::LdR { vx, vy } => vx < 16 && vy < 16,
            Inst::OrR { vx, vy } => vx < 16 && vy < 16,
            Inst::AndR { vx, vy } => vx < 16 && vy < 16,
            Inst::XorR { vx, vy } => vx < 16 && vy < 16,
            Inst::AddR { vx, vy } => vx < 16 && vy < 16,
            Inst::SubR { vx, vy } => vx < 16 && vy < 16,
            Inst::Shr { vx, vy } => vx < 16 && vy < 16,
            Inst::SubnR { vx, vy } => vx < 16 && vy < 16,
            Inst::Shl { vx, vy } => vx < 16 && vy < 16,
            Inst::SnR { vx, vy } => vx < 16 && vy < 16,
            Inst::LdI { addr } => addr < 4096,
            Inst::JpV0 { addr } => addr < 4096,
            Inst::Rnd { vx, byte: _ } => vx < 16,
            Inst::Disp { vx, vy, n } => vx < 16 && vy < 16 && n < 16,
            Inst::SKp { vx } => vx < 16,
            Inst::SKnp { vx } => vx < 16,
            Inst::LdRDt { vx } => vx < 16,
            Inst::LdRKp { vx } => vx < 16,
            Inst::LdDtR { vx } => vx < 16,
            Inst::LdStR { vx } => vx < 16,
            Inst::AddRI { vx } => vx < 16,
            Inst::LdIF { vx } => vx < 16,
            Inst::LdBCDR { vx } => vx < 16,
            Inst::LdIR { vx } => vx < 16,
            Inst::LdRI { vx } => vx < 16,
        }
    }
}

/// The meaning of a 16-bit opcode word. The leading nibble selects the
/// opcode class; classes 0x0, 0x8, 0xE and 0xF dispatch a second time on the
/// trailing byte or nibble. Within class 0x0 anything other than CLS and RET
/// decodes to an advance-only no-op; within classes 0x8, 0xE and 0xF an
/// unrecognised secondary key is a decode failure.
pub open spec fn spec_decode(val: u16) -> Result<Inst, ChipError> {
    let x = ((val >> 8u16) & 0xFu16) as u8;
    let y = ((val >> 4u16) & 0xFu16) as u8;
    let n = (val & 0xFu16) as u8;
    let kk = (val & 0xFFu16) as u8;
    let addr = val & 0xFFFu16;
    match val >> 12u16 {
        0x0 => match val {
            0x00E0 => Ok(Inst::Cls),
            0x00EE => Ok(Inst::Ret),
            _ => Ok(Inst::Empty),
        },
        0x1 => Ok(Inst::Jmp { addr }),
        0x2 => Ok(Inst::Call { addr }),
        0x3 => Ok(Inst::SV { vx: x, byte: kk }),
        0x4 => Ok(Inst::SnV { vx: x, byte: kk }),
        0x5 => Ok(Inst::SR { vx: x, vy: y }),
        0x6 => Ok(Inst::LdV { vx: x, byte: kk }),
        0x7 => Ok(Inst::AddV { vx: x, byte: kk }),
        0x8 => match val & 0xFu16 {
            0x0 => Ok(Inst::LdR { vx: x, vy: y }),
            0x1 => Ok(Inst::OrR { vx: x, vy: y }),
            0x2 => Ok(Inst::AndR { vx: x, vy: y }),
            0x3 => Ok(Inst::XorR { vx: x, vy: y }),
            0x4 => Ok(Inst::AddR { vx: x, vy: y }),
            0x5 => Ok(Inst::SubR { vx: x, vy: y }),
            0x6 => Ok(Inst::Shr { vx: x, vy: y }),
            0x7 => Ok(Inst::SubnR { vx: x, vy: y }),
            0xE => Ok(Inst::Shl { vx: x, vy: y }),
            _ => Err(ChipError::DecodeFailure),
        },
        0x9 => Ok(Inst::SnR { vx: x, vy: y }),
        0xA => Ok(Inst::LdI { addr }),
        0xB => Ok(Inst::JpV0 { addr }),
        0xC => Ok(Inst::Rnd { vx: x, byte: kk }),
        0xD => Ok(Inst::Disp { vx: x, vy: y, n }),
        0xE => match val & 0xFFu16 {
            0x9E => Ok(Inst::SKp { vx: x }),
            0xA1 => Ok(Inst::SKnp { vx: x }),
            _ => Err(ChipError::DecodeFailure),
        },
        0xF => match val & 0xFFu16 {
            0x07 => Ok(Inst::LdRDt { vx: x }),
            0x0A => Ok(Inst::LdRKp { vx: x }),
            0x15 => Ok(Inst::LdDtR { vx: x }),
            0x18 => Ok(Inst::LdStR { vx: x }),
            0x1E => Ok(Inst::AddRI { vx: x }),
            0x29 => Ok(Inst::LdIF { vx: x }),
            0x33 => Ok(Inst::LdBCDR { vx: x }),
            0x55 => Ok(Inst::LdIR { vx: x }),
            0x65 => Ok(Inst::LdRI { vx: x }),
            _ => Err(ChipError::DecodeFailure),
        },
        _ => Err(ChipError::DecodeFailure),
    }
}

/// Bounds of the positional operand fields of an opcode word.
proof fn lemma_opcode_fields(val: u16)
    by (bit_vector)
    ensures
        (val >> 12u16) < 16,
        ((val >> 8u16) & 0xFu16) < 16,
        ((val >> 4u16) & 0xFu16) < 16,
        (val & 0xFu16) < 16,
        (val & 0xFFu16) < 256,
        (val & 0xFFFu16) < 4096,
{
}

/// Decode a 16-bit opcode word, exactly as `spec_decode` describes.
pub fn hex_to_inst(val: u16) -> (r: Result<Inst, ChipError>)
    ensures
        r == spec_decode(val),
        r matches Ok(i) ==> i.wf(),
{
    proof {
        lemma_opcode_fields(val);
    }
    let x: u8 = ((val >> 8u16) & 0xFu16) as u8;
    let y: u8 = ((val >> 4u16) & 0xFu16) as u8;
    let n: u8 = (val & 0xFu16) as u8;
    let kk: u8 = (val & 0xFFu16) as u8;
    let addr: u16 = val & 0xFFFu16;
    match val >> 12u16 {
        0x0 => match val {
            0x00E0 => Ok(Inst::Cls),
            0x00EE => Ok(Inst::Ret),
            _ => Ok(Inst::Empty),
        },
        0x1 => Ok(Inst::Jmp { addr }),
        0x2 => Ok(Inst::Call { addr }),
        0x3 => Ok(Inst::SV { vx: x, byte: kk }),
        0x4 => Ok(Inst::SnV { vx: x, byte: kk }),
        0x5 => Ok(Inst::SR { vx: x, vy: y }),
        0x6 => Ok(Inst::LdV { vx: x, byte: kk }),
        0x7 => Ok(Inst::AddV { vx: x, byte: kk }),
        0x8 => match val & 0xFu16 {
            0x0 => Ok(Inst::LdR { vx: x, vy: y }),
            0x1 => Ok(Inst::OrR { vx: x, vy: y }),
            0x2 => Ok(Inst::AndR { vx: x, vy: y }),
            0x3 => Ok(Inst::XorR { vx: x, vy: y }),
            0x4 => Ok(Inst::AddR { vx: x, vy: y }),
            0x5 => Ok(Inst::SubR { vx: x, vy: y }),
            0x6 => Ok(Inst::Shr { vx: x, vy: y }),
            0x7 => Ok(Inst::SubnR { vx: x, vy: y }),
            0xE => Ok(Inst::Shl { vx: x, vy: y }),
            _ => Err(ChipError::DecodeFailure),
        },
        0x9 => Ok(Inst::SnR { vx: x, vy: y }),
        0xA => Ok(Inst::LdI { addr }),
        0xB => Ok(Inst::JpV0 { addr }),
        0xC => Ok(Inst::Rnd { vx: x, byte: kk }),
        0xD => Ok(Inst::Disp { vx: x, vy: y, n }),
        0xE => match val & 0xFFu16 {
            0x9E => Ok(Inst::SKp { vx: x }),
            0xA1 => Ok(Inst::SKnp { vx: x }),
            _ => Err(ChipError::DecodeFailure),
        },
        0xF => match val & 0xFFu16 {
            0x07 => Ok(Inst::LdRDt { vx: x }),
            0x0A => Ok(Inst::LdRKp { vx: x }),
            0x15 => Ok(Inst::LdDtR { vx: x }),
            0x18 => Ok(Inst::LdStR { vx: x }),
            0x1E => Ok(Inst::AddRI { vx: x }),
            0x29 => Ok(Inst::LdIF { vx: x }),
            0x33 => Ok(Inst::LdBCDR { vx: x }),
            0x55 => Ok(Inst::LdIR { vx: x }),
            0x65 => Ok(Inst::LdRI { vx: x }),
            _ => Err(ChipError::DecodeFailure),
        },
        _ => Err(ChipError::DecodeFailure),
    }
}

/// The opcode word for an instruction: the inverse of `spec_decode` on
/// well-formed instructions.
pub open spec fn spec_encode(i: Inst) -> u16 {
    match i {
        Inst::Empty => 0x0000u16,
        Inst::Cls => 0x00E0u16,
        Inst::Ret => 0x00EEu16,
        Inst::Jmp { addr } => (0x1u16 << 12u16) | addr,
        Inst::Call { addr } => (0x2u16 << 12u16) | addr,
        Inst::SV { vx, byte } => (0x3u16 << 12u16) | ((vx as u16) << 8u16) | (byte as u16),
        Inst::SnV { vx, byte } => (0x4u16 << 12u16) | ((vx as u16) << 8u16) | (byte as u16),
        Inst::SR { vx, vy } => (0x5u16 << 12u16) | ((vx as u16) << 8u16) | ((vy as u16) << 4u16) | 0x0u16,
        Inst::LdV { vx, byte } => (0x6u16 << 12u16) | ((vx as u16) << 8u16) | (byte as u16),
        Inst::AddV { vx, byte } => (0x7u16 << 12u16) | ((vx as u16) << 8u16) | (byte as u16),
        Inst::LdR { vx, vy } => (0x8u16 << 12u16) | ((vx as u16) << 8u16) | ((vy as u16) << 4u16) | 0x0u16,
        Inst::OrR { vx, vy } => (0x8u16 << 12u16) | ((vx as u16) << 8u16) | ((vy as u16) << 4u16) | 0x1u16,
        Inst::AndR { vx, vy } => (0x8u16 << 12u16) | ((vx as u16) << 8u16) | ((vy as u16) << 4u16) | 0x2u16,
        Inst::XorR { vx, vy } => (0x8u16 << 12u16) | ((vx as u16) << 8u16) | ((vy as u16) << 4u16) | 0x3u16,
        Inst::AddR { vx, vy } => (0x8u16 << 12u16) | ((vx as u16) << 8u16) | ((vy as u16) << 4u16) | 0x4u16,
        Inst::SubR { vx, vy } => (0x8u16 << 12u16) | ((vx as u16) << 8u16) | ((vy as u16) << 4u16) | 0x5u16,
        Inst::Shr { vx, vy } => (0x8u16 << 12u16) | ((vx as u16) << 8u16) | ((vy as u16) << 4u16) | 0x6u16,
        Inst::SubnR { vx, vy } => (0x8u16 << 12u16) | ((vx as u16) << 8u16) | ((vy as u16) << 4u16) | 0x7u16,
        Inst::Shl { vx, vy } => (0x8u16 << 12u16) | ((vx as u16) << 8u16) | ((vy as u16) << 4u16) | 0xEu16,
        Inst::SnR { vx, vy } => (0x9u16 << 12u16) | ((vx as u16) << 8u16) | ((vy as u16) << 4u16) | 0x0u16,
        Inst::LdI { addr } => (0xAu16 << 12u16) | addr,
        Inst::JpV0 { addr } => (0xBu16 << 12u16) | addr,
        Inst::Rnd { vx, byte } => (0xCu16 << 12u16) | ((vx as u16) << 8u16) | (byte as u16),
        Inst::Disp { vx, vy, n } => (0xDu16 << 12u16) | ((vx as u16) << 8u16) | ((vy as u16) << 4u16) | (n as u16),
        Inst::SKp { vx } => (0xEu16 << 12u16) | ((vx as u16) << 8u16) | 0x9Eu16,
        Inst::SKnp { vx } => (0xEu16 << 12u16) | ((vx as u16) << 8u16) | 0xA1u16,
        Inst::LdRDt { vx } => (0xFu16 << 12u16) | ((vx as u16) << 8u16) | 0x07u16,
        Inst::LdRKp { vx } => (0xFu16 << 12u16) | ((vx as u16) << 8u16) | 0x0Au16,
        Inst::LdDtR { vx } => (0xFu16 << 12u16) | ((vx as u16) << 8u16) | 0x15u16,
        Inst::LdStR { vx } => (0xFu16 << 12u16) | ((vx as u16) << 8u16) | 0x18u16,
        Inst::AddRI { vx } => (0xFu16 << 12u16) | ((vx as u16) << 8u16) | 0x1Eu16,
        Inst::LdIF { vx } => (0xFu16 << 12u16) | ((vx as u16) << 8u16) | 0x29u16,
        Inst::LdBCDR { vx } => (0xFu16 << 12u16) | ((vx as u16) << 8u16) | 0x33u16,
        Inst::LdIR { vx } => (0xFu16 << 12u16) | ((vx as u16) << 8u16) | 0x55u16,
        Inst::LdRI { vx } => (0xFu16 << 12u16) | ((vx as u16) << 8u16) | 0x65u16,
    }
}

/// Assemble the opcode word for a well-formed instruction.
pub fn inst_to_hex(i: Inst) -> (r: u16)
    requires
        i.wf(),
    ensures
        r == spec_encode(i),
{
    match i {
        Inst::Empty => 0x0000u16,
        Inst::Cls => 0x00E0u16,
        Inst::Ret => 0x00EEu16,
        Inst::Jmp { addr } => (0x1u16 << 12u16) | addr,
        Inst::Call { addr } => (0x2u16 << 12u16) | addr,
        Inst::SV { vx, byte } => (0x3u16 << 12u16) | ((vx as u16) << 8u16) | (byte as u16),
        Inst::SnV { vx, byte } => (0x4u16 << 12u16) | ((vx as u16) << 8u16) | (byte as u16),
        Inst::SR { vx, vy } => (0x5u16 << 12u16) | ((vx as u16) << 8u16) | ((vy as u16) << 4u16) | 0x0u16,
        Inst::LdV { vx, byte } => (0x6u16 << 12u16) | ((vx as u16) << 8u16) | (byte as u16),
        Inst::AddV { vx, byte } => (0x7u16 << 12u16) | ((vx as u16) << 8u16) | (byte as u16),
        Inst::LdR { vx, vy } => (0x8u16 << 12u16) | ((vx as u16) << 8u16) | ((vy as u16) << 4u16) | 0x0u16,
        Inst::OrR { vx, vy } => (0x8u16 << 12u16) | ((vx as u16) << 8u16) | ((vy as u16) << 4u16) | 0x1u16,
        Inst::AndR { vx, vy } => (0x8u16 << 12u16) | ((vx as u16) << 8u16) | ((vy as u16) << 4u16) | 0x2u16,
        Inst::XorR { vx, vy } => (0x8u16 << 12u16) | ((vx as u16) << 8u16) | ((vy as u16) << 4u16) | 0x3u16,
        Inst::AddR { vx, vy } => (0x8u16 << 12u16) | ((vx as u16) << 8u16) | ((vy as u16) << 4u16) | 0x4u16,
        Inst::SubR { vx, vy } => (0x8u16 << 12u16) | ((vx as u16) << 8u16) | ((vy as u16) << 4u16) | 0x5u16,
        Inst::Shr { vx, vy } => (0x8u16 << 12u16) | ((vx as u16) << 8u16) | ((vy as u16) << 4u16) | 0x6u16,
        Inst::SubnR { vx, vy } => (0x8u16 << 12u16) | ((vx as u16) << 8u16) | ((vy as u16) << 4u16) | 0x7u16,
        Inst::Shl { vx, vy } => (0x8u16 << 12u16) | ((vx as u16) << 8u16) | ((vy as u16) << 4u16) | 0xEu16,
        Inst::SnR { vx, vy } => (0x9u16 << 12u16) | ((vx as u16) << 8u16) | ((vy as u16) << 4u16) | 0x0u16,
        Inst::LdI { addr } => (0xAu16 << 12u16) | addr,
        Inst::JpV0 { addr } => (0xBu16 << 12u16) | addr,
        Inst::Rnd { vx, byte } => (0xCu16 << 12u16) | ((vx as u16) << 8u16) | (byte as u16),
        Inst::Disp { vx, vy, n } => (0xDu16 << 12u16) | ((vx as u16) << 8u16) | ((vy as u16) << 4u16) | (n as u16),
        Inst::SKp { vx } => (0xEu16 << 12u16) | ((vx as u16) << 8u16) | 0x9Eu16,
        Inst::SKnp { vx } => (0xEu16 << 12u16) | ((vx as u16) << 8u16) | 0xA1u16,
        Inst::LdRDt { vx } => (0xFu16 << 12u16) | ((vx as u16) << 8u16) | 0x07u16,
        Inst::LdRKp { vx } => (0xFu16 << 12u16) | ((vx as u16) << 8u16) | 0x0Au16,
        Inst::LdDtR { vx } => (0xFu16 << 12u16) | ((vx as u16) << 8u16) | 0x15u16,
        Inst::LdStR { vx } => (0xFu16 << 12u16) | ((vx as u16) << 8u16) | 0x18u16,
        Inst::AddRI { vx } => (0xFu16 << 12u16) | ((vx as u16) << 8u16) | 0x1Eu16,
        Inst::LdIF { vx } => (0xFu16 << 12u16) | ((vx as u16) << 8u16) | 0x29u16,
        Inst::LdBCDR { vx } => (0xFu16 << 12u16) | ((vx as u16) << 8u16) | 0x33u16,
        Inst::LdIR { vx } => (0xFu16 << 12u16) | ((vx as u16) << 8u16) | 0x55u16,
        Inst::LdRI { vx } => (0xFu16 << 12u16) | ((vx as u16) << 8u16) | 0x65u16,
    }
}

/// Field extraction from a packed class-and-address word.
proof fn lemma_pack_addr(c: u16, a: u16)
    by (bit_vector)
    requires
        c < 16,
        a < 4096,
    ensures
        ((c << 12u16) | a) >> 12u16 == c,
        (((c << 12u16) | a) & 0xFFFu16) == a,
{
}

/// Field extraction from a packed class, register and immediate-byte word.
proof fn lemma_pack_xkk(c: u16, x: u16, kk: u16)
    by (bit_vector)
    requires
        c < 16,
        x < 16,
        kk < 256,
    ensures
        ((c << 12u16) | (x << 8u16) | kk) >> 12u16 == c,
        ((((c << 12u16) | (x << 8u16) | kk) >> 8u16) & 0xFu16) == x,
        (((c << 12u16) | (x << 8u16) | kk) & 0xFFu16) == kk,
{
}

/// Field extraction from a packed class, two-register and nibble word.
proof fn lemma_pack_xyn(c: u16, x: u16, y: u16, n: u16)
    by (bit_vector)
    requires
        c < 16,
        x < 16,
        y < 16,
        n < 16,
    ensures
        ((c << 12u16) | (x << 8u16) | (y << 4u16) | n) >> 12u16 == c,
        ((((c << 12u16) | (x << 8u16) | (y << 4u16) | n) >> 8u16) & 0xFu16) == x,
        ((((c << 12u16) | (x << 8u16) | (y << 4u16) | n) >> 4u16) & 0xFu16) == y,
        (((c << 12u16) | (x << 8u16) | (y << 4u16) | n) & 0xFu16) == n,
{
}

/// Decoding the encoding of any well-formed instruction gives back the same
/// opcode class and the same operand values.
pub proof fn lemma_decode_encode(i: Inst)
    requires
        i.wf(),
    ensures
        spec_decode(spec_encode(i)) == Ok::<Inst, ChipError>(i),
{
    assert(0x0000u16 >> 12u16 == 0u16 && 0x00E0u16 >> 12u16 == 0u16 && 0x00EEu16 >> 12u16 == 0u16)
        by (bit_vector);
    match i {
        Inst::Empty => {}
        Inst::Cls => {}
        Inst::Ret => {}
        Inst::Jmp { addr } => lemma_pack_addr(0x1u16, addr),
        Inst::Call { addr } => lemma_pack_addr(0x2u16, addr),
        Inst::SV { vx, byte } => lemma_pack_xkk(0x3u16, vx as u16, byte as u16),
        Inst::SnV { vx, byte } => lemma_pack_xkk(0x4u16, vx as u16, byte as u16),
        Inst::SR { vx, vy } => lemma_pack_xyn(0x5u16, vx as u16, vy as u16, 0x0u16),
        Inst::LdV { vx, byte } => lemma_pack_xkk(0x6u16, vx as u16, byte as u16),
        Inst::AddV { vx, byte } => lemma_pack_xkk(0x7u16, vx as u16, byte as u16),
        Inst::LdR { vx, vy } => lemma_pack_xyn(0x8u16, vx as u16, vy as u16, 0x0u16),
        Inst::OrR { vx, vy } => lemma_pack_xyn(0x8u16, vx as u16, vy as u16, 0x1u16),
        Inst::AndR { vx, vy } => lemma_pack_xyn(0x8u16, vx as u16, vy as u16, 0x2u16),
        Inst::XorR { vx, vy } => lemma_pack_xyn(0x8u16, vx as u16, vy as u16, 0x3u16),
        Inst::AddR { vx, vy } => lemma_pack_xyn(0x8u16, vx as u16, vy as u16, 0x4u16),
        Inst::SubR { vx, vy } => lemma_pack_xyn(0x8u16, vx as u16, vy as u16, 0x5u16),
        Inst::Shr { vx, vy } => lemma_pack_xyn(0x8u16, vx as u16, vy as u16, 0x6u16),
        Inst::SubnR { vx, vy } => lemma_pack_xyn(0x8u16, vx as u16, vy as u16, 0x7u16),
        Inst::Shl { vx, vy } => lemma_pack_xyn(0x8u16, vx as u16, vy as u16, 0xEu16),
        Inst::SnR { vx, vy } => lemma_pack_xyn(0x9u16, vx as u16, vy as u16, 0x0u16),
        Inst::LdI { addr } => lemma_pack_addr(0xAu16, addr),
        Inst::JpV0 { addr } => lemma_pack_addr(0xBu16, addr),
        Inst::Rnd { vx, byte } => lemma_pack_xkk(0xCu16, vx as u16, byte as u16),
        Inst::Disp { vx, vy, n } => lemma_pack_xyn(0xDu16, vx as u16, vy as u16, n as u16),
        Inst::SKp { vx } => lemma_pack_xkk(0xEu16, vx as u16, 0x9Eu16),
        Inst::SKnp { vx } => lemma_pack_xkk(0xEu16, vx as u16, 0xA1u16),
        Inst::LdRDt { vx } => lemma_pack_xkk(0xFu16, vx as u16, 0x07u16),
        Inst::LdRKp { vx } => lemma_pack_xkk(0xFu16, vx as u16, 0x0Au16),
        Inst::LdDtR { vx } => lemma_pack_xkk(0xFu16, vx as u16, 0x15u16),
        Inst::LdStR { vx } => lemma_pack_xkk(0xFu16, vx as u16, 0x18u16),
        Inst::AddRI { vx } => lemma_pack_xkk(0xFu16, vx as u16, 0x1Eu16),
        Inst::LdIF { vx } => lemma_pack_xkk(0xFu16, vx as u16, 0x29u16),
        Inst::LdBCDR { vx } => lemma_pack_xkk(0xFu16, vx as u16, 0x33u16),
        Inst::LdIR { vx } => lemma_pack_xkk(0xFu16, vx as u16, 0x55u16),
        Inst::LdRI { vx } => lemma_pack_xkk(0xFu16, vx as u16, 0x65u16),
    }
}

} // verus!
