//! The decoder: splits a 16-bit instruction word into an opcode with its
//! operand fields.

use vstd::prelude::*;

verus! {

/// A decoded CHIP-8 instruction.
///
/// Field names follow the classic operand notation: `nnn` is a 12-bit
/// address, `kk` an 8-bit immediate, `x` and `y` register indices (below 16)
/// and `n` the 4-bit row count of a sprite.
#[derive(Clone, Copy, Debug, PartialEq, Eq, Structural)]
pub enum Opcode {
    /// 00E0: clear the framebuffer.
    Cls,
    /// 00EE: return from a subroutine.
    Ret,
    /// 1nnn: jump to `nnn`.
    Jp { nnn: u16 },
    /// 2nnn: call the subroutine at `nnn`.
    Call { nnn: u16 },
    /// 3xkk: skip the next instruction if `Vx == kk`.
    SeImm { x: u8, kk: u8 },
    /// 4xkk: skip the next instruction if `Vx != kk`.
    SneImm { x: u8, kk: u8 },
    /// 5xy0: skip the next instruction if `Vx == Vy`.
    SeReg { x: u8, y: u8 },
    /// 6xkk: `Vx <- kk`.
    LdImm { x: u8, kk: u8 },
    /// 7xkk: `Vx <- Vx + kk` modulo 256, VF untouched.
    AddImm { x: u8, kk: u8 },
    /// 8xy0: `Vx <- Vy`.
    LdReg { x: u8, y: u8 },
    /// 8xy1: `Vx <- Vx | Vy`.
    Or { x: u8, y: u8 },
    /// 8xy2: `Vx <- Vx & Vy`.
    And { x: u8, y: u8 },
    /// 8xy3: `Vx <- Vx ^ Vy`.
    Xor { x: u8, y: u8 },
    /// 8xy4: `Vx <- Vx + Vy` modulo 256, then `VF <- carry`.
    AddReg { x: u8, y: u8 },
    /// 8xy5: `Vx <- Vx - Vy` modulo 256, then `VF <- 1` iff no borrow.
    Sub { x: u8, y: u8 },
    /// 8xy6: `Vx <- Vx >> 1`, then `VF <-` the bit shifted out. Under the
    /// shift quirk the source operand is `Vy` instead of `Vx`.
    Shr { x: u8, y: u8 },
    /// 8xy7: `Vx <- Vy - Vx` modulo 256, then `VF <- 1` iff no borrow.
    Subn { x: u8, y: u8 },
    /// 8xyE: `Vx <- Vx << 1` modulo 256, then `VF <-` the bit shifted out.
    /// Under the shift quirk the source operand is `Vy` instead of `Vx`.
    Shl { x: u8, y: u8 },
    /// 9xy0: skip the next instruction if `Vx != Vy`.
    SneReg { x: u8, y: u8 },
    /// Annn: `I <- nnn`.
    LdI { nnn: u16 },
    /// Bnnn: jump to `(nnn + V0) & 0xFFF`.
    JpV0 { nnn: u16 },
    /// Cxkk: `Vx <- random byte & kk`.
    Rnd { x: u8, kk: u8 },
    /// Dxyn: draw the `n`-row sprite at `memory[I..]` at `(Vx, Vy)`,
    /// `VF <- collision`.
    Drw { x: u8, y: u8, n: u8 },
    /// Ex9E: skip the next instruction if key `Vx & 0xF` is held.
    Skp { x: u8 },
    /// ExA1: skip the next instruction if key `Vx & 0xF` is not held.
    Sknp { x: u8 },
    /// Fx07: `Vx <- delay timer`.
    LdFromDt { x: u8 },
    /// Fx0A: park the CPU until the next key press lands in `Vx`.
    WaitKey { x: u8 },
    /// Fx15: `delay timer <- Vx`.
    LdDt { x: u8 },
    /// Fx18: `sound timer <- Vx`.
    LdSt { x: u8 },
    /// Fx1E: `I <- I + Vx` modulo 2^16.
    AddI { x: u8 },
    /// Fx29: `I <- 5 * (Vx & 0xF)`, the font sprite of digit `Vx`.
    LdFont { x: u8 },
    /// Fx33: write the decimal digits of `Vx` to `memory[I..I+3]`.
    Bcd { x: u8 },
    /// Fx55: write `V0..=Vx` to `memory[I..]`.
    StoreRegs { x: u8 },
    /// Fx65: read `V0..=Vx` from `memory[I..]`.
    LoadRegs { x: u8 },
    /// No pattern matched.
    Unknown,
}

/// The `x` register index of an instruction word: its second nibble.
pub open spec fn spec_x(w: u16) -> u8 {
    ((w >> 8u16) & 0xF) as u8
}

/// The `y` register index of an instruction word: its third nibble.
pub open spec fn spec_y(w: u16) -> u8 {
    ((w >> 4u16) & 0xF) as u8
}

/// The low nibble `n` of an instruction word.
pub open spec fn spec_n(w: u16) -> u8 {
    (w & 0xF) as u8
}

/// The low byte `kk` of an instruction word.
pub open spec fn spec_kk(w: u16) -> u8 {
    (w & 0xFF) as u8
}

/// The low 12 bits `nnn` of an instruction word.
pub open spec fn spec_nnn(w: u16) -> u16 {
    w & 0xFFF
}

/// The opcode that the instruction word `w` decodes to.
pub open spec fn spec_decode(w: u16) -> Opcode {
    let h = w >> 12u16;
    if w == 0x00E0 {
        Opcode::Cls
    } else if w == 0x00EE {
        Opcode::Ret
    } else if h == 0x0 {
        Opcode::Unknown
    } else if h == 0x1 {
        Opcode::Jp { nnn: spec_nnn(w) }
    } else if h == 0x2 {
        Opcode::Call { nnn: spec_nnn(w) }
    } else if h == 0x3 {
        Opcode::SeImm { x: spec_x(w), kk: spec_kk(w) }
    } else if h == 0x4 {
        Opcode::SneImm { x: spec_x(w), kk: spec_kk(w) }
    } else if h == 0x5 {
        if spec_n(w) == 0 {
            Opcode::SeReg { x: spec_x(w), y: spec_y(w) }
        } else {
            Opcode::Unknown
        }
    } else if h == 0x6 {
        Opcode::LdImm { x: spec_x(w), kk: spec_kk(w) }
    } else if h == 0x7 {
        Opcode::AddImm { x: spec_x(w), kk: spec_kk(w) }
    } else if h == 0x8 {
        let n = spec_n(w);
        if n == 0x0 {
            Opcode::LdReg { x: spec_x(w), y: spec_y(w) }
        } else if n == 0x1 {
            Opcode::Or { x: spec_x(w), y: spec_y(w) }
        } else if n == 0x2 {
            Opcode::And { x: spec_x(w), y: spec_y(w) }
        } else if n == 0x3 {
            Opcode::Xor { x: spec_x(w), y: spec_y(w) }
        } else if n == 0x4 {
            Opcode::AddReg { x: spec_x(w), y: spec_y(w) }
        } else if n == 0x5 {
            Opcode::Sub { x: spec_x(w), y: spec_y(w) }
        } else if n == 0x6 {
            Opcode::Shr { x: spec_x(w), y: spec_y(w) }
        } else if n == 0x7 {
            Opcode::Subn { x: spec_x(w), y: spec_y(w) }
        } else if n == 0xE {
            Opcode::Shl { x: spec_x(w), y: spec_y(w) }
        } else {
            Opcode::Unknown
        }
    } else if h == 0x9 {
        if spec_n(w) == 0 {
            Opcode::SneReg { x: spec_x(w), y: spec_y(w) }
        } else {
            Opcode::Unknown
        }
    } else if h == 0xA {
        Opcode::LdI { nnn: spec_nnn(w) }
    } else if h == 0xB {
        Opcode::JpV0 { nnn: spec_nnn(w) }
    } else if h == 0xC {
        Opcode::Rnd { x: spec_x(w), kk: spec_kk(w) }
    } else if h == 0xD {
        Opcode::Drw { x: spec_x(w), y: spec_y(w), n: spec_n(w) }
    } else if h == 0xE {
        if spec_kk(w) == 0x9E {
            Opcode::Skp { x: spec_x(w) }
        } else if spec_kk(w) == 0xA1 {
            Opcode::Sknp { x: spec_x(w) }
        } else {
            Opcode::Unknown
        }
    } else {
        let kk = spec_kk(w);
        if kk == 0x07 {
            Opcode::LdFromDt { x: spec_x(w) }
        } else if kk == 0x0A {
            Opcode::WaitKey { x: spec_x(w) }
        } else if kk == 0x15 {
            Opcode::LdDt { x: spec_x(w) }
        } else if kk == 0x18 {
            Opcode::LdSt { x: spec_x(w) }
        } else if kk == 0x1E {
            Opcode::AddI { x: spec_x(w) }
        } else if kk == 0x29 {
            Opcode::LdFont { x: spec_x(w) }
        } else if kk == 0x33 {
            Opcode::Bcd { x: spec_x(w) }
        } else if kk == 0x55 {
            Opcode::StoreRegs { x: spec_x(w) }
        } else if kk == 0x65 {
            Opcode::LoadRegs { x: spec_x(w) }
        } else {
            Opcode::Unknown
        }
    }
}

/// Register indices decoded out of an instruction word are always below 16,
/// and sprite row counts below 16.
pub proof fn lemma_decode_fields(w: u16)
    ensures
        spec_x(w) < 16,
        spec_y(w) < 16,
        spec_n(w) < 16,
        spec_nnn(w) <= 0xFFF,
{
    assert((w >> 8u16) & 0xF < 16 && (w >> 4u16) & 0xF < 16 && w & 0xF < 16 && w & 0xFFF
        <= 0xFFF) by (bit_vector);
}

/// Decode the 16-bit instruction word `w`.
pub fn decode(w: u16) -> (op: Opcode)
    ensures
        op == spec_decode(w),
{
    let h: u16 = w >> 12u16;
    let x: u8 = ((w >> 8u16) & 0xF) as u8;
    let y: u8 = ((w >> 4u16) & 0xF) as u8;
    let n: u8 = (w & 0xF) as u8;
    let kk: u8 = (w & 0xFF) as u8;
    let nnn: u16 = w & 0xFFF;
    if w == 0x00E0 {
        Opcode::Cls
    } else if w == 0x00EE {
        Opcode::Ret
    } else if h == 0x0 {
        Opcode::Unknown
    } else if h == 0x1 {
        Opcode::Jp { nnn }
    } else if h == 0x2 {
        Opcode::Call { nnn }
    } else if h == 0x3 {
        Opcode::SeImm { x, kk }
    } else if h == 0x4 {
        Opcode::SneImm { x, kk }
    } else if h == 0x5 {
        if n == 0 {
            Opcode::SeReg { x, y }
        } else {
            Opcode::Unknown
        }
    } else if h == 0x6 {
        Opcode::LdImm { x, kk }
    } else if h == 0x7 {
        Opcode::AddImm { x, kk }
    } else if h == 0x8 {
        if n == 0x0 {
            Opcode::LdReg { x, y }
        } else if n == 0x1 {
            Opcode::Or { x, y }
        } else if n == 0x2 {
            Opcode::And { x, y }
        } else if n == 0x3 {
            Opcode::Xor { x, y }
        } else if n == 0x4 {
            Opcode::AddReg { x, y }
        } else if n == 0x5 {
            Opcode::Sub { x, y }
        } else if n == 0x6 {
            Opcode::Shr { x, y }
        } else if n == 0x7 {
            Opcode::Subn { x, y }
        } else if n == 0xE {
            Opcode::Shl { x, y }
        } else {
            Opcode::Unknown
        }
    } else if h == 0x9 {
        if n == 0 {
            Opcode::SneReg { x, y }
        } else {
            Opcode::Unknown
        }
    } else if h == 0xA {
        Opcode::LdI { nnn }
    } else if h == 0xB {
        Opcode::JpV0 { nnn }
    } else if h == 0xC {
        Opcode::Rnd { x, kk }
    } else if h == 0xD {
        Opcode::Drw { x, y, n }
    } else if h == 0xE {
        if kk == 0x9E {
            Opcode::Skp { x }
        } else if kk == 0xA1 {
            Opcode::Sknp { x }
        } else {
            Opcode::Unknown
        }
    } else if kk == 0x07 {
        Opcode::LdFromDt { x }
    } else if kk == 0x0A {
        Opcode::WaitKey { x }
    } else if kk == 0x15 {
        Opcode::LdDt { x }
    } else if kk == 0x18 {
        Opcode::LdSt { x }
    } else if kk == 0x1E {
        Opcode::AddI { x }
    } else if kk == 0x29 {
        Opcode::LdFont { x }
    } else if kk == 0x33 {
        Opcode::Bcd { x }
    } else if kk == 0x55 {
        Opcode::StoreRegs { x }
    } else if kk == 0x65 {
        Opcode::LoadRegs { x }
    } else {
        Opcode::Unknown
    }
}

} // verus!
