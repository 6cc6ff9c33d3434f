//! Instruction words and their decoding.
//!
//! A word is sixteen bits, read as four nibbles. The top nibble picks the
//! family; the others hold a register index `x`, a register index `y`, a
//! nibble `n`, a byte `kk` or a twelve-bit address `nnn`.

use vstd::prelude::*;

verus! {

/// One decoded instruction.
#[derive(Clone, Copy, Debug, PartialEq, Eq, Structural)]
pub enum Instruction {
    /// `00E0`: turn every display cell off.
    ClearScreen,
    /// `00EE`: return from a subroutine.
    Return,
    /// `1nnn`: jump to `addr`.
    Jump { addr: u16 },
    /// `2nnn`: call the subroutine at `addr`.
    Call { addr: u16 },
    /// `3xkk`: skip the next instruction if `V[x] == kk`.
    SkipEqImm { x: u8, kk: u8 },
    /// `4xkk`: skip the next instruction if `V[x] != kk`.
    SkipNeImm { x: u8, kk: u8 },
    /// `5xy0`: skip the next instruction if `V[x] == V[y]`.
    SkipEqReg { x: u8, y: u8 },
    /// `6xkk`: `V[x] = kk`.
    LoadImm { x: u8, kk: u8 },
    /// `7xkk`: `V[x] += kk`, wrapping, flag untouched.
    AddImm { x: u8, kk: u8 },
    /// `8xy0`: `V[x] = V[y]`.
    Move { x: u8, y: u8 },
    /// `8xy1`: `V[x] |= V[y]`.
    Or { x: u8, y: u8 },
    /// `8xy2`: `V[x] &= V[y]`.
    And { x: u8, y: u8 },
    /// `8xy3`: `V[x] ^= V[y]`.
    Xor { x: u8, y: u8 },
    /// `8xy4`: `V[x] += V[y]`, wrapping, `V[F]` = carry.
    AddReg { x: u8, y: u8 },
    /// `8xy5`: `V[x] -= V[y]`, wrapping, `V[F]` = no borrow.
    SubReg { x: u8, y: u8 },
    /// `8xy6`: `V[F]` = low bit of `V[x]`, then `V[x] >>= 1`.
    ShiftRight { x: u8 },
    /// `8xy7`: `V[x] = V[y] - V[x]`, wrapping, `V[F]` = no borrow.
    SubFrom { x: u8, y: u8 },
    /// `8xyE`: `V[F]` = high bit of `V[x]`, then `V[x] <<= 1`.
    ShiftLeft { x: u8 },
    /// `9xy0`: skip the next instruction if `V[x] != V[y]`.
    SkipNeReg { x: u8, y: u8 },
    /// `Annn`: `I = addr`.
    LoadIndex { addr: u16 },
    /// `Bnnn`: jump to `addr + V[0]`.
    JumpOffset { addr: u16 },
    /// `Cxkk`: `V[x] = kk & random byte`.
    Random { x: u8, kk: u8 },
    /// `Dxyn`: draw an `n`-row sprite from `Memory[I..]` at `(V[x], V[y])`.
    Draw { x: u8, y: u8, n: u8 },
    /// `Ex9E`: skip the next instruction if key `V[x]` is down.
    SkipKeyDown { x: u8 },
    /// `ExA1`: skip the next instruction if key `V[x]` is up.
    SkipKeyUp { x: u8 },
    /// `Fx07`: `V[x] = DT`.
    ReadDelay { x: u8 },
    /// `Fx0A`: wait for a key, then `V[x]` = that key.
    WaitKey { x: u8 },
    /// `Fx15`: `DT = V[x]`.
    SetDelay { x: u8 },
    /// `Fx18`: `ST = V[x]`.
    SetSound { x: u8 },
    /// `Fx1E`: `I += V[x]`.
    AddIndex { x: u8 },
    /// `Fx29`: `I` = address of the glyph for `V[x]`.
    LoadGlyph { x: u8 },
    /// `Fx33`: store the decimal digits of `V[x]` at `Memory[I..I+3]`.
    StoreBcd { x: u8 },
    /// `Fx55`: store `V[0..=x]` at `Memory[I..]`.
    StoreRegs { x: u8 },
    /// `Fx65`: load `V[0..=x]` from `Memory[I..]`.
    LoadRegs { x: u8 },
    /// Any other word: nothing happens.
    Nop,
}

/// The family of a word: its top nibble.
pub open spec fn op_family(op: u16) -> int {
    op as int / 0x1000
}

/// The field `x`: bits 8 to 11.
pub open spec fn op_x(op: u16) -> u8 {
    ((op as int / 0x100) % 0x10) as u8
}

/// The field `y`: bits 4 to 7.
pub open spec fn op_y(op: u16) -> u8 {
    ((op as int / 0x10) % 0x10) as u8
}

/// The field `n`: the low nibble.
pub open spec fn op_n(op: u16) -> u8 {
    (op as int % 0x10) as u8
}

/// The field `kk`: the low byte.
pub open spec fn op_kk(op: u16) -> u8 {
    (op as int % 0x100) as u8
}

/// The field `nnn`: the low twelve bits.
pub open spec fn op_nnn(op: u16) -> u16 {
    (op as int % 0x1000) as u16
}

/// The instruction that a word stands for.
pub open spec fn decode_spec(op: u16) -> Instruction {
    let x = op_x(op);
    let y = op_y(op);
    let n = op_n(op);
    let kk = op_kk(op);
    let addr = op_nnn(op);
    let family = op_family(op);
    if family == 0x0 {
        if op == 0x00E0 {
            Instruction::ClearScreen
        } else if op == 0x00EE {
            Instruction::Return
        } else {
            Instruction::Nop
        }
    } else if family == 0x1 {
        Instruction::Jump { addr }
    } else if family == 0x2 {
        Instruction::Call { addr }
    } else if family == 0x3 {
        Instruction::SkipEqImm { x, kk }
    } else if family == 0x4 {
        Instruction::SkipNeImm { x, kk }
    } else if family == 0x5 {
        if n == 0 {
            Instruction::SkipEqReg { x, y }
        } else {
            Instruction::Nop
        }
    } else if family == 0x6 {
        Instruction::LoadImm { x, kk }
    } else if family == 0x7 {
        Instruction::AddImm { x, kk }
    } else if family == 0x8 {
        if n == 0x0 {
            Instruction::Move { x, y }
        } else if n == 0x1 {
            Instruction::Or { x, y }
        } else if n == 0x2 {
            Instruction::And { x, y }
        } else if n == 0x3 {
            Instruction::Xor { x, y }
        } else if n == 0x4 {
            Instruction::AddReg { x, y }
        } else if n == 0x5 {
            Instruction::SubReg { x, y }
        } else if n == 0x6 {
            Instruction::ShiftRight { x }
        } else if n == 0x7 {
            Instruction::SubFrom { x, y }
        } else if n == 0xE {
            Instruction::ShiftLeft { x }
        } else {
            Instruction::Nop
        }
    } else if family == 0x9 {
        if n == 0 {
            Instruction::SkipNeReg { x, y }
        } else {
            Instruction::Nop
        }
    } else if family == 0xA {
        Instruction::LoadIndex { addr }
    } else if family == 0xB {
        Instruction::JumpOffset { addr }
    } else if family == 0xC {
        Instruction::Random { x, kk }
    } else if family == 0xD {
        Instruction::Draw { x, y, n }
    } else if family == 0xE {
        if kk == 0x9E {
            Instruction::SkipKeyDown { x }
        } else if kk == 0xA1 {
            Instruction::SkipKeyUp { x }
        } else {
            Instruction::Nop
        }
    } else {
        if kk == 0x07 {
            Instruction::ReadDelay { x }
        } else if kk == 0x0A {
            Instruction::WaitKey { x }
        } else if kk == 0x15 {
            Instruction::SetDelay { x }
        } else if kk == 0x18 {
            Instruction::SetSound { x }
        } else if kk == 0x1E {
            Instruction::AddIndex { x }
        } else if kk == 0x29 {
            Instruction::LoadGlyph { x }
        } else if kk == 0x33 {
            Instruction::StoreBcd { x }
        } else if kk == 0x55 {
            Instruction::StoreRegs { x }
        } else if kk == 0x65 {
            Instruction::LoadRegs { x }
        } else {
            Instruction::Nop
        }
    }
}

impl Instruction {
    /// Every register index and nibble is below sixteen and every address
    /// fits in twelve bits.
    pub open spec fn wf(self) -> bool {
        match self {
            Instruction::ClearScreen | Instruction::Return | Instruction::Nop => true,
            Instruction::Jump { addr }
            | Instruction::Call { addr }
            | Instruction::LoadIndex { addr }
            | Instruction::JumpOffset { addr } => addr < 0x1000,
            Instruction::SkipEqImm { x, .. }
            | Instruction::SkipNeImm { x, .. }
            | Instruction::LoadImm { x, .. }
            | Instruction::AddImm { x, .. }
            | Instruction::Random { x, .. }
            | Instruction::ShiftRight { x }
            | Instruction::ShiftLeft { x }
            | Instruction::SkipKeyDown { x }
            | Instruction::SkipKeyUp { x }
            | Instruction::ReadDelay { x }
            | Instruction::WaitKey { x }
            | Instruction::SetDelay { x }
            | Instruction::SetSound { x }
            | Instruction::AddIndex { x }
            | Instruction::LoadGlyph { x }
            | Instruction::StoreBcd { x }
            | Instruction::StoreRegs { x }
            | Instruction::LoadRegs { x } => x < 16,
            Instruction::SkipEqReg { x, y }
            | Instruction::Move { x, y }
            | Instruction::Or { x, y }
            | Instruction::And { x, y }
            | Instruction::Xor { x, y }
            | Instruction::AddReg { x, y }
            | Instruction::SubReg { x, y }
            | Instruction::SubFrom { x, y }
            | Instruction::SkipNeReg { x, y } => x < 16 && y < 16,
            Instruction::Draw { x, y, n } => x < 16 && y < 16 && n < 16,
        }
    }
}

/// Whatever the word, its decoding is well formed.
pub proof fn lemma_decode_wf(op: u16)
    ensures
        decode_spec(op).wf(),
{
}

/// Splits a word into its fields and names the instruction.
pub fn decode(op: u16) -> (ins: Instruction)
    ensures
        ins == decode_spec(op),
        ins.wf(),
{
    let family: u16 = op >> 12;
    let x: u8 = ((op >> 8) & 0x000F) as u8;
    let y: u8 = ((op >> 4) & 0x000F) as u8;
    let n: u8 = (op & 0x000F) as u8;
    let kk: u8 = (op & 0x00FF) as u8;
    let addr: u16 = op & 0x0FFF;
    proof {
        assert(op >> 12 == op / 0x1000) by (bit_vector);
        assert((op >> 8) & 0x000F == (op / 0x100) % 0x10) by (bit_vector);
        assert((op >> 4) & 0x000F == (op / 0x10) % 0x10) by (bit_vector);
        assert(op & 0x000F == op % 0x10) by (bit_vector);
        assert(op & 0x00FF == op % 0x100) by (bit_vector);
        assert(op & 0x0FFF == op % 0x1000) by (bit_vector);
        lemma_decode_wf(op);
    }
    match family {
        0x0 => {
            if op == 0x00E0 {
                Instruction::ClearScreen
            } else if op == 0x00EE {
                Instruction::Return
            } else {
                Instruction::Nop
            }
        },
        0x1 => Instruction::Jump { addr },
        0x2 => Instruction::Call { addr },
        0x3 => Instruction::SkipEqImm { x, kk },
        0x4 => Instruction::SkipNeImm { x, kk },
        0x5 => {
            if n == 0 {
                Instruction::SkipEqReg { x, y }
            } else {
                Instruction::Nop
            }
        },
        0x6 => Instruction::LoadImm { x, kk },
        0x7 => Instruction::AddImm { x, kk },
        0x8 => {
            match n {
                0x0 => Instruction::Move { x, y },
                0x1 => Instruction::Or { x, y },
                0x2 => Instruction::And { x, y },
                0x3 => Instruction::Xor { x, y },
                0x4 => Instruction::AddReg { x, y },
                0x5 => Instruction::SubReg { x, y },
                0x6 => Instruction::ShiftRight { x },
                0x7 => Instruction::SubFrom { x, y },
                0xE => Instruction::ShiftLeft { x },
                _ => Instruction::Nop,
            }
        },
        0x9 => {
            if n == 0 {
                Instruction::SkipNeReg { x, y }
            } else {
                Instruction::Nop
            }
        },
        0xA => Instruction::LoadIndex { addr },
        0xB => Instruction::JumpOffset { addr },
        0xC => Instruction::Random { x, kk },
        0xD => Instruction::Draw { x, y, n },
        0xE => {
            match kk {
                0x9E => Instruction::SkipKeyDown { x },
                0xA1 => Instruction::SkipKeyUp { x },
                _ => Instruction::Nop,
            }
        },
        _ => {
            match kk {
                0x07 => Instruction::ReadDelay { x },
                0x0A => Instruction::WaitKey { x },
                0x15 => Instruction::SetDelay { x },
                0x18 => Instruction::SetSound { x },
                0x1E => Instruction::AddIndex { x },
                0x29 => Instruction::LoadGlyph { x },
                0x33 => Instruction::StoreBcd { x },
                0x55 => Instruction::StoreRegs { x },
                0x65 => Instruction::LoadRegs { x },
                _ => Instruction::Nop,
            }
        },
    }
}

} // verus!
