//! The machine as mathematical data, and what each instruction does to it.
//!
//! A step fetches the word at the program counter, moves the counter past
//! it, and carries out the instruction that the word decodes to.

use vstd::prelude::*;
use crate::cpu::CpuState;
use crate::display::{blank, cell, put};
use crate::error::Chip8Error;
use crate::opcode::{decode_spec, Instruction};

verus! {

/// Number of addressable bytes.
pub const MEMORY_SIZE: usize = 4096;

/// Address at which a program image is loaded.
pub const PROGRAM_START: usize = 0x200;

/// Number of bytes in the built-in font table.
pub const FONT_SIZE: usize = 80;

/// The built-in font: sixteen glyphs of five rows each, glyph `d` at `5 * d`.
pub const FONT: [u8; 80] = [
    0xF0, 0x90, 0x90, 0x90, 0xF0,
    0x20, 0x60, 0x20, 0x20, 0x70,
    0xF0, 0x10, 0xF0, 0x80, 0xF0,
    0xF0, 0x10, 0xF0, 0x10, 0xF0,
    0x90, 0x90, 0xF0, 0x10, 0x10,
    0xF0, 0x80, 0xF0, 0x10, 0xF0,
    0xF0, 0x80, 0xF0, 0x90, 0xF0,
    0xF0, 0x10, 0x20, 0x40, 0x40,
    0xF0, 0x90, 0xF0, 0x90, 0xF0,
    0xF0, 0x90, 0xF0, 0x10, 0xF0,
    0xF0, 0x90, 0xF0, 0x90, 0x90,
    0xE0, 0x90, 0xE0, 0x90, 0xE0,
    0xF0, 0x80, 0x80, 0x80, 0xF0,
    0xE0, 0x90, 0x90, 0x90, 0xE0,
    0xF0, 0x80, 0xF0, 0x80, 0xF0,
    0xF0, 0x80, 0xF0, 0x80, 0x80,
];

/// How a step that did not fail ended.
#[derive(Clone, Copy, Debug, PartialEq, Eq, Structural)]
pub enum StepStatus {
    /// The instruction was carried out.
    Completed,
    /// The instruction waits for a key; the machine will try it again.
    AwaitingKey { register: u8 },
}

/// The whole machine as mathematical data.
pub struct MachineState {
    pub memory: Seq<u8>,
    pub cpu: CpuState,
    pub display: Seq<bool>,
    pub keys: Seq<bool>,
}

/// A machine state together with what the step reports.
pub type Outcome = (MachineState, Result<StepStatus, Chip8Error>);

/// `n` reduced to eight bits.
pub open spec fn wrap8(n: int) -> u8 {
    (n % 0x100) as u8
}

/// `n` reduced to sixteen bits.
pub open spec fn wrap16(n: int) -> u16 {
    (n % 0x1_0000) as u16
}

/// Whether key `k` is one of the sixteen keys and is held down.
pub open spec fn key_down(keys: Seq<bool>, k: int) -> bool {
    0 <= k < 16 && keys[k]
}

/// The lowest key at or above `from` that is held down, or 16 if there is none.
pub open spec fn first_key_down(keys: Seq<bool>, from: int) -> int
    decreases 16 - from,
{
    if from >= 16 {
        16
    } else if key_down(keys, from) {
        from
    } else {
        first_key_down(keys, from + 1)
    }
}

/// Column `b` of a sprite row, counted from the left: bit `7 - b` of the byte.
pub open spec fn sprite_bit(byte: u8, b: int) -> bool {
    (byte >> ((7 - b) as u8)) & 1u8 == 1u8
}

/// Whether the sprite pixel in row `r`, column `b` is among the first
/// `count` pixels drawn, rows from the top and each row from the left.
pub open spec fn pixel_drawn(r: int, b: int, count: int) -> bool {
    0 <= r && 0 <= b < 8 && r * 8 + b < count
}

/// The display after the first `count` pixels of the sprite at
/// `memory[i..]` were drawn with its corner at `(vx, vy)`. A drawn pixel
/// leaves the cell on exactly if cell and sprite bit differed. Pixels that
/// fall outside the grid touch nothing.
pub open spec fn drawn(
    display: Seq<bool>,
    memory: Seq<u8>,
    i: int,
    vx: int,
    vy: int,
    count: int,
) -> Seq<bool> {
    Seq::new(
        display.len(),
        |idx: int|
            {
                let r = idx / 64 - vy;
                let b = idx % 64 - vx;
                if pixel_drawn(r, b, count) {
                    display[idx] != sprite_bit(memory[i + r], b)
                } else {
                    display[idx]
                }
            },
    )
}

/// The flag register after the first `count` pixels were drawn: what the
/// last of them left, 1 for a cell that ended off and 0 for one that ended
/// on, or `flag` if none was drawn.
pub open spec fn draw_flag(
    display: Seq<bool>,
    memory: Seq<u8>,
    i: int,
    vx: int,
    vy: int,
    count: int,
    flag: u8,
) -> u8 {
    if count <= 0 {
        flag
    } else {
        let r = (count - 1) / 8;
        let b = (count - 1) % 8;
        if cell(display, vx + b, vy + r) != sprite_bit(memory[i + r], b) {
            0
        } else {
            1
        }
    }
}

/// Drawing one more pixel of a sprite: the cell it aims at still holds
/// what the display held before the sprite, writing the new bit there
/// gives the display with one more pixel drawn, and the flag follows that
/// pixel.
pub proof fn lemma_draw_pixel(
    display: Seq<bool>,
    memory: Seq<u8>,
    i: int,
    vx: int,
    vy: int,
    count: int,
    flag: u8,
)
    requires
        display.len() == 2048,
        0 <= count,
        0 <= vx,
        0 <= vy,
    ensures
        ({
            let r = count / 8;
            let b = count % 8;
            let current = drawn(display, memory, i, vx, vy, count);
            let lit = cell(current, vx + b, vy + r) != sprite_bit(memory[i + r], b);
            &&& cell(current, vx + b, vy + r) == cell(display, vx + b, vy + r)
            &&& put(current, vx + b, vy + r, lit) == drawn(display, memory, i, vx, vy, count + 1)
            &&& draw_flag(display, memory, i, vx, vy, count + 1, flag) == if lit {
                0u8
            } else {
                1u8
            }
        }),
{
    let r = count / 8;
    let b = count % 8;
    let current = drawn(display, memory, i, vx, vy, count);
    let lit = cell(current, vx + b, vy + r) != sprite_bit(memory[i + r], b);
    assert(put(current, vx + b, vy + r, lit) =~= drawn(display, memory, i, vx, vy, count + 1));
}

/// Memory after registers `V[0..=x]` were stored at `i`.
pub open spec fn stored(memory: Seq<u8>, v: Seq<u8>, i: int, x: int) -> Seq<u8> {
    Seq::new(
        memory.len(),
        |a: int|
            if i <= a <= i + x {
                v[a - i]
            } else {
                memory[a]
            },
    )
}

/// Registers after `V[0..=x]` were loaded from `i`.
pub open spec fn loaded(v: Seq<u8>, memory: Seq<u8>, i: int, x: int) -> Seq<u8> {
    Seq::new(
        v.len(),
        |k: int|
            if k <= x {
                memory[i + k]
            } else {
                v[k]
            },
    )
}

/// Memory right after boot: the font, the image from 0x200 as far as it
/// fits, zero elsewhere.
pub open spec fn boot_memory(data: Seq<u8>) -> Seq<u8> {
    Seq::new(
        4096,
        |a: int|
            if a < 80 {
                FONT@[a]
            } else if 0x200 <= a < 0x200 + data.len() {
                data[a - 0x200]
            } else {
                0u8
            },
    )
}

impl MachineState {
    /// 4096 bytes, 2048 cells, 16 keys and a well-formed register file.
    pub open spec fn wf(self) -> bool {
        &&& self.memory.len() == 4096
        &&& self.display.len() == 2048
        &&& self.keys.len() == 16
        &&& self.cpu.wf()
    }

    /// The machine right after boot from `data` with no key held down.
    pub open spec fn boot(data: Seq<u8>) -> MachineState {
        MachineState {
            memory: boot_memory(data),
            cpu: CpuState::fresh(),
            display: blank(),
            keys: Seq::new(16, |k: int| false),
        }
    }

    /// The machine after a reset: fresh registers, blank display, memory
    /// all zero. The keys stay as the host last reported them.
    pub open spec fn reset(self) -> MachineState {
        MachineState {
            memory: Seq::new(4096, |a: int| 0u8),
            cpu: CpuState::fresh(),
            display: blank(),
            keys: self.keys,
        }
    }

    /// The machine after the host reported key `key` as held or released.
    /// Keys above `0xF` do not exist and change nothing.
    pub open spec fn set_key(self, key: int, pressed: bool) -> MachineState {
        if 0 <= key < 16 {
            MachineState { keys: self.keys.update(key, pressed), ..self }
        } else {
            self
        }
    }

    /// The machine after one timer tick.
    pub open spec fn tick_timers(self) -> MachineState {
        MachineState { cpu: self.cpu.tick_timers(), ..self }
    }

    /// The machine with `cpu` for its register file.
    pub open spec fn with_cpu(self, cpu: CpuState) -> MachineState {
        MachineState { cpu, ..self }
    }

    /// The machine with register `x` holding `value`.
    pub open spec fn with_v(self, x: int, value: u8) -> MachineState {
        self.with_cpu(self.cpu.set_v(x, value))
    }

    /// The machine with the program counter at `pc`.
    pub open spec fn with_pc(self, pc: u16) -> MachineState {
        self.with_cpu(self.cpu.set_pc(pc))
    }

    /// The machine with the index register holding `i`.
    pub open spec fn with_i(self, i: u16) -> MachineState {
        self.with_cpu(self.cpu.set_i(i))
    }

    /// The machine with the program counter moved past one more
    /// instruction if `cond` holds.
    pub open spec fn skip_if(self, cond: bool) -> MachineState {
        if cond {
            self.with_pc(wrap16(self.cpu.pc + 2))
        } else {
            self
        }
    }

    /// Whether the program counter and the byte after it lie in memory.
    pub open spec fn can_fetch(self) -> bool {
        self.cpu.pc + 1 <= 4095
    }

    /// The word at the program counter, high byte first.
    pub open spec fn fetch(self) -> u16 {
        (self.memory[self.cpu.pc as int] * 0x100 + self.memory[self.cpu.pc + 1]) as u16
    }
}

/// The step ended normally in state `s`.
pub open spec fn done(s: MachineState) -> Outcome {
    (s, Ok(StepStatus::Completed))
}

/// The step failed with `e`, leaving state `s`.
pub open spec fn fail(s: MachineState, e: Chip8Error) -> Outcome {
    (s, Err(e))
}

/// `00EE`: the program counter takes the address on top of the stack. On
/// an empty stack the step reports the underflow and changes nothing.
pub open spec fn ret(s: MachineState) -> Outcome {
    let (cpu, popped) = s.cpu.pop();
    match popped {
        Ok(addr) => done(s.with_cpu(cpu.set_pc(addr))),
        Err(e) => fail(s, e),
    }
}

/// `2nnn`: the program counter goes on the stack and then takes `addr`.
/// On a full stack the step reports the overflow and changes nothing.
pub open spec fn call(s: MachineState, addr: u16) -> Outcome {
    let (cpu, pushed) = s.cpu.push(s.cpu.pc);
    match pushed {
        Ok(_) => done(s.with_cpu(cpu.set_pc(addr))),
        Err(e) => fail(s, e),
    }
}

/// `Dxyn`: draws the `n` rows at `Memory[I..I+n]` with the sprite's corner
/// at `(V[x], V[y])`, read before anything is drawn. Rows that run past
/// the end of memory fail the step and change nothing.
pub open spec fn draw(s: MachineState, x: int, y: int, n: int) -> Outcome {
    let i = s.cpu.i as int;
    let vx = s.cpu.v[x] as int;
    let vy = s.cpu.v[y] as int;
    if i + n > 4096 {
        fail(s, Chip8Error::OutOfBoundsSpriteRead)
    } else {
        done(
            MachineState {
                display: drawn(s.display, s.memory, i, vx, vy, 8 * n),
                ..s.with_v(0xF, draw_flag(s.display, s.memory, i, vx, vy, 8 * n, s.cpu.v[0xF]))
            },
        )
    }
}

/// `Fx0A`: with a key held down, `V[x]` takes the lowest such key. With
/// none, the program counter goes back to this instruction, so that the
/// next step tries it again, and the step reports that it waits.
pub open spec fn wait_key(s: MachineState, x: u8) -> Outcome {
    let key = first_key_down(s.keys, 0);
    if key < 16 {
        done(s.with_v(x as int, key as u8))
    } else {
        (s.with_pc(wrap16(s.cpu.pc - 2)), Ok(StepStatus::AwaitingKey { register: x }))
    }
}

/// `Fx33`: the hundreds, tens and units of `V[x]` go to `Memory[I]`,
/// `Memory[I+1]` and `Memory[I+2]`. Digits that would fall past the end of
/// memory fail the step and change nothing.
pub open spec fn store_bcd(s: MachineState, x: int) -> Outcome {
    let i = s.cpu.i as int;
    let value = s.cpu.v[x] as int;
    if i + 2 > 4095 {
        fail(s, Chip8Error::OutOfBoundsMemoryAccess)
    } else {
        done(
            MachineState {
                memory: s.memory.update(i, (value / 100) as u8).update(
                    i + 1,
                    (value / 10 % 10) as u8,
                ).update(i + 2, (value % 10) as u8),
                ..s
            },
        )
    }
}

/// `Fx55`: `V[0..=x]` go to `Memory[I..=I+x]`. Bytes that would fall past
/// the end of memory fail the step and change nothing.
pub open spec fn store_regs(s: MachineState, x: int) -> Outcome {
    let i = s.cpu.i as int;
    if i + x > 4095 {
        fail(s, Chip8Error::OutOfBoundsMemoryAccess)
    } else {
        done(MachineState { memory: stored(s.memory, s.cpu.v, i, x), ..s })
    }
}

/// `Fx65`: `V[0..=x]` come from `Memory[I..=I+x]`. Bytes that would lie
/// past the end of memory fail the step and change nothing.
pub open spec fn load_regs(s: MachineState, x: int) -> Outcome {
    let i = s.cpu.i as int;
    if i + x > 4095 {
        fail(s, Chip8Error::OutOfBoundsMemoryAccess)
    } else {
        done(s.with_cpu(CpuState { v: loaded(s.cpu.v, s.memory, i, x), ..s.cpu }))
    }
}

/// What instruction `ins` does to a machine whose program counter already
/// points past it. `random` is the byte that `Cxkk` draws.
pub open spec fn execute(s: MachineState, ins: Instruction, random: u8) -> Outcome {
    let v = s.cpu.v;
    match ins {
        Instruction::ClearScreen => done(MachineState { display: blank(), ..s }),
        Instruction::Return => ret(s),
        Instruction::Jump { addr } => done(s.with_pc(addr)),
        Instruction::Call { addr } => call(s, addr),
        Instruction::SkipEqImm { x, kk } => done(s.skip_if(v[x as int] == kk)),
        Instruction::SkipNeImm { x, kk } => done(s.skip_if(v[x as int] != kk)),
        Instruction::SkipEqReg { x, y } => done(s.skip_if(v[x as int] == v[y as int])),
        Instruction::LoadImm { x, kk } => done(s.with_v(x as int, kk)),
        Instruction::AddImm { x, kk } => done(s.with_v(x as int, wrap8(v[x as int] + kk))),
        Instruction::Move { x, y } => done(s.with_v(x as int, v[y as int])),
        Instruction::Or { x, y } => done(s.with_v(x as int, v[x as int] | v[y as int])),
        Instruction::And { x, y } => done(s.with_v(x as int, v[x as int] & v[y as int])),
        Instruction::Xor { x, y } => done(s.with_v(x as int, v[x as int] ^ v[y as int])),
        Instruction::AddReg { x, y } => {
            let sum = v[x as int] + v[y as int];
            done(s.with_v(x as int, wrap8(sum)).with_v(0xF, if sum > 255 { 1 } else { 0 }))
        },
        Instruction::SubReg { x, y } => {
            let a = v[x as int];
            let b = v[y as int];
            done(s.with_v(x as int, wrap8(a - b)).with_v(0xF, if a >= b { 1 } else { 0 }))
        },
        Instruction::ShiftRight { x } => {
            let flagged = s.with_v(0xF, (v[x as int] % 2) as u8);
            done(flagged.with_v(x as int, (flagged.cpu.v[x as int] / 2) as u8))
        },
        Instruction::SubFrom { x, y } => {
            let a = v[x as int];
            let b = v[y as int];
            done(s.with_v(x as int, wrap8(b - a)).with_v(0xF, if b >= a { 1 } else { 0 }))
        },
        Instruction::ShiftLeft { x } => {
            let flagged = s.with_v(0xF, (v[x as int] / 0x80) as u8);
            done(flagged.with_v(x as int, wrap8(flagged.cpu.v[x as int] * 2)))
        },
        Instruction::SkipNeReg { x, y } => done(s.skip_if(v[x as int] != v[y as int])),
        Instruction::LoadIndex { addr } => done(s.with_i(addr)),
        Instruction::JumpOffset { addr } => done(s.with_pc(wrap16(addr + v[0]))),
        Instruction::Random { x, kk } => done(s.with_v(x as int, kk & random)),
        Instruction::Draw { x, y, n } => draw(s, x as int, y as int, n as int),
        Instruction::SkipKeyDown { x } => done(s.skip_if(key_down(s.keys, v[x as int] as int))),
        Instruction::SkipKeyUp { x } => done(s.skip_if(!key_down(s.keys, v[x as int] as int))),
        Instruction::ReadDelay { x } => done(s.with_v(x as int, s.cpu.dt)),
        Instruction::WaitKey { x } => wait_key(s, x),
        Instruction::SetDelay { x } => done(s.with_cpu(s.cpu.set_dt(v[x as int]))),
        Instruction::SetSound { x } => done(s.with_cpu(s.cpu.set_st(v[x as int]))),
        Instruction::AddIndex { x } => done(s.with_i(wrap16(s.cpu.i + v[x as int]))),
        Instruction::LoadGlyph { x } => done(s.with_i((5 * v[x as int]) as u16)),
        Instruction::StoreBcd { x } => store_bcd(s, x as int),
        Instruction::StoreRegs { x } => store_regs(s, x as int),
        Instruction::LoadRegs { x } => load_regs(s, x as int),
        Instruction::Nop => done(s),
    }
}

/// One fetch-decode-execute cycle. A program counter outside memory fails
/// the step and changes nothing.
pub open spec fn step(s: MachineState, random: u8) -> Outcome {
    if !s.can_fetch() {
        fail(s, Chip8Error::OutOfBoundsFetch)
    } else {
        execute(s.with_pc((s.cpu.pc + 2) as u16), decode_spec(s.fetch()), random)
    }
}

/// Whether the next step consults the random byte.
pub open spec fn draws_random(s: MachineState) -> bool {
    s.can_fetch() && decode_spec(s.fetch()) is Random
}

} // verus!
