//! The machine itself: memory, register file, display and key state, and
//! the interpreter that drives them.

use rand::Rng;
use vstd::prelude::*;
use crate::cpu::{Cpu, CpuState};
use crate::display::{blank, Display};
use crate::error::Chip8Error;
use crate::machine::{
    boot_memory, call, draw, draw_flag, drawn, draws_random, execute, first_key_down, key_down,
    lemma_draw_pixel, load_regs, loaded, ret, step, store_bcd, store_regs, stored, wait_key,
    MachineState, StepStatus, FONT, FONT_SIZE, MEMORY_SIZE, PROGRAM_START,
};
use crate::opcode::{decode, decode_spec, Instruction};

verus! {

/// A CHIP-8 machine: 4096 bytes of memory, the register file, the display
/// and the state of the sixteen keys as the host last reported it.
pub struct Computer {
    memory: [u8; 4096],
    cpu: Cpu,
    display: Display,
    keys: [bool; 16],
}

impl View for Computer {
    type V = MachineState;

    closed spec fn view(&self) -> MachineState {
        MachineState {
            memory: self.memory@,
            cpu: self.cpu@,
            display: self.display@,
            keys: self.keys@,
        }
    }
}

impl Computer {
    /// Every machine has a well-formed view.
    pub proof fn lemma_wf(&self)
        ensures
            self@.wf(),
    {
        self.cpu.lemma_wf();
        self.display.lemma_len();
    }

    /// Boots a machine from a program image: the font at the bottom of
    /// memory, the image from 0x200 (cut off at the end of memory), fresh
    /// registers, a blank display and no key held down.
    pub fn new(data: Vec<u8>) -> (computer: Computer)
        ensures
            computer@ == MachineState::boot(data@),
    {
        let mut mem: [u8; 4096] = [0; 4096];
        let mut pos: usize = 0;
        while pos < FONT_SIZE
            invariant
                pos <= 80,
                forall|a: int| 0 <= a < pos ==> mem@[a] == FONT@[a],
                forall|a: int| pos <= a < 4096 ==> mem@[a] == 0,
            decreases 80 - pos,
        {
            mem[pos] = FONT[pos];
            pos += 1;
        }
        let room: usize = MEMORY_SIZE - PROGRAM_START;
        let count: usize = if data.len() < room {
            data.len()
        } else {
            room
        };
        let mut pos: usize = 0;
        while pos < count
            invariant
                pos <= count <= 3584,
                count <= data@.len(),
                forall|a: int| 0 <= a < 80 ==> mem@[a] == FONT@[a],
                forall|a: int| 80 <= a < 0x200 ==> mem@[a] == 0,
                forall|a: int| 0x200 <= a < 0x200 + pos ==> mem@[a] == data@[a - 0x200],
                forall|a: int| 0x200 + pos <= a < 4096 ==> mem@[a] == 0,
            decreases count - pos,
        {
            mem[PROGRAM_START + pos] = data[pos];
            pos += 1;
        }
        let computer = Computer {
            memory: mem,
            cpu: Cpu::new(),
            display: Display::new(),
            keys: [false; 16],
        };
        proof {
            assert(computer@.memory =~= boot_memory(data@));
            assert(computer@.keys =~= MachineState::boot(data@).keys);
        }
        computer
    }

    /// Fresh registers, a blank display and memory all zero. The program
    /// is not loaded again.
    pub fn reset(&mut self)
        ensures
            final(self)@ == old(self)@.reset(),
    {
        self.cpu = Cpu::new();
        self.display = Display::new();
        let mut n: usize = 0;
        while n < MEMORY_SIZE
            invariant
                n <= 4096,
                forall|a: int| 0 <= a < n ==> self.memory@[a] == 0,
                self.cpu@ == CpuState::fresh(),
                self.display@ == blank(),
                self.keys == old(self).keys,
            decreases 4096 - n,
        {
            self.memory[n] = 0;
            n += 1;
        }
        proof {
            assert(self@.memory =~= old(self)@.reset().memory);
        }
    }

    /// A copy of all 4096 bytes of memory.
    pub fn dump(&self) -> (bytes: Vec<u8>)
        ensures
            bytes@ == self@.memory,
            bytes@.len() == 4096,
    {
        let mut bytes: Vec<u8> = Vec::with_capacity(MEMORY_SIZE);
        let mut n: usize = 0;
        while n < MEMORY_SIZE
            invariant
                n <= 4096,
                bytes@.len() == n,
                forall|a: int| 0 <= a < n ==> bytes@[a] == self.memory@[a],
            decreases 4096 - n,
        {
            bytes.push(self.memory[n]);
            n += 1;
        }
        bytes
    }

    /// A copy of the display, independent of the machine.
    pub fn display(&self) -> (display: Display)
        ensures
            display@ == self@.display,
    {
        self.display
    }

    /// A copy of the register file, independent of the machine.
    pub fn cpu(&self) -> (cpu: Cpu)
        ensures
            cpu@ == self@.cpu,
    {
        self.cpu
    }

    /// Records that the host saw key `key` go down or come up. Keys above
    /// `0xF` do not exist and are ignored.
    pub fn set_key(&mut self, key: u8, pressed: bool)
        ensures
            final(self)@ == old(self)@.set_key(key as int, pressed),
    {
        if key < 16 {
            self.keys[key as usize] = pressed;
        }
    }

    /// Counts both timers down by one, stopping at zero. The host calls
    /// this at its own rate.
    pub fn tick_timers(&mut self)
        ensures
            final(self)@ == old(self)@.tick_timers(),
    {
        self.cpu.tick_timers();
    }

    /// The word at the program counter, high byte first, or the fault if
    /// the counter or the byte after it lies outside memory.
    pub fn fetch(&self) -> (res: Result<u16, Chip8Error>)
        ensures
            res == if self@.can_fetch() {
                Ok::<u16, Chip8Error>(self@.fetch())
            } else {
                Err::<u16, Chip8Error>(Chip8Error::OutOfBoundsFetch)
            },
    {
        let pc: usize = self.cpu.pc() as usize;
        if pc >= MEMORY_SIZE - 1 {
            return Err(Chip8Error::OutOfBoundsFetch);
        }
        let hi: u8 = self.memory[pc];
        let lo: u8 = self.memory[pc + 1];
        let word: u16 = ((hi as u16) << 8) | (lo as u16);
        proof {
            assert(((hi as u16) << 8) | (lo as u16) == hi * 0x100 + lo) by (bit_vector);
        }
        Ok(word)
    }

    /// Moves the program counter past one more instruction if `cond` holds.
    fn skip_if(&mut self, cond: bool)
        ensures
            final(self)@ == old(self)@.skip_if(cond),
    {
        if cond {
            let pc: u16 = self.cpu.pc();
            self.cpu.set_pc(pc.wrapping_add(2));
        }
    }

    /// Whether key `key` exists and is held down.
    fn is_key_down(&self, key: u8) -> (down: bool)
        ensures
            down == key_down(self@.keys, key as int),
    {
        key < 16 && self.keys[key as usize]
    }

    /// The lowest key that is held down, or 16 if none is.
    fn lowest_key_down(&self) -> (key: u8)
        ensures
            key == first_key_down(self@.keys, 0),
            key <= 16,
    {
        let mut key: u8 = 0;
        while key < 16
            invariant
                key <= 16,
                first_key_down(self.keys@, 0) == first_key_down(self.keys@, key as int),
            decreases 16 - key,
        {
            if self.keys[key as usize] {
                return key;
            }
            key += 1;
        }
        key
    }

    /// `00EE`.
    fn run_return(&mut self) -> (res: Result<StepStatus, Chip8Error>)
        ensures
            (final(self)@, res) == ret(old(self)@),
    {
        match self.cpu.stack_pop() {
            Ok(addr) => {
                self.cpu.set_pc(addr);
                Ok(StepStatus::Completed)
            },
            Err(e) => Err(e),
        }
    }

    /// `2nnn`.
    fn run_call(&mut self, addr: u16) -> (res: Result<StepStatus, Chip8Error>)
        ensures
            (final(self)@, res) == call(old(self)@, addr),
    {
        let pc: u16 = self.cpu.pc();
        match self.cpu.stack_push(pc) {
            Ok(_) => {
                self.cpu.set_pc(addr);
                Ok(StepStatus::Completed)
            },
            Err(e) => Err(e),
        }
    }

    /// `Fx0A`.
    fn run_wait_key(&mut self, x: u8) -> (res: Result<StepStatus, Chip8Error>)
        requires
            x < 16,
        ensures
            (final(self)@, res) == wait_key(old(self)@, x),
    {
        let key: u8 = self.lowest_key_down();
        if key < 16 {
            self.cpu.set_v(x, key);
            Ok(StepStatus::Completed)
        } else {
            let pc: u16 = self.cpu.pc();
            self.cpu.set_pc(pc.wrapping_sub(2));
            Ok(StepStatus::AwaitingKey { register: x })
        }
    }

    /// `Fx33`.
    fn run_store_bcd(&mut self, x: u8) -> (res: Result<StepStatus, Chip8Error>)
        requires
            x < 16,
        ensures
            (final(self)@, res) == store_bcd(old(self)@, x as int),
    {
        let i: usize = self.cpu.i() as usize;
        if i + 2 > MEMORY_SIZE - 1 {
            return Err(Chip8Error::OutOfBoundsMemoryAccess);
        }
        let value: u8 = self.cpu.v(x);
        self.memory[i] = value / 100;
        self.memory[i + 1] = value / 10 % 10;
        self.memory[i + 2] = value % 10;
        Ok(StepStatus::Completed)
    }

    /// `Fx55`.
    fn run_store_regs(&mut self, x: u8) -> (res: Result<StepStatus, Chip8Error>)
        requires
            x < 16,
        ensures
            (final(self)@, res) == store_regs(old(self)@, x as int),
    {
        let i: usize = self.cpu.i() as usize;
        if i + x as usize > MEMORY_SIZE - 1 {
            return Err(Chip8Error::OutOfBoundsMemoryAccess);
        }
        let ghost before = self@;
        proof {
            self.lemma_wf();
            assert(self.memory@ =~= stored(before.memory, before.cpu.v, i as int, -1));
        }
        let mut d: u8 = 0;
        while d <= x
            invariant
                x < 16,
                d <= x + 1,
                i + x <= 4095,
                before.wf(),
                self.cpu == old(self).cpu,
                self.display == old(self).display,
                self.keys == old(self).keys,
                before.cpu == self.cpu@,
                self.memory@ == stored(before.memory, before.cpu.v, i as int, d - 1),
            decreases x + 1 - d,
        {
            let value: u8 = self.cpu.v(d);
            self.memory[i + d as usize] = value;
            proof {
                assert(self.memory@ =~= stored(before.memory, before.cpu.v, i as int, d as int));
            }
            d += 1;
        }
        Ok(StepStatus::Completed)
    }

    /// `Fx65`.
    fn run_load_regs(&mut self, x: u8) -> (res: Result<StepStatus, Chip8Error>)
        requires
            x < 16,
        ensures
            (final(self)@, res) == load_regs(old(self)@, x as int),
    {
        let i: usize = self.cpu.i() as usize;
        if i + x as usize > MEMORY_SIZE - 1 {
            return Err(Chip8Error::OutOfBoundsMemoryAccess);
        }
        let ghost before = self@;
        proof {
            self.lemma_wf();
            assert(before.cpu.v =~= loaded(before.cpu.v, before.memory, i as int, -1));
        }
        let mut d: u8 = 0;
        while d <= x
            invariant
                x < 16,
                d <= x + 1,
                i + x <= 4095,
                before.wf(),
                self.memory == old(self).memory,
                self.display == old(self).display,
                self.keys == old(self).keys,
                before.memory == self.memory@,
                self.cpu@ == (CpuState {
                    v: loaded(before.cpu.v, before.memory, i as int, d - 1),
                    ..before.cpu
                }),
            decreases x + 1 - d,
        {
            let value: u8 = self.memory[i + d as usize];
            self.cpu.set_v(d, value);
            proof {
                assert(self.cpu@.v =~= loaded(before.cpu.v, before.memory, i as int, d as int));
            }
            d += 1;
        }
        Ok(StepStatus::Completed)
    }

    /// `Dxyn`.
    fn run_draw(&mut self, x: u8, y: u8, n: u8) -> (res: Result<StepStatus, Chip8Error>)
        requires
            x < 16,
            y < 16,
            n < 16,
        ensures
            (final(self)@, res) == draw(old(self)@, x as int, y as int, n as int),
    {
        let i: usize = self.cpu.i() as usize;
        if i + n as usize > MEMORY_SIZE {
            return Err(Chip8Error::OutOfBoundsSpriteRead);
        }
        let vx: usize = self.cpu.v(x) as usize;
        let vy: usize = self.cpu.v(y) as usize;
        let ghost before = self@;
        let ghost flag = before.cpu.v[0xF];
        proof {
            self.lemma_wf();
            assert(before.display =~= drawn(
                before.display,
                before.memory,
                i as int,
                vx as int,
                vy as int,
                0,
            ));
            assert(before.cpu.v =~= before.cpu.v.update(0xF, flag));
        }
        let mut row: usize = 0;
        while row < n as usize
            invariant
                n < 16,
                row <= n,
                i + n <= 4096,
                vx < 256,
                vy < 256,
                before.wf(),
                flag == before.cpu.v[0xF],
                self.memory == old(self).memory,
                self.keys == old(self).keys,
                before.memory == self.memory@,
                self.display@ == drawn(
                    before.display,
                    before.memory,
                    i as int,
                    vx as int,
                    vy as int,
                    8 * row,
                ),
                self.cpu@ == before.cpu.set_v(
                    0xF,
                    draw_flag(
                        before.display,
                        before.memory,
                        i as int,
                        vx as int,
                        vy as int,
                        8 * row,
                        flag,
                    ),
                ),
            decreases n - row,
        {
            let byte: u8 = self.memory[i + row];
            let mut col: u8 = 0;
            while col < 8
                invariant
                    col <= 8,
                    row < n < 16,
                    i + n <= 4096,
                    vx < 256,
                    vy < 256,
                    before.wf(),
                    flag == before.cpu.v[0xF],
                    byte == before.memory[i + row],
                    self.memory == old(self).memory,
                    self.keys == old(self).keys,
                    before.memory == self.memory@,
                    self.display@ == drawn(
                        before.display,
                        before.memory,
                        i as int,
                        vx as int,
                        vy as int,
                        8 * row + col,
                    ),
                    self.cpu@ == before.cpu.set_v(
                        0xF,
                        draw_flag(
                            before.display,
                            before.memory,
                            i as int,
                            vx as int,
                            vy as int,
                            8 * row + col,
                            flag,
                        ),
                    ),
                decreases 8 - col,
            {
                let bit: bool = (byte >> (7 - col)) & 1 == 1;
                let lit: bool = self.display.get(vx + col as usize, vy + row) != bit;
                self.cpu.set_v(
                    0xF,
                    if lit {
                        0
                    } else {
                        1
                    },
                );
                self.display.set(vx + col as usize, vy + row, lit);
                proof {
                    lemma_draw_pixel(
                        before.display,
                        before.memory,
                        i as int,
                        vx as int,
                        vy as int,
                        8 * row + col,
                        flag,
                    );
                    assert(self.cpu@.v =~= before.cpu.v.update(
                        0xF,
                        draw_flag(
                            before.display,
                            before.memory,
                            i as int,
                            vx as int,
                            vy as int,
                            8 * row + col + 1,
                            flag,
                        ),
                    ));
                }
                col += 1;
            }
            row += 1;
        }
        Ok(StepStatus::Completed)
    }

    /// Carries out `ins` on a machine whose program counter already
    /// points past it.
    fn run(&mut self, ins: Instruction, random: u8) -> (res: Result<StepStatus, Chip8Error>)
        requires
            ins.wf(),
        ensures
            (final(self)@, res) == execute(old(self)@, ins, random),
    {
        proof {
            self.lemma_wf();
        }
        match ins {
            Instruction::ClearScreen => {
                self.display.clear();
            },
            Instruction::Return => {
                return self.run_return();
            },
            Instruction::Jump { addr } => {
                self.cpu.set_pc(addr);
            },
            Instruction::Call { addr } => {
                return self.run_call(addr);
            },
            Instruction::SkipEqImm { x, kk } => {
                let a: u8 = self.cpu.v(x);
                self.skip_if(a == kk);
            },
            Instruction::SkipNeImm { x, kk } => {
                let a: u8 = self.cpu.v(x);
                self.skip_if(a != kk);
            },
            Instruction::SkipEqReg { x, y } => {
                let a: u8 = self.cpu.v(x);
                let b: u8 = self.cpu.v(y);
                self.skip_if(a == b);
            },
            Instruction::LoadImm { x, kk } => {
                self.cpu.set_v(x, kk);
            },
            Instruction::AddImm { x, kk } => {
                let a: u8 = self.cpu.v(x);
                self.cpu.set_v(x, a.wrapping_add(kk));
            },
            Instruction::Move { x, y } => {
                let b: u8 = self.cpu.v(y);
                self.cpu.set_v(x, b);
            },
            Instruction::Or { x, y } => {
                let a: u8 = self.cpu.v(x);
                let b: u8 = self.cpu.v(y);
                self.cpu.set_v(x, a | b);
            },
            Instruction::And { x, y } => {
                let a: u8 = self.cpu.v(x);
                let b: u8 = self.cpu.v(y);
                self.cpu.set_v(x, a & b);
            },
            Instruction::Xor { x, y } => {
                let a: u8 = self.cpu.v(x);
                let b: u8 = self.cpu.v(y);
                self.cpu.set_v(x, a ^ b);
            },
            Instruction::AddReg { x, y } => {
                let a: u8 = self.cpu.v(x);
                let b: u8 = self.cpu.v(y);
                let carry: u8 = if a as u16 + b as u16 > 255 {
                    1
                } else {
                    0
                };
                self.cpu.set_v(x, a.wrapping_add(b));
                self.cpu.set_v(0xF, carry);
            },
            Instruction::SubReg { x, y } => {
                let a: u8 = self.cpu.v(x);
                let b: u8 = self.cpu.v(y);
                let no_borrow: u8 = if a >= b {
                    1
                } else {
                    0
                };
                self.cpu.set_v(x, a.wrapping_sub(b));
                self.cpu.set_v(0xF, no_borrow);
            },
            Instruction::ShiftRight { x } => {
                let a: u8 = self.cpu.v(x);
                self.cpu.set_v(0xF, a & 1);
                let shifted: u8 = self.cpu.v(x);
                self.cpu.set_v(x, shifted >> 1);
                proof {
                    assert(a & 1 == a % 2) by (bit_vector);
                    assert(shifted >> 1 == shifted / 2) by (bit_vector);
                }
            },
            Instruction::SubFrom { x, y } => {
                let a: u8 = self.cpu.v(x);
                let b: u8 = self.cpu.v(y);
                let no_borrow: u8 = if b >= a {
                    1
                } else {
                    0
                };
                self.cpu.set_v(x, b.wrapping_sub(a));
                self.cpu.set_v(0xF, no_borrow);
            },
            Instruction::ShiftLeft { x } => {
                let a: u8 = self.cpu.v(x);
                self.cpu.set_v(0xF, (a >> 7) & 1);
                let shifted: u8 = self.cpu.v(x);
                self.cpu.set_v(x, shifted.wrapping_add(shifted));
                proof {
                    assert((a >> 7) & 1 == a / 0x80) by (bit_vector);
                }
            },
            Instruction::SkipNeReg { x, y } => {
                let a: u8 = self.cpu.v(x);
                let b: u8 = self.cpu.v(y);
                self.skip_if(a != b);
            },
            Instruction::LoadIndex { addr } => {
                self.cpu.set_i(addr);
            },
            Instruction::JumpOffset { addr } => {
                let offset: u8 = self.cpu.v(0);
                self.cpu.set_pc(addr + offset as u16);
            },
            Instruction::Random { x, kk } => {
                self.cpu.set_v(x, kk & random);
            },
            Instruction::Draw { x, y, n } => {
                return self.run_draw(x, y, n);
            },
            Instruction::SkipKeyDown { x } => {
                let key: u8 = self.cpu.v(x);
                let down: bool = self.is_key_down(key);
                self.skip_if(down);
            },
            Instruction::SkipKeyUp { x } => {
                let key: u8 = self.cpu.v(x);
                let down: bool = self.is_key_down(key);
                self.skip_if(!down);
            },
            Instruction::ReadDelay { x } => {
                let dt: u8 = self.cpu.dt();
                self.cpu.set_v(x, dt);
            },
            Instruction::WaitKey { x } => {
                return self.run_wait_key(x);
            },
            Instruction::SetDelay { x } => {
                let a: u8 = self.cpu.v(x);
                self.cpu.set_dt(a);
            },
            Instruction::SetSound { x } => {
                let a: u8 = self.cpu.v(x);
                self.cpu.set_st(a);
            },
            Instruction::AddIndex { x } => {
                let a: u8 = self.cpu.v(x);
                let i: u16 = self.cpu.i();
                self.cpu.set_i(i.wrapping_add(a as u16));
            },
            Instruction::LoadGlyph { x } => {
                let a: u8 = self.cpu.v(x);
                self.cpu.set_i(5 * (a as u16));
            },
            Instruction::StoreBcd { x } => {
                return self.run_store_bcd(x);
            },
            Instruction::StoreRegs { x } => {
                return self.run_store_regs(x);
            },
            Instruction::LoadRegs { x } => {
                return self.run_load_regs(x);
            },
            Instruction::Nop => {},
        }
        Ok(StepStatus::Completed)
    }

    /// Carries out the instruction that the word `op` stands for, on a
    /// machine whose program counter already points past it. `random` is
    /// the byte that `Cxkk` uses.
    pub fn execute(&mut self, op: u16, random: u8) -> (res: Result<StepStatus, Chip8Error>)
        ensures
            (final(self)@, res) == execute(old(self)@, decode_spec(op), random),
    {
        let ins: Instruction = decode(op);
        self.run(ins, random)
    }

    /// One fetch-decode-execute cycle in which `Cxkk`, if it comes up,
    /// uses `random` for its random byte.
    pub fn tick_with(&mut self, random: u8) -> (res: Result<StepStatus, Chip8Error>)
        ensures
            (final(self)@, res) == step(old(self)@, random),
    {
        match self.fetch() {
            Ok(op) => {
                let pc: u16 = self.cpu.pc();
                self.cpu.set_pc(pc + 2);
                self.execute(op, random)
            },
            Err(e) => Err(e),
        }
    }

    /// One fetch-decode-execute cycle. `Cxkk` draws its byte from the
    /// thread's random number generator; whatever it draws, the step is
    /// `step` of the machine and some byte, and an instruction other than
    /// `Cxkk` gives the same step for every byte.
    pub fn tick(&mut self) -> (res: Result<StepStatus, Chip8Error>)
        ensures
            exists|random: u8| #[trigger] step(old(self)@, random) == (final(self)@, res),
            !draws_random(old(self)@) ==> forall|random: u8|
                #[trigger] step(old(self)@, random) == (final(self)@, res),
    {
        match self.fetch() {
            Ok(op) => {
                let ins: Instruction = decode(op);
                let random: u8 = match ins {
                    Instruction::Random { .. } => random_byte(),
                    _ => 0,
                };
                let pc: u16 = self.cpu.pc();
                self.cpu.set_pc(pc + 2);
                let res = self.run(ins, random);
                proof {
                    assert(step(old(self)@, random) == (self@, res));
                }
                res
            },
            Err(e) => {
                proof {
                    assert(step(old(self)@, 0) == (self@, Err::<StepStatus, Chip8Error>(e)));
                }
                Err(e)
            },
        }
    }
}

/// One byte from `rand`'s thread-local generator, by `rand::thread_rng`
/// and `rand::Rng::gen`. Nothing is claimed of the byte: any value may
/// come back, and two calls may differ. The generator seeds itself from
/// the operating system on first use and panics if that fails.
#[verifier::external_body]
fn random_byte() -> (byte: u8) {
    rand::thread_rng().gen()
}

} // verus!
