//! The register file: general registers, index register, program counter,
//! timers and the bounded call stack.

use vstd::prelude::*;
use crate::error::Chip8Error;

verus! {

/// Greatest number of return addresses the stack holds.
pub const STACK_DEPTH: u8 = 16;

/// Address at which a fresh program counter starts.
pub const ENTRY_POINT: u16 = 0x200;

/// The register file as mathematical data. The stack pointer is the length
/// of `stack`, whose last element is the most recent return address.
pub struct CpuState {
    pub v: Seq<u8>,
    pub i: u16,
    pub pc: u16,
    pub dt: u8,
    pub st: u8,
    pub stack: Seq<u16>,
}

impl CpuState {
    /// Sixteen registers and at most sixteen return addresses.
    pub open spec fn wf(self) -> bool {
        self.v.len() == 16 && self.stack.len() <= 16
    }

    /// The state after power-on.
    pub open spec fn fresh() -> CpuState {
        CpuState {
            v: Seq::new(16, |k: int| 0u8),
            i: 0,
            pc: 0x200,
            dt: 0,
            st: 0,
            stack: Seq::empty(),
        }
    }

    /// The state with register `x` holding `value`.
    pub open spec fn set_v(self, x: int, value: u8) -> CpuState {
        CpuState { v: self.v.update(x, value), ..self }
    }

    /// The state with the index register holding `i`.
    pub open spec fn set_i(self, i: u16) -> CpuState {
        CpuState { i, ..self }
    }

    /// The state with the program counter at `pc`.
    pub open spec fn set_pc(self, pc: u16) -> CpuState {
        CpuState { pc, ..self }
    }

    /// The state with the delay timer holding `dt`.
    pub open spec fn set_dt(self, dt: u8) -> CpuState {
        CpuState { dt, ..self }
    }

    /// The state with the sound timer holding `st`.
    pub open spec fn set_st(self, st: u8) -> CpuState {
        CpuState { st, ..self }
    }

    /// One timer tick: each timer that is not zero goes down by one.
    pub open spec fn tick_timers(self) -> CpuState {
        CpuState {
            dt: if self.dt > 0 { (self.dt - 1) as u8 } else { 0 },
            st: if self.st > 0 { (self.st - 1) as u8 } else { 0 },
            ..self
        }
    }

    /// Pushing `addr`: refused, with nothing changed, on a full stack.
    pub open spec fn push(self, addr: u16) -> (CpuState, Result<(), Chip8Error>) {
        if self.stack.len() >= 16 {
            (self, Err(Chip8Error::StackOverflow))
        } else {
            (CpuState { stack: self.stack.push(addr), ..self }, Ok(()))
        }
    }

    /// Popping: refused, with nothing changed, on an empty stack.
    pub open spec fn pop(self) -> (CpuState, Result<u16, Chip8Error>) {
        if self.stack.len() == 0 {
            (self, Err(Chip8Error::StackUnderflow))
        } else {
            (CpuState { stack: self.stack.drop_last(), ..self }, Ok(self.stack.last()))
        }
    }
}

/// The register file. The stack pointer counts the return addresses held
/// in the stack, of which there are never more than sixteen.
#[derive(Clone, Copy)]
pub struct Cpu {
    v: [u8; 16],
    sp: u8,
    dt: u8,
    st: u8,
    pc: u16,
    i: u16,
    stack: [u16; 16],
}

impl View for Cpu {
    type V = CpuState;

    closed spec fn view(&self) -> CpuState {
        CpuState {
            v: self.v@,
            i: self.i,
            pc: self.pc,
            dt: self.dt,
            st: self.st,
            stack: self.stack@.take(if self.sp <= 16 { self.sp as int } else { 16 }),
        }
    }
}

impl Cpu {
    /// The stack pointer never passes the stack's capacity.
    #[verifier::type_invariant]
    spec fn inv(self) -> bool {
        self.sp <= 16
    }

    /// Every register file has a well-formed view.
    pub proof fn lemma_wf(&self)
        ensures
            self@.wf(),
    {
    }

    /// A register file after power-on: all zero, program counter at 0x200.
    pub fn new() -> (cpu: Cpu)
        ensures
            cpu@ == CpuState::fresh(),
    {
        let cpu = Cpu { v: [0; 16], sp: 0, dt: 0, st: 0, pc: ENTRY_POINT, i: 0, stack: [0; 16] };
        proof {
            assert(cpu@.v =~= CpuState::fresh().v);
            assert(cpu@.stack =~= CpuState::fresh().stack);
        }
        cpu
    }

    /// Stores `stack_val` on top of the stack.
    pub fn stack_push(&mut self, stack_val: u16) -> (res: Result<(), Chip8Error>)
        ensures
            (final(self)@, res) == old(self)@.push(stack_val),
    {
        proof {
            use_type_invariant(&*self);
        }
        if self.sp >= STACK_DEPTH {
            return Err(Chip8Error::StackOverflow);
        }
        self.stack[self.sp as usize] = stack_val;
        self.sp += 1;
        proof {
            assert(self@.stack =~= old(self)@.stack.push(stack_val));
        }
        Ok(())
    }

    /// Removes and returns the top of the stack.
    pub fn stack_pop(&mut self) -> (res: Result<u16, Chip8Error>)
        ensures
            (final(self)@, res) == old(self)@.pop(),
    {
        proof {
            use_type_invariant(&*self);
        }
        if self.sp == 0 {
            return Err(Chip8Error::StackUnderflow);
        }
        self.sp -= 1;
        proof {
            assert(self@.stack =~= old(self)@.stack.drop_last());
        }
        Ok(self.stack[self.sp as usize])
    }

    /// Register `V[x]`.
    pub fn v(&self, x: u8) -> (value: u8)
        requires
            x < 16,
        ensures
            value == self@.v[x as int],
    {
        self.v[x as usize]
    }

    /// Sets register `V[x]`.
    pub fn set_v(&mut self, x: u8, value: u8)
        requires
            x < 16,
        ensures
            final(self)@ == old(self)@.set_v(x as int, value),
    {
        proof {
            use_type_invariant(&*self);
        }
        self.v[x as usize] = value;
    }

    /// The index register `I`.
    pub fn i(&self) -> (i: u16)
        ensures
            i == self@.i,
    {
        self.i
    }

    /// Sets the index register `I`.
    pub fn set_i(&mut self, i: u16)
        ensures
            final(self)@ == old(self)@.set_i(i),
    {
        proof {
            use_type_invariant(&*self);
        }
        self.i = i;
    }

    /// The program counter.
    pub fn pc(&self) -> (pc: u16)
        ensures
            pc == self@.pc,
    {
        self.pc
    }

    /// Sets the program counter.
    pub fn set_pc(&mut self, pc: u16)
        ensures
            final(self)@ == old(self)@.set_pc(pc),
    {
        proof {
            use_type_invariant(&*self);
        }
        self.pc = pc;
    }

    /// The stack pointer: how many return addresses are on the stack.
    pub fn sp(&self) -> (sp: u8)
        ensures
            sp == self@.stack.len(),
            sp <= 16,
    {
        proof {
            use_type_invariant(self);
        }
        self.sp
    }

    /// The delay timer.
    pub fn dt(&self) -> (dt: u8)
        ensures
            dt == self@.dt,
    {
        self.dt
    }

    /// Sets the delay timer.
    pub fn set_dt(&mut self, dt: u8)
        ensures
            final(self)@ == old(self)@.set_dt(dt),
    {
        proof {
            use_type_invariant(&*self);
        }
        self.dt = dt;
    }

    /// The sound timer.
    pub fn st(&self) -> (st: u8)
        ensures
            st == self@.st,
    {
        self.st
    }

    /// Sets the sound timer.
    pub fn set_st(&mut self, st: u8)
        ensures
            final(self)@ == old(self)@.set_st(st),
    {
        proof {
            use_type_invariant(&*self);
        }
        self.st = st;
    }

    /// Counts both timers down by one, stopping at zero.
    pub fn tick_timers(&mut self)
        ensures
            final(self)@ == old(self)@.tick_timers(),
    {
        proof {
            use_type_invariant(&*self);
        }
        if self.dt > 0 {
            self.dt -= 1;
        }
        if self.st > 0 {
            self.st -= 1;
        }
    }
}

} // verus!
