//! Laws of the machine: what holds of every state and every instruction.

use vstd::prelude::*;
use crate::cpu::CpuState;
use crate::display::{blank, cell, in_bounds, put};
use crate::error::Chip8Error;
use crate::machine::{
    boot_memory, done, drawn, execute, fail, first_key_down, key_down, step, MachineState,
    StepStatus, FONT,
};
use crate::opcode::{
    decode_spec, lemma_decode_wf, op_family, op_kk, op_n, op_nnn, op_x, op_y, Instruction,
};

verus! {

/// The word with family `family` and fields `x` and `kk`.
pub open spec fn word_xkk(family: int, x: int, kk: int) -> u16 {
    (family * 0x1000 + x * 0x100 + kk) as u16
}

/// The word with family `family` and fields `x`, `y` and `n`.
pub open spec fn word_xyn(family: int, x: int, y: int, n: int) -> u16 {
    (family * 0x1000 + x * 0x100 + y * 0x10 + n) as u16
}

/// The word with family `family` and address `addr`.
pub open spec fn word_addr(family: int, addr: int) -> u16 {
    (family * 0x1000 + addr) as u16
}

/// The fields of a word sit where the nibbles put them.
pub proof fn law_word_fields(family: int, x: int, y: int, n: int)
    requires
        0 <= family < 16,
        0 <= x < 16,
        0 <= y < 16,
        0 <= n < 16,
    ensures
        ({
            let op = word_xyn(family, x, y, n);
            &&& op == word_xkk(family, x, y * 0x10 + n)
            &&& op == word_addr(family, x * 0x100 + y * 0x10 + n)
            &&& op_family(op) == family
            &&& op_x(op) == x
            &&& op_y(op) == y
            &&& op_n(op) == n
            &&& op_kk(op) == y * 0x10 + n
            &&& op_nnn(op) == x * 0x100 + y * 0x10 + n
        }),
{
    let f = family as u16;
    let a = x as u16;
    let b = y as u16;
    let c = n as u16;
    assert({
        let w = f * 0x1000 + a * 0x100 + b * 0x10 + c;
        &&& w < 0x1_0000
        &&& w / 0x1000 == f
        &&& (w / 0x100) % 0x10 == a
        &&& (w / 0x10) % 0x10 == b
        &&& w % 0x10 == c
        &&& w % 0x100 == b * 0x10 + c
        &&& w % 0x1000 == a * 0x100 + b * 0x10 + c
    }) by (bit_vector)
        requires
            f < 16,
            a < 16,
            b < 16,
            c < 16,
    ;
}

/// The instruction table, flow of control: each pattern of nibbles
/// decodes to its instruction, with the fields in their places.
pub proof fn law_decode_control(x: u8, y: u8, kk: u8, addr: u16)
    requires
        x < 16,
        y < 16,
        addr < 0x1000,
    ensures
        decode_spec(0x00E0) == Instruction::ClearScreen,
        decode_spec(0x00EE) == Instruction::Return,
        decode_spec(word_addr(0x1, addr as int)) == (Instruction::Jump { addr }),
        decode_spec(word_addr(0x2, addr as int)) == (Instruction::Call { addr }),
        decode_spec(word_xkk(0x3, x as int, kk as int)) == (Instruction::SkipEqImm { x, kk }),
        decode_spec(word_xkk(0x4, x as int, kk as int)) == (Instruction::SkipNeImm { x, kk }),
        decode_spec(word_xyn(0x5, x as int, y as int, 0)) == (Instruction::SkipEqReg { x, y }),
        decode_spec(word_xyn(0x9, x as int, y as int, 0)) == (Instruction::SkipNeReg { x, y }),
        decode_spec(word_addr(0xB, addr as int)) == (Instruction::JumpOffset { addr }),
        decode_spec(word_xkk(0xE, x as int, 0x9E)) == (Instruction::SkipKeyDown { x }),
        decode_spec(word_xkk(0xE, x as int, 0xA1)) == (Instruction::SkipKeyUp { x }),
{
    let a = addr as int;
    let k = kk as int;
    law_word_fields(0x1, a / 0x100, a / 0x10 % 0x10, a % 0x10);
    law_word_fields(0x2, a / 0x100, a / 0x10 % 0x10, a % 0x10);
    law_word_fields(0xB, a / 0x100, a / 0x10 % 0x10, a % 0x10);
    law_word_fields(0x3, x as int, k / 0x10, k % 0x10);
    law_word_fields(0x4, x as int, k / 0x10, k % 0x10);
    law_word_fields(0x5, x as int, y as int, 0);
    law_word_fields(0x9, x as int, y as int, 0);
    law_word_fields(0xE, x as int, 0x9, 0xE);
    law_word_fields(0xE, x as int, 0xA, 0x1);
}

/// The instruction table, registers and arithmetic.
pub proof fn law_decode_arithmetic(x: u8, y: u8, kk: u8)
    requires
        x < 16,
        y < 16,
    ensures
        decode_spec(word_xkk(0x6, x as int, kk as int)) == (Instruction::LoadImm { x, kk }),
        decode_spec(word_xkk(0x7, x as int, kk as int)) == (Instruction::AddImm { x, kk }),
        decode_spec(word_xyn(0x8, x as int, y as int, 0x0)) == (Instruction::Move { x, y }),
        decode_spec(word_xyn(0x8, x as int, y as int, 0x1)) == (Instruction::Or { x, y }),
        decode_spec(word_xyn(0x8, x as int, y as int, 0x2)) == (Instruction::And { x, y }),
        decode_spec(word_xyn(0x8, x as int, y as int, 0x3)) == (Instruction::Xor { x, y }),
        decode_spec(word_xyn(0x8, x as int, y as int, 0x4)) == (Instruction::AddReg { x, y }),
        decode_spec(word_xyn(0x8, x as int, y as int, 0x5)) == (Instruction::SubReg { x, y }),
        decode_spec(word_xyn(0x8, x as int, y as int, 0x6)) == (Instruction::ShiftRight { x }),
        decode_spec(word_xyn(0x8, x as int, y as int, 0x7)) == (Instruction::SubFrom { x, y }),
        decode_spec(word_xyn(0x8, x as int, y as int, 0xE)) == (Instruction::ShiftLeft { x }),
        decode_spec(word_xkk(0xC, x as int, kk as int)) == (Instruction::Random { x, kk }),
{
    let k = kk as int;
    law_word_fields(0x6, x as int, k / 0x10, k % 0x10);
    law_word_fields(0x7, x as int, k / 0x10, k % 0x10);
    law_word_fields(0xC, x as int, k / 0x10, k % 0x10);
    law_word_fields(0x8, x as int, y as int, 0x0);
    law_word_fields(0x8, x as int, y as int, 0x1);
    law_word_fields(0x8, x as int, y as int, 0x2);
    law_word_fields(0x8, x as int, y as int, 0x3);
    law_word_fields(0x8, x as int, y as int, 0x4);
    law_word_fields(0x8, x as int, y as int, 0x5);
    law_word_fields(0x8, x as int, y as int, 0x6);
    law_word_fields(0x8, x as int, y as int, 0x7);
    law_word_fields(0x8, x as int, y as int, 0xE);
}

/// The instruction table, memory, display and timers.
pub proof fn law_decode_memory(x: u8, y: u8, n: u8, addr: u16)
    requires
        x < 16,
        y < 16,
        n < 16,
        addr < 0x1000,
    ensures
        decode_spec(word_addr(0xA, addr as int)) == (Instruction::LoadIndex { addr }),
        decode_spec(word_xyn(0xD, x as int, y as int, n as int)) == (Instruction::Draw { x, y, n }),
        decode_spec(word_xkk(0xF, x as int, 0x07)) == (Instruction::ReadDelay { x }),
        decode_spec(word_xkk(0xF, x as int, 0x0A)) == (Instruction::WaitKey { x }),
        decode_spec(word_xkk(0xF, x as int, 0x15)) == (Instruction::SetDelay { x }),
        decode_spec(word_xkk(0xF, x as int, 0x18)) == (Instruction::SetSound { x }),
        decode_spec(word_xkk(0xF, x as int, 0x1E)) == (Instruction::AddIndex { x }),
        decode_spec(word_xkk(0xF, x as int, 0x29)) == (Instruction::LoadGlyph { x }),
        decode_spec(word_xkk(0xF, x as int, 0x33)) == (Instruction::StoreBcd { x }),
        decode_spec(word_xkk(0xF, x as int, 0x55)) == (Instruction::StoreRegs { x }),
        decode_spec(word_xkk(0xF, x as int, 0x65)) == (Instruction::LoadRegs { x }),
{
    let a = addr as int;
    law_word_fields(0xA, a / 0x100, a / 0x10 % 0x10, a % 0x10);
    law_word_fields(0xD, x as int, y as int, n as int);
    law_word_fields(0xF, x as int, 0x0, 0x7);
    law_word_fields(0xF, x as int, 0x0, 0xA);
    law_word_fields(0xF, x as int, 0x1, 0x5);
    law_word_fields(0xF, x as int, 0x1, 0x8);
    law_word_fields(0xF, x as int, 0x1, 0xE);
    law_word_fields(0xF, x as int, 0x2, 0x9);
    law_word_fields(0xF, x as int, 0x3, 0x3);
    law_word_fields(0xF, x as int, 0x5, 0x5);
    law_word_fields(0xF, x as int, 0x6, 0x5);
}

/// A machine right after boot is well formed, holds the font at the
/// bottom of memory and the image, as far as it fits, from 0x200.
pub proof fn law_boot(data: Seq<u8>)
    ensures
        MachineState::boot(data).wf(),
        MachineState::boot(data).cpu.pc == 0x200,
        MachineState::boot(data).cpu.stack.len() == 0,
        forall|a: int| 0 <= a < 80 ==> boot_memory(data)[a] == FONT@[a],
        forall|k: int|
            0 <= k < data.len() && 0x200 + k < 4096 ==> boot_memory(data)[0x200 + k] == data[k],
{
}

/// Whatever the step does, a well-formed machine stays well formed: in
/// particular the stack never holds more than sixteen return addresses.
pub proof fn law_step_preserves_wf(s: MachineState, random: u8)
    requires
        s.wf(),
    ensures
        step(s, random).0.wf(),
{
    if s.can_fetch() {
        lemma_decode_wf(s.fetch());
        law_execute_preserves_wf(
            s.with_pc((s.cpu.pc + 2) as u16),
            decode_spec(s.fetch()),
            random,
        );
    }
}

/// Whatever the instruction does, a well-formed machine stays well formed.
pub proof fn law_execute_preserves_wf(s: MachineState, ins: Instruction, random: u8)
    requires
        s.wf(),
        ins.wf(),
    ensures
        execute(s, ins, random).0.wf(),
{
}

/// Only `Cxkk` looks at the random byte.
pub proof fn law_random_byte_only_for_random(s: MachineState, ins: Instruction, r1: u8, r2: u8)
    requires
        !(ins is Random),
    ensures
        execute(s, ins, r1) == execute(s, ins, r2),
{
}

/// What an instruction can touch. Memory changes only by `Fx33` and
/// `Fx55`, the display only by `00E0` and `Dxyn`, the delay timer only by
/// `Fx15` and the sound timer only by `Fx18`: a step never counts a timer
/// down. The keys are the host's and no instruction changes them.
pub proof fn law_instruction_footprint(s: MachineState, ins: Instruction, random: u8)
    ensures
        !(ins is StoreBcd || ins is StoreRegs) ==> execute(s, ins, random).0.memory == s.memory,
        !(ins is ClearScreen || ins is Draw) ==> execute(s, ins, random).0.display == s.display,
        !(ins is SetDelay) ==> execute(s, ins, random).0.cpu.dt == s.cpu.dt,
        !(ins is SetSound) ==> execute(s, ins, random).0.cpu.st == s.cpu.st,
        execute(s, ins, random).0.keys == s.keys,
{
}

/// A step that fails leaves everything but the program counter as it was,
/// and the program counter past the instruction, or where it was if the
/// instruction could not be fetched.
pub proof fn law_failed_step(s: MachineState, random: u8)
    requires
        s.wf(),
        step(s, random).1 is Err,
    ensures
        step(s, random).0 == if s.can_fetch() {
            s.with_pc((s.cpu.pc + 2) as u16)
        } else {
            s
        },
{
}

/// After `6xkk`, `V[x]` holds `kk`, and no other register has changed.
pub proof fn law_load_immediate(s: MachineState, x: u8, kk: u8, random: u8)
    requires
        s.wf(),
        x < 16,
        s.can_fetch(),
        s.fetch() == word_xkk(0x6, x as int, kk as int),
    ensures
        step(s, random).1 == Ok::<StepStatus, Chip8Error>(StepStatus::Completed),
        step(s, random).0.cpu.v[x as int] == kk,
        forall|k: int| 0 <= k < 16 && k != x ==> step(s, random).0.cpu.v[k] == s.cpu.v[k],
{
    law_decode_arithmetic(x, 0, kk);
}

/// `7xkk` adds modulo 256 and leaves every other register alone, the
/// flag register among them.
pub proof fn law_add_immediate_wraps(s: MachineState, x: u8, kk: u8, random: u8)
    requires
        s.wf(),
        x < 16,
        s.can_fetch(),
        s.fetch() == word_xkk(0x7, x as int, kk as int),
    ensures
        step(s, random).1 == Ok::<StepStatus, Chip8Error>(StepStatus::Completed),
        step(s, random).0.cpu.v[x as int] == (s.cpu.v[x as int] + kk) % 256,
        forall|k: int| 0 <= k < 16 && k != x ==> step(s, random).0.cpu.v[k] == s.cpu.v[k],
{
    law_decode_arithmetic(x, 0, kk);
}

/// `8xy4` adds modulo 256 and sets the flag register to the carry. With
/// `x` the flag register itself, the carry is what stays.
pub proof fn law_add_registers_carry(s: MachineState, x: u8, y: u8, random: u8)
    requires
        s.wf(),
        x < 16,
        y < 16,
        s.can_fetch(),
        s.fetch() == word_xyn(0x8, x as int, y as int, 0x4),
    ensures
        ({
            let sum = s.cpu.v[x as int] + s.cpu.v[y as int];
            let after = step(s, random).0;
            &&& x != 0xF ==> after.cpu.v[x as int] == sum % 256
            &&& after.cpu.v[0xF] == if sum > 255 {
                1u8
            } else {
                0u8
            }
            &&& forall|k: int| 0 <= k < 0xF && k != x ==> after.cpu.v[k] == s.cpu.v[k]
        }),
{
    law_decode_arithmetic(x, y, 0);
}

/// `8xy5` subtracts modulo 256 and sets the flag register to 1 exactly
/// if nothing was borrowed. With `x` the flag register itself, the flag
/// is what stays.
pub proof fn law_subtract_registers_borrow(s: MachineState, x: u8, y: u8, random: u8)
    requires
        s.wf(),
        x < 16,
        y < 16,
        s.can_fetch(),
        s.fetch() == word_xyn(0x8, x as int, y as int, 0x5),
    ensures
        ({
            let a = s.cpu.v[x as int];
            let b = s.cpu.v[y as int];
            let after = step(s, random).0;
            &&& x != 0xF ==> after.cpu.v[x as int] == (a - b) % 256
            &&& after.cpu.v[0xF] == if a >= b {
                1u8
            } else {
                0u8
            }
            &&& forall|k: int| 0 <= k < 0xF && k != x ==> after.cpu.v[k] == s.cpu.v[k]
        }),
{
    law_decode_arithmetic(x, y, 0);
}

/// What was pushed last is popped first, and the register file is then
/// as it was before the push. A full stack refuses the push and an empty
/// one the pop, each leaving the register file as it was.
pub proof fn law_stack_round_trip(cpu: CpuState, addr: u16)
    requires
        cpu.wf(),
    ensures
        cpu.stack.len() < 16 ==> cpu.push(addr).1 is Ok && cpu.push(addr).0.pop() == (
            cpu,
            Ok::<u16, Chip8Error>(addr),
        ),
        cpu.stack.len() == 16 ==> cpu.push(addr) == (
            cpu,
            Err::<(), Chip8Error>(Chip8Error::StackOverflow),
        ),
        cpu.stack.len() == 0 ==> cpu.pop() == (
            cpu,
            Err::<u16, Chip8Error>(Chip8Error::StackUnderflow),
        ),
        cpu.push(addr).0.wf(),
        cpu.pop().0.wf(),
{
    if cpu.stack.len() < 16 {
        assert(cpu.stack.push(addr).drop_last() =~= cpu.stack);
    }
}

/// After `00E0` every one of the 2048 cells is off.
pub proof fn law_clear_screen(s: MachineState, random: u8)
    requires
        s.wf(),
        s.can_fetch(),
        s.fetch() == 0x00E0,
    ensures
        step(s, random).1 == Ok::<StepStatus, Chip8Error>(StepStatus::Completed),
        step(s, random).0.display == blank(),
        step(s, random).0.display.len() == 2048,
        forall|idx: int| 0 <= idx < 2048 ==> !step(s, random).0.display[idx],
{
}

/// Drawing the same sprite twice at the same place gives back the
/// display as it was.
pub proof fn law_draw_twice_restores(
    display: Seq<bool>,
    memory: Seq<u8>,
    i: int,
    vx: int,
    vy: int,
    count: int,
)
    ensures
        drawn(drawn(display, memory, i, vx, vy, count), memory, i, vx, vy, count) == display,
{
    assert(drawn(drawn(display, memory, i, vx, vy, count), memory, i, vx, vy, count)
        =~= display);
}

/// `Fx33` writes three decimal digits that spell `V[x]`, hundreds first,
/// and no other byte of memory changes.
pub proof fn law_bcd_digits(s: MachineState, x: u8, random: u8)
    requires
        s.wf(),
        x < 16,
        s.can_fetch(),
        s.fetch() == word_xkk(0xF, x as int, 0x33),
        s.cpu.i + 2 <= 4095,
    ensures
        ({
            let after = step(s, random).0;
            let i = s.cpu.i as int;
            &&& step(s, random).1 == Ok::<StepStatus, Chip8Error>(StepStatus::Completed)
            &&& after.memory[i] < 10 && after.memory[i + 1] < 10 && after.memory[i + 2] < 10
            &&& after.memory[i] * 100 + after.memory[i + 1] * 10 + after.memory[i + 2]
                == s.cpu.v[x as int]
            &&& forall|a: int|
                0 <= a < 4096 && !(i <= a <= i + 2) ==> after.memory[a] == s.memory[a]
        }),
{
    law_decode_memory(x, 0, 0, 0);
}

/// A cell reads back what was last written to it, a cell outside the grid
/// reads as off, and a write leaves every other cell as it was.
pub proof fn law_display_write_read(
    grid: Seq<bool>,
    x: int,
    y: int,
    value: bool,
    other_x: int,
    other_y: int,
)
    requires
        grid.len() == 2048,
    ensures
        put(grid, x, y, value).len() == 2048,
        cell(put(grid, x, y, value), x, y) == (in_bounds(x, y) && value),
        (other_x != x || other_y != y) ==> cell(put(grid, x, y, value), other_x, other_y) == cell(
            grid,
            other_x,
            other_y,
        ),
        !in_bounds(x, y) ==> put(grid, x, y, value) == grid,
{
}

/// Whether `ins` is a skip whose condition holds in `s`.
pub open spec fn skip_taken(s: MachineState, ins: Instruction) -> bool {
    let v = s.cpu.v;
    match ins {
        Instruction::SkipEqImm { x, kk } => v[x as int] == kk,
        Instruction::SkipNeImm { x, kk } => v[x as int] != kk,
        Instruction::SkipEqReg { x, y } => v[x as int] == v[y as int],
        Instruction::SkipNeReg { x, y } => v[x as int] != v[y as int],
        Instruction::SkipKeyDown { x } => key_down(s.keys, v[x as int] as int),
        Instruction::SkipKeyUp { x } => !key_down(s.keys, v[x as int] as int),
        _ => false,
    }
}

/// Whether `ins` loads the program counter with a target in `s`: a jump,
/// a call that the stack has room for, or a return that the stack has an
/// address for.
pub open spec fn transfers_control(s: MachineState, ins: Instruction) -> bool {
    match ins {
        Instruction::Jump { .. } | Instruction::JumpOffset { .. } => true,
        Instruction::Call { .. } => s.cpu.stack.len() < 16,
        Instruction::Return => s.cpu.stack.len() > 0,
        _ => false,
    }
}

/// Whether `ins` waits for a key that is not there in `s`.
pub open spec fn waits_for_key(s: MachineState, ins: Instruction) -> bool {
    ins is WaitKey && first_key_down(s.keys, 0) >= 16
}

/// A step moves the program counter forward by exactly 2, unless the
/// instruction loads it with a target, skips, or waits for a key.
pub proof fn law_program_counter_advances(s: MachineState, random: u8)
    requires
        s.wf(),
        s.can_fetch(),
        !transfers_control(s, decode_spec(s.fetch())),
        !skip_taken(s, decode_spec(s.fetch())),
        !waits_for_key(s, decode_spec(s.fetch())),
    ensures
        step(s, random).0.cpu.pc == s.cpu.pc + 2,
{
}

/// A jump, call or return loads the program counter with exactly its
/// target, with nothing added.
pub proof fn law_program_counter_targets(s: MachineState, random: u8)
    requires
        s.wf(),
        s.can_fetch(),
        transfers_control(s, decode_spec(s.fetch())),
        decode_spec(s.fetch()).wf(),
    ensures
        match decode_spec(s.fetch()) {
            Instruction::Jump { addr } => step(s, random).0.cpu.pc == addr,
            Instruction::Call { addr } => {
                &&& step(s, random).0.cpu.pc == addr
                &&& step(s, random).0.cpu.stack == s.cpu.stack.push((s.cpu.pc + 2) as u16)
            },
            Instruction::Return => {
                &&& step(s, random).0.cpu.pc == s.cpu.stack.last()
                &&& step(s, random).0.cpu.stack == s.cpu.stack.drop_last()
            },
            Instruction::JumpOffset { addr } => step(s, random).0.cpu.pc == addr + s.cpu.v[0],
            _ => true,
        },
{
}

/// A skip whose condition holds moves the program counter forward by 4.
pub proof fn law_program_counter_skips(s: MachineState, random: u8)
    requires
        s.wf(),
        s.can_fetch(),
        skip_taken(s, decode_spec(s.fetch())),
    ensures
        step(s, random) == done(s.with_pc((s.cpu.pc + 4) as u16)),
{
}

/// While `Fx0A` waits, a step changes nothing at all and says which
/// register the key is for; with a key down, the lowest such key goes to
/// that register and the program counter moves on.
pub proof fn law_wait_key(s: MachineState, x: u8, random: u8)
    requires
        s.wf(),
        x < 16,
        s.can_fetch(),
        s.fetch() == word_xkk(0xF, x as int, 0x0A),
    ensures
        ({
            let key = first_key_down(s.keys, 0);
            &&& 0 <= key <= 16
            &&& key < 16 ==> key_down(s.keys, key)
            &&& forall|k: int| 0 <= k < key ==> !key_down(s.keys, k)
            &&& key == 16 ==> step(s, random) == (
                s,
                Ok::<StepStatus, Chip8Error>(StepStatus::AwaitingKey { register: x }),
            )
            &&& key < 16 ==> step(s, random) == done(
                s.with_pc((s.cpu.pc + 2) as u16).with_v(x as int, key as u8),
            )
        }),
{
    law_decode_memory(x, 0, 0, 0);
    lemma_first_key_down(s.keys, 0);
    if first_key_down(s.keys, 0) == 16 {
        let advanced = s.with_pc((s.cpu.pc + 2) as u16);
        assert(advanced.with_pc(s.cpu.pc) == s);
    }
}

/// `first_key_down` finds a key that is down, with none down between
/// `from` and it, or 16.
pub proof fn lemma_first_key_down(keys: Seq<bool>, from: int)
    requires
        0 <= from <= 16,
    ensures
        from <= first_key_down(keys, from) <= 16,
        first_key_down(keys, from) < 16 ==> key_down(keys, first_key_down(keys, from)),
        forall|k: int| from <= k < first_key_down(keys, from) ==> !key_down(keys, k),
    decreases 16 - from,
{
    if from < 16 && !key_down(keys, from) {
        lemma_first_key_down(keys, from + 1);
    }
}

/// A program counter outside memory fails the step and changes nothing.
pub proof fn law_fetch_fault(s: MachineState, random: u8)
    requires
        !s.can_fetch(),
    ensures
        step(s, random) == fail(s, Chip8Error::OutOfBoundsFetch),
{
}

/// Registers stored with `Fx55` and loaded with `Fx65` into any other
/// register file with the same `I` come back as they were.
pub proof fn law_store_load_round_trip(s: MachineState, other: CpuState, x: u8, random: u8)
    requires
        s.wf(),
        other.wf(),
        other.i == s.cpu.i,
        x < 16,
        s.cpu.i + x <= 4095,
    ensures
        ({
            let saved = execute(s, Instruction::StoreRegs { x }, random);
            let restored = execute(saved.0.with_cpu(other), Instruction::LoadRegs { x }, random);
            &&& saved.1 == Ok::<StepStatus, Chip8Error>(StepStatus::Completed)
            &&& restored.1 == Ok::<StepStatus, Chip8Error>(StepStatus::Completed)
            &&& forall|k: int| 0 <= k <= x ==> restored.0.cpu.v[k] == s.cpu.v[k]
            &&& forall|k: int| x < k < 16 ==> restored.0.cpu.v[k] == other.v[k]
        }),
{
}

} // verus!
