use chip8_rs::cpu::Cpu;
use chip8_rs::error::Chip8Error;

#[test]
fn cpu_starts_zeroed_at_the_entry_point() {
    let cpu = Cpu::new();
    for x in 0..16u8 {
        assert_eq!(cpu.v(x), 0);
    }
    assert_eq!(cpu.pc(), 0x200);
    assert_eq!(cpu.i(), 0);
    assert_eq!(cpu.sp(), 0);
    assert_eq!(cpu.dt(), 0);
    assert_eq!(cpu.st(), 0);
}

#[test]
fn stack_push_then_pop_round_trips() {
    let mut cpu = Cpu::new();
    assert_eq!(cpu.stack_push(0x1234), Ok(()));
    assert_eq!(cpu.sp(), 1);
    assert_eq!(cpu.stack_pop(), Ok(0x1234));
    assert_eq!(cpu.sp(), 0);
}

#[test]
fn stack_is_last_in_first_out() {
    let mut cpu = Cpu::new();
    for k in 0..16u16 {
        assert_eq!(cpu.stack_push(0x300 + k), Ok(()));
    }
    assert_eq!(cpu.sp(), 16);
    for k in (0..16u16).rev() {
        assert_eq!(cpu.stack_pop(), Ok(0x300 + k));
    }
    assert_eq!(cpu.sp(), 0);
}

#[test]
fn seventeenth_push_overflows() {
    let mut cpu = Cpu::new();
    for k in 0..16u16 {
        assert_eq!(cpu.stack_push(k), Ok(()));
    }
    assert_eq!(cpu.stack_push(0xBEEF), Err(Chip8Error::StackOverflow));
    // Nothing changed: depth and top of stack are as before.
    assert_eq!(cpu.sp(), 16);
    assert_eq!(cpu.stack_pop(), Ok(15));
}

#[test]
fn pop_from_empty_underflows() {
    let mut cpu = Cpu::new();
    assert_eq!(cpu.stack_pop(), Err(Chip8Error::StackUnderflow));
    assert_eq!(cpu.sp(), 0);
    assert_eq!(cpu.stack_push(7), Ok(()));
    assert_eq!(cpu.stack_pop(), Ok(7));
    assert_eq!(cpu.stack_pop(), Err(Chip8Error::StackUnderflow));
}

#[test]
fn stack_operations_leave_registers_alone() {
    let mut cpu = Cpu::new();
    cpu.set_v(3, 0x33);
    cpu.set_i(0x123);
    cpu.set_pc(0x456);
    cpu.set_dt(9);
    cpu.set_st(8);
    assert_eq!(cpu.stack_push(0x0ABC), Ok(()));
    assert_eq!(cpu.stack_pop(), Ok(0x0ABC));
    assert_eq!(cpu.v(3), 0x33);
    assert_eq!(cpu.i(), 0x123);
    assert_eq!(cpu.pc(), 0x456);
    assert_eq!(cpu.dt(), 9);
    assert_eq!(cpu.st(), 8);
}

#[test]
fn setters_write_one_register_each() {
    let mut cpu = Cpu::new();
    cpu.set_v(0xA, 0x5A);
    for x in 0..16u8 {
        assert_eq!(cpu.v(x), if x == 0xA { 0x5A } else { 0 });
    }
    cpu.set_i(0xFFFF);
    assert_eq!(cpu.i(), 0xFFFF);
    cpu.set_pc(0x0FFE);
    assert_eq!(cpu.pc(), 0x0FFE);
    cpu.set_dt(200);
    assert_eq!(cpu.dt(), 200);
    assert_eq!(cpu.st(), 0);
    cpu.set_st(100);
    assert_eq!(cpu.st(), 100);
    assert_eq!(cpu.dt(), 200);
}

#[test]
fn timers_count_down_and_stop_at_zero() {
    let mut cpu = Cpu::new();
    cpu.set_dt(2);
    cpu.set_st(1);
    cpu.tick_timers();
    assert_eq!((cpu.dt(), cpu.st()), (1, 0));
    cpu.tick_timers();
    assert_eq!((cpu.dt(), cpu.st()), (0, 0));
    cpu.tick_timers();
    assert_eq!((cpu.dt(), cpu.st()), (0, 0));
}

#[test]
fn cpu_copy_is_independent() {
    let mut cpu = Cpu::new();
    let copy = cpu;
    cpu.set_v(0, 1);
    assert_eq!(cpu.stack_push(0x200), Ok(()));
    assert_eq!(copy.v(0), 0);
    assert_eq!(copy.sp(), 0);
}
