use chip8_rs::computer::Computer;
use chip8_rs::error::Chip8Error;
use chip8_rs::machine::StepStatus;

fn assemble(words: &[u16]) -> Vec<u8> {
    let mut bytes = Vec::new();
    for w in words {
        bytes.push((w >> 8) as u8);
        bytes.push((w & 0xFF) as u8);
    }
    bytes
}

/// Boots `words` and steps once per word, expecting each step to complete.
fn run(words: &[u16]) -> Computer {
    let mut c = Computer::new(assemble(words));
    for k in 0..words.len() {
        assert_eq!(c.tick_with(0), Ok(StepStatus::Completed), "step {}", k);
    }
    c
}

#[test]
fn load_immediate_sets_the_register() {
    for x in 0..16u16 {
        for kk in [0x00u16, 0x01, 0x7F, 0x80, 0xAB, 0xFF] {
            let c = run(&[0x6000 | (x << 8) | kk]);
            for r in 0..16u8 {
                let expected = if r as u16 == x { kk as u8 } else { 0 };
                assert_eq!(c.cpu().v(r), expected);
            }
            assert_eq!(c.cpu().pc(), 0x202);
        }
    }
}

#[test]
fn add_immediate_wraps_without_touching_the_flag() {
    // V3 = 0xFF; V3 += 0x02
    let c = run(&[0x63FF, 0x7302]);
    assert_eq!(c.cpu().v(3), 0x01);
    assert_eq!(c.cpu().v(0xF), 0);
    // The same with the flag set beforehand: it stays set.
    let c = run(&[0x6F01, 0x63FF, 0x7302]);
    assert_eq!(c.cpu().v(3), 0x01);
    assert_eq!(c.cpu().v(0xF), 1);
    // Without overflow.
    let c = run(&[0x6310, 0x7320]);
    assert_eq!(c.cpu().v(3), 0x30);
}

#[test]
fn add_registers_sets_carry() {
    let c = run(&[0x61F0, 0x6220, 0x8124]);
    assert_eq!(c.cpu().v(1), 0x10);
    assert_eq!(c.cpu().v(2), 0x20);
    assert_eq!(c.cpu().v(0xF), 1);
    let c = run(&[0x6110, 0x6220, 0x8124]);
    assert_eq!(c.cpu().v(1), 0x30);
    assert_eq!(c.cpu().v(0xF), 0);
    // 0xFF + 0x01 = 0x100: result 0, carry 1. 0xFF + 0x00: no carry.
    let c = run(&[0x61FF, 0x6201, 0x8124]);
    assert_eq!((c.cpu().v(1), c.cpu().v(0xF)), (0x00, 1));
    let c = run(&[0x61FF, 0x6200, 0x8124]);
    assert_eq!((c.cpu().v(1), c.cpu().v(0xF)), (0xFF, 0));
}

#[test]
fn add_registers_clears_a_stale_flag() {
    let c = run(&[0x6F01, 0x6110, 0x6220, 0x8124]);
    assert_eq!(c.cpu().v(0xF), 0);
}

#[test]
fn add_into_the_flag_register_keeps_the_carry() {
    // VF = 0xF0, V2 = 0x20: the sum would be 0x10, the carry 1 is written last.
    let c = run(&[0x6FF0, 0x6220, 0x8F24]);
    assert_eq!(c.cpu().v(0xF), 1);
    // VF = 0x10, V2 = 0x20: no carry.
    let c = run(&[0x6F10, 0x6220, 0x8F24]);
    assert_eq!(c.cpu().v(0xF), 0);
}

#[test]
fn subtract_registers_sets_no_borrow() {
    let c = run(&[0x6110, 0x6205, 0x8125]);
    assert_eq!(c.cpu().v(1), 0x0B);
    assert_eq!(c.cpu().v(0xF), 1);
    let c = run(&[0x6105, 0x6210, 0x8125]);
    assert_eq!(c.cpu().v(1), 0xF5);
    assert_eq!(c.cpu().v(0xF), 0);
    // Equal operands: result 0 and no borrow.
    let c = run(&[0x6142, 0x6242, 0x8125]);
    assert_eq!((c.cpu().v(1), c.cpu().v(0xF)), (0, 1));
}

#[test]
fn subtract_from_sets_no_borrow() {
    // V1 = V2 - V1
    let c = run(&[0x6105, 0x6210, 0x8127]);
    assert_eq!(c.cpu().v(1), 0x0B);
    assert_eq!(c.cpu().v(2), 0x10);
    assert_eq!(c.cpu().v(0xF), 1);
    let c = run(&[0x6110, 0x6205, 0x8127]);
    assert_eq!(c.cpu().v(1), 0xF5);
    assert_eq!(c.cpu().v(0xF), 0);
}

#[test]
fn move_and_logic_operations() {
    let c = run(&[0x61CC, 0x62AA, 0x8320]);
    assert_eq!(c.cpu().v(3), 0xAA);
    let c = run(&[0x61CC, 0x62AA, 0x8121]);
    assert_eq!(c.cpu().v(1), 0xEE);
    let c = run(&[0x61CC, 0x62AA, 0x8122]);
    assert_eq!(c.cpu().v(1), 0x88);
    let c = run(&[0x61CC, 0x62AA, 0x8123]);
    assert_eq!(c.cpu().v(1), 0x66);
    assert_eq!(c.cpu().v(2), 0xAA);
    assert_eq!(c.cpu().v(0xF), 0);
}

#[test]
fn shift_right_moves_the_low_bit_to_the_flag() {
    let c = run(&[0x6105, 0x8106]);
    assert_eq!((c.cpu().v(1), c.cpu().v(0xF)), (0x02, 1));
    let c = run(&[0x6104, 0x8106]);
    assert_eq!((c.cpu().v(1), c.cpu().v(0xF)), (0x02, 0));
    let c = run(&[0x61FF, 0x8106]);
    assert_eq!((c.cpu().v(1), c.cpu().v(0xF)), (0x7F, 1));
}

#[test]
fn shift_left_moves_the_high_bit_to_the_flag() {
    let c = run(&[0x6181, 0x810E]);
    assert_eq!((c.cpu().v(1), c.cpu().v(0xF)), (0x02, 1));
    let c = run(&[0x6141, 0x810E]);
    assert_eq!((c.cpu().v(1), c.cpu().v(0xF)), (0x82, 0));
    let c = run(&[0x61FF, 0x810E]);
    assert_eq!((c.cpu().v(1), c.cpu().v(0xF)), (0xFE, 1));
}

#[test]
fn shifts_ignore_the_second_register() {
    let c = run(&[0x6105, 0x62F0, 0x8126]);
    assert_eq!((c.cpu().v(1), c.cpu().v(2), c.cpu().v(0xF)), (0x02, 0xF0, 1));
    let c = run(&[0x6105, 0x62F0, 0x812E]);
    assert_eq!((c.cpu().v(1), c.cpu().v(2), c.cpu().v(0xF)), (0x0A, 0xF0, 0));
}

#[test]
fn jump_loads_the_counter_exactly() {
    let c = run(&[0x1ABC]);
    assert_eq!(c.cpu().pc(), 0xABC);
    assert_eq!(c.cpu().sp(), 0);
}

#[test]
fn jump_with_offset_adds_v0() {
    let c = run(&[0x6010, 0xB300]);
    assert_eq!(c.cpu().pc(), 0x310);
    // The target may lie past the end of memory; the next fetch then fails.
    let mut c = run(&[0x60FF, 0xBFFF]);
    assert_eq!(c.cpu().pc(), 0x10FE);
    assert_eq!(c.tick_with(0), Err(Chip8Error::OutOfBoundsFetch));
}

#[test]
fn call_pushes_the_next_address_and_return_pops_it() {
    // 0x200: call 0x206 ; 0x202: V1 = 1 ; 0x204: nop ; 0x206: V2 = 2 ; 0x208: return
    let mut c = Computer::new(assemble(&[0x2206, 0x6101, 0x0000, 0x6202, 0x00EE]));
    assert_eq!(c.tick_with(0), Ok(StepStatus::Completed));
    assert_eq!(c.cpu().pc(), 0x206);
    assert_eq!(c.cpu().sp(), 1);
    assert_eq!(c.tick_with(0), Ok(StepStatus::Completed));
    assert_eq!(c.cpu().v(2), 2);
    assert_eq!(c.tick_with(0), Ok(StepStatus::Completed));
    assert_eq!(c.cpu().pc(), 0x202);
    assert_eq!(c.cpu().sp(), 0);
    assert_eq!(c.tick_with(0), Ok(StepStatus::Completed));
    assert_eq!(c.cpu().v(1), 1);
}

#[test]
fn return_on_an_empty_stack_reports_underflow_and_goes_on() {
    let mut c = Computer::new(assemble(&[0x00EE, 0x6A55]));
    assert_eq!(c.tick_with(0), Err(Chip8Error::StackUnderflow));
    assert_eq!(c.cpu().pc(), 0x202);
    assert_eq!(c.cpu().sp(), 0);
    assert_eq!(c.tick_with(0), Ok(StepStatus::Completed));
    assert_eq!(c.cpu().v(0xA), 0x55);
}

#[test]
fn seventeenth_nested_call_reports_overflow_and_goes_on() {
    // The word at 0x200 calls 0x200: each step nests one deeper.
    let mut c = Computer::new(assemble(&[0x2200, 0x6A55]));
    for depth in 1..=16u8 {
        assert_eq!(c.tick_with(0), Ok(StepStatus::Completed));
        assert_eq!(c.cpu().sp(), depth);
        assert_eq!(c.cpu().pc(), 0x200);
    }
    assert_eq!(c.tick_with(0), Err(Chip8Error::StackOverflow));
    assert_eq!(c.cpu().sp(), 16);
    assert_eq!(c.cpu().pc(), 0x202);
    assert_eq!(c.tick_with(0), Ok(StepStatus::Completed));
    assert_eq!(c.cpu().v(0xA), 0x55);
}

#[test]
fn skip_if_equal_to_byte() {
    let c = run(&[0x6142, 0x3142]);
    assert_eq!(c.cpu().pc(), 0x206);
    let c = run(&[0x6142, 0x3143]);
    assert_eq!(c.cpu().pc(), 0x204);
}

#[test]
fn skip_if_not_equal_to_byte() {
    let c = run(&[0x6142, 0x4142]);
    assert_eq!(c.cpu().pc(), 0x204);
    let c = run(&[0x6142, 0x4143]);
    assert_eq!(c.cpu().pc(), 0x206);
}

#[test]
fn skip_if_registers_equal() {
    let c = run(&[0x6142, 0x6242, 0x5120]);
    assert_eq!(c.cpu().pc(), 0x208);
    let c = run(&[0x6142, 0x6243, 0x5120]);
    assert_eq!(c.cpu().pc(), 0x206);
}

#[test]
fn skip_if_registers_differ() {
    let c = run(&[0x6142, 0x6242, 0x9120]);
    assert_eq!(c.cpu().pc(), 0x206);
    let c = run(&[0x6142, 0x6243, 0x9120]);
    assert_eq!(c.cpu().pc(), 0x208);
}

#[test]
fn skip_patterns_with_a_low_nibble_are_no_ops() {
    let c = run(&[0x6142, 0x6242, 0x5121]);
    assert_eq!(c.cpu().pc(), 0x206);
    let c = run(&[0x6142, 0x6243, 0x9121]);
    assert_eq!(c.cpu().pc(), 0x206);
}

#[test]
fn unrecognized_words_only_advance_the_counter() {
    let mut c = Computer::new(assemble(&[0x0123, 0x8128, 0xE100, 0xF1FF]));
    let mem = c.dump();
    for k in 0..4u16 {
        assert_eq!(c.tick(), Ok(StepStatus::Completed));
        assert_eq!(c.cpu().pc(), 0x202 + 2 * k);
    }
    assert_eq!(c.dump(), mem);
    assert_eq!(c.display().dump(), vec![false; 2048]);
    for x in 0..16u8 {
        assert_eq!(c.cpu().v(x), 0);
    }
}

#[test]
fn counter_advances_by_two_for_ordinary_instructions() {
    let words = [
        0x00E0u16, 0x6A01, 0x7A01, 0x8AB0, 0x8AB1, 0x8AB2, 0x8AB3, 0x8AB4, 0x8AB5, 0x8AB6,
        0x8AB7, 0x8ABE, 0xA300, 0xC0FF, 0xD001, 0xF007, 0xF015, 0xF018, 0xF01E, 0xF029, 0xA300,
        0xF033, 0xF155, 0xF165,
    ];
    let mut c = Computer::new(assemble(&words));
    for k in 0..words.len() as u16 {
        assert_eq!(c.cpu().pc(), 0x200 + 2 * k);
        assert_eq!(c.tick(), Ok(StepStatus::Completed), "word {:#06x}", words[k as usize]);
        assert_eq!(c.cpu().pc(), 0x202 + 2 * k, "after word {:#06x}", words[k as usize]);
    }
}

#[test]
fn load_index_and_add_to_index() {
    let c = run(&[0xA123]);
    assert_eq!(c.cpu().i(), 0x123);
    let c = run(&[0xAFFF, 0x61FF, 0xF11E]);
    assert_eq!(c.cpu().i(), 0x10FE);
    assert_eq!(c.cpu().v(0xF), 0);
}

#[test]
fn add_to_index_wraps_at_sixteen_bits() {
    // 0xFFF + 237 * 255 = 64530; six more additions of 255 pass 65535.
    let mut words = vec![0xAFFFu16, 0x61FF];
    for _ in 0..243 {
        words.push(0xF11E);
    }
    let c = run(&words);
    assert_eq!(c.cpu().i() as u32, (0xFFFu32 + 243 * 255) % 65536);
}

#[test]
fn load_glyph_multiplies_by_five() {
    let c = run(&[0x6107, 0xA123, 0xF129]);
    assert_eq!(c.cpu().i(), 35);
    let c = run(&[0x610F, 0xF129]);
    assert_eq!(c.cpu().i(), 75);
    let c = run(&[0x61FF, 0xF129]);
    assert_eq!(c.cpu().i(), 1275);
}

#[test]
fn delay_timer_reads_and_writes() {
    let c = run(&[0x6133, 0xF115, 0xF207]);
    assert_eq!(c.cpu().dt(), 0x33);
    assert_eq!(c.cpu().v(2), 0x33);
    assert_eq!(c.cpu().st(), 0);
}

#[test]
fn sound_timer_writes() {
    let c = run(&[0x6144, 0xF118]);
    assert_eq!(c.cpu().st(), 0x44);
    assert_eq!(c.cpu().dt(), 0);
}

#[test]
fn bcd_writes_three_digits() {
    // V4 = 156; I = 0x300
    let c = run(&[0x649C, 0xA300, 0xF433]);
    let mem = c.dump();
    assert_eq!(&mem[0x300..0x303], &[1, 5, 6]);
    assert_eq!(mem[0x303], 0);
    assert_eq!(mem[0x2FF], 0);
    assert_eq!(c.cpu().i(), 0x300);
}

#[test]
fn bcd_edge_values() {
    let c = run(&[0x6400, 0xA300, 0xF433]);
    assert_eq!(&c.dump()[0x300..0x303], &[0, 0, 0]);
    let c = run(&[0x64FF, 0xA300, 0xF433]);
    assert_eq!(&c.dump()[0x300..0x303], &[2, 5, 5]);
    let c = run(&[0x6407, 0xA300, 0xF433]);
    assert_eq!(&c.dump()[0x300..0x303], &[0, 0, 7]);
    let c = run(&[0x6464, 0xA300, 0xF433]);
    assert_eq!(&c.dump()[0x300..0x303], &[1, 0, 0]);
}

#[test]
fn bcd_at_the_end_of_memory() {
    let c = run(&[0x647B, 0xAFFD, 0xF433]);
    assert_eq!(&c.dump()[0xFFD..], &[1, 2, 3]);
    let mut c = Computer::new(assemble(&[0x647B, 0xAFFE, 0xF433]));
    assert_eq!(c.tick_with(0), Ok(StepStatus::Completed));
    assert_eq!(c.tick_with(0), Ok(StepStatus::Completed));
    let mem = c.dump();
    assert_eq!(c.tick_with(0), Err(Chip8Error::OutOfBoundsMemoryAccess));
    assert_eq!(c.dump(), mem);
    assert_eq!(c.cpu().pc(), 0x206);
}

#[test]
fn store_registers_is_inclusive() {
    let c = run(&[0x6011, 0x6122, 0x6233, 0x6344, 0xA300, 0xF255]);
    let mem = c.dump();
    assert_eq!(&mem[0x300..0x304], &[0x11, 0x22, 0x33, 0x00]);
    assert_eq!(c.cpu().i(), 0x300);
    // x = 0 stores V0 alone.
    let c = run(&[0x6011, 0x6122, 0xA300, 0xF055]);
    assert_eq!(&c.dump()[0x300..0x302], &[0x11, 0x00]);
}

#[test]
fn load_registers_is_inclusive() {
    // Loads V0..=V2 from the program's own first bytes.
    let c = run(&[0x63EE, 0xA200, 0xF265]);
    assert_eq!(c.cpu().v(0), 0x63);
    assert_eq!(c.cpu().v(1), 0xEE);
    assert_eq!(c.cpu().v(2), 0xA2);
    assert_eq!(c.cpu().v(3), 0xEE);
    assert_eq!(c.cpu().i(), 0x200);
}

#[test]
fn store_then_load_round_trips() {
    let mut words: Vec<u16> = (0..16u16).map(|x| 0x6000 | (x << 8) | (0xA0 + x)).collect();
    words.push(0xA400);
    words.push(0xFF55);
    let c = run(&words);
    let saved = c.dump();
    assert_eq!(
        &saved[0x400..0x410],
        &(0..16u8).map(|x| 0xA0 + x).collect::<Vec<u8>>()[..]
    );
    // A machine with fresh registers, the saved memory and the same I.
    let mut data = saved[0x200..].to_vec();
    data[0] = 0xA4;
    data[1] = 0x00;
    data[2] = 0xFF;
    data[3] = 0x65;
    let mut fresh = Computer::new(data);
    assert_eq!(fresh.tick_with(0), Ok(StepStatus::Completed));
    assert_eq!(fresh.tick_with(0), Ok(StepStatus::Completed));
    for x in 0..16u8 {
        assert_eq!(fresh.cpu().v(x), 0xA0 + x);
    }
}

#[test]
fn store_and_load_past_the_end_of_memory_fail() {
    let mut c = Computer::new(assemble(&[0xAFFE, 0xF155, 0xF255, 0xF165, 0xF265]));
    assert_eq!(c.tick_with(0), Ok(StepStatus::Completed));
    assert_eq!(c.tick_with(0), Ok(StepStatus::Completed));
    let mem = c.dump();
    assert_eq!(c.tick_with(0), Err(Chip8Error::OutOfBoundsMemoryAccess));
    assert_eq!(c.dump(), mem);
    assert_eq!(c.tick_with(0), Ok(StepStatus::Completed));
    assert_eq!(c.tick_with(0), Err(Chip8Error::OutOfBoundsMemoryAccess));
    assert_eq!(c.cpu().pc(), 0x20A);
    assert_eq!(c.cpu().v(2), 0);
}

#[test]
fn random_is_masked_by_the_byte() {
    let mut c = Computer::new(assemble(&[0xC1F0, 0xC20F, 0xC300, 0xC4FF]));
    assert_eq!(c.tick_with(0xAB), Ok(StepStatus::Completed));
    assert_eq!(c.cpu().v(1), 0xA0);
    assert_eq!(c.tick_with(0xAB), Ok(StepStatus::Completed));
    assert_eq!(c.cpu().v(2), 0x0B);
    assert_eq!(c.tick_with(0xAB), Ok(StepStatus::Completed));
    assert_eq!(c.cpu().v(3), 0x00);
    assert_eq!(c.tick_with(0xAB), Ok(StepStatus::Completed));
    assert_eq!(c.cpu().v(4), 0xAB);
    assert_eq!(c.cpu().v(0xF), 0);
}

#[test]
fn random_from_the_generator_respects_the_mask() {
    // 0x200: V1 = random & 0x0F ; 0x202: jump 0x200
    let mut c = Computer::new(assemble(&[0xC10F, 0x1200]));
    for _ in 0..200 {
        assert_eq!(c.tick(), Ok(StepStatus::Completed));
        assert!(c.cpu().v(1) <= 0x0F);
        assert_eq!(c.tick(), Ok(StepStatus::Completed));
    }
    let mut c = Computer::new(assemble(&[0xC100, 0x1200]));
    for _ in 0..50 {
        assert_eq!(c.tick(), Ok(StepStatus::Completed));
        assert_eq!(c.cpu().v(1), 0);
        assert_eq!(c.tick(), Ok(StepStatus::Completed));
    }
}

#[test]
fn random_from_the_generator_varies() {
    let mut c = Computer::new(assemble(&[0xC1FF, 0x1200]));
    let mut seen = [false; 256];
    for _ in 0..400 {
        assert_eq!(c.tick(), Ok(StepStatus::Completed));
        seen[c.cpu().v(1) as usize] = true;
        assert_eq!(c.tick(), Ok(StepStatus::Completed));
    }
    let distinct = seen.iter().filter(|s| **s).count();
    assert!(distinct > 16, "only {} distinct bytes in 400 draws", distinct);
}

#[test]
fn tick_agrees_with_tick_with_on_everything_but_random() {
    let words = [0x6A12u16, 0x7AFF, 0xA20C, 0xD015, 0x8AA4, 0x2200, 0x00EE, 0xF033];
    let mut a = Computer::new(assemble(&words));
    let mut b = Computer::new(assemble(&words));
    for _ in 0..40 {
        assert_eq!(a.tick(), b.tick_with(0x5A));
        assert_eq!(a.dump(), b.dump());
        assert_eq!(a.display().dump(), b.display().dump());
        assert_eq!(a.cpu().pc(), b.cpu().pc());
        assert_eq!(a.cpu().sp(), b.cpu().sp());
        assert_eq!(a.cpu().i(), b.cpu().i());
        for x in 0..16u8 {
            assert_eq!(a.cpu().v(x), b.cpu().v(x));
        }
    }
}

#[test]
fn execute_runs_a_word_without_fetching() {
    let mut c = Computer::new(vec![]);
    assert_eq!(c.execute(0x6A12, 0), Ok(StepStatus::Completed));
    assert_eq!(c.cpu().v(0xA), 0x12);
    // The counter is where it was: execute does not advance it.
    assert_eq!(c.cpu().pc(), 0x200);
    assert_eq!(c.execute(0x1ABC, 0), Ok(StepStatus::Completed));
    assert_eq!(c.cpu().pc(), 0xABC);
}
