use chip8::cpu::{Decoded, CPU};
use chip8::display::EmuDisplay;
use chip8::machine::{Fault, KeyWait, FONT_TABLE};

fn machine_with(program: &[u8]) -> CPU {
    let mut cpu = CPU::default();
    cpu.load_rom(program);
    cpu
}

fn lit_pixels(cpu: &CPU) -> Vec<(usize, usize)> {
    let mut lit = Vec::new();
    for row in 0..32 {
        for column in 0..64 {
            if cpu.display.pixel_mat[row][column] {
                lit.push((row, column));
            }
        }
    }
    lit
}

#[test]
fn a_new_machine_starts_at_0x200_with_everything_zero() {
    let cpu = CPU::new(EmuDisplay::new());
    assert_eq!(cpu.reg.pc, 0x200);
    assert_eq!(cpu.reg.v, [0; 16]);
    assert_eq!(cpu.reg.i, 0);
    assert_eq!(cpu.reg.sp, 0);
    assert_eq!(cpu.reg.delay_timer, 0);
    assert_eq!(cpu.reg.sound_time, 0);
    assert_eq!(cpu.memory.loaded_size(), 0);
    assert!(cpu.stack.is_empty());
    assert_eq!(cpu.key_wait, KeyWait::Idle);
    assert!(lit_pixels(&cpu).is_empty());
}

#[test]
fn a_new_machine_keeps_the_display_it_was_given() {
    let mut display = EmuDisplay::new();
    display.pixel_mat[4][9] = true;
    display.keys_pressed[3] = true;
    display.last_key_down = Some(3);
    let cpu = CPU::new(display);
    assert_eq!(lit_pixels(&cpu), vec![(4, 9)]);
    assert!(cpu.display.keys_pressed[3]);
    assert_eq!(cpu.display.last_key_down, Some(3));
}

#[test]
fn decode_takes_every_field_from_its_bits() {
    let decoded = Decoded::new(0xFEDC);
    assert_eq!(decoded.upper(), 0xF);
    assert_eq!(decoded.x(), 0xE);
    assert_eq!(decoded.y(), 0xD);
    assert_eq!(decoded.n(), 0xC);
    assert_eq!(decoded.nn(), 0xDC);
    assert_eq!(decoded.nnn(), 0xEDC);
    assert_eq!(decoded.opcode(), 0xFEDC);
    assert_eq!(Decoded::new(0x0000).opcode(), 0x0000);
    assert_eq!(Decoded::new(0x00EE).nn(), 0xEE);
}

#[test]
fn fetch_reads_the_high_byte_first() {
    let mut cpu = machine_with(&[0x00, 0xE0, 0xAB, 0xCD]);
    assert_eq!(cpu.fetch(), Ok(0x00E0));
    assert_eq!(cpu.reg.pc, 0x200);
    cpu.reg.pc = 0x202;
    assert_eq!(cpu.fetch(), Ok(0xABCD));
    cpu.reg.pc = 0x201;
    assert_eq!(cpu.fetch(), Ok(0xE0AB));
}

#[test]
fn fetch_past_the_loaded_size_is_a_fault() {
    let mut cpu = CPU::default();
    assert_eq!(cpu.fetch(), Err(Fault::MemoryBounds { address: 0x200 }));
    let mut cpu = machine_with(&[0x12, 0x34, 0x56]);
    cpu.reg.pc = 0x202;
    assert_eq!(cpu.fetch(), Err(Fault::MemoryBounds { address: 0x203 }));
    cpu.reg.pc = 0x203;
    assert_eq!(cpu.fetch(), Err(Fault::MemoryBounds { address: 0x203 }));
    cpu.reg.pc = 0xFFFF;
    assert_eq!(cpu.fetch(), Err(Fault::MemoryBounds { address: 0xFFFF }));
    assert_eq!(cpu.reg.pc, 0xFFFF);
}

#[test]
fn run_on_an_empty_memory_faults_and_changes_nothing() {
    let mut cpu = CPU::default();
    cpu.reg.v[3] = 9;
    assert_eq!(cpu.run(), Err(Fault::MemoryBounds { address: 0x200 }));
    assert_eq!(cpu.reg.pc, 0x200);
    assert_eq!(cpu.reg.v[3], 9);
}

#[test]
fn skip_equal_advances_the_program_counter_by_four() {
    let mut cpu = machine_with(&[0x35, 0x12]);
    cpu.reg.v[5] = 0x12;
    assert_eq!(cpu.run(), Ok(()));
    assert_eq!(cpu.reg.pc, 0x204);
}

#[test]
fn skip_equal_not_taken_advances_the_program_counter_by_two() {
    let mut cpu = machine_with(&[0x35, 0x12]);
    cpu.reg.v[5] = 0x13;
    assert_eq!(cpu.run(), Ok(()));
    assert_eq!(cpu.reg.pc, 0x202);
}

#[test]
fn skip_not_equal_through_run() {
    let mut cpu = machine_with(&[0x45, 0x12, 0x45, 0x12]);
    cpu.reg.v[5] = 0x12;
    assert_eq!(cpu.run(), Ok(()));
    assert_eq!(cpu.reg.pc, 0x202);
    cpu.reg.v[5] = 0x11;
    assert_eq!(cpu.run(), Ok(()));
    assert_eq!(cpu.reg.pc, 0x206);
}

#[test]
fn register_comparisons_skip_on_a_match() {
    let mut cpu = CPU::default();
    cpu.reg.v[1] = 7;
    cpu.reg.v[2] = 7;
    cpu.reg.v[3] = 8;
    assert_eq!(cpu.skip_next_instruction_if_equal_register(Decoded::new(0x5120)), Ok(()));
    assert_eq!(cpu.reg.pc, 0x202);
    assert_eq!(cpu.skip_next_instruction_if_equal_register(Decoded::new(0x5130)), Ok(()));
    assert_eq!(cpu.reg.pc, 0x202);
    assert_eq!(cpu.skip_next_instruction_if_not_equal_register(Decoded::new(0x9130)), Ok(()));
    assert_eq!(cpu.reg.pc, 0x204);
    assert_eq!(cpu.skip_next_instruction_if_not_equal_register(Decoded::new(0x9120)), Ok(()));
    assert_eq!(cpu.reg.pc, 0x204);
}

#[test]
fn register_comparisons_with_a_low_nibble_are_malformed() {
    let mut cpu = CPU::default();
    cpu.reg.v[1] = 7;
    cpu.reg.v[2] = 7;
    assert_eq!(
        cpu.skip_next_instruction_if_equal_register(Decoded::new(0x5121)),
        Err(Fault::Decode { opcode: 0x5121 })
    );
    assert_eq!(
        cpu.skip_next_instruction_if_not_equal_register(Decoded::new(0x912F)),
        Err(Fault::Decode { opcode: 0x912F })
    );
    assert_eq!(cpu.reg.pc, 0x200);
}

#[test]
fn unknown_opcodes_fault_and_leave_the_program_counter() {
    for opcode in [0x0000u16, 0x0123, 0x00E1, 0x5121, 0x8008, 0x800F, 0x9001, 0xE000, 0xE19F, 0xF000, 0xF1FF] {
        let mut cpu = machine_with(&[(opcode >> 8) as u8, opcode as u8]);
        cpu.reg.v[1] = 3;
        assert_eq!(cpu.run(), Err(Fault::Decode { opcode }));
        assert_eq!(cpu.reg.pc, 0x200);
        assert_eq!(cpu.reg.v[1], 3);
        assert_eq!(cpu.reg.v[0], 0);
    }
}

#[test]
fn unknown_selectors_fault_in_the_handlers() {
    let mut cpu = CPU::default();
    assert_eq!(cpu.apply_op(Decoded::new(0x8129)), Err(Fault::Decode { opcode: 0x8129 }));
    assert_eq!(cpu.misc_op(Decoded::new(0xF100)), Err(Fault::Decode { opcode: 0xF100 }));
    assert_eq!(
        cpu.skip_next_instruction_cond(Decoded::new(0xE1A2)),
        Err(Fault::Decode { opcode: 0xE1A2 })
    );
}

#[test]
fn jump_call_and_return_through_run() {
    // 0x200: call 0x206; 0x202: jump 0x202 (never reached first); 0x206: return
    let mut cpu = machine_with(&[0x22, 0x06, 0x12, 0x02, 0x00, 0x00, 0x00, 0xEE]);
    assert_eq!(cpu.run(), Ok(()));
    assert_eq!(cpu.reg.pc, 0x206);
    assert_eq!(cpu.reg.sp, 1);
    assert_eq!(cpu.stack.size(), 1);
    assert_eq!(cpu.stack.get(0), Some(0x202));
    assert_eq!(cpu.run(), Ok(()));
    assert_eq!(cpu.reg.pc, 0x202);
    assert_eq!(cpu.reg.sp, 0);
    assert!(cpu.stack.is_empty());
    assert_eq!(cpu.run(), Ok(()));
    assert_eq!(cpu.reg.pc, 0x202);
}

#[test]
fn the_seventeenth_nested_call_overflows() {
    // 0x200: call 0x200
    let mut cpu = machine_with(&[0x22, 0x00]);
    for depth in 1..=16 {
        assert_eq!(cpu.run(), Ok(()));
        assert_eq!(cpu.stack.size(), depth);
        assert_eq!(cpu.reg.sp, depth as u8);
    }
    assert_eq!(cpu.run(), Err(Fault::StackOverflow));
    assert_eq!(cpu.stack.size(), 16);
    assert_eq!(cpu.reg.sp, 16);
    assert_eq!(cpu.reg.pc, 0x200);
}

#[test]
fn return_with_an_empty_stack_underflows() {
    let mut cpu = machine_with(&[0x00, 0xEE]);
    assert_eq!(cpu.run(), Err(Fault::StackUnderflow));
    assert_eq!(cpu.reg.pc, 0x200);
    assert_eq!(cpu.reg.sp, 0);
    assert_eq!(cpu.return_from_subroutine(), Err(Fault::StackUnderflow));
}

#[test]
fn calls_return_in_lifo_order() {
    let mut cpu = CPU::default();
    for k in 0..5u16 {
        cpu.reg.pc = 0x300 + 2 * k;
        assert_eq!(cpu.call_subroutine(Decoded::new(0x2400 + k)), Ok(()));
        assert_eq!(cpu.reg.pc, 0x400 + k);
    }
    for k in (0..5u16).rev() {
        assert_eq!(cpu.return_from_subroutine(), Ok(()));
        assert_eq!(cpu.reg.pc, 0x300 + 2 * k);
    }
    assert!(cpu.stack.is_empty());
    assert_eq!(cpu.reg.sp, 0);
}

#[test]
fn the_call_count_wraps_modulo_256() {
    let mut cpu = CPU::default();
    cpu.reg.sp = 255;
    assert_eq!(cpu.call_subroutine(Decoded::new(0x2300)), Ok(()));
    assert_eq!(cpu.reg.sp, 0);
    assert_eq!(cpu.return_from_subroutine(), Ok(()));
    assert_eq!(cpu.reg.sp, 255);
}

#[test]
fn jump_with_offset_is_not_masked_to_twelve_bits() {
    let mut cpu = CPU::default();
    cpu.reg.v[0] = 0xFF;
    cpu.jump_to_address_with_offset(Decoded::new(0xBFFF));
    assert_eq!(cpu.reg.pc, 0x10FE);
    cpu.reg.v[0] = 4;
    cpu.jump_to_address_with_offset(Decoded::new(0xB300));
    assert_eq!(cpu.reg.pc, 0x304);
}

#[test]
fn the_address_register_is_sixteen_bits_wide_and_wraps() {
    let mut cpu = CPU::default();
    cpu.reg.i = 0x0FFF;
    cpu.reg.v[2] = 1;
    cpu.add_i_register(Decoded::new(0xF21E));
    assert_eq!(cpu.reg.i, 0x1000);
    cpu.reg.i = 0xFFFF;
    cpu.reg.v[2] = 2;
    cpu.add_i_register(Decoded::new(0xF21E));
    assert_eq!(cpu.reg.i, 1);
    cpu.set_memory_addr(Decoded::new(0xA123));
    assert_eq!(cpu.reg.i, 0x123);
}

#[test]
fn the_program_counter_is_sixteen_bits_wide_and_wraps() {
    let mut cpu = CPU::default();
    cpu.reg.pc = 0xFFFF;
    cpu.skip_next_instruction_if_equal(Decoded::new(0x3000));
    assert_eq!(cpu.reg.pc, 1);
    cpu.reg.pc = 0;
    cpu.ld_register_key(Decoded::new(0xF00A));
    assert_eq!(cpu.reg.pc, 0xFFFE);
}

#[test]
fn set_and_add_immediate() {
    let mut cpu = machine_with(&[0x6A, 0xFA, 0x7A, 0x0A]);
    cpu.reg.v[0xF] = 0x55;
    assert_eq!(cpu.run(), Ok(()));
    assert_eq!(cpu.reg.v[0xA], 0xFA);
    assert_eq!(cpu.run(), Ok(()));
    assert_eq!(cpu.reg.v[0xA], 4);
    assert_eq!(cpu.reg.v[0xF], 0x55);
    assert_eq!(cpu.reg.pc, 0x204);
}

#[test]
fn the_flag_wins_where_the_target_is_the_flag_register() {
    let mut cpu = CPU::default();
    cpu.reg.v[0xF] = 200;
    cpu.reg.v[1] = 100;
    cpu.add_registers(Decoded::new(0x8F14));
    assert_eq!(cpu.reg.v[0xF], 1);
    cpu.reg.v[0xF] = 3;
    cpu.shift_registers_right(Decoded::new(0x8F06));
    assert_eq!(cpu.reg.v[0xF], 1);
    cpu.reg.v[0xF] = 0x40;
    cpu.shift_registers_left(Decoded::new(0x8F0E));
    assert_eq!(cpu.reg.v[0xF], 0);
}

#[test]
fn subtracting_equal_values_clears_the_flag() {
    let mut cpu = CPU::default();
    cpu.reg.v[0] = 9;
    cpu.reg.v[1] = 9;
    cpu.reg.v[0xF] = 1;
    cpu.sub_registers(Decoded::new(0x8015));
    assert_eq!(cpu.reg.v[0], 0);
    assert_eq!(cpu.reg.v[0xF], 0);
    cpu.reg.v[0] = 9;
    cpu.reg.v[0xF] = 1;
    cpu.subn_registers(Decoded::new(0x8017));
    assert_eq!(cpu.reg.v[0], 0);
    assert_eq!(cpu.reg.v[0xF], 0);
}

#[test]
fn logic_operations_leave_the_flag_alone() {
    let mut cpu = CPU::default();
    cpu.reg.v[0xF] = 0x77;
    cpu.reg.v[2] = 0b1100;
    cpu.reg.v[3] = 0b1010;
    cpu.or_registers(Decoded::new(0x8231));
    assert_eq!(cpu.reg.v[2], 0b1110);
    cpu.and_registers(Decoded::new(0x8232));
    assert_eq!(cpu.reg.v[2], 0b1010);
    cpu.xor_registers(Decoded::new(0x8233));
    assert_eq!(cpu.reg.v[2], 0);
    cpu.copy_registers(Decoded::new(0x8230));
    assert_eq!(cpu.reg.v[2], 0b1010);
    assert_eq!(cpu.reg.v[3], 0b1010);
    assert_eq!(cpu.reg.v[0xF], 0x77);
}

#[test]
fn the_random_byte_is_masked() {
    let mut cpu = machine_with(&[0xC3, 0x0F, 0xC4, 0x00]);
    cpu.reg.v[3] = 0xFF;
    cpu.reg.v[4] = 0xFF;
    assert_eq!(cpu.run(), Ok(()));
    assert!(cpu.reg.v[3] < 16);
    assert_eq!(cpu.run(), Ok(()));
    assert_eq!(cpu.reg.v[4], 0);
    assert_eq!(cpu.reg.pc, 0x204);
    for _ in 0..64 {
        cpu.rnd_and(Decoded::new(0xC5A5));
        assert_eq!(cpu.reg.v[5] & !0xA5, 0);
    }
}

#[test]
fn a_given_random_byte_is_masked_exactly() {
    let mut cpu = CPU::default();
    cpu.rnd_and_with(Decoded::new(0xC7F0), 0xAB);
    assert_eq!(cpu.reg.v[7], 0xA0);
    cpu.rnd_and_with(Decoded::new(0xC7FF), 0xAB);
    assert_eq!(cpu.reg.v[7], 0xAB);
    cpu.rnd_and_with(Decoded::new(0xC700), 0xAB);
    assert_eq!(cpu.reg.v[7], 0);
}

#[test]
fn timers_load_store_and_count_down_to_zero() {
    let mut cpu = CPU::default();
    cpu.reg.v[1] = 2;
    cpu.ld_delay_timer_register(Decoded::new(0xF115));
    cpu.reg.v[1] = 1;
    cpu.ld_sound_timer_register(Decoded::new(0xF118));
    assert_eq!(cpu.reg.delay_timer, 2);
    assert_eq!(cpu.reg.sound_time, 1);
    assert!(cpu.should_beep());
    cpu.update_timers();
    assert_eq!(cpu.reg.delay_timer, 1);
    assert_eq!(cpu.reg.sound_time, 0);
    assert!(!cpu.should_beep());
    cpu.ld_delay_timer(Decoded::new(0xF407));
    assert_eq!(cpu.reg.v[4], 1);
    cpu.update_timers();
    cpu.update_timers();
    assert_eq!(cpu.reg.delay_timer, 0);
    assert_eq!(cpu.reg.sound_time, 0);
}

#[test]
fn a_step_does_not_move_the_timers() {
    let mut cpu = machine_with(&[0x60, 0x01]);
    cpu.reg.delay_timer = 5;
    cpu.reg.sound_time = 6;
    assert_eq!(cpu.run(), Ok(()));
    assert_eq!(cpu.reg.delay_timer, 5);
    assert_eq!(cpu.reg.sound_time, 6);
}

#[test]
fn font_glyph_addresses() {
    let mut cpu = CPU::default();
    cpu.reg.v[1] = 0;
    cpu.ld_font_char(Decoded::new(0xF129));
    assert_eq!(cpu.reg.i, 0x50);
    cpu.reg.v[1] = 0xA;
    cpu.ld_font_char(Decoded::new(0xF129));
    assert_eq!(cpu.reg.i, 0x82);
    cpu.reg.v[1] = 0xFF;
    cpu.ld_font_char(Decoded::new(0xF129));
    assert_eq!(cpu.reg.i, 0x50 + 255 * 5);
}

#[test]
fn setup_fonts_writes_the_glyphs_from_0x50() {
    let mut cpu = machine_with(&[0x12, 0x00]);
    assert_eq!(cpu.setup_fonts(), Ok(()));
    for (offset, byte) in FONT_TABLE.iter().enumerate() {
        assert_eq!(cpu.memory.read(0x50 + offset), Ok(*byte));
    }
    assert_eq!(cpu.memory.read(0x4F), Ok(0));
    assert_eq!(cpu.memory.read(0x50 + 80), Ok(0));
    assert_eq!(cpu.memory.read(0x50), Ok(0xF0));
    assert_eq!(cpu.memory.read(0x50 + 5 * 0xF + 4), Ok(0x80));
    assert_eq!(cpu.memory.read(0x200), Ok(0x12));
}

#[test]
fn setup_fonts_before_a_load_is_a_fault() {
    let mut cpu = CPU::default();
    assert_eq!(cpu.setup_fonts(), Err(Fault::MemoryBounds { address: 0x50 }));
    assert_eq!(cpu.memory.loaded_size(), 0);
}

#[test]
fn bcd_writes_hundreds_tens_and_units() {
    let mut cpu = machine_with(&[0; 8]);
    cpu.reg.i = 0x202;
    cpu.reg.v[6] = 254;
    assert_eq!(cpu.ld_bcd_register(Decoded::new(0xF633)), Ok(()));
    assert_eq!(cpu.memory.read(0x202), Ok(2));
    assert_eq!(cpu.memory.read(0x203), Ok(5));
    assert_eq!(cpu.memory.read(0x204), Ok(4));
    assert_eq!(cpu.memory.read(0x201), Ok(0));
    assert_eq!(cpu.memory.read(0x205), Ok(0));
    assert_eq!(cpu.reg.i, 0x202);
    cpu.reg.v[6] = 7;
    assert_eq!(cpu.ld_bcd_register(Decoded::new(0xF633)), Ok(()));
    assert_eq!(cpu.memory.read(0x202), Ok(0));
    assert_eq!(cpu.memory.read(0x203), Ok(0));
    assert_eq!(cpu.memory.read(0x204), Ok(7));
}

#[test]
fn bcd_out_of_bounds_writes_nothing() {
    let mut cpu = machine_with(&[0; 4]);
    cpu.reg.i = 0x202;
    cpu.reg.v[6] = 123;
    assert_eq!(
        cpu.ld_bcd_register(Decoded::new(0xF633)),
        Err(Fault::MemoryBounds { address: 0x204 })
    );
    assert_eq!(cpu.memory.read(0x202), Ok(0));
    assert_eq!(cpu.memory.read(0x203), Ok(0));
    cpu.reg.i = 0x300;
    assert_eq!(
        cpu.ld_bcd_register(Decoded::new(0xF633)),
        Err(Fault::MemoryBounds { address: 0x300 })
    );
}

#[test]
fn registers_go_to_memory_and_back() {
    let mut cpu = machine_with(&[0; 16]);
    cpu.reg.i = 0x204;
    for k in 0..16 {
        cpu.reg.v[k] = 0x10 + k as u8;
    }
    assert_eq!(cpu.sv_registers_to_mem(Decoded::new(0xF355)), Ok(()));
    assert_eq!(cpu.memory.read(0x203), Ok(0));
    assert_eq!(cpu.memory.read(0x204), Ok(0x10));
    assert_eq!(cpu.memory.read(0x205), Ok(0x11));
    assert_eq!(cpu.memory.read(0x206), Ok(0x12));
    assert_eq!(cpu.memory.read(0x207), Ok(0x13));
    assert_eq!(cpu.memory.read(0x208), Ok(0));
    assert_eq!(cpu.reg.i, 0x204);

    cpu.reg.i = 0x205;
    assert_eq!(cpu.ld_registers_from_mem(Decoded::new(0xF265)), Ok(()));
    assert_eq!(cpu.reg.v[0], 0x11);
    assert_eq!(cpu.reg.v[1], 0x12);
    assert_eq!(cpu.reg.v[2], 0x13);
    assert_eq!(cpu.reg.v[3], 0x13);
    assert_eq!(cpu.reg.v[4], 0x14);
    assert_eq!(cpu.reg.i, 0x205);
}

#[test]
fn register_transfers_out_of_bounds_change_nothing() {
    let mut cpu = machine_with(&[1, 2, 3, 4]);
    cpu.reg.i = 0x202;
    for k in 0..16 {
        cpu.reg.v[k] = 0x20 + k as u8;
    }
    assert_eq!(
        cpu.sv_registers_to_mem(Decoded::new(0xF255)),
        Err(Fault::MemoryBounds { address: 0x204 })
    );
    assert_eq!(cpu.memory.read(0x202), Ok(3));
    assert_eq!(cpu.memory.read(0x203), Ok(4));
    assert_eq!(
        cpu.ld_registers_from_mem(Decoded::new(0xF265)),
        Err(Fault::MemoryBounds { address: 0x204 })
    );
    assert_eq!(cpu.reg.v[0], 0x20);
    assert_eq!(cpu.reg.v[1], 0x21);
    assert_eq!(cpu.sv_registers_to_mem(Decoded::new(0xF155)), Ok(()));
    assert_eq!(cpu.memory.read(0x202), Ok(0x20));
    assert_eq!(cpu.memory.read(0x203), Ok(0x21));
    cpu.reg.i = 0xFFFF;
    assert_eq!(
        cpu.ld_registers_from_mem(Decoded::new(0xFF65)),
        Err(Fault::MemoryBounds { address: 0xFFFF })
    );
}

#[test]
fn key_queries_skip_on_the_pressed_state() {
    let mut cpu = CPU::default();
    cpu.display.keys_pressed[0xB] = true;
    cpu.reg.v[1] = 0xB;
    cpu.reg.v[2] = 0x3;
    assert_eq!(cpu.skip_next_instruction_if_key_pressed(Decoded::new(0xE19E)), Ok(()));
    assert_eq!(cpu.reg.pc, 0x202);
    assert_eq!(cpu.skip_next_instruction_if_key_pressed(Decoded::new(0xE29E)), Ok(()));
    assert_eq!(cpu.reg.pc, 0x202);
    assert_eq!(cpu.skip_next_instruction_if_key_not_pressed(Decoded::new(0xE2A1)), Ok(()));
    assert_eq!(cpu.reg.pc, 0x204);
    assert_eq!(cpu.skip_next_instruction_if_key_not_pressed(Decoded::new(0xE1A1)), Ok(()));
    assert_eq!(cpu.reg.pc, 0x204);
    assert_eq!(cpu.skip_next_instruction_cond(Decoded::new(0xE19E)), Ok(()));
    assert_eq!(cpu.reg.pc, 0x206);
    assert_eq!(cpu.skip_next_instruction_cond(Decoded::new(0xE2A1)), Ok(()));
    assert_eq!(cpu.reg.pc, 0x208);
}

#[test]
fn key_queries_ignore_the_transition_cells() {
    let mut cpu = CPU::default();
    cpu.display.last_key_down = Some(4);
    cpu.reg.v[1] = 4;
    assert_eq!(cpu.skip_next_instruction_if_key_pressed(Decoded::new(0xE19E)), Ok(()));
    assert_eq!(cpu.reg.pc, 0x200);
}

#[test]
fn a_key_query_for_a_key_that_does_not_exist_is_a_fault() {
    let mut cpu = machine_with(&[0xE1, 0x9E]);
    cpu.reg.v[1] = 16;
    assert_eq!(cpu.run(), Err(Fault::KeyIndex { key: 16 }));
    assert_eq!(cpu.reg.pc, 0x200);
    cpu.reg.v[1] = 0xFF;
    assert_eq!(
        cpu.skip_next_instruction_if_key_not_pressed(Decoded::new(0xE1A1)),
        Err(Fault::KeyIndex { key: 0xFF })
    );
}

#[test]
fn key_wait_idles_latches_holds_and_commits() {
    // 0x200: wait for a key into V3; 0x202: V0 := 1
    let mut cpu = machine_with(&[0xF3, 0x0A, 0x60, 0x01]);
    cpu.reg.v[3] = 0xEE;

    // no key down: the program stands still, tick after tick
    for _ in 0..5 {
        assert_eq!(cpu.run(), Ok(()));
        assert_eq!(cpu.reg.pc, 0x200);
        assert_eq!(cpu.key_wait, KeyWait::Idle);
        assert_eq!(cpu.reg.v[3], 0xEE);
    }

    // a key-up alone does not end the wait
    cpu.display.last_key_up = Some(2);
    assert_eq!(cpu.run(), Ok(()));
    assert_eq!(cpu.reg.pc, 0x200);
    assert_eq!(cpu.key_wait, KeyWait::Idle);
    cpu.display.last_key_up = None;

    // key 7 goes down: it is latched, and the program still stands still
    cpu.display.last_key_down = Some(7);
    assert_eq!(cpu.run(), Ok(()));
    assert_eq!(cpu.reg.pc, 0x200);
    assert_eq!(cpu.key_wait, KeyWait::KeyLatched(7));
    assert_eq!(cpu.reg.v[3], 0xEE);

    // no key-up yet
    cpu.display.last_key_down = None;
    for _ in 0..3 {
        assert_eq!(cpu.run(), Ok(()));
        assert_eq!(cpu.reg.pc, 0x200);
        assert_eq!(cpu.key_wait, KeyWait::KeyLatched(7));
    }

    // a key comes up: its value is committed and the program goes on
    cpu.display.last_key_up = Some(7);
    assert_eq!(cpu.run(), Ok(()));
    assert_eq!(cpu.reg.pc, 0x202);
    assert_eq!(cpu.key_wait, KeyWait::Idle);
    assert_eq!(cpu.reg.v[3], 7);

    assert_eq!(cpu.run(), Ok(()));
    assert_eq!(cpu.reg.v[0], 1);
    assert_eq!(cpu.reg.pc, 0x204);
}

#[test]
fn key_wait_commits_whichever_key_comes_up() {
    let mut cpu = machine_with(&[0xF3, 0x0A]);
    cpu.display.last_key_down = Some(7);
    assert_eq!(cpu.run(), Ok(()));
    assert_eq!(cpu.key_wait, KeyWait::KeyLatched(7));
    cpu.display.last_key_down = None;
    cpu.display.last_key_up = Some(0xC);
    assert_eq!(cpu.run(), Ok(()));
    assert_eq!(cpu.reg.v[3], 0xC);
    assert_eq!(cpu.key_wait, KeyWait::Idle);
    assert_eq!(cpu.reg.pc, 0x202);
}

#[test]
fn clear_screen_darkens_every_pixel() {
    let mut cpu = machine_with(&[0x00, 0xE0]);
    cpu.display.pixel_mat[0][0] = true;
    cpu.display.pixel_mat[31][63] = true;
    cpu.display.pixel_mat[10][20] = true;
    cpu.display.keys_pressed[2] = true;
    assert_eq!(cpu.run(), Ok(()));
    assert!(lit_pixels(&cpu).is_empty());
    assert!(cpu.display.keys_pressed[2]);
    assert_eq!(cpu.reg.pc, 0x202);
}

#[test]
fn a_sprite_row_is_drawn_most_significant_bit_first() {
    let mut cpu = machine_with(&[0b1000_0001, 0b0100_0000]);
    cpu.reg.i = 0x200;
    cpu.reg.v[0] = 10;
    cpu.reg.v[1] = 5;
    assert_eq!(cpu.disp_sprite(Decoded::new(0xD012)), Ok(()));
    assert_eq!(lit_pixels(&cpu), vec![(5, 10), (5, 17), (6, 11)]);
    assert_eq!(cpu.reg.v[0xF], 0);
    assert_eq!(cpu.reg.i, 0x200);
}

#[test]
fn drawing_twice_erases_and_reports_the_collision() {
    let mut cpu = machine_with(&[0xFF, 0x81, 0xFF]);
    cpu.reg.i = 0x200;
    cpu.reg.v[4] = 20;
    cpu.reg.v[5] = 9;
    assert_eq!(cpu.disp_sprite(Decoded::new(0xD453)), Ok(()));
    assert_eq!(lit_pixels(&cpu).len(), 18);
    assert_eq!(cpu.reg.v[0xF], 0);
    assert_eq!(cpu.disp_sprite(Decoded::new(0xD453)), Ok(()));
    assert!(lit_pixels(&cpu).is_empty());
    assert_eq!(cpu.reg.v[0xF], 1);
}

#[test]
fn a_lit_pixel_under_a_clear_bit_counts_as_a_collision() {
    let mut cpu = machine_with(&[0b1000_0000]);
    cpu.reg.i = 0x200;
    cpu.display.pixel_mat[0][7] = true;
    assert_eq!(cpu.disp_sprite(Decoded::new(0xD011)), Ok(()));
    assert_eq!(lit_pixels(&cpu), vec![(0, 0), (0, 7)]);
    assert_eq!(cpu.reg.v[0xF], 1);
}

#[test]
fn a_lit_pixel_outside_the_sprite_is_no_collision() {
    let mut cpu = machine_with(&[0xFF, 0xFF]);
    cpu.reg.i = 0x200;
    cpu.reg.v[0] = 8;
    cpu.reg.v[1] = 4;
    cpu.display.pixel_mat[4][7] = true;
    cpu.display.pixel_mat[4][16] = true;
    cpu.display.pixel_mat[3][8] = true;
    cpu.display.pixel_mat[6][8] = true;
    cpu.reg.v[0xF] = 1;
    assert_eq!(cpu.disp_sprite(Decoded::new(0xD012)), Ok(()));
    assert_eq!(cpu.reg.v[0xF], 0);
    assert_eq!(lit_pixels(&cpu).len(), 4 + 16);
}

#[test]
fn sprites_are_clipped_at_the_right_and_bottom_edges() {
    let mut cpu = machine_with(&[0xFF, 0xFF, 0xFF, 0xFF]);
    cpu.reg.i = 0x200;
    cpu.reg.v[0] = 61;
    cpu.reg.v[1] = 30;
    assert_eq!(cpu.disp_sprite(Decoded::new(0xD014)), Ok(()));
    assert_eq!(
        lit_pixels(&cpu),
        vec![(30, 61), (30, 62), (30, 63), (31, 61), (31, 62), (31, 63)]
    );
    assert_eq!(cpu.reg.v[0xF], 0);
}

#[test]
fn a_sprite_at_the_last_cell_plots_one_pixel() {
    let mut cpu = machine_with(&[0b11110000, 0b10010000, 0b11110000]);
    cpu.reg.i = 0x200;
    cpu.reg.v[0] = 63;
    cpu.reg.v[1] = 31;
    assert_eq!(cpu.disp_sprite(Decoded::new(0xD013)), Ok(()));
    assert_eq!(lit_pixels(&cpu), vec![(31, 63)]);
}

#[test]
fn rows_that_are_clipped_are_not_read() {
    // one readable sprite byte, three rows asked for, only one on the grid
    let mut cpu = machine_with(&[0x80]);
    cpu.reg.i = 0x200;
    cpu.reg.v[0] = 0;
    cpu.reg.v[1] = 31;
    assert_eq!(cpu.disp_sprite(Decoded::new(0xD013)), Ok(()));
    assert_eq!(lit_pixels(&cpu), vec![(31, 0)]);
}

#[test]
fn sprite_coordinates_are_taken_modulo_the_grid() {
    let mut cpu = machine_with(&[0x80]);
    cpu.reg.i = 0x200;
    cpu.reg.v[0] = 64 + 3;
    cpu.reg.v[1] = 32 * 3 + 2;
    assert_eq!(cpu.disp_sprite(Decoded::new(0xD011)), Ok(()));
    assert_eq!(lit_pixels(&cpu), vec![(2, 3)]);
}

#[test]
fn a_sprite_of_no_rows_draws_nothing_and_clears_the_flag() {
    let mut cpu = CPU::default();
    cpu.reg.i = 0x900;
    cpu.reg.v[0xF] = 1;
    cpu.display.pixel_mat[0][0] = true;
    assert_eq!(cpu.disp_sprite(Decoded::new(0xD010)), Ok(()));
    assert_eq!(lit_pixels(&cpu), vec![(0, 0)]);
    assert_eq!(cpu.reg.v[0xF], 0);
}

#[test]
fn a_sprite_past_the_loaded_size_is_a_fault_and_draws_nothing() {
    let mut cpu = machine_with(&[0xFF, 0xFF]);
    cpu.reg.i = 0x200;
    cpu.reg.v[0xF] = 9;
    assert_eq!(
        cpu.disp_sprite(Decoded::new(0xD013)),
        Err(Fault::MemoryBounds { address: 0x202 })
    );
    assert!(lit_pixels(&cpu).is_empty());
    assert_eq!(cpu.reg.v[0xF], 9);
    cpu.reg.i = 0x400;
    assert_eq!(
        cpu.disp_sprite(Decoded::new(0xD011)),
        Err(Fault::MemoryBounds { address: 0x400 })
    );
}

#[test]
fn draw_through_run_uses_the_registers_named_by_the_opcode() {
    // 0x200: draw 1 row at (V2, V3); sprite at 0x202
    let mut cpu = machine_with(&[0xD2, 0x31, 0xC0]);
    cpu.reg.i = 0x202;
    cpu.reg.v[2] = 5;
    cpu.reg.v[3] = 6;
    assert_eq!(cpu.run(), Ok(()));
    assert_eq!(lit_pixels(&cpu), vec![(6, 5), (6, 6)]);
    assert_eq!(cpu.reg.pc, 0x202);
}

#[test]
fn load_rom_makes_the_program_readable() {
    let mut cpu = CPU::default();
    cpu.load_rom(&[0xA1, 0x23]);
    assert_eq!(cpu.memory.loaded_size(), 0x202);
    assert_eq!(cpu.memory.read(0x200), Ok(0xA1));
    assert_eq!(cpu.run(), Ok(()));
    assert_eq!(cpu.reg.i, 0x123);
    assert_eq!(cpu.reg.pc, 0x202);
    assert_eq!(cpu.run(), Err(Fault::MemoryBounds { address: 0x202 }));
    assert_eq!(cpu.reg.pc, 0x202);
}

#[test]
fn misc_operations_through_run() {
    // V1 := 9; DT := V1; V2 := DT; I := 0x20A; BCD V1; dump V0..V2
    let mut cpu = machine_with(&[
        0x61, 0x09, 0xF1, 0x15, 0xF2, 0x07, 0xA2, 0x10, 0xF1, 0x33, 0xF2, 0x55, 0, 0, 0, 0, 0, 0,
        0, 0,
    ]);
    for _ in 0..6 {
        assert_eq!(cpu.run(), Ok(()));
    }
    assert_eq!(cpu.reg.delay_timer, 9);
    assert_eq!(cpu.reg.v[2], 9);
    assert_eq!(cpu.reg.pc, 0x20C);
    assert_eq!(cpu.memory.read(0x210), Ok(0));
    assert_eq!(cpu.memory.read(0x211), Ok(9));
    assert_eq!(cpu.memory.read(0x212), Ok(9));
}
