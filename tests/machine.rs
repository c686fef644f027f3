use chip8::opcode::{decode, Op};
use chip8::{Chip8, ExecError, LoadError};

fn machine_with(program: &[u8]) -> Chip8 {
    let mut m = Chip8::new();
    assert_eq!(m.load_program(program), Ok(()));
    m
}

fn run(m: &mut Chip8, steps: usize) {
    for _ in 0..steps {
        assert_eq!(m.step(0), Ok(()));
    }
}

#[test]
fn new_machine_has_font_and_start_address() {
    let m = Chip8::new();
    assert_eq!(m.program_counter, 0x200);
    assert_eq!(&m.memory[0x50..0x55], &[0xF0, 0x90, 0x90, 0x90, 0xF0]);
    assert_eq!(&m.memory[0x9B..0xA0], &[0xF0, 0x80, 0xF0, 0x80, 0x80]);
    assert_eq!(m.memory[0x4F], 0);
    assert_eq!(m.memory[0xA0], 0);
    assert_eq!(m.memory.len(), 4096);
    assert!(m.registers.iter().all(|&r| r == 0));
    assert!(m.display_snapshot().iter().all(|&p| !p));
    assert_eq!(m.stack_pointer, 0);
    assert!(!m.is_sound_active());
    assert!(!m.is_waiting_for_key());
}

#[test]
fn load_program_copies_bytes_at_program_start() {
    let m = machine_with(&[0x12, 0x34, 0x56]);
    assert_eq!(&m.memory[0x200..0x203], &[0x12, 0x34, 0x56]);
    assert_eq!(m.memory[0x203], 0);
}

#[test]
fn load_program_of_largest_size_succeeds() {
    let mut m = Chip8::new();
    let program = vec![0xAB; 3584];
    assert_eq!(m.load_program(&program), Ok(()));
    assert_eq!(m.memory[0x200], 0xAB);
    assert_eq!(m.memory[0xFFF], 0xAB);
    assert_eq!(m.memory[0x50], 0xF0);
}

#[test]
fn load_program_one_byte_too_large_fails_unchanged() {
    let mut m = Chip8::new();
    let before = m.memory.clone();
    let program = vec![0xAB; 3585];
    assert_eq!(m.load_program(&program), Err(LoadError::TooLarge));
    assert_eq!(m.memory, before);
    assert_eq!(&m.memory[..0x200], &before[..0x200]);
}

#[test]
fn add_with_carry_sets_flag() {
    // V0 = 0xFF, V1 = 0x02, V0 += V1
    let mut m = machine_with(&[0x60, 0xFF, 0x61, 0x02, 0x80, 0x14]);
    run(&mut m, 3);
    assert_eq!(m.registers[0], 0x01);
    assert_eq!(m.registers[0xF], 1);
}

#[test]
fn add_without_carry_clears_flag() {
    let mut m = machine_with(&[0x6F, 0x07, 0x60, 0x80, 0x61, 0x7F, 0x80, 0x14]);
    run(&mut m, 4);
    assert_eq!(m.registers[0], 0xFF);
    assert_eq!(m.registers[0xF], 0);
}

#[test]
fn sub_without_borrow_sets_flag() {
    let mut m = machine_with(&[0x60, 0x05, 0x61, 0x05, 0x80, 0x15]);
    run(&mut m, 3);
    assert_eq!(m.registers[0], 0);
    assert_eq!(m.registers[0xF], 1);
}

#[test]
fn sub_with_borrow_wraps_and_clears_flag() {
    let mut m = machine_with(&[0x60, 0x03, 0x61, 0x05, 0x80, 0x15]);
    run(&mut m, 3);
    assert_eq!(m.registers[0], 0xFE);
    assert_eq!(m.registers[0xF], 0);
}

#[test]
fn subn_sets_flag_when_vy_not_below_vx() {
    let mut m = machine_with(&[0x60, 0x03, 0x61, 0x05, 0x80, 0x17, 0x62, 0x09, 0x63, 0x02, 0x82, 0x37]);
    run(&mut m, 3);
    assert_eq!(m.registers[0], 2);
    assert_eq!(m.registers[0xF], 1);
    run(&mut m, 3);
    assert_eq!(m.registers[2], 0xF9);
    assert_eq!(m.registers[0xF], 0);
}

#[test]
fn shifts_put_the_lost_bit_in_flag() {
    let mut m = machine_with(&[0x60, 0x81, 0x80, 0x06, 0x61, 0x81, 0x81, 0x0E]);
    run(&mut m, 2);
    assert_eq!(m.registers[0], 0x40);
    assert_eq!(m.registers[0xF], 1);
    run(&mut m, 2);
    assert_eq!(m.registers[1], 0x02);
    assert_eq!(m.registers[0xF], 1);
}

#[test]
fn bitwise_operations() {
    let mut m = machine_with(&[
        0x60, 0x0C, 0x61, 0x0A, 0x82, 0x00, 0x82, 0x11, 0x83, 0x00, 0x83, 0x12, 0x84, 0x00,
        0x84, 0x13,
    ]);
    run(&mut m, 8);
    assert_eq!(m.registers[2], 0x0E);
    assert_eq!(m.registers[3], 0x08);
    assert_eq!(m.registers[4], 0x06);
}

#[test]
fn add_byte_wraps_without_touching_flag() {
    let mut m = machine_with(&[0x6F, 0x05, 0x60, 0xFF, 0x70, 0x02]);
    run(&mut m, 3);
    assert_eq!(m.registers[0], 0x01);
    assert_eq!(m.registers[0xF], 0x05);
}

#[test]
fn clear_turns_every_pixel_off_twice() {
    // I = glyph 0, draw it, clear, clear
    let mut m = machine_with(&[0xA0, 0x50, 0xD0, 0x05, 0x00, 0xE0, 0x00, 0xE0]);
    run(&mut m, 2);
    assert!(m.display_snapshot().iter().any(|&p| p));
    run(&mut m, 1);
    assert!(m.display_snapshot().iter().all(|&p| !p));
    run(&mut m, 1);
    assert!(m.display_snapshot().iter().all(|&p| !p));
}

#[test]
fn call_then_return_resumes_after_call() {
    // 0x200: call 0x206; 0x202: ...; 0x206: return
    let mut m = machine_with(&[0x22, 0x06, 0x00, 0x00, 0x00, 0x00, 0x00, 0xEE]);
    run(&mut m, 1);
    assert_eq!(m.program_counter, 0x206);
    assert_eq!(m.stack_pointer, 1);
    assert_eq!(m.stack[0], 0x202);
    run(&mut m, 1);
    assert_eq!(m.program_counter, 0x202);
    assert_eq!(m.stack_pointer, 0);
}

#[test]
fn draw_twice_restores_display_and_reports_collision() {
    let mut m = machine_with(&[0xA0, 0x50, 0xD0, 0x15, 0xD0, 0x15]);
    run(&mut m, 2);
    let s = m.display_snapshot();
    assert_eq!(m.registers[0xF], 0);
    assert!(s[0] && s[1] && s[2] && s[3] && !s[4]);
    assert!(s[64] && !s[65] && !s[66] && s[67]);
    assert_eq!(s.iter().filter(|&&p| p).count(), 14);
    run(&mut m, 1);
    assert_eq!(m.registers[0xF], 1);
    assert!(m.display_snapshot().iter().all(|&p| !p));
}

#[test]
fn draw_wraps_at_the_edges() {
    // V0 = 62, V1 = 31, draw glyph 0 (two rows)
    let mut m = machine_with(&[0x60, 62, 0x61, 31, 0xA0, 0x50, 0xD0, 0x12]);
    run(&mut m, 4);
    let s = m.display_snapshot();
    assert!(s[31 * 64 + 62] && s[31 * 64 + 63] && s[31 * 64] && s[31 * 64 + 1]);
    assert!(s[62] && !s[63] && !s[0] && s[1]);
    assert_eq!(s.iter().filter(|&&p| p).count(), 6);
}

#[test]
fn key_wait_holds_pc_until_a_press() {
    let mut m = machine_with(&[0xF3, 0x0A, 0x60, 0x01]);
    run(&mut m, 1);
    assert!(m.is_waiting_for_key());
    assert_eq!(m.program_counter, 0x202);
    run(&mut m, 5);
    assert_eq!(m.program_counter, 0x202);
    m.set_key(2, false);
    run(&mut m, 1);
    assert_eq!(m.program_counter, 0x202);
    m.set_key(7, true);
    assert!(!m.is_waiting_for_key());
    assert_eq!(m.registers[3], 7);
    m.set_key(9, true);
    assert_eq!(m.registers[3], 7);
    run(&mut m, 1);
    assert_eq!(m.program_counter, 0x204);
    assert_eq!(m.registers[0], 1);
}

#[test]
fn sixteen_calls_fit_and_the_seventeenth_overflows() {
    // 0x200: call 0x200, forever
    let mut m = machine_with(&[0x22, 0x00]);
    run(&mut m, 16);
    assert_eq!(m.stack_pointer, 16);
    let memory = m.memory.clone();
    let stack = m.stack.clone();
    assert_eq!(m.step(0), Err(ExecError::StackOverflow));
    assert_eq!(m.stack_pointer, 16);
    assert_eq!(m.program_counter, 0x200);
    assert_eq!(m.stack, stack);
    assert_eq!(m.memory, memory);
}

#[test]
fn return_with_empty_stack_underflows() {
    let mut m = machine_with(&[0x00, 0xEE]);
    assert_eq!(m.step(0), Err(ExecError::StackUnderflow));
    assert_eq!(m.program_counter, 0x200);
    assert_eq!(m.stack_pointer, 0);
}

#[test]
fn pc_outside_program_memory_is_fatal() {
    let mut m = machine_with(&[0x1F, 0xFF]);
    run(&mut m, 1);
    assert_eq!(m.program_counter, 0xFFF);
    assert_eq!(m.step(0), Err(ExecError::PcOutOfRange));
    assert_eq!(m.program_counter, 0xFFF);
    let mut low = machine_with(&[0x11, 0x00]);
    run(&mut low, 1);
    assert_eq!(low.step(0), Err(ExecError::PcOutOfRange));
}

#[test]
fn unknown_opcode_only_advances() {
    let mut m = machine_with(&[0xFF, 0xFF, 0x51, 0x23]);
    let regs = m.registers.clone();
    run(&mut m, 1);
    assert_eq!(m.program_counter, 0x202);
    assert_eq!(m.last_unknown, Some(0xFFFF));
    assert_eq!(m.registers, regs);
    run(&mut m, 1);
    assert_eq!(m.program_counter, 0x204);
    assert_eq!(m.last_unknown, Some(0x5123));
}

#[test]
fn skips_on_register_comparisons() {
    // V0 = 5; 3005 skips; 4005 does not; V1 = 5; 5010 skips; 9010 does not
    let mut m = machine_with(&[
        0x60, 0x05, 0x30, 0x05, 0x00, 0x00, 0x40, 0x05, 0x61, 0x05, 0x50, 0x10, 0x00, 0x00,
        0x90, 0x10,
    ]);
    run(&mut m, 2);
    assert_eq!(m.program_counter, 0x206);
    run(&mut m, 1);
    assert_eq!(m.program_counter, 0x208);
    run(&mut m, 2);
    assert_eq!(m.program_counter, 0x20E);
    run(&mut m, 1);
    assert_eq!(m.program_counter, 0x210);
}

#[test]
fn key_skips_follow_the_keypad() {
    let mut m = machine_with(&[0x60, 0x04, 0xE0, 0x9E, 0x00, 0x00, 0xE0, 0xA1, 0x00, 0x00]);
    m.set_key(4, true);
    run(&mut m, 2);
    assert_eq!(m.program_counter, 0x206);
    run(&mut m, 1);
    assert_eq!(m.program_counter, 0x208);
    let mut n = machine_with(&[0x60, 0x14, 0xE0, 0x9E, 0xE0, 0xA1]);
    run(&mut n, 2);
    assert_eq!(n.program_counter, 0x204);
    run(&mut n, 1);
    assert_eq!(n.program_counter, 0x208);
}

#[test]
fn timers_load_read_and_tick() {
    let mut m = machine_with(&[0x60, 0x02, 0xF0, 0x15, 0xF0, 0x18, 0xF1, 0x07]);
    run(&mut m, 4);
    assert_eq!(m.delay_timer, 2);
    assert_eq!(m.registers[1], 2);
    assert!(m.is_sound_active());
    m.tick_timers();
    assert_eq!(m.delay_timer, 1);
    m.tick_timers();
    m.tick_timers();
    assert_eq!(m.delay_timer, 0);
    assert_eq!(m.sound_timer, 0);
    assert!(!m.is_sound_active());
}

#[test]
fn index_operations() {
    // I = 0xFFE; I += V0 (0x20); then I = glyph of the low nibble of 0x1A
    let mut m = machine_with(&[0xAF, 0xFE, 0x60, 0x20, 0xF0, 0x1E, 0x60, 0x1A, 0xF0, 0x29]);
    run(&mut m, 3);
    assert_eq!(m.index_register, 0x101E);
    assert_eq!(m.registers[0xF], 0);
    run(&mut m, 2);
    assert_eq!(m.index_register, 0x50 + 5 * 0xA);
    m.index_register = 0xFFFF;
    m.registers[0] = 0x01;
    m.memory[0x200] = 0xF0;
    m.memory[0x201] = 0x1E;
    m.program_counter = 0x200;
    run(&mut m, 1);
    assert_eq!(m.index_register, 0x0000);
}

#[test]
fn bcd_and_register_transfer() {
    // V0 = 254; I = 0x300; BCD; V1 = 7; V2 = 9; store V0..V2 at 0x310; load back into V0..V1
    let mut m = machine_with(&[
        0x60, 0xFE, 0xA3, 0x00, 0xF0, 0x33, 0x61, 0x07, 0x62, 0x09, 0xA3, 0x10, 0xF2, 0x55,
        0xA3, 0x00, 0xF1, 0x65,
    ]);
    run(&mut m, 3);
    assert_eq!(&m.memory[0x300..0x303], &[2, 5, 4]);
    run(&mut m, 4);
    assert_eq!(&m.memory[0x310..0x314], &[0xFE, 7, 9, 0]);
    run(&mut m, 2);
    assert_eq!(m.registers[0], 2);
    assert_eq!(m.registers[1], 5);
    assert_eq!(m.registers[2], 9);
}

#[test]
fn store_wraps_at_the_end_of_memory() {
    let mut m = machine_with(&[0x60, 0x11, 0x61, 0x22, 0xAF, 0xFF, 0xF1, 0x55]);
    run(&mut m, 4);
    assert_eq!(m.memory[0xFFF], 0x11);
    assert_eq!(m.memory[0x000], 0x22);
}

#[test]
fn jump_with_offset_and_random_mask() {
    let mut m = machine_with(&[0x60, 0x04, 0xB2, 0x00, 0x00, 0x00, 0xC3, 0x0F]);
    run(&mut m, 2);
    assert_eq!(m.program_counter, 0x204);
    m.program_counter = 0x206;
    assert_eq!(m.step(0xAB), Ok(()));
    assert_eq!(m.registers[3], 0x0B);
}

#[test]
fn decode_resolves_groups() {
    assert_eq!(decode(0x00E0), Op::Cls);
    assert_eq!(decode(0x00EE), Op::Ret);
    assert_eq!(decode(0x0123), Op::Unknown);
    assert_eq!(decode(0x1234), Op::Jp);
    assert_eq!(decode(0x5120), Op::SeVxVy);
    assert_eq!(decode(0x5121), Op::Unknown);
    assert_eq!(decode(0x8124), Op::AddVxVy);
    assert_eq!(decode(0x812E), Op::ShlVx);
    assert_eq!(decode(0x8128), Op::Unknown);
    assert_eq!(decode(0xD125), Op::Drw);
    assert_eq!(decode(0xE19E), Op::SkpVx);
    assert_eq!(decode(0xE1A1), Op::SknpVx);
    assert_eq!(decode(0xE1A2), Op::Unknown);
    assert_eq!(decode(0xF165), Op::LoadRegs);
    assert_eq!(decode(0xF166), Op::Unknown);
}
