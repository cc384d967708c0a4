use chip8::Chip8;
use chip8::Chip8Error;
use chip8::Opcode;

#[test]
fn step_decrements_timers() {
    let mut vm = Chip8::new();
    vm.delay_timer = 30;
    vm.sound_timer = 19;
    vm.step().unwrap();
    assert_eq!(vm.delay_timer, 29);
    assert_eq!(vm.sound_timer, 18);

    // Make sure we don't panic due to subtract w/ overflow:
    vm.sound_timer = 0;
    vm.step().unwrap();
    assert_eq!(vm.sound_timer, 0);
}

#[test]
fn timers_never_underflow() {
    let mut vm = Chip8::new();
    vm.delay_timer = 1;
    vm.sound_timer = 0;
    vm.tick_timers();
    assert_eq!(vm.delay_timer, 0);
    assert_eq!(vm.sound_timer, 0);
    vm.tick_timers();
    assert_eq!(vm.delay_timer, 0);
    assert_eq!(vm.sound_timer, 0);
}

#[test]
fn two_steps_set_then_wrap_add() {
    // memory[0..4] = [0x60, 0xFF, 0x70, 0x01]: set register 0 to 0xFF, then
    // add 1 to it; the addition wraps modulo 256.
    let mut vm = Chip8::new();
    vm.memory[0] = 0x60;
    vm.memory[1] = 0xFF;
    vm.memory[2] = 0x70;
    vm.memory[3] = 0x01;
    vm.program_counter = 0;
    vm.step().unwrap();
    vm.step().unwrap();
    assert_eq!(vm.registers[0], 0x00);
    assert_eq!(vm.program_counter, 4);
}

#[test]
fn one_step_takes_the_skip() {
    // memory[0..2] = [0x3A, 0x32] with register A holding 0x32: the skip is
    // taken, so the counter passes both the skip and the next instruction.
    let mut vm = Chip8::new();
    vm.memory[0] = 0x3A;
    vm.memory[1] = 0x32;
    vm.registers[0xA] = 0x32;
    vm.program_counter = 0;
    vm.step().unwrap();
    assert_eq!(vm.program_counter, 4);
}

#[test]
fn unknown_word_is_a_no_op_step() {
    // 0x0123 is the legacy encoding that never decodes: the step advances
    // the counter and does nothing else.
    let mut vm = Chip8::new();
    vm.memory[0] = 0x01;
    vm.memory[1] = 0x23;
    vm.step().unwrap();
    assert_eq!(vm.program_counter, 2);
    assert!(vm.registers.iter().all(|r| *r == 0));
}

#[test]
fn fetch_out_of_bounds_is_fatal() {
    let mut vm = Chip8::new();
    vm.program_counter = 0x0FFF;
    assert_eq!(vm.step(), Err(Chip8Error::MemoryFetchOutOfBounds));
    assert_eq!(vm.program_counter, 0x0FFF);
    vm.program_counter = 0x1000;
    assert_eq!(vm.step(), Err(Chip8Error::MemoryFetchOutOfBounds));
}

#[test]
fn display_draws_and_reports_collisions() {
    let mut vm = Chip8::new();
    // A two-row sprite: a full row of 8 pixels over a single left pixel.
    vm.memory[0x300] = 0xFF;
    vm.memory[0x301] = 0x80;
    vm.index_register = 0x0300;
    vm.registers[0] = 3; // x
    vm.registers[1] = 2; // y
    vm.execute_opcode(Opcode::Display { x: 0, y: 1, height: 2 }).unwrap();
    // No pixel was lit before, so no collision.
    assert_eq!(vm.registers[0xF], 0);
    for c in 0..8usize {
        assert!(vm.gfx_memory[2 * 64 + 3 + c]);
    }
    assert!(vm.gfx_memory[3 * 64 + 3]);
    assert!(!vm.gfx_memory[3 * 64 + 4]);
}

#[test]
fn display_idempotence() {
    // Drawing the identical sprite twice at the same coordinates clears
    // every pixel the first draw set, and the second draw reports the
    // collision, since the first draw set pixels that were unset.
    let mut vm = Chip8::new();
    vm.memory[0x300] = 0xA5;
    vm.memory[0x301] = 0x5A;
    vm.index_register = 0x0300;
    vm.registers[0] = 60; // wraps around the right edge
    vm.registers[1] = 31; // wraps around the bottom edge
    vm.execute_opcode(Opcode::Display { x: 0, y: 1, height: 2 }).unwrap();
    assert_eq!(vm.registers[0xF], 0);
    assert!(vm.gfx_memory.iter().any(|p| *p));
    vm.execute_opcode(Opcode::Display { x: 0, y: 1, height: 2 }).unwrap();
    assert_eq!(vm.registers[0xF], 1);
    assert!(vm.gfx_memory.iter().all(|p| !p));
}

#[test]
fn display_wraps_at_the_edges() {
    let mut vm = Chip8::new();
    vm.memory[0x300] = 0x80; // single pixel
    vm.index_register = 0x0300;
    vm.registers[0] = 64 + 5; // column reduces modulo 64
    vm.registers[1] = 32 + 7; // row reduces modulo 32
    vm.execute_opcode(Opcode::Display { x: 0, y: 1, height: 1 }).unwrap();
    assert!(vm.gfx_memory[7 * 64 + 5]);
}

#[test]
fn await_keypress_suspends_until_key_down() {
    let mut vm = Chip8::new();
    // memory[0..2] = [0xF1, 0x0A]: await a keypress into register 1.
    vm.memory[0] = 0xF1;
    vm.memory[1] = 0x0A;
    vm.step().unwrap();
    // The machine is suspended at the await instruction: the counter has not
    // advanced past it, and further steps neither fetch nor advance.
    assert_eq!(vm.program_counter, 0);
    vm.step().unwrap();
    vm.step().unwrap();
    assert_eq!(vm.program_counter, 0);
    // A key-up event does not complete the await.
    vm.release_key(0x3).unwrap();
    assert_eq!(vm.program_counter, 0);
    // The key-down event completes it: the key lands in register 1 and the
    // counter moves past the await.
    vm.press_key(0x3).unwrap();
    assert_eq!(vm.registers[1], 0x3);
    assert_eq!(vm.program_counter, 2);
    assert!(vm.keys[0x3]);
    // Stepping resumes normally afterwards.
    vm.step().unwrap();
    assert_eq!(vm.program_counter, 4);
}

#[test]
fn press_key_without_await_only_records_the_key() {
    let mut vm = Chip8::new();
    vm.press_key(0xC).unwrap();
    assert!(vm.keys[0xC]);
    assert_eq!(vm.program_counter, 0);
    vm.release_key(0xC).unwrap();
    assert!(!vm.keys[0xC]);
}

#[test]
fn fatal_step_leaves_the_machine_unchanged() {
    let mut vm = Chip8::new();
    // memory[0..2] = [0x00, 0xEE]: Return with an empty stack.
    vm.memory[0] = 0x00;
    vm.memory[1] = 0xEE;
    vm.delay_timer = 7;
    assert_eq!(vm.step(), Err(Chip8Error::StackUnderflow));
    assert_eq!(vm.program_counter, 0);
    assert_eq!(vm.delay_timer, 7);
    assert_eq!(vm.stack_pointer, 0);
}

#[test]
fn new_machine_is_zeroed_with_the_font_loaded() {
    let vm = Chip8::new();
    assert_eq!(vm.memory.len(), 4096);
    assert_eq!(vm.registers.len(), 16);
    assert_eq!(vm.gfx_memory.len(), 64 * 32);
    assert_eq!(vm.stack.len(), 16);
    assert_eq!(vm.keys.len(), 16);
    assert_eq!(vm.program_counter, 0);
    assert_eq!(vm.index_register, 0);
    assert_eq!(vm.stack_pointer, 0);
    assert_eq!(vm.delay_timer, 0);
    assert_eq!(vm.sound_timer, 0);
    for a in 0..0x50usize {
        assert_eq!(vm.memory[a], 0);
    }
    for a in 0xA0..4096usize {
        assert_eq!(vm.memory[a], 0);
    }
    // The 16 glyphs occupy 0x50..0xA0; the last byte of glyph F:
    assert_eq!(vm.memory[0x9F], 0x80);
}
