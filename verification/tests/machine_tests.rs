use chip8::Chip8;
use chip8::Chip8Error;
use chip8::Opcode;

#[test]
fn jump() {
    let mut vm = Chip8::new();
    vm.execute_opcode(Opcode::Jump { address: 0x09DE }).unwrap();
    assert_eq!(vm.program_counter, 0x09DE);
}

#[test]
fn set_idx_reg() {
    let mut vm = Chip8::new();
    vm.execute_opcode(Opcode::SetIndexRegister { value: 0x0387 }).unwrap();
    assert_eq!(vm.index_register, 0x0387);
}

#[test]
fn skip_if_eq_const() {
    let mut vm = Chip8::new();
    vm.execute_opcode(Opcode::SkipIfEqual { register: 0xA, value: 0x32 }).unwrap();
    // Scenario 1: register A is 0, but we expect 0x32.
    // This will not skip the next instruction. The program
    // counter can thus be expected to be 0x0000.
    assert_eq!(vm.program_counter, 0x0000);

    // Reset the program counter.
    vm.program_counter = 0x0000;
    // Scenario 2: register A is now 0x32, and we expect
    // 0x32. This *will* skip the next instruction. The
    // program counter should be 0x0002.
    vm.registers[0x0A] = 0x32;
    vm.execute_opcode(Opcode::SkipIfEqual { register: 0xA, value: 0x32 }).unwrap();
    assert_eq!(vm.program_counter, 0x0002);
}

#[test]
fn skip_if_not_eq_const() {
    // This test is the reverse of skip_if_eq_const.
    let mut vm = Chip8::new();
    vm.execute_opcode(Opcode::SkipIfNotEqual { register: 0xA, value: 0x32 }).unwrap();
    // Scenario 1: register A is 0, but we expect 0x32.
    // This will skip the next instruction. The program
    // counter can thus be expected to be 0x0002.
    assert_eq!(vm.program_counter, 0x0002);

    // Reset the program counter.
    vm.program_counter = 0x0000;
    // Scenario 2: register A is now 0x32, and we expect
    // 0x32. This will not skip the next instruction. The
    // program counter should be 0x0000.
    vm.registers[0x0A] = 0x32;
    vm.execute_opcode(Opcode::SkipIfNotEqual { register: 0xA, value: 0x32 }).unwrap();
    assert_eq!(vm.program_counter, 0x0000);
}

#[test]
fn skip_if_registers_eq() {
    let mut vm = Chip8::new();
    vm.registers[0xA] = 0x0;
    vm.registers[0xB] = 0xF;
    vm.execute_opcode(Opcode::SkipIfRegistersEqual { register1: 0xA, register2: 0xB })
        .unwrap();
    // Scenario 1: register A is 0 and register B is 0x0F.
    // The next instruction should not be skipped; program_counter
    // should be 0x0000.
    assert_eq!(vm.program_counter, 0x0000);

    // Reset the program counter.
    vm.program_counter = 0x0000;
    // Scenario 2: register A is now 0x0F, the same as
    // register B. This *will* skip the next instruction - the
    // program counter should be 0x0002.
    vm.registers[0xA] = 0x0F;
    vm.execute_opcode(Opcode::SkipIfRegistersEqual { register1: 0xA, register2: 0xB })
        .unwrap();
    assert_eq!(vm.program_counter, 0x0002);
}

#[test]
fn set_register() {
    let mut vm = Chip8::new();
    vm.execute_opcode(Opcode::SetRegister { register: 0x0, value: 0xFF }).unwrap();
    assert_eq!(vm.registers[0], 0xFF);
}

#[test]
fn add_const() {
    let mut vm = Chip8::new();
    vm.registers[0] = 0x13;
    vm.execute_opcode(Opcode::AddConstant { register: 0, value: 0x23 }).unwrap();
    assert_eq!(vm.registers[0], 0x23 + 0x13);
}

#[test]
fn add_const_wraps_modulo_256() {
    let mut vm = Chip8::new();
    vm.registers[0] = 0xFF;
    vm.execute_opcode(Opcode::AddConstant { register: 0, value: 0x01 }).unwrap();
    assert_eq!(vm.registers[0], 0x00);
}

#[test]
fn copy_register() {
    let mut vm = Chip8::new();
    vm.registers[0] = 0x13;
    vm.registers[1] = 0xFF;
    vm.execute_opcode(Opcode::CopyRegister { source: 1, target: 0 }).unwrap();
    assert_eq!(vm.registers[0], 0xFF);
}

#[test]
fn bit_or() {
    let mut vm = Chip8::new();
    vm.registers[0] = 0x13;
    vm.registers[1] = 0xC4;
    vm.execute_opcode(Opcode::BitOr { target: 0, other: 1 }).unwrap();
    assert_eq!(vm.registers[0], 0x13 | 0xC4);
}

#[test]
fn bit_and() {
    let mut vm = Chip8::new();
    vm.registers[0] = 0x13;
    vm.registers[1] = 0xC4;
    vm.execute_opcode(Opcode::BitAnd { target: 0, other: 1 }).unwrap();
    assert_eq!(vm.registers[0], 0x13 & 0xC4);
}

#[test]
fn bit_xor() {
    let mut vm = Chip8::new();
    vm.registers[0] = 0x13;
    vm.registers[1] = 0xC4;
    vm.execute_opcode(Opcode::BitXor { target: 0, other: 1 }).unwrap();
    assert_eq!(vm.registers[0], 0x13 ^ 0xC4);
}

#[test]
fn register_add() {
    let mut vm = Chip8::new();
    vm.registers[0] = 0x13;
    vm.registers[1] = 0xC4;
    vm.registers[2] = 0xFF;
    vm.registers[3] = 0xD9;
    vm.execute_opcode(Opcode::AddRegister { target: 0, other: 1 }).unwrap();
    assert_eq!(vm.registers[0], 0x13 + 0xC4);
    assert_eq!(vm.registers[0xF], 0);
    vm.execute_opcode(Opcode::AddRegister { target: 2, other: 3 }).unwrap();
    assert_eq!(vm.registers[2], 0xD8);
    assert_eq!(vm.registers[0xF], 1);
}

#[test]
fn register_sub() {
    // The borrow flag convention: the flag register is 1 when no borrow
    // occurred (target >= other) and 0 when a borrow occurred.
    let mut vm = Chip8::new();
    vm.registers[0] = 0x13;
    vm.registers[1] = 0xC4;
    vm.registers[2] = 0x13;
    vm.registers[3] = 0x11;
    vm.execute_opcode(Opcode::SubtractRegister { target: 0, other: 1 }).unwrap();
    assert_eq!(vm.registers[0], 0x4F);
    assert_eq!(vm.registers[0xF], 0);
    vm.execute_opcode(Opcode::SubtractRegister { target: 2, other: 3 }).unwrap();
    assert_eq!(vm.registers[2], 0x02);
    assert_eq!(vm.registers[0xF], 1);
}

#[test]
fn alt_register_sub() {
    // The alternate direction computes other - target into the target, with
    // the same flag convention (1 exactly when other >= target).
    let mut vm = Chip8::new();
    vm.registers[0] = 0x11;
    vm.registers[1] = 0x13;
    vm.execute_opcode(Opcode::AltSubtractRegister { target: 0, other: 1 }).unwrap();
    assert_eq!(vm.registers[0], 0x02);
    assert_eq!(vm.registers[0xF], 1);
    vm.registers[2] = 0xC4;
    vm.registers[3] = 0x13;
    vm.execute_opcode(Opcode::AltSubtractRegister { target: 2, other: 3 }).unwrap();
    assert_eq!(vm.registers[2], 0x4F);
    assert_eq!(vm.registers[0xF], 0);
}

#[test]
fn shifts_capture_the_shifted_out_bit() {
    let mut vm = Chip8::new();
    vm.registers[1] = 0b1000_0101;
    vm.execute_opcode(Opcode::RightShift { target: 0, source: 1 }).unwrap();
    assert_eq!(vm.registers[0], 0b0100_0010);
    assert_eq!(vm.registers[0xF], 1);
    vm.execute_opcode(Opcode::LeftShift { target: 2, source: 1 }).unwrap();
    assert_eq!(vm.registers[2], 0b0000_1010);
    assert_eq!(vm.registers[0xF], 1);
    vm.registers[3] = 0b0111_1110;
    vm.execute_opcode(Opcode::RightShift { target: 4, source: 3 }).unwrap();
    assert_eq!(vm.registers[4], 0b0011_1111);
    assert_eq!(vm.registers[0xF], 0);
    vm.execute_opcode(Opcode::LeftShift { target: 5, source: 3 }).unwrap();
    assert_eq!(vm.registers[5], 0b1111_1100);
    assert_eq!(vm.registers[0xF], 0);
}

#[test]
fn call_pushes_and_return_pops() {
    let mut vm = Chip8::new();
    // The driver has already advanced the counter past the Call, so the
    // pushed address is the instruction following it.
    vm.program_counter = 0x0202;
    vm.execute_opcode(Opcode::Call { address: 0x0400 }).unwrap();
    assert_eq!(vm.program_counter, 0x0400);
    assert_eq!(vm.stack_pointer, 1);
    assert_eq!(vm.stack[0], 0x0202);
    vm.execute_opcode(Opcode::Return).unwrap();
    assert_eq!(vm.program_counter, 0x0202);
    assert_eq!(vm.stack_pointer, 0);
}

#[test]
fn offset_jump_adds_register_zero() {
    let mut vm = Chip8::new();
    vm.registers[0] = 0x05;
    vm.execute_opcode(Opcode::OffsetJump { address: 0x0100 }).unwrap();
    assert_eq!(vm.program_counter, 0x0105);
}

#[test]
fn rand_respects_the_mask() {
    let mut vm = Chip8::new();
    let seed = vm.rand_state;
    vm.execute_opcode(Opcode::Rand { mask: 0x0F, register: 0 }).unwrap();
    assert_eq!(vm.registers[0] & 0xF0, 0);
    assert_ne!(vm.rand_state, seed);
    vm.execute_opcode(Opcode::Rand { mask: 0x00, register: 1 }).unwrap();
    assert_eq!(vm.registers[1], 0);
}

#[test]
fn timer_instructions_move_values() {
    let mut vm = Chip8::new();
    vm.registers[3] = 42;
    vm.execute_opcode(Opcode::SetDelayTimer { value: 3 }).unwrap();
    assert_eq!(vm.delay_timer, 42);
    vm.execute_opcode(Opcode::GetDelayTimer { register: 7 }).unwrap();
    assert_eq!(vm.registers[7], 42);
    vm.execute_opcode(Opcode::SetSoundTimer { value: 3 }).unwrap();
    assert_eq!(vm.sound_timer, 42);
}

#[test]
fn increment_index_register() {
    let mut vm = Chip8::new();
    vm.index_register = 0x0100;
    vm.registers[2] = 0x22;
    vm.execute_opcode(Opcode::IncrementIndexRegister { register: 2 }).unwrap();
    assert_eq!(vm.index_register, 0x0122);
}

#[test]
fn font_is_loaded_and_indexed_by_low_nibble() {
    let mut vm = Chip8::new();
    // Glyph 0 sits at the base of the reserved region.
    assert_eq!(vm.memory[0x50], 0xF0);
    assert_eq!(vm.memory[0x54], 0xF0);
    // Glyph for digit 1.
    assert_eq!(vm.memory[0x55], 0x20);
    vm.registers[4] = 0xA7;
    vm.execute_opcode(Opcode::SetIndexToFont { register: 4 }).unwrap();
    assert_eq!(vm.index_register, (0x50 + 5 * 0x7) as u16);
}

#[test]
fn store_decimal_writes_three_digits() {
    let mut vm = Chip8::new();
    vm.registers[6] = 234;
    vm.index_register = 0x0300;
    vm.execute_opcode(Opcode::StoreDecimal { register: 6 }).unwrap();
    assert_eq!(vm.memory[0x300], 2);
    assert_eq!(vm.memory[0x301], 3);
    assert_eq!(vm.memory[0x302], 4);
}

#[test]
fn mem_dump_and_load_round_trip() {
    let mut vm = Chip8::new();
    for r in 0..4usize {
        vm.registers[r] = (r as u8) * 3 + 1;
    }
    vm.index_register = 0x0200;
    vm.execute_opcode(Opcode::MemDump { max_register: 3 }).unwrap();
    assert_eq!(vm.memory[0x200], 1);
    assert_eq!(vm.memory[0x201], 4);
    assert_eq!(vm.memory[0x202], 7);
    assert_eq!(vm.memory[0x203], 10);
    // The copy is inclusive of max_register and touches nothing past it.
    assert_eq!(vm.memory[0x204], 0);
    for r in 0..4usize {
        vm.registers[r] = 0;
    }
    vm.execute_opcode(Opcode::MemLoad { max_register: 3 }).unwrap();
    assert_eq!(vm.registers[0], 1);
    assert_eq!(vm.registers[1], 4);
    assert_eq!(vm.registers[2], 7);
    assert_eq!(vm.registers[3], 10);
}

#[test]
fn clear_display_unsets_every_pixel() {
    let mut vm = Chip8::new();
    vm.gfx_memory[0] = true;
    vm.gfx_memory[2047] = true;
    vm.execute_opcode(Opcode::ClearDisplay).unwrap();
    assert!(vm.gfx_memory.iter().all(|p| !p));
}

#[test]
fn skip_if_key_pressed() {
    let mut vm = Chip8::new();
    vm.registers[2] = 0x5;
    vm.execute_opcode(Opcode::SkipIfKeyPressed { key: 2 }).unwrap();
    assert_eq!(vm.program_counter, 0);
    vm.execute_opcode(Opcode::SkipIfKeyNotPressed { key: 2 }).unwrap();
    assert_eq!(vm.program_counter, 2);
    vm.program_counter = 0;
    vm.press_key(0x5).unwrap();
    vm.execute_opcode(Opcode::SkipIfKeyPressed { key: 2 }).unwrap();
    assert_eq!(vm.program_counter, 2);
    vm.program_counter = 0;
    vm.execute_opcode(Opcode::SkipIfKeyNotPressed { key: 2 }).unwrap();
    assert_eq!(vm.program_counter, 0);
    vm.release_key(0x5).unwrap();
    vm.execute_opcode(Opcode::SkipIfKeyPressed { key: 2 }).unwrap();
    assert_eq!(vm.program_counter, 0);
}

#[test]
fn operand_out_of_range_is_fatal_and_leaves_state() {
    let mut vm = Chip8::new();
    assert_eq!(
        vm.execute_opcode(Opcode::SetRegister { register: 16, value: 1 }),
        Err(Chip8Error::OperandOutOfRange)
    );
    assert_eq!(
        vm.execute_opcode(Opcode::AddRegister { target: 0, other: 20 }),
        Err(Chip8Error::OperandOutOfRange)
    );
    assert_eq!(
        vm.execute_opcode(Opcode::Display { x: 0, y: 0, height: 16 }),
        Err(Chip8Error::OperandOutOfRange)
    );
    assert!(vm.registers.iter().all(|r| *r == 0));
}

#[test]
fn stack_overflow_and_underflow_are_fatal() {
    let mut vm = Chip8::new();
    assert_eq!(vm.execute_opcode(Opcode::Return), Err(Chip8Error::StackUnderflow));
    for _ in 0..16 {
        vm.execute_opcode(Opcode::Call { address: 0x0200 }).unwrap();
    }
    assert_eq!(
        vm.execute_opcode(Opcode::Call { address: 0x0200 }),
        Err(Chip8Error::StackOverflow)
    );
    assert_eq!(vm.stack_pointer, 16);
}

#[test]
fn memory_access_out_of_bounds_is_fatal() {
    let mut vm = Chip8::new();
    vm.index_register = 0x0FFE;
    assert_eq!(
        vm.execute_opcode(Opcode::StoreDecimal { register: 0 }),
        Err(Chip8Error::MemoryAccessOutOfBounds)
    );
    assert_eq!(
        vm.execute_opcode(Opcode::MemDump { max_register: 3 }),
        Err(Chip8Error::MemoryAccessOutOfBounds)
    );
    assert_eq!(
        vm.execute_opcode(Opcode::MemLoad { max_register: 3 }),
        Err(Chip8Error::MemoryAccessOutOfBounds)
    );
    assert_eq!(
        vm.execute_opcode(Opcode::Display { x: 0, y: 0, height: 5 }),
        Err(Chip8Error::MemoryAccessOutOfBounds)
    );
}

#[test]
fn key_out_of_range_is_fatal() {
    let mut vm = Chip8::new();
    assert_eq!(vm.press_key(16), Err(Chip8Error::KeyOutOfRange));
    assert_eq!(vm.release_key(16), Err(Chip8Error::KeyOutOfRange));
    vm.registers[2] = 200;
    assert_eq!(
        vm.execute_opcode(Opcode::SkipIfKeyPressed { key: 2 }),
        Err(Chip8Error::KeyOutOfRange)
    );
}
