use chip8::decode_opcode;
use chip8::Opcode;

#[test]
fn test_decoding() {
    assert_eq!(decode_opcode(0x19DE), Some(Opcode::Jump { address: 0x09DE }));
    assert_eq!(decode_opcode(0x27A9), Some(Opcode::Call { address: 0x07A9 }));
    assert_eq!(
        decode_opcode(0x342F),
        Some(Opcode::SkipIfEqual { register: 0x4, value: 0x2F })
    );
    assert_eq!(
        decode_opcode(0x461F),
        Some(Opcode::SkipIfNotEqual { register: 0x6, value: 0x1F })
    );
    assert_eq!(
        decode_opcode(0x5A30),
        Some(Opcode::SkipIfRegistersEqual { register1: 0xA, register2: 0x3 })
    );
    assert_eq!(
        decode_opcode(0x6E72),
        Some(Opcode::SetRegister { register: 0xE, value: 0x72 })
    );
    assert_eq!(
        decode_opcode(0x72EE),
        Some(Opcode::AddConstant { register: 0x2, value: 0xEE })
    );
    assert_eq!(
        decode_opcode(0x8370),
        Some(Opcode::CopyRegister { target: 0x3, source: 0x7 })
    );
    assert_eq!(decode_opcode(0x8371), Some(Opcode::BitOr { target: 0x3, other: 0x7 }));
    assert_eq!(decode_opcode(0x8372), Some(Opcode::BitAnd { target: 0x3, other: 0x7 }));
    assert_eq!(decode_opcode(0x8373), Some(Opcode::BitXor { target: 0x3, other: 0x7 }));
    assert_eq!(
        decode_opcode(0x8374),
        Some(Opcode::AddRegister { target: 0x3, other: 0x7 })
    );
    assert_eq!(
        decode_opcode(0x8375),
        Some(Opcode::SubtractRegister { target: 0x3, other: 0x7 })
    );
    assert_eq!(
        decode_opcode(0x8376),
        Some(Opcode::RightShift { target: 0x3, source: 0x7 })
    );
    assert_eq!(
        decode_opcode(0x8377),
        Some(Opcode::AltSubtractRegister { target: 0x3, other: 0x7 })
    );
    assert_eq!(
        decode_opcode(0x8378),
        Some(Opcode::LeftShift { target: 0x3, source: 0x7 })
    );
    assert_eq!(
        decode_opcode(0x9370),
        Some(Opcode::SkipIfRegistersNotEqual { register1: 0x3, register2: 0x7 })
    );
    assert_eq!(decode_opcode(0xA428), Some(Opcode::SetIndexRegister { value: 0x0428 }));
    assert_eq!(decode_opcode(0xB3FC), Some(Opcode::OffsetJump { address: 0x03FC }));
    assert_eq!(decode_opcode(0xC1F0), Some(Opcode::Rand { register: 0x1, mask: 0xF0 }));
    assert_eq!(
        decode_opcode(0xD01E),
        Some(Opcode::Display { x: 0x0, y: 0x1, height: 0xE })
    );
    assert_eq!(decode_opcode(0xE29E), Some(Opcode::SkipIfKeyPressed { key: 0x2 }));
    assert_eq!(decode_opcode(0xE2A1), Some(Opcode::SkipIfKeyNotPressed { key: 0x2 }));
    assert_eq!(
        decode_opcode(0xF21E),
        Some(Opcode::IncrementIndexRegister { register: 0x2 })
    );
    assert_eq!(decode_opcode(0xF307), Some(Opcode::GetDelayTimer { register: 0x3 }));
    assert_eq!(decode_opcode(0xF829), Some(Opcode::SetIndexToFont { register: 0x8 }));
    assert_eq!(decode_opcode(0xF833), Some(Opcode::StoreDecimal { register: 0x8 }));
    assert_eq!(decode_opcode(0xF855), Some(Opcode::MemDump { max_register: 0x8 }));
    assert_eq!(decode_opcode(0xF90A), Some(Opcode::AwaitKeypress { register: 0x9 }));
    assert_eq!(decode_opcode(0xF965), Some(Opcode::MemLoad { max_register: 0x9 }));
    assert_eq!(decode_opcode(0xFE15), Some(Opcode::SetDelayTimer { value: 0xE }));
    assert_eq!(decode_opcode(0xFE18), Some(Opcode::SetSoundTimer { value: 0xE }));
}

#[test]
fn decode_is_deterministic_and_total() {
    // Every 16-bit word decodes, and repeated calls agree.
    let mut word: u32 = 0;
    while word <= 0xFFFF {
        let first = decode_opcode(word as u16);
        let second = decode_opcode(word as u16);
        assert_eq!(first, second);
        word += 1;
    }
}

#[test]
fn decode_round_trip_example() {
    // The mask-table row 0x3XNN assembled from (register 0xA, value 0x32)
    // is the word 0x3A32, and decoding recovers exactly those operands.
    assert_eq!(
        decode_opcode(0x3A32),
        Some(Opcode::SkipIfEqual { register: 0xA, value: 0x32 })
    );
}

#[test]
fn unknown_words_decode_to_none() {
    // The legacy "call external program" encoding 0x0NNN is never decoded.
    assert_eq!(decode_opcode(0x0000), None);
    assert_eq!(decode_opcode(0x0123), None);
    // Near misses of the 0x00E0 / 0x00EE rows.
    assert_eq!(decode_opcode(0x00E1), None);
    assert_eq!(decode_opcode(0x00EF), None);
    // The register-compare rows 0x5XY0 / 0x9XY0 require a zero low nibble.
    assert_eq!(decode_opcode(0x5A31), None);
    assert_eq!(decode_opcode(0x5A3F), None);
    assert_eq!(decode_opcode(0x9B47), None);
    assert_eq!(decode_opcode(0x9371), None);
    // The 0x8XY9..0x8XYF low nibbles name no instruction.
    assert_eq!(decode_opcode(0x8379), None);
    assert_eq!(decode_opcode(0x837F), None);
    // Unassigned 0xEX and 0xFX rows.
    assert_eq!(decode_opcode(0xE290), None);
    assert_eq!(decode_opcode(0xE2FF), None);
    assert_eq!(decode_opcode(0xF200), None);
    assert_eq!(decode_opcode(0xF266), None);
    assert_eq!(decode_opcode(0xF2FF), None);
}
