//! The instruction set: the structured instruction type and the pure decoder
//! from raw 16-bit words.

use vstd::prelude::*;

verus! {

/// A decoded instruction of the 8-bit virtual machine.
///
/// Each variant carries only its semantically relevant operands: a register
/// selector nibble (0..=15), an 8-bit immediate, a 12-bit memory address, or
/// a 4-bit sprite height. The legacy "call external program" encoding (0NNN)
/// has no variant; such words do not decode.
#[derive(Debug, Clone, Copy, PartialEq, Eq, Structural)]
pub enum Opcode {
    /// 0x00E0: clear the framebuffer.
    ClearDisplay,
    /// 0x00EE: return from a subroutine.
    Return,
    /// 0x1NNN: jump to a memory address.
    Jump { address: u16 },
    /// 0x2NNN: call the subroutine at a memory address.
    Call { address: u16 },
    /// 0x3XNN: skip the next instruction if register X equals the constant.
    SkipIfEqual { register: usize, value: u8 },
    /// 0x4XNN: skip the next instruction if register X differs from the constant.
    SkipIfNotEqual { register: usize, value: u8 },
    /// 0x5XY0: skip the next instruction if registers X and Y are equal.
    SkipIfRegistersEqual { register1: usize, register2: usize },
    /// 0x6XNN: set register X to the constant.
    SetRegister { register: usize, value: u8 },
    /// 0x7XNN: add the constant to register X, wrapping modulo 256.
    AddConstant { register: usize, value: u8 },
    /// 0x8XY0: copy register Y into register X.
    CopyRegister { source: usize, target: usize },
    /// 0x8XY1: set the target register to target | other.
    BitOr { target: usize, other: usize },
    /// 0x8XY2: set the target register to target & other.
    BitAnd { target: usize, other: usize },
    /// 0x8XY3: set the target register to target ^ other.
    BitXor { target: usize, other: usize },
    /// 0x8XY4: add the other register into the target; the flag register
    /// records whether a carry occurred.
    AddRegister { target: usize, other: usize },
    /// 0x8XY5: subtract the other register from the target; the flag register
    /// records whether no borrow occurred.
    SubtractRegister { target: usize, other: usize },
    /// 0x8XY7: subtract the target register from the other, storing into the
    /// target, with the same flag convention as SubtractRegister.
    AltSubtractRegister { target: usize, other: usize },
    /// 0x8XY8: shift the source register left by one into the target; the flag
    /// register captures the bit shifted out.
    LeftShift { target: usize, source: usize },
    /// 0x8XY6: shift the source register right by one into the target; the
    /// flag register captures the bit shifted out.
    RightShift { target: usize, source: usize },
    /// 0x9XY0: skip the next instruction if registers X and Y differ.
    SkipIfRegistersNotEqual { register1: usize, register2: usize },
    /// 0xANNN: set the index register.
    SetIndexRegister { value: u16 },
    /// 0xBNNN: jump to the address offset by register 0's value.
    OffsetJump { address: u16 },
    /// 0xCXNN: store a random byte masked by the immediate into register X.
    Rand { mask: u8, register: usize },
    /// 0xDXYN: draw an N-byte sprite read from memory at the index register
    /// onto the framebuffer at the coordinates held by registers X and Y.
    Display { x: usize, y: usize, height: u8 },
    /// 0xEX9E: skip the next instruction if the key named by register X is down.
    SkipIfKeyPressed { key: usize },
    /// 0xEXA1: skip the next instruction if the key named by register X is up.
    SkipIfKeyNotPressed { key: usize },
    /// 0xFX07: read the delay timer into register X.
    GetDelayTimer { register: usize },
    /// 0xFX0A: suspend until a key-down event arrives, storing the key in
    /// register X.
    AwaitKeypress { register: usize },
    /// 0xFX15: set the delay timer from register X.
    SetDelayTimer { value: usize },
    /// 0xFX18: set the sound timer from register X.
    SetSoundTimer { value: usize },
    /// 0xFX1E: add register X's value to the index register.
    IncrementIndexRegister { register: usize },
    /// 0xFX29: point the index register at the built-in glyph for register X's
    /// low nibble.
    SetIndexToFont { register: usize },
    /// 0xFX33: write the decimal digits of register X's value to memory at the
    /// index register.
    StoreDecimal { register: usize },
    /// 0xFX55: copy registers 0..=X to memory starting at the index register.
    MemDump { max_register: usize },
    /// 0xFX65: load registers 0..=X from memory starting at the index register.
    MemLoad { max_register: usize },
}

/// The decoding function as a mathematical map: the canonical mask table.
///
/// Discrimination masks the high nibble first; the families sharing a high
/// nibble (0x0, 0x8, 0xE, 0xF) are disambiguated by a full-word or low-nibble
/// mask, and the 0x5XY0 / 0x9XY0 rows require their zero low nibble. A word
/// matching no row maps to `None`.
pub open spec fn spec_decode(opcode: u16) -> Option<Opcode> {
    if opcode == 0x00E0 {
        Some(Opcode::ClearDisplay)
    } else if opcode == 0x00EE {
        Some(Opcode::Return)
    } else if opcode & 0xF000 == 0x1000 {
        Some(Opcode::Jump { address: opcode & 0x0FFF })
    } else if opcode & 0xF000 == 0x2000 {
        Some(Opcode::Call { address: opcode & 0x0FFF })
    } else if opcode & 0xF000 == 0x3000 {
        Some(
            Opcode::SkipIfEqual {
                register: ((opcode & 0x0F00) >> 8) as usize,
                value: (opcode & 0x00FF) as u8,
            },
        )
    } else if opcode & 0xF000 == 0x4000 {
        Some(
            Opcode::SkipIfNotEqual {
                register: ((opcode & 0x0F00) >> 8) as usize,
                value: (opcode & 0x00FF) as u8,
            },
        )
    } else if opcode & 0xF00F == 0x5000 {
        Some(
            Opcode::SkipIfRegistersEqual {
                register1: ((opcode & 0x0F00) >> 8) as usize,
                register2: ((opcode & 0x00F0) >> 4) as usize,
            },
        )
    } else if opcode & 0xF000 == 0x6000 {
        Some(
            Opcode::SetRegister {
                register: ((opcode & 0x0F00) >> 8) as usize,
                value: (opcode & 0x00FF) as u8,
            },
        )
    } else if opcode & 0xF000 == 0x7000 {
        Some(
            Opcode::AddConstant {
                register: ((opcode & 0x0F00) >> 8) as usize,
                value: (opcode & 0x00FF) as u8,
            },
        )
    } else if opcode & 0xF00F == 0x8000 {
        Some(
            Opcode::CopyRegister {
                target: ((opcode & 0x0F00) >> 8) as usize,
                source: ((opcode & 0x00F0) >> 4) as usize,
            },
        )
    } else if opcode & 0xF00F == 0x8001 {
        Some(
            Opcode::BitOr {
                target: ((opcode & 0x0F00) >> 8) as usize,
                other: ((opcode & 0x00F0) >> 4) as usize,
            },
        )
    } else if opcode & 0xF00F == 0x8002 {
        Some(
            Opcode::BitAnd {
                target: ((opcode & 0x0F00) >> 8) as usize,
                other: ((opcode & 0x00F0) >> 4) as usize,
            },
        )
    } else if opcode & 0xF00F == 0x8003 {
        Some(
            Opcode::BitXor {
                target: ((opcode & 0x0F00) >> 8) as usize,
                other: ((opcode & 0x00F0) >> 4) as usize,
            },
        )
    } else if opcode & 0xF00F == 0x8004 {
        Some(
            Opcode::AddRegister {
                target: ((opcode & 0x0F00) >> 8) as usize,
                other: ((opcode & 0x00F0) >> 4) as usize,
            },
        )
    } else if opcode & 0xF00F == 0x8005 {
        Some(
            Opcode::SubtractRegister {
                target: ((opcode & 0x0F00) >> 8) as usize,
                other: ((opcode & 0x00F0) >> 4) as usize,
            },
        )
    } else if opcode & 0xF00F == 0x8006 {
        Some(
            Opcode::RightShift {
                target: ((opcode & 0x0F00) >> 8) as usize,
                source: ((opcode & 0x00F0) >> 4) as usize,
            },
        )
    } else if opcode & 0xF00F == 0x8007 {
        Some(
            Opcode::AltSubtractRegister {
                target: ((opcode & 0x0F00) >> 8) as usize,
                other: ((opcode & 0x00F0) >> 4) as usize,
            },
        )
    } else if opcode & 0xF00F == 0x8008 {
        Some(
            Opcode::LeftShift {
                target: ((opcode & 0x0F00) >> 8) as usize,
                source: ((opcode & 0x00F0) >> 4) as usize,
            },
        )
    } else if opcode & 0xF00F == 0x9000 {
        Some(
            Opcode::SkipIfRegistersNotEqual {
                register1: ((opcode & 0x0F00) >> 8) as usize,
                register2: ((opcode & 0x00F0) >> 4) as usize,
            },
        )
    } else if opcode & 0xF000 == 0xA000 {
        Some(Opcode::SetIndexRegister { value: opcode & 0x0FFF })
    } else if opcode & 0xF000 == 0xB000 {
        Some(Opcode::OffsetJump { address: opcode & 0x0FFF })
    } else if opcode & 0xF000 == 0xC000 {
        Some(
            Opcode::Rand {
                mask: (opcode & 0x00FF) as u8,
                register: ((opcode & 0x0F00) >> 8) as usize,
            },
        )
    } else if opcode & 0xF000 == 0xD000 {
        Some(
            Opcode::Display {
                x: ((opcode & 0x0F00) >> 8) as usize,
                y: ((opcode & 0x00F0) >> 4) as usize,
                height: (opcode & 0x000F) as u8,
            },
        )
    } else if opcode & 0xF0FF == 0xE09E {
        Some(Opcode::SkipIfKeyPressed { key: ((opcode & 0x0F00) >> 8) as usize })
    } else if opcode & 0xF0FF == 0xE0A1 {
        Some(Opcode::SkipIfKeyNotPressed { key: ((opcode & 0x0F00) >> 8) as usize })
    } else if opcode & 0xF0FF == 0xF007 {
        Some(Opcode::GetDelayTimer { register: ((opcode & 0x0F00) >> 8) as usize })
    } else if opcode & 0xF0FF == 0xF00A {
        Some(Opcode::AwaitKeypress { register: ((opcode & 0x0F00) >> 8) as usize })
    } else if opcode & 0xF0FF == 0xF015 {
        Some(Opcode::SetDelayTimer { value: ((opcode & 0x0F00) >> 8) as usize })
    } else if opcode & 0xF0FF == 0xF018 {
        Some(Opcode::SetSoundTimer { value: ((opcode & 0x0F00) >> 8) as usize })
    } else if opcode & 0xF0FF == 0xF01E {
        Some(Opcode::IncrementIndexRegister { register: ((opcode & 0x0F00) >> 8) as usize })
    } else if opcode & 0xF0FF == 0xF029 {
        Some(Opcode::SetIndexToFont { register: ((opcode & 0x0F00) >> 8) as usize })
    } else if opcode & 0xF0FF == 0xF033 {
        Some(Opcode::StoreDecimal { register: ((opcode & 0x0F00) >> 8) as usize })
    } else if opcode & 0xF0FF == 0xF055 {
        Some(Opcode::MemDump { max_register: ((opcode & 0x0F00) >> 8) as usize })
    } else if opcode & 0xF0FF == 0xF065 {
        Some(Opcode::MemLoad { max_register: ((opcode & 0x0F00) >> 8) as usize })
    } else {
        None
    }
}

/// Decode a raw 16-bit instruction word.
///
/// Decoding is total (defined for every `u16`), deterministic (the result is
/// exactly `spec_decode(opcode)` on every call), and side-effect-free; a word
/// matching no row of the mask table returns `None`.
pub fn decode_opcode(opcode: u16) -> (decoded: Option<Opcode>)
    ensures
        decoded == spec_decode(opcode),
{
    if opcode == 0x00E0 {
        Some(Opcode::ClearDisplay)
    } else if opcode == 0x00EE {
        Some(Opcode::Return)
    } else if opcode & 0xF000 == 0x1000 {
        Some(Opcode::Jump { address: opcode & 0x0FFF })
    } else if opcode & 0xF000 == 0x2000 {
        Some(Opcode::Call { address: opcode & 0x0FFF })
    } else if opcode & 0xF000 == 0x3000 {
        Some(
            Opcode::SkipIfEqual {
                register: ((opcode & 0x0F00) >> 8) as usize,
                value: (opcode & 0x00FF) as u8,
            },
        )
    } else if opcode & 0xF000 == 0x4000 {
        Some(
            Opcode::SkipIfNotEqual {
                register: ((opcode & 0x0F00) >> 8) as usize,
                value: (opcode & 0x00FF) as u8,
            },
        )
    } else if opcode & 0xF00F == 0x5000 {
        Some(
            Opcode::SkipIfRegistersEqual {
                register1: ((opcode & 0x0F00) >> 8) as usize,
                register2: ((opcode & 0x00F0) >> 4) as usize,
            },
        )
    } else if opcode & 0xF000 == 0x6000 {
        Some(
            Opcode::SetRegister {
                register: ((opcode & 0x0F00) >> 8) as usize,
                value: (opcode & 0x00FF) as u8,
            },
        )
    } else if opcode & 0xF000 == 0x7000 {
        Some(
            Opcode::AddConstant {
                register: ((opcode & 0x0F00) >> 8) as usize,
                value: (opcode & 0x00FF) as u8,
            },
        )
    } else if opcode & 0xF00F == 0x8000 {
        Some(
            Opcode::CopyRegister {
                target: ((opcode & 0x0F00) >> 8) as usize,
                source: ((opcode & 0x00F0) >> 4) as usize,
            },
        )
    } else if opcode & 0xF00F == 0x8001 {
        Some(
            Opcode::BitOr {
                target: ((opcode & 0x0F00) >> 8) as usize,
                other: ((opcode & 0x00F0) >> 4) as usize,
            },
        )
    } else if opcode & 0xF00F == 0x8002 {
        Some(
            Opcode::BitAnd {
                target: ((opcode & 0x0F00) >> 8) as usize,
                other: ((opcode & 0x00F0) >> 4) as usize,
            },
        )
    } else if opcode & 0xF00F == 0x8003 {
        Some(
            Opcode::BitXor {
                target: ((opcode & 0x0F00) >> 8) as usize,
                other: ((opcode & 0x00F0) >> 4) as usize,
            },
        )
    } else if opcode & 0xF00F == 0x8004 {
        Some(
            Opcode::AddRegister {
                target: ((opcode & 0x0F00) >> 8) as usize,
                other: ((opcode & 0x00F0) >> 4) as usize,
            },
        )
    } else if opcode & 0xF00F == 0x8005 {
        Some(
            Opcode::SubtractRegister {
                target: ((opcode & 0x0F00) >> 8) as usize,
                other: ((opcode & 0x00F0) >> 4) as usize,
            },
        )
    } else if opcode & 0xF00F == 0x8006 {
        Some(
            Opcode::RightShift {
                target: ((opcode & 0x0F00) >> 8) as usize,
                source: ((opcode & 0x00F0) >> 4) as usize,
            },
        )
    } else if opcode & 0xF00F == 0x8007 {
        Some(
            Opcode::AltSubtractRegister {
                target: ((opcode & 0x0F00) >> 8) as usize,
                other: ((opcode & 0x00F0) >> 4) as usize,
            },
        )
    } else if opcode & 0xF00F == 0x8008 {
        Some(
            Opcode::LeftShift {
                target: ((opcode & 0x0F00) >> 8) as usize,
                source: ((opcode & 0x00F0) >> 4) as usize,
            },
        )
    } else if opcode & 0xF00F == 0x9000 {
        Some(
            Opcode::SkipIfRegistersNotEqual {
                register1: ((opcode & 0x0F00) >> 8) as usize,
                register2: ((opcode & 0x00F0) >> 4) as usize,
            },
        )
    } else if opcode & 0xF000 == 0xA000 {
        Some(Opcode::SetIndexRegister { value: opcode & 0x0FFF })
    } else if opcode & 0xF000 == 0xB000 {
        Some(Opcode::OffsetJump { address: opcode & 0x0FFF })
    } else if opcode & 0xF000 == 0xC000 {
        Some(
            Opcode::Rand {
                mask: (opcode & 0x00FF) as u8,
                register: ((opcode & 0x0F00) >> 8) as usize,
            },
        )
    } else if opcode & 0xF000 == 0xD000 {
        Some(
            Opcode::Display {
                x: ((opcode & 0x0F00) >> 8) as usize,
                y: ((opcode & 0x00F0) >> 4) as usize,
                height: (opcode & 0x000F) as u8,
            },
        )
    } else if opcode & 0xF0FF == 0xE09E {
        Some(Opcode::SkipIfKeyPressed { key: ((opcode & 0x0F00) >> 8) as usize })
    } else if opcode & 0xF0FF == 0xE0A1 {
        Some(Opcode::SkipIfKeyNotPressed { key: ((opcode & 0x0F00) >> 8) as usize })
    } else if opcode & 0xF0FF == 0xF007 {
        Some(Opcode::GetDelayTimer { register: ((opcode & 0x0F00) >> 8) as usize })
    } else if opcode & 0xF0FF == 0xF00A {
        Some(Opcode::AwaitKeypress { register: ((opcode & 0x0F00) >> 8) as usize })
    } else if opcode & 0xF0FF == 0xF015 {
        Some(Opcode::SetDelayTimer { value: ((opcode & 0x0F00) >> 8) as usize })
    } else if opcode & 0xF0FF == 0xF018 {
        Some(Opcode::SetSoundTimer { value: ((opcode & 0x0F00) >> 8) as usize })
    } else if opcode & 0xF0FF == 0xF01E {
        Some(Opcode::IncrementIndexRegister { register: ((opcode & 0x0F00) >> 8) as usize })
    } else if opcode & 0xF0FF == 0xF029 {
        Some(Opcode::SetIndexToFont { register: ((opcode & 0x0F00) >> 8) as usize })
    } else if opcode & 0xF0FF == 0xF033 {
        Some(Opcode::StoreDecimal { register: ((opcode & 0x0F00) >> 8) as usize })
    } else if opcode & 0xF0FF == 0xF055 {
        Some(Opcode::MemDump { max_register: ((opcode & 0x0F00) >> 8) as usize })
    } else if opcode & 0xF0FF == 0xF065 {
        Some(Opcode::MemLoad { max_register: ((opcode & 0x0F00) >> 8) as usize })
    } else {
        None
    }
}

/// Whether an instruction's operands fit the bit fields of its mask-table
/// row: register selectors and the sprite height in 4 bits, addresses in 12.
pub open spec fn opcode_wf(op: Opcode) -> bool {
    match op {
        Opcode::ClearDisplay => true,
        Opcode::Return => true,
        Opcode::Jump { address } => address < 0x1000,
        Opcode::Call { address } => address < 0x1000,
        Opcode::SkipIfEqual { register, value } => register < 16,
        Opcode::SkipIfNotEqual { register, value } => register < 16,
        Opcode::SkipIfRegistersEqual { register1, register2 } => register1 < 16 && register2 < 16,
        Opcode::SetRegister { register, value } => register < 16,
        Opcode::AddConstant { register, value } => register < 16,
        Opcode::CopyRegister { target, source } => target < 16 && source < 16,
        Opcode::BitOr { target, other } => target < 16 && other < 16,
        Opcode::BitAnd { target, other } => target < 16 && other < 16,
        Opcode::BitXor { target, other } => target < 16 && other < 16,
        Opcode::AddRegister { target, other } => target < 16 && other < 16,
        Opcode::SubtractRegister { target, other } => target < 16 && other < 16,
        Opcode::RightShift { target, source } => target < 16 && source < 16,
        Opcode::AltSubtractRegister { target, other } => target < 16 && other < 16,
        Opcode::LeftShift { target, source } => target < 16 && source < 16,
        Opcode::SkipIfRegistersNotEqual { register1, register2 } => register1 < 16 && register2 < 16,
        Opcode::SetIndexRegister { value } => value < 0x1000,
        Opcode::OffsetJump { address } => address < 0x1000,
        Opcode::Rand { register, mask } => register < 16,
        Opcode::Display { x, y, height } => x < 16 && y < 16 && height < 16,
        Opcode::SkipIfKeyPressed { key } => key < 16,
        Opcode::SkipIfKeyNotPressed { key } => key < 16,
        Opcode::GetDelayTimer { register } => register < 16,
        Opcode::AwaitKeypress { register } => register < 16,
        Opcode::SetDelayTimer { value } => value < 16,
        Opcode::SetSoundTimer { value } => value < 16,
        Opcode::IncrementIndexRegister { register } => register < 16,
        Opcode::SetIndexToFont { register } => register < 16,
        Opcode::StoreDecimal { register } => register < 16,
        Opcode::MemDump { max_register } => max_register < 16,
        Opcode::MemLoad { max_register } => max_register < 16,
    }
}

/// The word that assembles an instruction's operands into its mask-table row.
pub open spec fn spec_encode(op: Opcode) -> u16 {
    match op {
        Opcode::ClearDisplay => 0x00E0u16,
        Opcode::Return => 0x00EEu16,
        Opcode::Jump { address } => 0x1000u16 | address,
        Opcode::Call { address } => 0x2000u16 | address,
        Opcode::SkipIfEqual { register, value } => 0x3000u16 | ((register as u16) << 8) | (value as u16),
        Opcode::SkipIfNotEqual { register, value } => 0x4000u16 | ((register as u16) << 8) | (value as u16),
        Opcode::SkipIfRegistersEqual { register1, register2 } => 0x5000u16 | ((register1 as u16) << 8) | ((register2 as u16) << 4),
        Opcode::SetRegister { register, value } => 0x6000u16 | ((register as u16) << 8) | (value as u16),
        Opcode::AddConstant { register, value } => 0x7000u16 | ((register as u16) << 8) | (value as u16),
        Opcode::CopyRegister { target, source } => 0x8000u16 | ((target as u16) << 8) | ((source as u16) << 4),
        Opcode::BitOr { target, other } => 0x8001u16 | ((target as u16) << 8) | ((other as u16) << 4),
        Opcode::BitAnd { target, other } => 0x8002u16 | ((target as u16) << 8) | ((other as u16) << 4),
        Opcode::BitXor { target, other } => 0x8003u16 | ((target as u16) << 8) | ((other as u16) << 4),
        Opcode::AddRegister { target, other } => 0x8004u16 | ((target as u16) << 8) | ((other as u16) << 4),
        Opcode::SubtractRegister { target, other } => 0x8005u16 | ((target as u16) << 8) | ((other as u16) << 4),
        Opcode::RightShift { target, source } => 0x8006u16 | ((target as u16) << 8) | ((source as u16) << 4),
        Opcode::AltSubtractRegister { target, other } => 0x8007u16 | ((target as u16) << 8) | ((other as u16) << 4),
        Opcode::LeftShift { target, source } => 0x8008u16 | ((target as u16) << 8) | ((source as u16) << 4),
        Opcode::SkipIfRegistersNotEqual { register1, register2 } => 0x9000u16 | ((register1 as u16) << 8) | ((register2 as u16) << 4),
        Opcode::SetIndexRegister { value } => 0xA000u16 | value,
        Opcode::OffsetJump { address } => 0xB000u16 | address,
        Opcode::Rand { register, mask } => 0xC000u16 | ((register as u16) << 8) | (mask as u16),
        Opcode::Display { x, y, height } => 0xD000u16 | ((x as u16) << 8) | ((y as u16) << 4) | (height as u16),
        Opcode::SkipIfKeyPressed { key } => 0xE09Eu16 | ((key as u16) << 8),
        Opcode::SkipIfKeyNotPressed { key } => 0xE0A1u16 | ((key as u16) << 8),
        Opcode::GetDelayTimer { register } => 0xF007u16 | ((register as u16) << 8),
        Opcode::AwaitKeypress { register } => 0xF00Au16 | ((register as u16) << 8),
        Opcode::SetDelayTimer { value } => 0xF015u16 | ((value as u16) << 8),
        Opcode::SetSoundTimer { value } => 0xF018u16 | ((value as u16) << 8),
        Opcode::IncrementIndexRegister { register } => 0xF01Eu16 | ((register as u16) << 8),
        Opcode::SetIndexToFont { register } => 0xF029u16 | ((register as u16) << 8),
        Opcode::StoreDecimal { register } => 0xF033u16 | ((register as u16) << 8),
        Opcode::MemDump { max_register } => 0xF055u16 | ((max_register as u16) << 8),
        Opcode::MemLoad { max_register } => 0xF065u16 | ((max_register as u16) << 8),
    }
}

/// Law: round-trip. Assembling a word from a mask-table row's operands and
/// decoding it recovers exactly those operands: every well-formed
/// instruction is the unique decoding of its own encoding.
pub proof fn lemma_encode_decode_roundtrip(op: Opcode)
    requires
        opcode_wf(op),
    ensures
        spec_decode(spec_encode(op)) == Some(op),
{
    let w = spec_encode(op);
    match op {
        Opcode::ClearDisplay => {},
        Opcode::Return => {},
        Opcode::Jump { address } => {
            assert({
                &&& w != 0x00E0
                &&& w != 0x00EE
                &&& w & 0xF000 == 0x1000
                &&& w & 0x0FFF == address
            }) by (bit_vector)
                requires
                    w == 0x1000u16 | address,
                    address < 0x1000,
            ;
        },
        Opcode::Call { address } => {
            assert({
                &&& w != 0x00E0
                &&& w != 0x00EE
                &&& w & 0xF000 != 0x1000
                &&& w & 0xF000 == 0x2000
                &&& w & 0x0FFF == address
            }) by (bit_vector)
                requires
                    w == 0x2000u16 | address,
                    address < 0x1000,
            ;
        },
        Opcode::SkipIfEqual { register, value } => {
            assert({
                &&& w != 0x00E0
                &&& w != 0x00EE
                &&& w & 0xF000 != 0x1000
                &&& w & 0xF000 != 0x2000
                &&& w & 0xF000 == 0x3000
                &&& ((w & 0x0F00) >> 8) as usize == register
                &&& (w & 0x00FF) as u8 == value
            }) by (bit_vector)
                requires
                    w == 0x3000u16 | ((register as u16) << 8) | (value as u16),
                    register < 16,
            ;
        },
        Opcode::SkipIfNotEqual { register, value } => {
            assert({
                &&& w != 0x00E0
                &&& w != 0x00EE
                &&& w & 0xF000 != 0x1000
                &&& w & 0xF000 != 0x2000
                &&& w & 0xF000 != 0x3000
                &&& w & 0xF000 == 0x4000
                &&& ((w & 0x0F00) >> 8) as usize == register
                &&& (w & 0x00FF) as u8 == value
            }) by (bit_vector)
                requires
                    w == 0x4000u16 | ((register as u16) << 8) | (value as u16),
                    register < 16,
            ;
        },
        Opcode::SkipIfRegistersEqual { register1, register2 } => {
            assert({
                &&& w != 0x00E0
                &&& w != 0x00EE
                &&& w & 0xF000 != 0x1000
                &&& w & 0xF000 != 0x2000
                &&& w & 0xF000 != 0x3000
                &&& w & 0xF000 != 0x4000
                &&& w & 0xF00F == 0x5000
                &&& ((w & 0x0F00) >> 8) as usize == register1
                &&& ((w & 0x00F0) >> 4) as usize == register2
            }) by (bit_vector)
                requires
                    w == 0x5000u16 | ((register1 as u16) << 8) | ((register2 as u16) << 4),
                    register1 < 16,
                    register2 < 16,
            ;
        },
        Opcode::SetRegister { register, value } => {
            assert({
                &&& w != 0x00E0
                &&& w != 0x00EE
                &&& w & 0xF000 != 0x1000
                &&& w & 0xF000 != 0x2000
                &&& w & 0xF000 != 0x3000
                &&& w & 0xF000 != 0x4000
                &&& w & 0xF00F != 0x5000
                &&& w & 0xF000 == 0x6000
                &&& ((w & 0x0F00) >> 8) as usize == register
                &&& (w & 0x00FF) as u8 == value
            }) by (bit_vector)
                requires
                    w == 0x6000u16 | ((register as u16) << 8) | (value as u16),
                    register < 16,
            ;
        },
        Opcode::AddConstant { register, value } => {
            assert({
                &&& w != 0x00E0
                &&& w != 0x00EE
                &&& w & 0xF000 != 0x1000
                &&& w & 0xF000 != 0x2000
                &&& w & 0xF000 != 0x3000
                &&& w & 0xF000 != 0x4000
                &&& w & 0xF00F != 0x5000
                &&& w & 0xF000 != 0x6000
                &&& w & 0xF000 == 0x7000
                &&& ((w & 0x0F00) >> 8) as usize == register
                &&& (w & 0x00FF) as u8 == value
            }) by (bit_vector)
                requires
                    w == 0x7000u16 | ((register as u16) << 8) | (value as u16),
                    register < 16,
            ;
        },
        Opcode::CopyRegister { target, source } => {
            assert({
                &&& w != 0x00E0
                &&& w != 0x00EE
                &&& w & 0xF000 != 0x1000
                &&& w & 0xF000 != 0x2000
                &&& w & 0xF000 != 0x3000
                &&& w & 0xF000 != 0x4000
                &&& w & 0xF00F != 0x5000
                &&& w & 0xF000 != 0x6000
                &&& w & 0xF000 != 0x7000
                &&& w & 0xF00F == 0x8000
                &&& ((w & 0x0F00) >> 8) as usize == target
                &&& ((w & 0x00F0) >> 4) as usize == source
            }) by (bit_vector)
                requires
                    w == 0x8000u16 | ((target as u16) << 8) | ((source as u16) << 4),
                    target < 16,
                    source < 16,
            ;
        },
        Opcode::BitOr { target, other } => {
            assert({
                &&& w != 0x00E0
                &&& w != 0x00EE
                &&& w & 0xF000 != 0x1000
                &&& w & 0xF000 != 0x2000
                &&& w & 0xF000 != 0x3000
                &&& w & 0xF000 != 0x4000
                &&& w & 0xF00F != 0x5000
                &&& w & 0xF000 != 0x6000
                &&& w & 0xF000 != 0x7000
                &&& w & 0xF00F != 0x8000
                &&& w & 0xF00F == 0x8001
                &&& ((w & 0x0F00) >> 8) as usize == target
                &&& ((w & 0x00F0) >> 4) as usize == other
            }) by (bit_vector)
                requires
                    w == 0x8001u16 | ((target as u16) << 8) | ((other as u16) << 4),
                    target < 16,
                    other < 16,
            ;
        },
        Opcode::BitAnd { target, other } => {
            assert({
                &&& w != 0x00E0
                &&& w != 0x00EE
                &&& w & 0xF000 != 0x1000
                &&& w & 0xF000 != 0x2000
                &&& w & 0xF000 != 0x3000
                &&& w & 0xF000 != 0x4000
                &&& w & 0xF00F != 0x5000
                &&& w & 0xF000 != 0x6000
                &&& w & 0xF000 != 0x7000
                &&& w & 0xF00F != 0x8000
                &&& w & 0xF00F != 0x8001
                &&& w & 0xF00F == 0x8002
                &&& ((w & 0x0F00) >> 8) as usize == target
                &&& ((w & 0x00F0) >> 4) as usize == other
            }) by (bit_vector)
                requires
                    w == 0x8002u16 | ((target as u16) << 8) | ((other as u16) << 4),
                    target < 16,
                    other < 16,
            ;
        },
        Opcode::BitXor { target, other } => {
            assert({
                &&& w != 0x00E0
                &&& w != 0x00EE
                &&& w & 0xF000 != 0x1000
                &&& w & 0xF000 != 0x2000
                &&& w & 0xF000 != 0x3000
                &&& w & 0xF000 != 0x4000
                &&& w & 0xF00F != 0x5000
                &&& w & 0xF000 != 0x6000
                &&& w & 0xF000 != 0x7000
                &&& w & 0xF00F != 0x8000
                &&& w & 0xF00F != 0x8001
                &&& w & 0xF00F != 0x8002
                &&& w & 0xF00F == 0x8003
                &&& ((w & 0x0F00) >> 8) as usize == target
                &&& ((w & 0x00F0) >> 4) as usize == other
            }) by (bit_vector)
                requires
                    w == 0x8003u16 | ((target as u16) << 8) | ((other as u16) << 4),
                    target < 16,
                    other < 16,
            ;
        },
        Opcode::AddRegister { target, other } => {
            assert({
                &&& w != 0x00E0
                &&& w != 0x00EE
                &&& w & 0xF000 != 0x1000
                &&& w & 0xF000 != 0x2000
                &&& w & 0xF000 != 0x3000
                &&& w & 0xF000 != 0x4000
                &&& w & 0xF00F != 0x5000
                &&& w & 0xF000 != 0x6000
                &&& w & 0xF000 != 0x7000
                &&& w & 0xF00F != 0x8000
                &&& w & 0xF00F != 0x8001
                &&& w & 0xF00F != 0x8002
                &&& w & 0xF00F != 0x8003
                &&& w & 0xF00F == 0x8004
                &&& ((w & 0x0F00) >> 8) as usize == target
                &&& ((w & 0x00F0) >> 4) as usize == other
            }) by (bit_vector)
                requires
                    w == 0x8004u16 | ((target as u16) << 8) | ((other as u16) << 4),
                    target < 16,
                    other < 16,
            ;
        },
        Opcode::SubtractRegister { target, other } => {
            assert({
                &&& w != 0x00E0
                &&& w != 0x00EE
                &&& w & 0xF000 != 0x1000
                &&& w & 0xF000 != 0x2000
                &&& w & 0xF000 != 0x3000
                &&& w & 0xF000 != 0x4000
                &&& w & 0xF00F != 0x5000
                &&& w & 0xF000 != 0x6000
                &&& w & 0xF000 != 0x7000
                &&& w & 0xF00F != 0x8000
                &&& w & 0xF00F != 0x8001
                &&& w & 0xF00F != 0x8002
                &&& w & 0xF00F != 0x8003
                &&& w & 0xF00F != 0x8004
                &&& w & 0xF00F == 0x8005
                &&& ((w & 0x0F00) >> 8) as usize == target
                &&& ((w & 0x00F0) >> 4) as usize == other
            }) by (bit_vector)
                requires
                    w == 0x8005u16 | ((target as u16) << 8) | ((other as u16) << 4),
                    target < 16,
                    other < 16,
            ;
        },
        Opcode::RightShift { target, source } => {
            assert({
                &&& w != 0x00E0
                &&& w != 0x00EE
                &&& w & 0xF000 != 0x1000
                &&& w & 0xF000 != 0x2000
                &&& w & 0xF000 != 0x3000
                &&& w & 0xF000 != 0x4000
                &&& w & 0xF00F != 0x5000
                &&& w & 0xF000 != 0x6000
                &&& w & 0xF000 != 0x7000
                &&& w & 0xF00F != 0x8000
                &&& w & 0xF00F != 0x8001
                &&& w & 0xF00F != 0x8002
                &&& w & 0xF00F != 0x8003
                &&& w & 0xF00F != 0x8004
                &&& w & 0xF00F != 0x8005
                &&& w & 0xF00F == 0x8006
                &&& ((w & 0x0F00) >> 8) as usize == target
                &&& ((w & 0x00F0) >> 4) as usize == source
            }) by (bit_vector)
                requires
                    w == 0x8006u16 | ((target as u16) << 8) | ((source as u16) << 4),
                    target < 16,
                    source < 16,
            ;
        },
        Opcode::AltSubtractRegister { target, other } => {
            assert({
                &&& w != 0x00E0
                &&& w != 0x00EE
                &&& w & 0xF000 != 0x1000
                &&& w & 0xF000 != 0x2000
                &&& w & 0xF000 != 0x3000
                &&& w & 0xF000 != 0x4000
                &&& w & 0xF00F != 0x5000
                &&& w & 0xF000 != 0x6000
                &&& w & 0xF000 != 0x7000
                &&& w & 0xF00F != 0x8000
                &&& w & 0xF00F != 0x8001
                &&& w & 0xF00F != 0x8002
                &&& w & 0xF00F != 0x8003
                &&& w & 0xF00F != 0x8004
                &&& w & 0xF00F != 0x8005
                &&& w & 0xF00F != 0x8006
                &&& w & 0xF00F == 0x8007
                &&& ((w & 0x0F00) >> 8) as usize == target
                &&& ((w & 0x00F0) >> 4) as usize == other
            }) by (bit_vector)
                requires
                    w == 0x8007u16 | ((target as u16) << 8) | ((other as u16) << 4),
                    target < 16,
                    other < 16,
            ;
        },
        Opcode::LeftShift { target, source } => {
            assert({
                &&& w != 0x00E0
                &&& w != 0x00EE
                &&& w & 0xF000 != 0x1000
                &&& w & 0xF000 != 0x2000
                &&& w & 0xF000 != 0x3000
                &&& w & 0xF000 != 0x4000
                &&& w & 0xF00F != 0x5000
                &&& w & 0xF000 != 0x6000
                &&& w & 0xF000 != 0x7000
                &&& w & 0xF00F != 0x8000
                &&& w & 0xF00F != 0x8001
                &&& w & 0xF00F != 0x8002
                &&& w & 0xF00F != 0x8003
                &&& w & 0xF00F != 0x8004
                &&& w & 0xF00F != 0x8005
                &&& w & 0xF00F != 0x8006
                &&& w & 0xF00F != 0x8007
                &&& w & 0xF00F == 0x8008
                &&& ((w & 0x0F00) >> 8) as usize == target
                &&& ((w & 0x00F0) >> 4) as usize == source
            }) by (bit_vector)
                requires
                    w == 0x8008u16 | ((target as u16) << 8) | ((source as u16) << 4),
                    target < 16,
                    source < 16,
            ;
        },
        Opcode::SkipIfRegistersNotEqual { register1, register2 } => {
            assert({
                &&& w != 0x00E0
                &&& w != 0x00EE
                &&& w & 0xF000 != 0x1000
                &&& w & 0xF000 != 0x2000
                &&& w & 0xF000 != 0x3000
                &&& w & 0xF000 != 0x4000
                &&& w & 0xF00F != 0x5000
                &&& w & 0xF000 != 0x6000
                &&& w & 0xF000 != 0x7000
                &&& w & 0xF00F != 0x8000
                &&& w & 0xF00F != 0x8001
                &&& w & 0xF00F != 0x8002
                &&& w & 0xF00F != 0x8003
                &&& w & 0xF00F != 0x8004
                &&& w & 0xF00F != 0x8005
                &&& w & 0xF00F != 0x8006
                &&& w & 0xF00F != 0x8007
                &&& w & 0xF00F != 0x8008
                &&& w & 0xF00F == 0x9000
                &&& ((w & 0x0F00) >> 8) as usize == register1
                &&& ((w & 0x00F0) >> 4) as usize == register2
            }) by (bit_vector)
                requires
                    w == 0x9000u16 | ((register1 as u16) << 8) | ((register2 as u16) << 4),
                    register1 < 16,
                    register2 < 16,
            ;
        },
        Opcode::SetIndexRegister { value } => {
            assert({
                &&& w != 0x00E0
                &&& w != 0x00EE
                &&& w & 0xF000 != 0x1000
                &&& w & 0xF000 != 0x2000
                &&& w & 0xF000 != 0x3000
                &&& w & 0xF000 != 0x4000
                &&& w & 0xF00F != 0x5000
                &&& w & 0xF000 != 0x6000
                &&& w & 0xF000 != 0x7000
                &&& w & 0xF00F != 0x8000
                &&& w & 0xF00F != 0x8001
                &&& w & 0xF00F != 0x8002
                &&& w & 0xF00F != 0x8003
                &&& w & 0xF00F != 0x8004
                &&& w & 0xF00F != 0x8005
                &&& w & 0xF00F != 0x8006
                &&& w & 0xF00F != 0x8007
                &&& w & 0xF00F != 0x8008
                &&& w & 0xF00F != 0x9000
                &&& w & 0xF000 == 0xA000
                &&& w & 0x0FFF == value
            }) by (bit_vector)
                requires
                    w == 0xA000u16 | value,
                    value < 0x1000,
            ;
        },
        Opcode::OffsetJump { address } => {
            assert({
                &&& w != 0x00E0
                &&& w != 0x00EE
                &&& w & 0xF000 != 0x1000
                &&& w & 0xF000 != 0x2000
                &&& w & 0xF000 != 0x3000
                &&& w & 0xF000 != 0x4000
                &&& w & 0xF00F != 0x5000
                &&& w & 0xF000 != 0x6000
                &&& w & 0xF000 != 0x7000
                &&& w & 0xF00F != 0x8000
                &&& w & 0xF00F != 0x8001
                &&& w & 0xF00F != 0x8002
                &&& w & 0xF00F != 0x8003
                &&& w & 0xF00F != 0x8004
                &&& w & 0xF00F != 0x8005
                &&& w & 0xF00F != 0x8006
                &&& w & 0xF00F != 0x8007
                &&& w & 0xF00F != 0x8008
                &&& w & 0xF00F != 0x9000
                &&& w & 0xF000 != 0xA000
                &&& w & 0xF000 == 0xB000
                &&& w & 0x0FFF == address
            }) by (bit_vector)
                requires
                    w == 0xB000u16 | address,
                    address < 0x1000,
            ;
        },
        Opcode::Rand { register, mask } => {
            assert({
                &&& w != 0x00E0
                &&& w != 0x00EE
                &&& w & 0xF000 != 0x1000
                &&& w & 0xF000 != 0x2000
                &&& w & 0xF000 != 0x3000
                &&& w & 0xF000 != 0x4000
                &&& w & 0xF00F != 0x5000
                &&& w & 0xF000 != 0x6000
                &&& w & 0xF000 != 0x7000
                &&& w & 0xF00F != 0x8000
                &&& w & 0xF00F != 0x8001
                &&& w & 0xF00F != 0x8002
                &&& w & 0xF00F != 0x8003
                &&& w & 0xF00F != 0x8004
                &&& w & 0xF00F != 0x8005
                &&& w & 0xF00F != 0x8006
                &&& w & 0xF00F != 0x8007
                &&& w & 0xF00F != 0x8008
                &&& w & 0xF00F != 0x9000
                &&& w & 0xF000 != 0xA000
                &&& w & 0xF000 != 0xB000
                &&& w & 0xF000 == 0xC000
                &&& ((w & 0x0F00) >> 8) as usize == register
                &&& (w & 0x00FF) as u8 == mask
            }) by (bit_vector)
                requires
                    w == 0xC000u16 | ((register as u16) << 8) | (mask as u16),
                    register < 16,
            ;
        },
        Opcode::Display { x, y, height } => {
            assert({
                &&& w != 0x00E0
                &&& w != 0x00EE
                &&& w & 0xF000 != 0x1000
                &&& w & 0xF000 != 0x2000
                &&& w & 0xF000 != 0x3000
                &&& w & 0xF000 != 0x4000
                &&& w & 0xF00F != 0x5000
                &&& w & 0xF000 != 0x6000
                &&& w & 0xF000 != 0x7000
                &&& w & 0xF00F != 0x8000
                &&& w & 0xF00F != 0x8001
                &&& w & 0xF00F != 0x8002
                &&& w & 0xF00F != 0x8003
                &&& w & 0xF00F != 0x8004
                &&& w & 0xF00F != 0x8005
                &&& w & 0xF00F != 0x8006
                &&& w & 0xF00F != 0x8007
                &&& w & 0xF00F != 0x8008
                &&& w & 0xF00F != 0x9000
                &&& w & 0xF000 != 0xA000
                &&& w & 0xF000 != 0xB000
                &&& w & 0xF000 != 0xC000
                &&& w & 0xF000 == 0xD000
                &&& ((w & 0x0F00) >> 8) as usize == x
                &&& ((w & 0x00F0) >> 4) as usize == y
                &&& (w & 0x000F) as u8 == height
            }) by (bit_vector)
                requires
                    w == 0xD000u16 | ((x as u16) << 8) | ((y as u16) << 4) | (height as u16),
                    x < 16,
                    y < 16,
                    height < 16,
            ;
        },
        Opcode::SkipIfKeyPressed { key } => {
            assert({
                &&& w != 0x00E0
                &&& w != 0x00EE
                &&& w & 0xF000 != 0x1000
                &&& w & 0xF000 != 0x2000
                &&& w & 0xF000 != 0x3000
                &&& w & 0xF000 != 0x4000
                &&& w & 0xF00F != 0x5000
                &&& w & 0xF000 != 0x6000
                &&& w & 0xF000 != 0x7000
                &&& w & 0xF00F != 0x8000
                &&& w & 0xF00F != 0x8001
                &&& w & 0xF00F != 0x8002
                &&& w & 0xF00F != 0x8003
                &&& w & 0xF00F != 0x8004
                &&& w & 0xF00F != 0x8005
                &&& w & 0xF00F != 0x8006
                &&& w & 0xF00F != 0x8007
                &&& w & 0xF00F != 0x8008
                &&& w & 0xF00F != 0x9000
                &&& w & 0xF000 != 0xA000
                &&& w & 0xF000 != 0xB000
                &&& w & 0xF000 != 0xC000
                &&& w & 0xF000 != 0xD000
                &&& w & 0xF0FF == 0xE09E
                &&& ((w & 0x0F00) >> 8) as usize == key
            }) by (bit_vector)
                requires
                    w == 0xE09Eu16 | ((key as u16) << 8),
                    key < 16,
            ;
        },
        Opcode::SkipIfKeyNotPressed { key } => {
            assert({
                &&& w != 0x00E0
                &&& w != 0x00EE
                &&& w & 0xF000 != 0x1000
                &&& w & 0xF000 != 0x2000
                &&& w & 0xF000 != 0x3000
                &&& w & 0xF000 != 0x4000
                &&& w & 0xF00F != 0x5000
                &&& w & 0xF000 != 0x6000
                &&& w & 0xF000 != 0x7000
                &&& w & 0xF00F != 0x8000
                &&& w & 0xF00F != 0x8001
                &&& w & 0xF00F != 0x8002
                &&& w & 0xF00F != 0x8003
                &&& w & 0xF00F != 0x8004
                &&& w & 0xF00F != 0x8005
                &&& w & 0xF00F != 0x8006
                &&& w & 0xF00F != 0x8007
                &&& w & 0xF00F != 0x8008
                &&& w & 0xF00F != 0x9000
                &&& w & 0xF000 != 0xA000
                &&& w & 0xF000 != 0xB000
                &&& w & 0xF000 != 0xC000
                &&& w & 0xF000 != 0xD000
                &&& w & 0xF0FF != 0xE09E
                &&& w & 0xF0FF == 0xE0A1
                &&& ((w & 0x0F00) >> 8) as usize == key
            }) by (bit_vector)
                requires
                    w == 0xE0A1u16 | ((key as u16) << 8),
                    key < 16,
            ;
        },
        Opcode::GetDelayTimer { register } => {
            assert({
                &&& w != 0x00E0
                &&& w != 0x00EE
                &&& w & 0xF000 != 0x1000
                &&& w & 0xF000 != 0x2000
                &&& w & 0xF000 != 0x3000
                &&& w & 0xF000 != 0x4000
                &&& w & 0xF00F != 0x5000
                &&& w & 0xF000 != 0x6000
                &&& w & 0xF000 != 0x7000
                &&& w & 0xF00F != 0x8000
                &&& w & 0xF00F != 0x8001
                &&& w & 0xF00F != 0x8002
                &&& w & 0xF00F != 0x8003
                &&& w & 0xF00F != 0x8004
                &&& w & 0xF00F != 0x8005
                &&& w & 0xF00F != 0x8006
                &&& w & 0xF00F != 0x8007
                &&& w & 0xF00F != 0x8008
                &&& w & 0xF00F != 0x9000
                &&& w & 0xF000 != 0xA000
                &&& w & 0xF000 != 0xB000
                &&& w & 0xF000 != 0xC000
                &&& w & 0xF000 != 0xD000
                &&& w & 0xF0FF != 0xE09E
                &&& w & 0xF0FF != 0xE0A1
                &&& w & 0xF0FF == 0xF007
                &&& ((w & 0x0F00) >> 8) as usize == register
            }) by (bit_vector)
                requires
                    w == 0xF007u16 | ((register as u16) << 8),
                    register < 16,
            ;
        },
        Opcode::AwaitKeypress { register } => {
            assert({
                &&& w != 0x00E0
                &&& w != 0x00EE
                &&& w & 0xF000 != 0x1000
                &&& w & 0xF000 != 0x2000
                &&& w & 0xF000 != 0x3000
                &&& w & 0xF000 != 0x4000
                &&& w & 0xF00F != 0x5000
                &&& w & 0xF000 != 0x6000
                &&& w & 0xF000 != 0x7000
                &&& w & 0xF00F != 0x8000
                &&& w & 0xF00F != 0x8001
                &&& w & 0xF00F != 0x8002
                &&& w & 0xF00F != 0x8003
                &&& w & 0xF00F != 0x8004
                &&& w & 0xF00F != 0x8005
                &&& w & 0xF00F != 0x8006
                &&& w & 0xF00F != 0x8007
                &&& w & 0xF00F != 0x8008
                &&& w & 0xF00F != 0x9000
                &&& w & 0xF000 != 0xA000
                &&& w & 0xF000 != 0xB000
                &&& w & 0xF000 != 0xC000
                &&& w & 0xF000 != 0xD000
                &&& w & 0xF0FF != 0xE09E
                &&& w & 0xF0FF != 0xE0A1
                &&& w & 0xF0FF != 0xF007
                &&& w & 0xF0FF == 0xF00A
                &&& ((w & 0x0F00) >> 8) as usize == register
            }) by (bit_vector)
                requires
                    w == 0xF00Au16 | ((register as u16) << 8),
                    register < 16,
            ;
        },
        Opcode::SetDelayTimer { value } => {
            assert({
                &&& w != 0x00E0
                &&& w != 0x00EE
                &&& w & 0xF000 != 0x1000
                &&& w & 0xF000 != 0x2000
                &&& w & 0xF000 != 0x3000
                &&& w & 0xF000 != 0x4000
                &&& w & 0xF00F != 0x5000
                &&& w & 0xF000 != 0x6000
                &&& w & 0xF000 != 0x7000
                &&& w & 0xF00F != 0x8000
                &&& w & 0xF00F != 0x8001
                &&& w & 0xF00F != 0x8002
                &&& w & 0xF00F != 0x8003
                &&& w & 0xF00F != 0x8004
                &&& w & 0xF00F != 0x8005
                &&& w & 0xF00F != 0x8006
                &&& w & 0xF00F != 0x8007
                &&& w & 0xF00F != 0x8008
                &&& w & 0xF00F != 0x9000
                &&& w & 0xF000 != 0xA000
                &&& w & 0xF000 != 0xB000
                &&& w & 0xF000 != 0xC000
                &&& w & 0xF000 != 0xD000
                &&& w & 0xF0FF != 0xE09E
                &&& w & 0xF0FF != 0xE0A1
                &&& w & 0xF0FF != 0xF007
                &&& w & 0xF0FF != 0xF00A
                &&& w & 0xF0FF == 0xF015
                &&& ((w & 0x0F00) >> 8) as usize == value
            }) by (bit_vector)
                requires
                    w == 0xF015u16 | ((value as u16) << 8),
                    value < 16,
            ;
        },
        Opcode::SetSoundTimer { value } => {
            assert({
                &&& w != 0x00E0
                &&& w != 0x00EE
                &&& w & 0xF000 != 0x1000
                &&& w & 0xF000 != 0x2000
                &&& w & 0xF000 != 0x3000
                &&& w & 0xF000 != 0x4000
                &&& w & 0xF00F != 0x5000
                &&& w & 0xF000 != 0x6000
                &&& w & 0xF000 != 0x7000
                &&& w & 0xF00F != 0x8000
                &&& w & 0xF00F != 0x8001
                &&& w & 0xF00F != 0x8002
                &&& w & 0xF00F != 0x8003
                &&& w & 0xF00F != 0x8004
                &&& w & 0xF00F != 0x8005
                &&& w & 0xF00F != 0x8006
                &&& w & 0xF00F != 0x8007
                &&& w & 0xF00F != 0x8008
                &&& w & 0xF00F != 0x9000
                &&& w & 0xF000 != 0xA000
                &&& w & 0xF000 != 0xB000
                &&& w & 0xF000 != 0xC000
                &&& w & 0xF000 != 0xD000
                &&& w & 0xF0FF != 0xE09E
                &&& w & 0xF0FF != 0xE0A1
                &&& w & 0xF0FF != 0xF007
                &&& w & 0xF0FF != 0xF00A
                &&& w & 0xF0FF != 0xF015
                &&& w & 0xF0FF == 0xF018
                &&& ((w & 0x0F00) >> 8) as usize == value
            }) by (bit_vector)
                requires
                    w == 0xF018u16 | ((value as u16) << 8),
                    value < 16,
            ;
        },
        Opcode::IncrementIndexRegister { register } => {
            assert({
                &&& w != 0x00E0
                &&& w != 0x00EE
                &&& w & 0xF000 != 0x1000
                &&& w & 0xF000 != 0x2000
                &&& w & 0xF000 != 0x3000
                &&& w & 0xF000 != 0x4000
                &&& w & 0xF00F != 0x5000
                &&& w & 0xF000 != 0x6000
                &&& w & 0xF000 != 0x7000
                &&& w & 0xF00F != 0x8000
                &&& w & 0xF00F != 0x8001
                &&& w & 0xF00F != 0x8002
                &&& w & 0xF00F != 0x8003
                &&& w & 0xF00F != 0x8004
                &&& w & 0xF00F != 0x8005
                &&& w & 0xF00F != 0x8006
                &&& w & 0xF00F != 0x8007
                &&& w & 0xF00F != 0x8008
                &&& w & 0xF00F != 0x9000
                &&& w & 0xF000 != 0xA000
                &&& w & 0xF000 != 0xB000
                &&& w & 0xF000 != 0xC000
                &&& w & 0xF000 != 0xD000
                &&& w & 0xF0FF != 0xE09E
                &&& w & 0xF0FF != 0xE0A1
                &&& w & 0xF0FF != 0xF007
                &&& w & 0xF0FF != 0xF00A
                &&& w & 0xF0FF != 0xF015
                &&& w & 0xF0FF != 0xF018
                &&& w & 0xF0FF == 0xF01E
                &&& ((w & 0x0F00) >> 8) as usize == register
            }) by (bit_vector)
                requires
                    w == 0xF01Eu16 | ((register as u16) << 8),
                    register < 16,
            ;
        },
        Opcode::SetIndexToFont { register } => {
            assert({
                &&& w != 0x00E0
                &&& w != 0x00EE
                &&& w & 0xF000 != 0x1000
                &&& w & 0xF000 != 0x2000
                &&& w & 0xF000 != 0x3000
                &&& w & 0xF000 != 0x4000
                &&& w & 0xF00F != 0x5000
                &&& w & 0xF000 != 0x6000
                &&& w & 0xF000 != 0x7000
                &&& w & 0xF00F != 0x8000
                &&& w & 0xF00F != 0x8001
                &&& w & 0xF00F != 0x8002
                &&& w & 0xF00F != 0x8003
                &&& w & 0xF00F != 0x8004
                &&& w & 0xF00F != 0x8005
                &&& w & 0xF00F != 0x8006
                &&& w & 0xF00F != 0x8007
                &&& w & 0xF00F != 0x8008
                &&& w & 0xF00F != 0x9000
                &&& w & 0xF000 != 0xA000
                &&& w & 0xF000 != 0xB000
                &&& w & 0xF000 != 0xC000
                &&& w & 0xF000 != 0xD000
                &&& w & 0xF0FF != 0xE09E
                &&& w & 0xF0FF != 0xE0A1
                &&& w & 0xF0FF != 0xF007
                &&& w & 0xF0FF != 0xF00A
                &&& w & 0xF0FF != 0xF015
                &&& w & 0xF0FF != 0xF018
                &&& w & 0xF0FF != 0xF01E
                &&& w & 0xF0FF == 0xF029
                &&& ((w & 0x0F00) >> 8) as usize == register
            }) by (bit_vector)
                requires
                    w == 0xF029u16 | ((register as u16) << 8),
                    register < 16,
            ;
        },
        Opcode::StoreDecimal { register } => {
            assert({
                &&& w != 0x00E0
                &&& w != 0x00EE
                &&& w & 0xF000 != 0x1000
                &&& w & 0xF000 != 0x2000
                &&& w & 0xF000 != 0x3000
                &&& w & 0xF000 != 0x4000
                &&& w & 0xF00F != 0x5000
                &&& w & 0xF000 != 0x6000
                &&& w & 0xF000 != 0x7000
                &&& w & 0xF00F != 0x8000
                &&& w & 0xF00F != 0x8001
                &&& w & 0xF00F != 0x8002
                &&& w & 0xF00F != 0x8003
                &&& w & 0xF00F != 0x8004
                &&& w & 0xF00F != 0x8005
                &&& w & 0xF00F != 0x8006
                &&& w & 0xF00F != 0x8007
                &&& w & 0xF00F != 0x8008
                &&& w & 0xF00F != 0x9000
                &&& w & 0xF000 != 0xA000
                &&& w & 0xF000 != 0xB000
                &&& w & 0xF000 != 0xC000
                &&& w & 0xF000 != 0xD000
                &&& w & 0xF0FF != 0xE09E
                &&& w & 0xF0FF != 0xE0A1
                &&& w & 0xF0FF != 0xF007
                &&& w & 0xF0FF != 0xF00A
                &&& w & 0xF0FF != 0xF015
                &&& w & 0xF0FF != 0xF018
                &&& w & 0xF0FF != 0xF01E
                &&& w & 0xF0FF != 0xF029
                &&& w & 0xF0FF == 0xF033
                &&& ((w & 0x0F00) >> 8) as usize == register
            }) by (bit_vector)
                requires
                    w == 0xF033u16 | ((register as u16) << 8),
                    register < 16,
            ;
        },
        Opcode::MemDump { max_register } => {
            assert({
                &&& w != 0x00E0
                &&& w != 0x00EE
                &&& w & 0xF000 != 0x1000
                &&& w & 0xF000 != 0x2000
                &&& w & 0xF000 != 0x3000
                &&& w & 0xF000 != 0x4000
                &&& w & 0xF00F != 0x5000
                &&& w & 0xF000 != 0x6000
                &&& w & 0xF000 != 0x7000
                &&& w & 0xF00F != 0x8000
                &&& w & 0xF00F != 0x8001
                &&& w & 0xF00F != 0x8002
                &&& w & 0xF00F != 0x8003
                &&& w & 0xF00F != 0x8004
                &&& w & 0xF00F != 0x8005
                &&& w & 0xF00F != 0x8006
                &&& w & 0xF00F != 0x8007
                &&& w & 0xF00F != 0x8008
                &&& w & 0xF00F != 0x9000
                &&& w & 0xF000 != 0xA000
                &&& w & 0xF000 != 0xB000
                &&& w & 0xF000 != 0xC000
                &&& w & 0xF000 != 0xD000
                &&& w & 0xF0FF != 0xE09E
                &&& w & 0xF0FF != 0xE0A1
                &&& w & 0xF0FF != 0xF007
                &&& w & 0xF0FF != 0xF00A
                &&& w & 0xF0FF != 0xF015
                &&& w & 0xF0FF != 0xF018
                &&& w & 0xF0FF != 0xF01E
                &&& w & 0xF0FF != 0xF029
                &&& w & 0xF0FF != 0xF033
                &&& w & 0xF0FF == 0xF055
                &&& ((w & 0x0F00) >> 8) as usize == max_register
            }) by (bit_vector)
                requires
                    w == 0xF055u16 | ((max_register as u16) << 8),
                    max_register < 16,
            ;
        },
        Opcode::MemLoad { max_register } => {
            assert({
                &&& w != 0x00E0
                &&& w != 0x00EE
                &&& w & 0xF000 != 0x1000
                &&& w & 0xF000 != 0x2000
                &&& w & 0xF000 != 0x3000
                &&& w & 0xF000 != 0x4000
                &&& w & 0xF00F != 0x5000
                &&& w & 0xF000 != 0x6000
                &&& w & 0xF000 != 0x7000
                &&& w & 0xF00F != 0x8000
                &&& w & 0xF00F != 0x8001
                &&& w & 0xF00F != 0x8002
                &&& w & 0xF00F != 0x8003
                &&& w & 0xF00F != 0x8004
                &&& w & 0xF00F != 0x8005
                &&& w & 0xF00F != 0x8006
                &&& w & 0xF00F != 0x8007
                &&& w & 0xF00F != 0x8008
                &&& w & 0xF00F != 0x9000
                &&& w & 0xF000 != 0xA000
                &&& w & 0xF000 != 0xB000
                &&& w & 0xF000 != 0xC000
                &&& w & 0xF000 != 0xD000
                &&& w & 0xF0FF != 0xE09E
                &&& w & 0xF0FF != 0xE0A1
                &&& w & 0xF0FF != 0xF007
                &&& w & 0xF0FF != 0xF00A
                &&& w & 0xF0FF != 0xF015
                &&& w & 0xF0FF != 0xF018
                &&& w & 0xF0FF != 0xF01E
                &&& w & 0xF0FF != 0xF029
                &&& w & 0xF0FF != 0xF033
                &&& w & 0xF0FF != 0xF055
                &&& w & 0xF0FF == 0xF065
                &&& ((w & 0x0F00) >> 8) as usize == max_register
            }) by (bit_vector)
                requires
                    w == 0xF065u16 | ((max_register as u16) << 8),
                    max_register < 16,
            ;
        },
    }
}

} // verus!
