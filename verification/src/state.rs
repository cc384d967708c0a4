//! The mathematical model of the machine: a ghost state, its well-formedness
//! invariant, and the transition function giving the semantics of every
//! instruction and of one fetch-decode-execute cycle.

use crate::display::{
    blit, blit_collision, lemma_blit_involution, lemma_blit_second_collision, pixel_index,
    sprite_bit, GFX_SIZE,
};
use crate::opcode::{spec_decode, Opcode};
use vstd::prelude::*;

verus! {

/// Number of addressable memory bytes.
pub const MEM_SIZE: usize = 4096;

/// Number of general-purpose registers.
pub const NUM_REGISTERS: usize = 16;

/// Register 15, overloaded as the flag output of arithmetic, shift and
/// display instructions.
pub const FLAG_REGISTER: usize = 15;

/// Capacity of the return-address stack.
pub const STACK_SIZE: usize = 16;

/// Number of keypad keys.
pub const NUM_KEYS: usize = 16;

/// Base address of the built-in font glyphs in memory.
pub const FONT_BASE: usize = 0x50;

/// Size in bytes of one font glyph.
pub const FONT_GLYPH_SIZE: usize = 5;

/// The fatal conditions of the execution engine. Each terminates the current
/// execution stream; none is retried and the machine is left unchanged.
#[derive(Debug, Clone, Copy, PartialEq, Eq, Structural)]
pub enum Chip8Error {
    /// A register selector or sprite height outside its 4-bit range reached
    /// the execution engine: a decoder defect or a malformed hand-built
    /// instruction, never silently clamped.
    OperandOutOfRange,
    /// A Call would push beyond the 16-entry return-address stack.
    StackOverflow,
    /// A Return was executed with an empty return-address stack.
    StackUnderflow,
    /// The program counter does not reference two valid consecutive memory
    /// bytes.
    MemoryFetchOutOfBounds,
    /// A memory access derived from the index register runs past the end of
    /// memory.
    MemoryAccessOutOfBounds,
    /// A key index outside the 16-key keypad was used, either by a host key
    /// event or by a skip-on-key instruction reading a register above 15.
    KeyOutOfRange,
}

/// The machine state as mathematics: every storage cell of the machine,
/// with sequences in place of the executable vectors.
#[verifier::ext_equal]
pub ghost struct State {
    /// 4096 addressable bytes.
    pub memory: Seq<u8>,
    /// 16 general-purpose 8-bit registers.
    pub registers: Seq<u8>,
    /// 16-bit memory base address used by several instructions.
    pub index_register: u16,
    /// Address of the next instruction to fetch.
    pub program_counter: u16,
    /// 64x32 monochrome framebuffer, row-major.
    pub gfx_memory: Seq<bool>,
    /// 8-bit timer, decremented toward zero by the host's tick cadence.
    pub delay_timer: u8,
    /// 8-bit timer driving the beep, decremented like the delay timer.
    pub sound_timer: u8,
    /// Fixed-capacity return-address stack.
    pub stack: Seq<u16>,
    /// Number of occupied stack entries.
    pub stack_pointer: u8,
    /// Key-down state of the 16 keypad keys.
    pub keys: Seq<bool>,
    /// When a key await is pending: the register that receives the key.
    pub awaiting_key: Option<usize>,
    /// State of the pseudo-random generator feeding Rand.
    pub rand_state: u64,
}

impl State {
    /// Well-formedness: the fixed sizes of the machine's storage, the bounds
    /// of the stack pointer, and the register bound of a pending key await.
    pub open spec fn wf(self) -> bool {
        &&& self.memory.len() == MEM_SIZE
        &&& self.registers.len() == NUM_REGISTERS
        &&& self.gfx_memory.len() == GFX_SIZE
        &&& self.stack.len() == STACK_SIZE
        &&& self.keys.len() == NUM_KEYS
        &&& self.stack_pointer <= STACK_SIZE
        &&& match self.awaiting_key {
            Some(r) => r < NUM_REGISTERS,
            None => true,
        }
    }
}

/// 16-bit addition wrapping modulo 2^16.
pub open spec fn word_add(a: u16, b: u16) -> u16 {
    if a + b > 0xFFFF {
        (a + b - 0x10000) as u16
    } else {
        (a + b) as u16
    }
}

/// 16-bit subtraction wrapping modulo 2^16.
pub open spec fn word_sub(a: u16, b: u16) -> u16 {
    if a - b < 0 {
        (a - b + 0x10000) as u16
    } else {
        (a - b) as u16
    }
}

/// 8-bit addition wrapping modulo 256.
pub open spec fn byte_add(a: u8, b: u8) -> u8 {
    if a + b > 255 {
        (a + b - 256) as u8
    } else {
        (a + b) as u8
    }
}

/// 8-bit subtraction wrapping modulo 256.
pub open spec fn byte_sub(a: u8, b: u8) -> u8 {
    if a - b < 0 {
        (a - b + 256) as u8
    } else {
        (a - b) as u8
    }
}

/// The carry flag of an 8-bit addition: 1 when the unsigned sum exceeds 255.
pub open spec fn carry(a: u8, b: u8) -> u8 {
    if a + b > 255 {
        1
    } else {
        0
    }
}

/// The flag of an 8-bit subtraction `a - b`: 1 when no borrow occurs
/// (`a >= b`), 0 when a borrow occurs (`a < b`). This is the fixed borrow
/// flag convention of both subtract instructions.
pub open spec fn no_borrow(a: u8, b: u8) -> u8 {
    if a >= b {
        1
    } else {
        0
    }
}

/// One step of the xorshift pseudo-random generator feeding Rand.
pub open spec fn next_rand(s: u64) -> u64 {
    let a = s ^ (s << 13u64);
    let b = a ^ (a >> 7u64);
    b ^ (b << 17u64)
}

/// The random byte drawn from one generator step.
pub open spec fn rand_byte(s: u64) -> u8 {
    (next_rand(s) & 0xFF) as u8
}

/// One timer tick: each timer decrements when nonzero and stays at zero when
/// zero; a zero-valued timer never underflows.
pub open spec fn spec_tick(s: State) -> State {
    State {
        delay_timer: if s.delay_timer > 0 {
            (s.delay_timer - 1) as u8
        } else {
            0
        },
        sound_timer: if s.sound_timer > 0 {
            (s.sound_timer - 1) as u8
        } else {
            0
        },
        ..s
    }
}

/// Law: timers never underflow. A tick leaves a zero-valued timer at zero;
/// it never wraps below zero.
pub proof fn lemma_timers_never_underflow(s: State)
    ensures
        s.delay_timer == 0 ==> spec_tick(s).delay_timer == 0,
        s.sound_timer == 0 ==> spec_tick(s).sound_timer == 0,
{
}

/// The semantics of one instruction against a machine state.
///
/// The program counter is assumed to have been default-advanced by the driver
/// before execution, so a non-control instruction leaves it alone, a skip
/// instruction adds a further 2, and a control transfer overwrites it.
/// An out-of-range operand, a stack fault or an out-of-bounds memory access
/// is an error, and an error leaves the state unchanged.
pub open spec fn transition(s: State, op: Opcode) -> Result<State, Chip8Error> {
    match op {
        Opcode::ClearDisplay => Ok(
            State { gfx_memory: Seq::new(GFX_SIZE as nat, |p: int| false), ..s },
        ),
        Opcode::Return => {
            if s.stack_pointer == 0 {
                Err(Chip8Error::StackUnderflow)
            } else {
                Ok(
                    State {
                        program_counter: s.stack[s.stack_pointer - 1],
                        stack_pointer: (s.stack_pointer - 1) as u8,
                        ..s
                    },
                )
            }
        },
        Opcode::Jump { address } => Ok(State { program_counter: address, ..s }),
        Opcode::Call { address } => {
            if s.stack_pointer >= STACK_SIZE {
                Err(Chip8Error::StackOverflow)
            } else {
                Ok(
                    State {
                        stack: s.stack.update(s.stack_pointer as int, s.program_counter),
                        stack_pointer: (s.stack_pointer + 1) as u8,
                        program_counter: address,
                        ..s
                    },
                )
            }
        },
        Opcode::SkipIfEqual { register, value } => {
            if register >= NUM_REGISTERS {
                Err(Chip8Error::OperandOutOfRange)
            } else if s.registers[register as int] == value {
                Ok(State { program_counter: word_add(s.program_counter, 2), ..s })
            } else {
                Ok(s)
            }
        },
        Opcode::SkipIfNotEqual { register, value } => {
            if register >= NUM_REGISTERS {
                Err(Chip8Error::OperandOutOfRange)
            } else if s.registers[register as int] != value {
                Ok(State { program_counter: word_add(s.program_counter, 2), ..s })
            } else {
                Ok(s)
            }
        },
        Opcode::SkipIfRegistersEqual { register1, register2 } => {
            if register1 >= NUM_REGISTERS || register2 >= NUM_REGISTERS {
                Err(Chip8Error::OperandOutOfRange)
            } else if s.registers[register1 as int] == s.registers[register2 as int] {
                Ok(State { program_counter: word_add(s.program_counter, 2), ..s })
            } else {
                Ok(s)
            }
        },
        Opcode::SetRegister { register, value } => {
            if register >= NUM_REGISTERS {
                Err(Chip8Error::OperandOutOfRange)
            } else {
                Ok(State { registers: s.registers.update(register as int, value), ..s })
            }
        },
        Opcode::AddConstant { register, value } => {
            if register >= NUM_REGISTERS {
                Err(Chip8Error::OperandOutOfRange)
            } else {
                Ok(
                    State {
                        registers: s.registers.update(
                            register as int,
                            byte_add(s.registers[register as int], value),
                        ),
                        ..s
                    },
                )
            }
        },
        Opcode::CopyRegister { source, target } => {
            if target >= NUM_REGISTERS || source >= NUM_REGISTERS {
                Err(Chip8Error::OperandOutOfRange)
            } else {
                Ok(
                    State {
                        registers: s.registers.update(target as int, s.registers[source as int]),
                        ..s
                    },
                )
            }
        },
        Opcode::BitOr { target, other } => {
            if target >= NUM_REGISTERS || other >= NUM_REGISTERS {
                Err(Chip8Error::OperandOutOfRange)
            } else {
                Ok(
                    State {
                        registers: s.registers.update(
                            target as int,
                            s.registers[target as int] | s.registers[other as int],
                        ),
                        ..s
                    },
                )
            }
        },
        Opcode::BitAnd { target, other } => {
            if target >= NUM_REGISTERS || other >= NUM_REGISTERS {
                Err(Chip8Error::OperandOutOfRange)
            } else {
                Ok(
                    State {
                        registers: s.registers.update(
                            target as int,
                            s.registers[target as int] & s.registers[other as int],
                        ),
                        ..s
                    },
                )
            }
        },
        Opcode::BitXor { target, other } => {
            if target >= NUM_REGISTERS || other >= NUM_REGISTERS {
                Err(Chip8Error::OperandOutOfRange)
            } else {
                Ok(
                    State {
                        registers: s.registers.update(
                            target as int,
                            s.registers[target as int] ^ s.registers[other as int],
                        ),
                        ..s
                    },
                )
            }
        },
        Opcode::AddRegister { target, other } => {
            if target >= NUM_REGISTERS || other >= NUM_REGISTERS {
                Err(Chip8Error::OperandOutOfRange)
            } else {
                Ok(
                    State {
                        registers: s.registers.update(
                            target as int,
                            byte_add(s.registers[target as int], s.registers[other as int]),
                        ).update(
                            FLAG_REGISTER as int,
                            carry(s.registers[target as int], s.registers[other as int]),
                        ),
                        ..s
                    },
                )
            }
        },
        Opcode::SubtractRegister { target, other } => {
            if target >= NUM_REGISTERS || other >= NUM_REGISTERS {
                Err(Chip8Error::OperandOutOfRange)
            } else {
                Ok(
                    State {
                        registers: s.registers.update(
                            target as int,
                            byte_sub(s.registers[target as int], s.registers[other as int]),
                        ).update(
                            FLAG_REGISTER as int,
                            no_borrow(s.registers[target as int], s.registers[other as int]),
                        ),
                        ..s
                    },
                )
            }
        },
        Opcode::AltSubtractRegister { target, other } => {
            if target >= NUM_REGISTERS || other >= NUM_REGISTERS {
                Err(Chip8Error::OperandOutOfRange)
            } else {
                Ok(
                    State {
                        registers: s.registers.update(
                            target as int,
                            byte_sub(s.registers[other as int], s.registers[target as int]),
                        ).update(
                            FLAG_REGISTER as int,
                            no_borrow(s.registers[other as int], s.registers[target as int]),
                        ),
                        ..s
                    },
                )
            }
        },
        Opcode::LeftShift { target, source } => {
            if target >= NUM_REGISTERS || source >= NUM_REGISTERS {
                Err(Chip8Error::OperandOutOfRange)
            } else {
                Ok(
                    State {
                        registers: s.registers.update(
                            FLAG_REGISTER as int,
                            s.registers[source as int] >> 7u8,
                        ).update(target as int, s.registers[source as int] << 1u8),
                        ..s
                    },
                )
            }
        },
        Opcode::RightShift { target, source } => {
            if target >= NUM_REGISTERS || source >= NUM_REGISTERS {
                Err(Chip8Error::OperandOutOfRange)
            } else {
                Ok(
                    State {
                        registers: s.registers.update(
                            FLAG_REGISTER as int,
                            s.registers[source as int] & 1,
                        ).update(target as int, s.registers[source as int] >> 1u8),
                        ..s
                    },
                )
            }
        },
        Opcode::SkipIfRegistersNotEqual { register1, register2 } => {
            if register1 >= NUM_REGISTERS || register2 >= NUM_REGISTERS {
                Err(Chip8Error::OperandOutOfRange)
            } else if s.registers[register1 as int] != s.registers[register2 as int] {
                Ok(State { program_counter: word_add(s.program_counter, 2), ..s })
            } else {
                Ok(s)
            }
        },
        Opcode::SetIndexRegister { value } => Ok(State { index_register: value, ..s }),
        Opcode::OffsetJump { address } => Ok(
            State {
                program_counter: word_add(address, s.registers[0] as u16),
                ..s
            },
        ),
        Opcode::Rand { mask, register } => {
            if register >= NUM_REGISTERS {
                Err(Chip8Error::OperandOutOfRange)
            } else {
                Ok(
                    State {
                        registers: s.registers.update(
                            register as int,
                            rand_byte(s.rand_state) & mask,
                        ),
                        rand_state: next_rand(s.rand_state),
                        ..s
                    },
                )
            }
        },
        Opcode::Display { x, y, height } => {
            if x >= NUM_REGISTERS || y >= NUM_REGISTERS || height > 15 {
                Err(Chip8Error::OperandOutOfRange)
            } else if s.index_register as int + height as int > MEM_SIZE {
                Err(Chip8Error::MemoryAccessOutOfBounds)
            } else {
                let cx = s.registers[x as int] as int % 64;
                let cy = s.registers[y as int] as int % 32;
                let i = s.index_register as int;
                let hit = blit_collision(s.gfx_memory, s.memory, i, cx, cy, height as int);
                Ok(
                    State {
                        gfx_memory: blit(s.gfx_memory, s.memory, i, cx, cy, height as int),
                        registers: s.registers.update(
                            FLAG_REGISTER as int,
                            if hit {
                                1u8
                            } else {
                                0u8
                            },
                        ),
                        ..s
                    },
                )
            }
        },
        Opcode::SkipIfKeyPressed { key } => {
            if key >= NUM_REGISTERS {
                Err(Chip8Error::OperandOutOfRange)
            } else if s.registers[key as int] >= NUM_KEYS as u8 {
                Err(Chip8Error::KeyOutOfRange)
            } else if s.keys[s.registers[key as int] as int] {
                Ok(State { program_counter: word_add(s.program_counter, 2), ..s })
            } else {
                Ok(s)
            }
        },
        Opcode::SkipIfKeyNotPressed { key } => {
            if key >= NUM_REGISTERS {
                Err(Chip8Error::OperandOutOfRange)
            } else if s.registers[key as int] >= NUM_KEYS as u8 {
                Err(Chip8Error::KeyOutOfRange)
            } else if !s.keys[s.registers[key as int] as int] {
                Ok(State { program_counter: word_add(s.program_counter, 2), ..s })
            } else {
                Ok(s)
            }
        },
        Opcode::GetDelayTimer { register } => {
            if register >= NUM_REGISTERS {
                Err(Chip8Error::OperandOutOfRange)
            } else {
                Ok(State { registers: s.registers.update(register as int, s.delay_timer), ..s })
            }
        },
        Opcode::AwaitKeypress { register } => {
            if register >= NUM_REGISTERS {
                Err(Chip8Error::OperandOutOfRange)
            } else {
                Ok(
                    State {
                        awaiting_key: Some(register),
                        program_counter: word_sub(s.program_counter, 2),
                        ..s
                    },
                )
            }
        },
        Opcode::SetDelayTimer { value } => {
            if value >= NUM_REGISTERS {
                Err(Chip8Error::OperandOutOfRange)
            } else {
                Ok(State { delay_timer: s.registers[value as int], ..s })
            }
        },
        Opcode::SetSoundTimer { value } => {
            if value >= NUM_REGISTERS {
                Err(Chip8Error::OperandOutOfRange)
            } else {
                Ok(State { sound_timer: s.registers[value as int], ..s })
            }
        },
        Opcode::IncrementIndexRegister { register } => {
            if register >= NUM_REGISTERS {
                Err(Chip8Error::OperandOutOfRange)
            } else {
                Ok(
                    State {
                        index_register: word_add(
                            s.index_register,
                            s.registers[register as int] as u16,
                        ),
                        ..s
                    },
                )
            }
        },
        Opcode::SetIndexToFont { register } => {
            if register >= NUM_REGISTERS {
                Err(Chip8Error::OperandOutOfRange)
            } else {
                Ok(
                    State {
                        index_register: (FONT_BASE + FONT_GLYPH_SIZE * (
                        s.registers[register as int] as int % 16)) as u16,
                        ..s
                    },
                )
            }
        },
        Opcode::StoreDecimal { register } => {
            if register >= NUM_REGISTERS {
                Err(Chip8Error::OperandOutOfRange)
            } else if s.index_register as int + 3 > MEM_SIZE {
                Err(Chip8Error::MemoryAccessOutOfBounds)
            } else {
                let i = s.index_register as int;
                let v = s.registers[register as int] as int;
                Ok(
                    State {
                        memory: s.memory.update(i, (v / 100) as u8).update(
                            i + 1,
                            ((v / 10) % 10) as u8,
                        ).update(i + 2, (v % 10) as u8),
                        ..s
                    },
                )
            }
        },
        Opcode::MemDump { max_register } => {
            if max_register >= NUM_REGISTERS {
                Err(Chip8Error::OperandOutOfRange)
            } else if s.index_register as int + max_register as int + 1 > MEM_SIZE {
                Err(Chip8Error::MemoryAccessOutOfBounds)
            } else {
                let i = s.index_register as int;
                Ok(
                    State {
                        memory: Seq::new(
                            MEM_SIZE as nat,
                            |j: int|
                                if i <= j <= i + max_register {
                                    s.registers[j - i]
                                } else {
                                    s.memory[j]
                                },
                        ),
                        ..s
                    },
                )
            }
        },
        Opcode::MemLoad { max_register } => {
            if max_register >= NUM_REGISTERS {
                Err(Chip8Error::OperandOutOfRange)
            } else if s.index_register as int + max_register as int + 1 > MEM_SIZE {
                Err(Chip8Error::MemoryAccessOutOfBounds)
            } else {
                let i = s.index_register as int;
                Ok(
                    State {
                        registers: Seq::new(
                            NUM_REGISTERS as nat,
                            |j: int|
                                if j <= max_register {
                                    s.memory[i + j]
                                } else {
                                    s.registers[j]
                                },
                        ),
                        ..s
                    },
                )
            }
        },
    }
}

/// The raw instruction word fetched big-endian at the program counter.
pub open spec fn spec_fetch(s: State) -> u16 {
    ((s.memory[s.program_counter as int] as u16) << 8u16) | (s.memory[
        s.program_counter as int + 1
    ] as u16)
}

/// One fetch-decode-execute cycle, without the timer tick.
///
/// While a key await is pending the machine does not fetch and is left
/// unchanged. A word matching no row of the mask table is a no-op beyond the
/// default advance of the program counter: the permissive policy, preserving
/// forward progress on programs using undefined or legacy encodings.
pub open spec fn spec_process(s: State) -> Result<State, Chip8Error> {
    if s.awaiting_key is Some {
        Ok(s)
    } else if s.program_counter as int + 1 >= MEM_SIZE {
        Err(Chip8Error::MemoryFetchOutOfBounds)
    } else {
        let advanced = State { program_counter: word_add(s.program_counter, 2), ..s };
        match spec_decode(spec_fetch(s)) {
            None => Ok(advanced),
            Some(op) => transition(advanced, op),
        }
    }
}

/// One full step: a fetch-decode-execute cycle followed by a timer tick.
pub open spec fn spec_step(s: State) -> Result<State, Chip8Error> {
    match spec_process(s) {
        Ok(s2) => Ok(spec_tick(s2)),
        Err(e) => Err(e),
    }
}

/// Law: Jump sets the program counter to exactly the target address. Call
/// pushes the already-advanced program counter -- the address of the
/// instruction following the Call -- and jumps to the target; Return pops
/// that address, jumps to it, and leaves the stack depth decreased by one.
/// A Call followed by a Return thus restores both the program counter and
/// the stack depth.
pub proof fn lemma_jump_call_return(s: State, address: u16)
    requires
        s.wf(),
        (s.stack_pointer as int) < STACK_SIZE,
    ensures
        transition(s, Opcode::Jump { address }) == Ok::<State, Chip8Error>(
            State { program_counter: address, ..s },
        ),
        ({
            let s1 = transition(s, Opcode::Call { address })->Ok_0;
            let s2 = transition(s1, Opcode::Return)->Ok_0;
            &&& transition(s, Opcode::Call { address }) is Ok
            &&& s1.program_counter == address
            &&& s1.stack_pointer == s.stack_pointer + 1
            &&& s1.stack[s.stack_pointer as int] == s.program_counter
            &&& transition(s1, Opcode::Return) is Ok
            &&& s2.program_counter == s.program_counter
            &&& s2.stack_pointer == s.stack_pointer
        }),
{
}

/// Law: display idempotence. Drawing an identical sprite twice at the same
/// coordinates restores the framebuffer exactly -- every pixel the first draw
/// set is cleared again and every pixel it cleared is set again -- and the
/// second draw reports a collision exactly when the first draw set at least
/// one previously-unset pixel. The coordinate registers are required to be
/// distinct from the flag register, which the first draw overwrites.
pub proof fn lemma_display_idempotent(s: State, x: usize, y: usize, height: u8)
    requires
        s.wf(),
        x < FLAG_REGISTER,
        y < FLAG_REGISTER,
        height <= 15,
        s.index_register as int + height as int <= MEM_SIZE,
    ensures
        ({
            let op = Opcode::Display { x, y, height };
            let cx = s.registers[x as int] as int % 64;
            let cy = s.registers[y as int] as int % 32;
            let i = s.index_register as int;
            let s1 = transition(s, op)->Ok_0;
            let s2 = transition(s1, op)->Ok_0;
            &&& transition(s, op) is Ok
            &&& transition(s1, op) is Ok
            &&& s2.gfx_memory == s.gfx_memory
            &&& (s2.registers[FLAG_REGISTER as int] == 1 <==> exists|r: int, c: int|
                0 <= r < height && 0 <= c < 8 && #[trigger] sprite_bit(s.memory[i + r], c)
                    && !s.gfx_memory[pixel_index(cx, cy, r, c)])
        }),
{
    let op = Opcode::Display { x, y, height };
    let cx = s.registers[x as int] as int % 64;
    let cy = s.registers[y as int] as int % 32;
    let i = s.index_register as int;
    let s1 = transition(s, op)->Ok_0;
    let s2 = transition(s1, op)->Ok_0;
    lemma_blit_involution(s.gfx_memory, s.memory, i, cx, cy, height as int);
    assert(s2.gfx_memory == s.gfx_memory);
    lemma_blit_second_collision(s.gfx_memory, s.memory, i, cx, cy, height as int);
}

/// A host key-down event: the key is recorded as pressed, and a pending key
/// await completes, storing the key in the awaited register and moving the
/// program counter past the await instruction.
pub open spec fn spec_press_key(s: State, key: usize) -> Result<State, Chip8Error> {
    if key >= NUM_KEYS {
        Err(Chip8Error::KeyOutOfRange)
    } else {
        match s.awaiting_key {
            None => Ok(State { keys: s.keys.update(key as int, true), ..s }),
            Some(register) => Ok(
                State {
                    keys: s.keys.update(key as int, true),
                    registers: s.registers.update(register as int, key as u8),
                    awaiting_key: None,
                    program_counter: word_add(s.program_counter, 2),
                    ..s
                },
            ),
        }
    }
}

/// A host key-up event: the key is recorded as released. A pending key await
/// stays pending, since only a key-down event completes it.
pub open spec fn spec_release_key(s: State, key: usize) -> Result<State, Chip8Error> {
    if key >= NUM_KEYS {
        Err(Chip8Error::KeyOutOfRange)
    } else {
        Ok(State { keys: s.keys.update(key as int, false), ..s })
    }
}

} // verus!
