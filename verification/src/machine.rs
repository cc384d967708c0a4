//! The executable machine: the mutable state of one virtual machine instance
//! and the verified execution engine and step driver over it.

use crate::display::{
    blit_collision_upto, lemma_blit_done, lemma_blit_row_end, lemma_blit_start, lemma_blit_step,
    pixel_index, sprite_bit, sprite_hits_upto, GFX_SIZE,
};
use crate::font::{font_seq, font_table};
use crate::opcode::{decode_opcode, Opcode};
use crate::state::{
    spec_fetch, spec_press_key, spec_process, spec_release_key, spec_step, spec_tick, transition,
    Chip8Error, State, FLAG_REGISTER, FONT_BASE, FONT_GLYPH_SIZE, MEM_SIZE, NUM_KEYS,
    NUM_REGISTERS, STACK_SIZE,
};
use vstd::prelude::*;

verus! {

/// Seed of the pseudo-random generator of a freshly created machine.
pub const RAND_SEED: u64 = 0x2545F4914F6CDD1D;

/// One virtual machine instance: registers, memory, index register, program
/// counter, call stack, timers, keypad and framebuffer.
///
/// The abstraction of a machine is a [`State`]; every mutating operation is
/// specified as a function of that abstraction. The well-formedness invariant
/// [`State::wf`] fixes the storage sizes; it holds from creation and every
/// verified operation preserves it.
pub struct Chip8 {
    /// 4096 addressable bytes.
    pub memory: Vec<u8>,
    /// 16 general-purpose 8-bit registers; register 15 is the flag register.
    pub registers: Vec<u8>,
    /// 16-bit memory base address used by several instructions.
    pub index_register: u16,
    /// Address of the next instruction to fetch.
    pub program_counter: u16,
    /// 64x32 monochrome framebuffer, row-major; false is black, true white.
    pub gfx_memory: Vec<bool>,
    /// Delay timer, decremented toward zero by the host's tick cadence.
    pub delay_timer: u8,
    /// Sound timer; the host beeps while it is nonzero.
    pub sound_timer: u8,
    /// Fixed-capacity return-address stack.
    pub stack: Vec<u16>,
    /// Number of occupied stack entries.
    pub stack_pointer: u8,
    /// Key-down state of the 16 keypad keys.
    pub keys: Vec<bool>,
    /// When a key await is pending: the register that receives the key.
    pub awaiting_key: Option<usize>,
    /// State of the pseudo-random generator feeding Rand. A fresh machine
    /// holds a fixed seed; a host wanting an unpredictable sequence writes
    /// its own nonzero seed here before stepping.
    pub rand_state: u64,
}

impl View for Chip8 {
    type V = State;

    open spec fn view(&self) -> State {
        State {
            memory: self.memory@,
            registers: self.registers@,
            index_register: self.index_register,
            program_counter: self.program_counter,
            gfx_memory: self.gfx_memory@,
            delay_timer: self.delay_timer,
            sound_timer: self.sound_timer,
            stack: self.stack@,
            stack_pointer: self.stack_pointer,
            keys: self.keys@,
            awaiting_key: self.awaiting_key,
            rand_state: self.rand_state,
        }
    }
}

/// Memory at creation: all zero except the font table in its reserved region.
pub open spec fn initial_memory() -> Seq<u8> {
    Seq::new(
        MEM_SIZE as nat,
        |i: int|
            if FONT_BASE <= i < FONT_BASE + 80 {
                font_seq()[i - FONT_BASE]
            } else {
                0u8
            },
    )
}

/// The state of a freshly created machine: everything zeroed, no pending key
/// await, the font table loaded, and the random generator seeded.
pub open spec fn initial_state() -> State {
    State {
        memory: initial_memory(),
        registers: Seq::new(NUM_REGISTERS as nat, |i: int| 0u8),
        index_register: 0,
        program_counter: 0,
        gfx_memory: Seq::new(GFX_SIZE as nat, |i: int| false),
        delay_timer: 0,
        sound_timer: 0,
        stack: Seq::new(STACK_SIZE as nat, |i: int| 0u16),
        stack_pointer: 0,
        keys: Seq::new(NUM_KEYS as nat, |i: int| false),
        awaiting_key: None,
        rand_state: RAND_SEED,
    }
}

impl Chip8 {
    /// Create a machine in the initial state: zeroed storage with the font
    /// glyphs loaded into their reserved low memory region.
    pub fn new() -> (vm: Chip8)
        ensures
            vm@ == initial_state(),
            vm@.wf(),
    {
        let mut memory: Vec<u8> = vec![0u8; MEM_SIZE];
        let font = font_table();
        assert(font@.len() == 80);
        let mut j: usize = 0;
        while j < 80
            invariant
                j <= 80,
                memory@.len() == MEM_SIZE,
                font@ == font_seq(),
                forall|k: int|
                    0 <= k < MEM_SIZE && !(FONT_BASE <= k < FONT_BASE + j) ==> memory@[k] == 0u8,
                forall|k: int|
                    FONT_BASE <= k < FONT_BASE + j ==> memory@[k] == font_seq()[k - FONT_BASE],
            decreases 80 - j,
        {
            memory[FONT_BASE + j] = font[j];
            j += 1;
        }
        let vm = Chip8 {
            memory,
            registers: vec![0u8; NUM_REGISTERS],
            index_register: 0,
            program_counter: 0,
            gfx_memory: vec![false; GFX_SIZE],
            delay_timer: 0,
            sound_timer: 0,
            stack: vec![0u16; STACK_SIZE],
            stack_pointer: 0,
            keys: vec![false; NUM_KEYS],
            awaiting_key: None,
            rand_state: RAND_SEED,
        };
        proof {
            assert(vm@.memory =~= initial_memory());
            assert(vm@.registers =~= initial_state().registers);
            assert(vm@.gfx_memory =~= initial_state().gfx_memory);
            assert(vm@.stack =~= initial_state().stack);
            assert(vm@.keys =~= initial_state().keys);
            assert(vm@ =~= initial_state());
        }
        vm
    }

    /// Execute the Display instruction: XOR-blit a `height`-byte sprite read
    /// from memory at the index register onto the framebuffer at the
    /// coordinates held by registers `x` and `y`, wrapping at the screen
    /// edges, and set the flag register to 1 exactly when a lit pixel was
    /// cleared.
    fn exec_display(&mut self, x: usize, y: usize, height: u8) -> (result: Result<
        (),
        Chip8Error,
    >)
        requires
            old(self)@.wf(),
        ensures
            final(self)@.wf(),
            match result {
                Ok(()) => transition(old(self)@, Opcode::Display { x, y, height })
                    == Ok::<State, Chip8Error>(final(self)@),
                Err(e) => transition(old(self)@, Opcode::Display { x, y, height })
                    == Err::<State, Chip8Error>(e) && final(self)@ == old(self)@,
            },
    {
        if x >= NUM_REGISTERS || y >= NUM_REGISTERS || height > 15 {
            return Err(Chip8Error::OperandOutOfRange);
        }
        let i = self.index_register as usize;
        if i + height as usize > MEM_SIZE {
            return Err(Chip8Error::MemoryAccessOutOfBounds);
        }
        let cx = (self.registers[x] % 64) as usize;
        let cy = (self.registers[y] % 32) as usize;
        let mut collision = false;
        let mut r: usize = 0;
        proof {
            lemma_blit_start(
                old(self)@.gfx_memory,
                old(self)@.memory,
                i as int,
                cx as int,
                cy as int,
            );
        }
        while r < height as usize
            invariant
                old(self)@.wf(),
                height <= 15,
                r <= height as usize,
                i == old(self).index_register as usize,
                i + height as usize <= MEM_SIZE,
                cx == old(self)@.registers[x as int] as int % 64,
                cy == old(self)@.registers[y as int] as int % 32,
                cx < 64,
                cy < 32,
                (State { gfx_memory: old(self)@.gfx_memory, ..self@ }) == old(self)@,
                self.gfx_memory@.len() == GFX_SIZE,
                forall|p: int|
                    0 <= p < GFX_SIZE ==> self.gfx_memory@[p] == (old(self)@.gfx_memory[p]
                        != sprite_hits_upto(
                        old(self)@.memory,
                        i as int,
                        cx as int,
                        cy as int,
                        r as int,
                        0,
                        p,
                    )),
                collision == blit_collision_upto(
                    old(self)@.gfx_memory,
                    old(self)@.memory,
                    i as int,
                    cx as int,
                    cy as int,
                    r as int,
                    0,
                ),
            decreases height as usize - r,
        {
            let byte = self.memory[i + r];
            let mut c: usize = 0;
            while c < 8
                invariant
                    old(self)@.wf(),
                    height <= 15,
                    r < height as usize,
                    c <= 8,
                    i == old(self).index_register as usize,
                    i + height as usize <= MEM_SIZE,
                    cx == old(self)@.registers[x as int] as int % 64,
                    cy == old(self)@.registers[y as int] as int % 32,
                    cx < 64,
                    cy < 32,
                    byte == old(self)@.memory[i + r],
                    (State { gfx_memory: old(self)@.gfx_memory, ..self@ }) == old(self)@,
                    self.gfx_memory@.len() == GFX_SIZE,
                    forall|p: int|
                        0 <= p < GFX_SIZE ==> self.gfx_memory@[p] == (old(self)@.gfx_memory[p]
                            != sprite_hits_upto(
                            old(self)@.memory,
                            i as int,
                            cx as int,
                            cy as int,
                            r as int,
                            c as int,
                            p,
                        )),
                    collision == blit_collision_upto(
                        old(self)@.gfx_memory,
                        old(self)@.memory,
                        i as int,
                        cx as int,
                        cy as int,
                        r as int,
                        c as int,
                    ),
                decreases 8 - c,
            {
                proof {
                    lemma_blit_step(
                        old(self)@.gfx_memory,
                        self.gfx_memory@,
                        old(self)@.memory,
                        i as int,
                        cx as int,
                        cy as int,
                        r as int,
                        c as int,
                        collision,
                    );
                }
                let bit = (byte >> ((7 - c) as u32)) & 1 == 1;
                proof {
                    assert(bit == sprite_bit(old(self)@.memory[i + r], c as int));
                }
                if bit {
                    let py = (cy + r) % 32;
                    let px = (cx + c) % 64;
                    let idx = py * 64 + px;
                    proof {
                        assert(idx == pixel_index(cx as int, cy as int, r as int, c as int));
                    }
                    let cur = self.gfx_memory[idx];
                    if cur {
                        collision = true;
                    }
                    self.gfx_memory[idx] = !cur;
                }
                c = c + 1;
            }
            proof {
                lemma_blit_row_end(
                    old(self)@.gfx_memory,
                    old(self)@.memory,
                    i as int,
                    cx as int,
                    cy as int,
                    r as int,
                );
            }
            r = r + 1;
        }
        proof {
            lemma_blit_done(
                old(self)@.gfx_memory,
                self.gfx_memory@,
                old(self)@.memory,
                i as int,
                cx as int,
                cy as int,
                height as int,
            );
        }
        self.registers[FLAG_REGISTER] = if collision {
            1
        } else {
            0
        };
        proof {
            let target = transition(old(self)@, Opcode::Display { x, y, height });
            assert(self@.gfx_memory =~= target->Ok_0.gfx_memory);
            assert(self@ =~= target->Ok_0);
        }
        Ok(())
    }

    /// Execute the MemDump instruction: copy registers 0 through
    /// `max_register`, inclusive, to memory starting at the index register.
    fn exec_mem_dump(&mut self, max_register: usize) -> (result: Result<(), Chip8Error>)
        requires
            old(self)@.wf(),
        ensures
            final(self)@.wf(),
            match result {
                Ok(()) => transition(old(self)@, Opcode::MemDump { max_register })
                    == Ok::<State, Chip8Error>(final(self)@),
                Err(e) => transition(old(self)@, Opcode::MemDump { max_register })
                    == Err::<State, Chip8Error>(e) && final(self)@ == old(self)@,
            },
    {
        if max_register >= NUM_REGISTERS {
            return Err(Chip8Error::OperandOutOfRange);
        }
        let i = self.index_register as usize;
        if i + max_register + 1 > MEM_SIZE {
            return Err(Chip8Error::MemoryAccessOutOfBounds);
        }
        let mut r: usize = 0;
        while r <= max_register
            invariant
                old(self)@.wf(),
                max_register < NUM_REGISTERS,
                r <= max_register + 1,
                i == old(self).index_register as usize,
                i + max_register + 1 <= MEM_SIZE,
                (State { memory: old(self)@.memory, ..self@ }) == old(self)@,
                self.memory@.len() == MEM_SIZE,
                forall|k: int|
                    0 <= k < MEM_SIZE && !(i <= k < i + r) ==> self.memory@[k] == old(
                        self,
                    )@.memory[k],
                forall|k: int| i <= k < i + r ==> self.memory@[k] == old(self)@.registers[k - i],
            decreases max_register + 1 - r,
        {
            self.memory[i + r] = self.registers[r];
            r = r + 1;
        }
        proof {
            let target = transition(old(self)@, Opcode::MemDump { max_register });
            assert(self@.memory =~= target->Ok_0.memory);
            assert(self@ =~= target->Ok_0);
        }
        Ok(())
    }

    /// Execute the MemLoad instruction: load registers 0 through
    /// `max_register`, inclusive, from memory starting at the index register.
    fn exec_mem_load(&mut self, max_register: usize) -> (result: Result<(), Chip8Error>)
        requires
            old(self)@.wf(),
        ensures
            final(self)@.wf(),
            match result {
                Ok(()) => transition(old(self)@, Opcode::MemLoad { max_register })
                    == Ok::<State, Chip8Error>(final(self)@),
                Err(e) => transition(old(self)@, Opcode::MemLoad { max_register })
                    == Err::<State, Chip8Error>(e) && final(self)@ == old(self)@,
            },
    {
        if max_register >= NUM_REGISTERS {
            return Err(Chip8Error::OperandOutOfRange);
        }
        let i = self.index_register as usize;
        if i + max_register + 1 > MEM_SIZE {
            return Err(Chip8Error::MemoryAccessOutOfBounds);
        }
        let mut r: usize = 0;
        while r <= max_register
            invariant
                old(self)@.wf(),
                max_register < NUM_REGISTERS,
                r <= max_register + 1,
                i == old(self).index_register as usize,
                i + max_register + 1 <= MEM_SIZE,
                (State { registers: old(self)@.registers, ..self@ }) == old(self)@,
                self.registers@.len() == NUM_REGISTERS,
                forall|k: int|
                    r <= k < NUM_REGISTERS ==> self.registers@[k] == old(self)@.registers[k],
                forall|k: int| 0 <= k < r ==> self.registers@[k] == old(self)@.memory[i + k],
            decreases max_register + 1 - r,
        {
            self.registers[r] = self.memory[i + r];
            r = r + 1;
        }
        proof {
            let target = transition(old(self)@, Opcode::MemLoad { max_register });
            assert(self@.registers =~= target->Ok_0.registers);
            assert(self@ =~= target->Ok_0);
        }
        Ok(())
    }

    /// Apply one decoded instruction to the machine: the execution engine.
    ///
    /// The result is exactly [`transition`] applied to the machine's
    /// abstraction: on success the machine mutates accordingly; a fatal
    /// condition (an out-of-range operand, a stack fault, an out-of-bounds
    /// memory access, a key index above 15) reports its error and leaves the
    /// machine unchanged, never silently clamped.
    pub fn execute_opcode(&mut self, opcode: Opcode) -> (result: Result<(), Chip8Error>)
        requires
            old(self)@.wf(),
        ensures
            final(self)@.wf(),
            match result {
                Ok(()) => transition(old(self)@, opcode) == Ok::<State, Chip8Error>(final(self)@),
                Err(e) => transition(old(self)@, opcode) == Err::<State, Chip8Error>(e)
                    && final(self)@ == old(self)@,
            },
    {
        match opcode {
            Opcode::ClearDisplay => {
                self.gfx_memory = vec![false; GFX_SIZE];
                proof {
                    assert(self@.gfx_memory =~= Seq::new(GFX_SIZE as nat, |p: int| false));
                }
                Ok(())
            },
            Opcode::Return => {
                if self.stack_pointer == 0 {
                    return Err(Chip8Error::StackUnderflow);
                }
                self.program_counter = self.stack[(self.stack_pointer - 1) as usize];
                self.stack_pointer = self.stack_pointer - 1;
                Ok(())
            },
            Opcode::Jump { address } => {
                self.program_counter = address;
                Ok(())
            },
            Opcode::Call { address } => {
                if self.stack_pointer as usize >= STACK_SIZE {
                    return Err(Chip8Error::StackOverflow);
                }
                self.stack[self.stack_pointer as usize] = self.program_counter;
                self.stack_pointer = self.stack_pointer + 1;
                self.program_counter = address;
                Ok(())
            },
            Opcode::SkipIfEqual { register, value } => {
                if register >= NUM_REGISTERS {
                    return Err(Chip8Error::OperandOutOfRange);
                }
                if self.registers[register] == value {
                    self.program_counter = self.program_counter.wrapping_add(2);
                }
                Ok(())
            },
            Opcode::SkipIfNotEqual { register, value } => {
                if register >= NUM_REGISTERS {
                    return Err(Chip8Error::OperandOutOfRange);
                }
                if self.registers[register] != value {
                    self.program_counter = self.program_counter.wrapping_add(2);
                }
                Ok(())
            },
            Opcode::SkipIfRegistersEqual { register1, register2 } => {
                if register1 >= NUM_REGISTERS || register2 >= NUM_REGISTERS {
                    return Err(Chip8Error::OperandOutOfRange);
                }
                if self.registers[register1] == self.registers[register2] {
                    self.program_counter = self.program_counter.wrapping_add(2);
                }
                Ok(())
            },
            Opcode::SetRegister { register, value } => {
                if register >= NUM_REGISTERS {
                    return Err(Chip8Error::OperandOutOfRange);
                }
                self.registers[register] = value;
                Ok(())
            },
            Opcode::AddConstant { register, value } => {
                if register >= NUM_REGISTERS {
                    return Err(Chip8Error::OperandOutOfRange);
                }
                let rv = self.registers[register];
                self.registers[register] = rv.wrapping_add(value);
                Ok(())
            },
            Opcode::CopyRegister { source, target } => {
                if target >= NUM_REGISTERS || source >= NUM_REGISTERS {
                    return Err(Chip8Error::OperandOutOfRange);
                }
                self.registers[target] = self.registers[source];
                Ok(())
            },
            Opcode::BitOr { target, other } => {
                if target >= NUM_REGISTERS || other >= NUM_REGISTERS {
                    return Err(Chip8Error::OperandOutOfRange);
                }
                self.registers[target] = self.registers[target] | self.registers[other];
                Ok(())
            },
            Opcode::BitAnd { target, other } => {
                if target >= NUM_REGISTERS || other >= NUM_REGISTERS {
                    return Err(Chip8Error::OperandOutOfRange);
                }
                self.registers[target] = self.registers[target] & self.registers[other];
                Ok(())
            },
            Opcode::BitXor { target, other } => {
                if target >= NUM_REGISTERS || other >= NUM_REGISTERS {
                    return Err(Chip8Error::OperandOutOfRange);
                }
                self.registers[target] = self.registers[target] ^ self.registers[other];
                Ok(())
            },
            Opcode::AddRegister { target, other } => {
                if target >= NUM_REGISTERS || other >= NUM_REGISTERS {
                    return Err(Chip8Error::OperandOutOfRange);
                }
                let tv = self.registers[target];
                let ov = self.registers[other];
                self.registers[target] = tv.wrapping_add(ov);
                self.registers[FLAG_REGISTER] = if tv as u16 + ov as u16 > 255 {
                    1
                } else {
                    0
                };
                Ok(())
            },
            Opcode::SubtractRegister { target, other } => {
                if target >= NUM_REGISTERS || other >= NUM_REGISTERS {
                    return Err(Chip8Error::OperandOutOfRange);
                }
                let tv = self.registers[target];
                let ov = self.registers[other];
                self.registers[target] = tv.wrapping_sub(ov);
                self.registers[FLAG_REGISTER] = if tv >= ov {
                    1
                } else {
                    0
                };
                Ok(())
            },
            Opcode::AltSubtractRegister { target, other } => {
                if target >= NUM_REGISTERS || other >= NUM_REGISTERS {
                    return Err(Chip8Error::OperandOutOfRange);
                }
                let tv = self.registers[target];
                let ov = self.registers[other];
                self.registers[target] = ov.wrapping_sub(tv);
                self.registers[FLAG_REGISTER] = if ov >= tv {
                    1
                } else {
                    0
                };
                Ok(())
            },
            Opcode::LeftShift { target, source } => {
                if target >= NUM_REGISTERS || source >= NUM_REGISTERS {
                    return Err(Chip8Error::OperandOutOfRange);
                }
                let sv = self.registers[source];
                self.registers[FLAG_REGISTER] = sv >> 7u8;
                self.registers[target] = sv << 1u8;
                Ok(())
            },
            Opcode::RightShift { target, source } => {
                if target >= NUM_REGISTERS || source >= NUM_REGISTERS {
                    return Err(Chip8Error::OperandOutOfRange);
                }
                let sv = self.registers[source];
                self.registers[FLAG_REGISTER] = sv & 1;
                self.registers[target] = sv >> 1u8;
                Ok(())
            },
            Opcode::SkipIfRegistersNotEqual { register1, register2 } => {
                if register1 >= NUM_REGISTERS || register2 >= NUM_REGISTERS {
                    return Err(Chip8Error::OperandOutOfRange);
                }
                if self.registers[register1] != self.registers[register2] {
                    self.program_counter = self.program_counter.wrapping_add(2);
                }
                Ok(())
            },
            Opcode::SetIndexRegister { value } => {
                self.index_register = value;
                Ok(())
            },
            Opcode::OffsetJump { address } => {
                self.program_counter = address.wrapping_add(self.registers[0] as u16);
                Ok(())
            },
            Opcode::Rand { mask, register } => {
                if register >= NUM_REGISTERS {
                    return Err(Chip8Error::OperandOutOfRange);
                }
                let s0 = self.rand_state;
                let a = s0 ^ (s0 << 13u64);
                let b = a ^ (a >> 7u64);
                let next = b ^ (b << 17u64);
                self.registers[register] = (next & 0xFF) as u8 & mask;
                self.rand_state = next;
                Ok(())
            },
            Opcode::Display { x, y, height } => self.exec_display(x, y, height),
            Opcode::SkipIfKeyPressed { key } => {
                if key >= NUM_REGISTERS {
                    return Err(Chip8Error::OperandOutOfRange);
                }
                let kv = self.registers[key];
                if kv as usize >= NUM_KEYS {
                    return Err(Chip8Error::KeyOutOfRange);
                }
                if self.keys[kv as usize] {
                    self.program_counter = self.program_counter.wrapping_add(2);
                }
                Ok(())
            },
            Opcode::SkipIfKeyNotPressed { key } => {
                if key >= NUM_REGISTERS {
                    return Err(Chip8Error::OperandOutOfRange);
                }
                let kv = self.registers[key];
                if kv as usize >= NUM_KEYS {
                    return Err(Chip8Error::KeyOutOfRange);
                }
                if !self.keys[kv as usize] {
                    self.program_counter = self.program_counter.wrapping_add(2);
                }
                Ok(())
            },
            Opcode::GetDelayTimer { register } => {
                if register >= NUM_REGISTERS {
                    return Err(Chip8Error::OperandOutOfRange);
                }
                self.registers[register] = self.delay_timer;
                Ok(())
            },
            Opcode::AwaitKeypress { register } => {
                if register >= NUM_REGISTERS {
                    return Err(Chip8Error::OperandOutOfRange);
                }
                self.awaiting_key = Some(register);
                self.program_counter = self.program_counter.wrapping_sub(2);
                Ok(())
            },
            Opcode::SetDelayTimer { value } => {
                if value >= NUM_REGISTERS {
                    return Err(Chip8Error::OperandOutOfRange);
                }
                self.delay_timer = self.registers[value];
                Ok(())
            },
            Opcode::SetSoundTimer { value } => {
                if value >= NUM_REGISTERS {
                    return Err(Chip8Error::OperandOutOfRange);
                }
                self.sound_timer = self.registers[value];
                Ok(())
            },
            Opcode::IncrementIndexRegister { register } => {
                if register >= NUM_REGISTERS {
                    return Err(Chip8Error::OperandOutOfRange);
                }
                self.index_register = self.index_register.wrapping_add(
                    self.registers[register] as u16,
                );
                Ok(())
            },
            Opcode::SetIndexToFont { register } => {
                if register >= NUM_REGISTERS {
                    return Err(Chip8Error::OperandOutOfRange);
                }
                let nibble = (self.registers[register] % 16) as usize;
                self.index_register = (FONT_BASE + FONT_GLYPH_SIZE * nibble) as u16;
                Ok(())
            },
            Opcode::StoreDecimal { register } => {
                if register >= NUM_REGISTERS {
                    return Err(Chip8Error::OperandOutOfRange);
                }
                let i = self.index_register as usize;
                if i + 3 > MEM_SIZE {
                    return Err(Chip8Error::MemoryAccessOutOfBounds);
                }
                let v = self.registers[register];
                self.memory[i] = v / 100;
                self.memory[i + 1] = (v / 10) % 10;
                self.memory[i + 2] = v % 10;
                Ok(())
            },
            Opcode::MemDump { max_register } => self.exec_mem_dump(max_register),
            Opcode::MemLoad { max_register } => self.exec_mem_load(max_register),
        }
    }

    /// One fetch-decode-execute cycle, without the timer tick.
    ///
    /// While a key await is pending the machine neither fetches nor advances,
    /// so re-invoking the driver cannot re-fetch or double-advance past the
    /// await. Otherwise the two bytes at the program counter are fetched
    /// big-endian, the counter is default-advanced by 2, and the decoded
    /// instruction is executed, so that control-transfer instructions simply
    /// overwrite the counter. A word matching no mask-table row is a no-op
    /// beyond the advance. A fatal condition reports its error and leaves
    /// the machine unchanged.
    pub fn process_next_opcode(&mut self) -> (result: Result<(), Chip8Error>)
        requires
            old(self)@.wf(),
        ensures
            final(self)@.wf(),
            match result {
                Ok(()) => spec_process(old(self)@) == Ok::<State, Chip8Error>(final(self)@),
                Err(e) => spec_process(old(self)@) == Err::<State, Chip8Error>(e)
                    && final(self)@ == old(self)@,
            },
    {
        if self.awaiting_key.is_some() {
            return Ok(());
        }
        let pc = self.program_counter as usize;
        if pc + 1 >= MEM_SIZE {
            return Err(Chip8Error::MemoryFetchOutOfBounds);
        }
        let opcode_upper = self.memory[pc] as u16;
        let opcode_lower = self.memory[pc + 1] as u16;
        let opcode = opcode_upper << 8u16 | opcode_lower;
        proof {
            assert(opcode == spec_fetch(old(self)@));
        }
        self.program_counter = self.program_counter.wrapping_add(2);
        match decode_opcode(opcode) {
            None => Ok(()),
            Some(decoded) => {
                match self.execute_opcode(decoded) {
                    Ok(()) => Ok(()),
                    Err(e) => {
                        self.program_counter = pc as u16;
                        proof {
                            assert(self@ =~= old(self)@);
                        }
                        Err(e)
                    },
                }
            },
        }
    }

    /// Step the machine: one fetch-decode-execute cycle, then one timer tick,
    /// in that order. This couples the timers to instruction throughput; a
    /// host wanting a timer cadence of its own instead drives
    /// [`Chip8::process_next_opcode`] per cycle and [`Chip8::tick_timers`]
    /// from its own clock, and does not call this function, which would tick
    /// the timers a second time.
    pub fn step(&mut self) -> (result: Result<(), Chip8Error>)
        requires
            old(self)@.wf(),
        ensures
            final(self)@.wf(),
            match result {
                Ok(()) => spec_step(old(self)@) == Ok::<State, Chip8Error>(final(self)@),
                Err(e) => spec_step(old(self)@) == Err::<State, Chip8Error>(e)
                    && final(self)@ == old(self)@,
            },
    {
        match self.process_next_opcode() {
            Ok(()) => {
                self.tick_timers();
                Ok(())
            },
            Err(e) => Err(e),
        }
    }

    /// Deliver a host key-down event: record the key as pressed, and complete
    /// a pending key await by storing the key in the awaited register and
    /// moving the program counter past the await instruction. The host must
    /// serialize key events with stepping.
    pub fn press_key(&mut self, key: usize) -> (result: Result<(), Chip8Error>)
        requires
            old(self)@.wf(),
        ensures
            final(self)@.wf(),
            match result {
                Ok(()) => spec_press_key(old(self)@, key) == Ok::<State, Chip8Error>(final(self)@),
                Err(e) => spec_press_key(old(self)@, key) == Err::<State, Chip8Error>(e)
                    && final(self)@ == old(self)@,
            },
    {
        if key >= NUM_KEYS {
            return Err(Chip8Error::KeyOutOfRange);
        }
        self.keys[key] = true;
        match self.awaiting_key {
            None => Ok(()),
            Some(register) => {
                self.registers[register] = key as u8;
                self.awaiting_key = None;
                self.program_counter = self.program_counter.wrapping_add(2);
                Ok(())
            },
        }
    }

    /// Deliver a host key-up event: record the key as released. A pending key
    /// await stays pending, since only a key-down event completes it.
    pub fn release_key(&mut self, key: usize) -> (result: Result<(), Chip8Error>)
        requires
            old(self)@.wf(),
        ensures
            final(self)@.wf(),
            match result {
                Ok(()) => spec_release_key(old(self)@, key) == Ok::<State, Chip8Error>(
                    final(self)@,
                ),
                Err(e) => spec_release_key(old(self)@, key) == Err::<State, Chip8Error>(e)
                    && final(self)@ == old(self)@,
            },
    {
        if key >= NUM_KEYS {
            return Err(Chip8Error::KeyOutOfRange);
        }
        self.keys[key] = false;
        Ok(())
    }

    /// One timer tick, driven by the host at its own cadence, independently of
    /// instruction throughput: each timer decrements when nonzero and a
    /// zero-valued timer stays at zero.
    pub fn tick_timers(&mut self)
        ensures
            final(self)@ == spec_tick(old(self)@),
    {
        if self.delay_timer > 0 {
            self.delay_timer = self.delay_timer - 1;
        }
        if self.sound_timer > 0 {
            self.sound_timer = self.sound_timer - 1;
        }
        proof {
            assert(self@ =~= spec_tick(old(self)@));
        }
    }
}

} // verus!
