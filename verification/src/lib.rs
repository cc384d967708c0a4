//! A verified interpreter core for the CHIP-8 instruction set.
//!
//! The crate is split into the pure instruction decoder ([`opcode`]), the
//! mathematical model of the machine and of every instruction's semantics
//! ([`state`]), the sprite-drawing model ([`display`]), the built-in font
//! ([`font`]), and the executable machine itself ([`machine`]).

pub mod display;
pub mod font;
pub mod machine;
pub mod opcode;
pub mod state;

pub use machine::Chip8;
pub use opcode::decode_opcode;
pub use opcode::Opcode;
pub use state::Chip8Error;
