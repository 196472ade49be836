//! Instruction-level emulator for a subset of the RV32I base integer
//! instruction set.
//!
//! A flat binary memory image is interpreted as a stream of 32-bit
//! little-endian machine words.  Each word is decoded into a structured
//! instruction ([`instruction::Instruction`]) and executed against a
//! register file, a program counter and a byte-addressable memory, all
//! owned by an [`emulator::Emulator`].
//!
//! Every state transition is specified against a mathematical model:
//! [`decoder::spec_decode`] gives the meaning of a raw word, and
//! [`emulator::step`] gives the effect of one decoded instruction on an
//! abstract machine state.

pub mod bits;
pub mod decoder;
pub mod emulator;
pub mod instruction;
pub mod types;
