//! Binary codec for a fixed-width 32-bit instruction set.
//!
//! An [`Instr`] is a structured machine instruction. [`encode`] maps it to its
//! 32-bit word, and [`decode`] maps a word back or says why the word denotes
//! no instruction. Both are pure: no state, no allocation, no I/O.
//!
//! - [`instr`]: the sixteen registers, the eleven opcodes and the seventeen
//!   instruction forms.
//! - [`layout`]: where the fields stand in a word, and two's complement.
//! - [`encoding`]: the encoder, the decoder and the decode errors.
//! - [`theorems`]: what is proved of the two together, among it that a word
//!   that decodes is the only word of its instruction.
//!
//! The decoder is strict. A register slot that an instruction form does not
//! use must be zero, so no two words decode to the same instruction.

pub mod encoding;
pub mod instr;
pub mod layout;
pub mod theorems;

pub use encoding::{decode, encode, DecodeError};
pub use instr::{fits_i26, Instr, Opcode, Register};
