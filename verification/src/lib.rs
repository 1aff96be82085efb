//! Arithmetic/logic execution core of an 8-bit CPU in the 6502 family.
//!
//! The crate models the register file and status flags, a fixed-size
//! byte-addressable memory, and the instruction operations that read
//! operands, compute 8-bit results and derive the condition flags
//! bit-for-bit as the hardware does.

pub mod machine;
pub mod memory;
pub mod registers;
