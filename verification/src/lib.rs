//! Arithmetic-logic core of an 8-bit CPU in the Game Boy family: the
//! register file, the packed flag byte, the ALU operations with their
//! exact flag semantics, and the instruction dispatcher.

pub mod cpu;
pub mod flags;
pub mod registers;
