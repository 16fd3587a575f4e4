//! A verified CHIP-8 virtual machine core.
//!
//! The crate models the four state components of the classic CHIP-8
//! architecture (memory, registers, display, keyboard) and a
//! fetch-decode-execute engine over them.  Every opcode's effect on the
//! machine state is stated as a specification-level transition function and
//! the executable engine is proved to implement it.

pub mod display;
pub mod keyboard;
pub mod memory;
pub mod opcode;
pub mod registers;
pub mod system;
