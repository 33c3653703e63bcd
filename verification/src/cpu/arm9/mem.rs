//! The instructions of the main processor that access memory.
//!
//! An instruction takes the machine and its own 32 bits, and says how it
//! ended. Every instruction here reads the address it works on, then lets
//! the next instruction be fetched, and only then makes its accesses: a
//! program counter that it reads after the fetch is one instruction ahead.
//! An access that the protection unit refuses ends the instruction in a data
//! abort.

pub mod block;
pub mod double;
pub mod single;
pub mod swap;

pub use block::{ldm, stm};
pub use double::{ldrd, strd};
pub use single::{ldr, ldrb, ldrh, ldrsb, ldrsh, str, strb, strh};
pub use swap::{swp, swpb};
