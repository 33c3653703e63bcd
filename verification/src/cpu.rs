//! The processors, as far as their load and store instructions and
//! their memory maps go.

pub mod arm7;
pub mod arm9;
pub mod psr;
pub mod regs;
