//! Processor modes and the program status register.

use vstd::prelude::*;

verus! {

/// A processor mode.
#[derive(Clone, Copy, Debug, PartialEq, Eq, Structural)]
pub enum Mode {
    User,
    Fiq,
    Irq,
    Supervisor,
    Abort,
    Undefined,
    System,
}

/// A set of registers that a group of modes has to itself.
#[derive(Clone, Copy, Debug, PartialEq, Eq, Structural)]
pub enum Bank {
    /// The registers of user and system mode.
    User,
    Fiq,
    Irq,
    Supervisor,
    Abort,
    Undefined,
}

impl Mode {
    pub open spec fn spec_from_bits(bits: u32) -> Mode {
        let low = bits & 0x1F;
        if low == 0x11 {
            Mode::Fiq
        } else if low == 0x12 {
            Mode::Irq
        } else if low == 0x13 {
            Mode::Supervisor
        } else if low == 0x17 {
            Mode::Abort
        } else if low == 0x1B {
            Mode::Undefined
        } else if low == 0x1F {
            Mode::System
        } else {
            Mode::User
        }
    }

    /// The mode that the low five bits of a status register select. The
    /// patterns that select none count as user mode.
    #[verifier::when_used_as_spec(spec_from_bits)]
    pub fn from_bits(bits: u32) -> (mode: Mode)
        ensures
            mode == Mode::spec_from_bits(bits),
    {
        let low: u32 = bits & 0x1F;
        if low == 0x11 {
            Mode::Fiq
        } else if low == 0x12 {
            Mode::Irq
        } else if low == 0x13 {
            Mode::Supervisor
        } else if low == 0x17 {
            Mode::Abort
        } else if low == 0x1B {
            Mode::Undefined
        } else if low == 0x1F {
            Mode::System
        } else {
            Mode::User
        }
    }

    pub open spec fn spec_is_privileged(self) -> bool {
        self != Mode::User
    }

    /// Whether the mode may do what user mode may not.
    #[verifier::when_used_as_spec(spec_is_privileged)]
    pub fn is_privileged(self) -> (r: bool)
        ensures
            r == self.spec_is_privileged(),
    {
        match self {
            Mode::User => false,
            _ => true,
        }
    }

    pub open spec fn spec_has_spsr(self) -> bool {
        self != Mode::User && self != Mode::System
    }

    /// Whether the mode is entered by an exception, and so has a saved
    /// status register.
    #[verifier::when_used_as_spec(spec_has_spsr)]
    pub fn has_spsr(self) -> (r: bool)
        ensures
            r == self.spec_has_spsr(),
    {
        match self {
            Mode::User => false,
            Mode::System => false,
            _ => true,
        }
    }

    pub open spec fn spec_bank(self) -> Bank {
        match self {
            Mode::User => Bank::User,
            Mode::System => Bank::User,
            Mode::Fiq => Bank::Fiq,
            Mode::Irq => Bank::Irq,
            Mode::Supervisor => Bank::Supervisor,
            Mode::Abort => Bank::Abort,
            Mode::Undefined => Bank::Undefined,
        }
    }

    /// The bank that holds the mode's own stack pointer and link register.
    #[verifier::when_used_as_spec(spec_bank)]
    pub fn bank(self) -> (r: Bank)
        ensures
            r == self.spec_bank(),
    {
        match self {
            Mode::User => Bank::User,
            Mode::System => Bank::User,
            Mode::Fiq => Bank::Fiq,
            Mode::Irq => Bank::Irq,
            Mode::Supervisor => Bank::Supervisor,
            Mode::Abort => Bank::Abort,
            Mode::Undefined => Bank::Undefined,
        }
    }
}

impl Bank {
    pub open spec fn spec_index(self) -> int {
        match self {
            Bank::User => 0,
            Bank::Fiq => 1,
            Bank::Irq => 2,
            Bank::Supervisor => 3,
            Bank::Abort => 4,
            Bank::Undefined => 5,
        }
    }

    /// The bank's place among the six.
    pub fn index(self) -> (r: usize)
        ensures
            r == self.spec_index(),
            r < 6,
    {
        match self {
            Bank::User => 0,
            Bank::Fiq => 1,
            Bank::Irq => 2,
            Bank::Supervisor => 3,
            Bank::Abort => 4,
            Bank::Undefined => 5,
        }
    }
}

/// A program status register: flags, interrupt masks, and in the low five bits
/// the mode.
#[derive(Clone, Copy, Debug, PartialEq, Eq)]
pub struct Cpsr(pub u32);

impl Cpsr {
    pub open spec fn spec_mode(self) -> Mode {
        Mode::spec_from_bits(self.0)
    }

    /// The mode.
    #[verifier::when_used_as_spec(spec_mode)]
    pub fn mode(self) -> (mode: Mode)
        ensures
            mode == self.spec_mode(),
    {
        Mode::from_bits(self.0)
    }
}

} // verus!
