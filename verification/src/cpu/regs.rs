//! The register file with its banks.
//!
//! Sixteen registers are visible at a time. Registers 13 and 14 exist once
//! for user and system mode and once for each of the other modes; registers 8
//! to 12 exist once for fast interrupt mode and once for all others. The
//! copies that are not visible rest in the banks.

use crate::cpu::psr::{Bank, Cpsr, Mode};
use vstd::prelude::*;

verus! {

/// The register file.
#[derive(Clone, Copy, Debug, PartialEq, Eq)]
pub struct Regs {
    /// The visible registers.
    pub cur: [u32; 16],
    pub cpsr: Cpsr,
    /// The saved status register of the current mode.
    pub spsr: u32,
    /// Registers 8 to 12 as all modes but fast interrupt mode see them,
    /// while that mode's are visible.
    pub r8_12_other: [u32; 5],
    /// Registers 8 to 12 of fast interrupt mode, while the others are
    /// visible.
    pub r8_12_fiq: [u32; 5],
    /// Registers 13 and 14 of each bank, while those of another are visible.
    pub r13_14: [[u32; 2]; 6],
    /// The saved status register of each bank but the first, which has none,
    /// while that of another is visible.
    pub spsr_banks: [u32; 6],
}

impl Regs {
    /// Whether register `reg` has a copy of its own in the bank of `a` and
    /// another in that of `b`.
    pub open spec fn banked_apart(reg: int, a: Mode, b: Mode) -> bool {
        if 8 <= reg <= 12 {
            (a == Mode::Fiq) != (b == Mode::Fiq)
        } else if 13 <= reg <= 14 {
            a.bank() != b.bank()
        } else {
            false
        }
    }

    /// The value that register `reg` has in mode `mode` while the registers
    /// of mode `active` are visible.
    pub open spec fn reg_in_mode(&self, active: Mode, mode: Mode, reg: int) -> u32 {
        if !Self::banked_apart(reg, active, mode) {
            self.cur[reg]
        } else if reg <= 12 {
            if mode == Mode::Fiq {
                self.r8_12_fiq[reg - 8]
            } else {
                self.r8_12_other[reg - 8]
            }
        } else {
            self.r13_14[mode.bank().spec_index()][reg - 13]
        }
    }

    /// The saved status register of mode `mode` while the registers of mode
    /// `active` are visible. User and system mode have none; what is given
    /// for them has no meaning.
    pub open spec fn spsr_in_mode(&self, active: Mode, mode: Mode) -> u32 {
        if mode.bank() == active.bank() {
            self.spsr
        } else {
            self.spsr_banks[mode.bank().spec_index()]
        }
    }

    /// Whether the processor is in a mode other than user mode.
    pub open spec fn spec_is_in_priv_mode(&self) -> bool {
        self.cpsr.mode().is_privileged()
    }

    /// Whether the processor is in a mode other than user mode.
    #[verifier::when_used_as_spec(spec_is_in_priv_mode)]
    pub fn is_in_priv_mode(&self) -> (r: bool)
        ensures
            r == self.spec_is_in_priv_mode(),
    {
        self.cpsr.mode().is_privileged()
    }

    /// Makes the registers of mode `new_mode` visible in place of those of
    /// mode `prev_mode`. No register changes its value in any mode, and the
    /// status registers stay as they are.
    pub fn update_mode(&mut self, prev_mode: Mode, new_mode: Mode)
        ensures
            forall|mode: Mode, reg: int|
                0 <= reg < 16 ==> #[trigger] final(self).reg_in_mode(new_mode, mode, reg) == old(
                    self,
                ).reg_in_mode(prev_mode, mode, reg),
            final(self).cpsr == old(self).cpsr,
            final(self).spsr == old(self).spsr,
            final(self).spsr_banks == old(self).spsr_banks,
    {
        let prev_fiq: bool = prev_mode == Mode::Fiq;
        let new_fiq: bool = new_mode == Mode::Fiq;
        if prev_fiq != new_fiq {
            if prev_fiq {
                self.r8_12_fiq = [
                    self.cur[8],
                    self.cur[9],
                    self.cur[10],
                    self.cur[11],
                    self.cur[12],
                ];
                let other = self.r8_12_other;
                self.cur[8] = other[0];
                self.cur[9] = other[1];
                self.cur[10] = other[2];
                self.cur[11] = other[3];
                self.cur[12] = other[4];
            } else {
                self.r8_12_other = [
                    self.cur[8],
                    self.cur[9],
                    self.cur[10],
                    self.cur[11],
                    self.cur[12],
                ];
                let fiq = self.r8_12_fiq;
                self.cur[8] = fiq[0];
                self.cur[9] = fiq[1];
                self.cur[10] = fiq[2];
                self.cur[11] = fiq[3];
                self.cur[12] = fiq[4];
            }
        }
        let prev_bank: Bank = prev_mode.bank();
        let new_bank: Bank = new_mode.bank();
        if prev_bank != new_bank {
            self.r13_14[prev_bank.index()] = [self.cur[13], self.cur[14]];
            let incoming = self.r13_14[new_bank.index()];
            self.cur[13] = incoming[0];
            self.cur[14] = incoming[1];
        }
    }

    /// The mode after a return from an exception: the one that the saved
    /// status register names, if the current mode has such a register.
    pub open spec fn mode_after_return(&self) -> Mode {
        if self.cpsr.mode().has_spsr() {
            Mode::spec_from_bits(self.spsr)
        } else {
            self.cpsr.mode()
        }
    }

    /// Returns from an exception: the saved status register becomes the
    /// status register, and the registers of its mode become visible. No
    /// register changes its value in any mode, and no mode its saved status
    /// register. In a mode without a saved status register nothing happens.
    pub fn restore_spsr(&mut self)
        ensures
            forall|mode: Mode, reg: int|
                0 <= reg < 16 ==> #[trigger] final(self).reg_in_mode(
                    old(self).mode_after_return(),
                    mode,
                    reg,
                ) == old(self).reg_in_mode(old(self).cpsr.mode(), mode, reg),
            forall|mode: Mode|
                mode.has_spsr() ==> #[trigger] final(self).spsr_in_mode(
                    old(self).mode_after_return(),
                    mode,
                ) == old(self).spsr_in_mode(old(self).cpsr.mode(), mode),
            final(self).cpsr == (if old(self).cpsr.mode().has_spsr() {
                Cpsr(old(self).spsr)
            } else {
                old(self).cpsr
            }),
    {
        let prev_mode: Mode = self.cpsr.mode();
        if !prev_mode.has_spsr() {
            return ;
        }
        self.cpsr = Cpsr(self.spsr);
        let new_mode: Mode = self.cpsr.mode();
        self.update_mode(prev_mode, new_mode);
        let ghost switched = *self;
        let prev_bank: Bank = prev_mode.bank();
        let new_bank: Bank = new_mode.bank();
        if prev_bank != new_bank {
            self.spsr_banks[prev_bank.index()] = self.spsr;
            self.spsr = self.spsr_banks[new_bank.index()];
        }
        proof {
            assert forall|mode: Mode, reg: int| 0 <= reg < 16 implies #[trigger] self.reg_in_mode(
                new_mode,
                mode,
                reg,
            ) == old(self).reg_in_mode(prev_mode, mode, reg) by {
                assert(switched.reg_in_mode(new_mode, mode, reg) == old(self).reg_in_mode(
                    prev_mode,
                    mode,
                    reg,
                ));
            }
        }
    }
}

} // verus!
