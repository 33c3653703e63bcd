//! The second processor: its registers, its private memories and its view
//! of the work memory that it shares with the main processor.

use crate::cpu::psr::Cpsr;
use crate::cpu::regs::Regs;
use vstd::prelude::*;

verus! {

/// Size of the processor's boot code in bytes.
pub const BIOS_SIZE: usize = 0x4000;

/// Size of the processor's own work memory in bytes.
pub const WRAM_SIZE: usize = 0x1_0000;

/// Size of the shared work memory in bytes.
pub const SWRAM_SIZE: usize = 0x8000;

/// First address of the window onto work memory.
pub const SWRAM_WINDOW_START: u32 = 0x0300_0000;

/// Last address of the window onto work memory.
pub const SWRAM_WINDOW_END: u32 = 0x037F_FFFF;

/// The processor's external memory control register.
#[derive(Clone, Copy, Debug, PartialEq, Eq)]
pub struct LocalExMemControl(pub u16);

/// What starts the transfers of a channel.
#[derive(Clone, Copy, Debug, PartialEq, Eq, Structural)]
pub enum Timing {
    /// Nothing: the channel is switched off.
    Disabled,
    Immediate,
    VBlank,
    DsSlot,
    /// The wireless interface for channels 0 and 2, the expansion slot for
    /// channels 1 and 3.
    Special,
}

/// A channel of the controller for direct memory access.
#[derive(Clone, Copy, Debug, PartialEq, Eq)]
pub struct Channel {
    /// The bits of a unit count that the channel has.
    pub unit_count_mask: u32,
    /// The bits of a source address that the channel has.
    pub src_addr_mask: u32,
    /// The bits of a destination address that the channel has.
    pub dst_addr_mask: u32,
    pub timing: Timing,
}

impl Channel {
    /// A channel with the given count and address bits.
    pub fn new(
        unit_count_mask: u32,
        src_addr_mask: u32,
        dst_addr_mask: u32,
        timing: Timing,
    ) -> (channel: Channel)
        ensures
            channel == (Channel { unit_count_mask, src_addr_mask, dst_addr_mask, timing }),
    {
        Channel { unit_count_mask, src_addr_mask, dst_addr_mask, timing }
    }
}

/// The controller for direct memory access.
#[derive(Clone, Copy, Debug, PartialEq, Eq)]
pub struct Controller {
    pub channels: [Channel; 4],
    /// The channel that is transferring.
    pub cur_channel: Option<u8>,
    /// One bit per channel, set while the channel has a transfer to make.
    pub running_channels: u8,
}

/// The control register of the shared work memory.
#[derive(Clone, Copy, Debug, PartialEq, Eq)]
pub struct SwramControl(pub u8);

impl SwramControl {
    pub open spec fn spec_layout(self) -> u8 {
        self.0 & 3
    }

    /// How the shared work memory is divided between the processors (bits 0
    /// and 1).
    #[verifier::when_used_as_spec(spec_layout)]
    pub fn layout(self) -> (r: u8)
        ensures
            r == self.spec_layout(),
    {
        self.0 & 3
    }
}

/// The work memory that the two processors share.
pub struct Swram {
    pub control: SwramControl,
    pub contents: Vec<u8>,
}

/// A memory that the window onto work memory can show.
#[derive(Clone, Copy, Debug, PartialEq, Eq, Structural)]
pub enum WindowSource {
    /// The processor's own work memory.
    Wram,
    /// The shared work memory.
    Swram,
}

/// What a range of the bus shows: `size` bytes of a memory from `offset` on,
/// over and over.
#[derive(Clone, Copy, Debug, PartialEq, Eq)]
pub struct Mapping {
    pub source: WindowSource,
    pub offset: usize,
    pub size: usize,
    /// The first and the last address of the range.
    pub bounds: (u32, u32),
}

/// What the window onto work memory shows under a layout of the shared work
/// memory: the processor's own work memory while it has no share, the first
/// half, the second half or the whole of the shared memory otherwise.
pub open spec fn spec_swram_mapping(layout: u8) -> Mapping {
    if layout == 0 {
        Mapping {
            source: WindowSource::Wram,
            offset: 0,
            size: 0x1_0000,
            bounds: (0x0300_0000u32, 0x037F_FFFFu32),
        }
    } else if layout == 1 {
        Mapping {
            source: WindowSource::Swram,
            offset: 0,
            size: 0x4000,
            bounds: (0x0300_0000u32, 0x037F_FFFFu32),
        }
    } else if layout == 2 {
        Mapping {
            source: WindowSource::Swram,
            offset: 0x4000,
            size: 0x4000,
            bounds: (0x0300_0000u32, 0x037F_FFFFu32),
        }
    } else {
        Mapping {
            source: WindowSource::Swram,
            offset: 0,
            size: 0x8000,
            bounds: (0x0300_0000u32, 0x037F_FFFFu32),
        }
    }
}

/// The second processor.
pub struct Arm7 {
    pub regs: Regs,
    /// The boot code.
    pub bios: Vec<u8>,
    /// The processor's own work memory.
    pub wram: Vec<u8>,
    pub local_ex_mem_control: LocalExMemControl,
    /// Whether the boot code has run to its end.
    pub post_boot_flag: bool,
    /// The address below which the boot code is protected from being read.
    pub bios_prot: u16,
    /// The word of the boot code that was read last.
    pub last_bios_word: u32,
    pub dma: Controller,
    /// The word that each channel of the controller transferred last.
    pub last_dma_words: [u32; 4],
    /// What the window onto work memory shows.
    pub swram_window: Mapping,
}

impl Arm7 {
    /// A processor after reset, with the given boot code: all registers and
    /// its work memory are zero, no channel of the controller is running,
    /// and the window onto work memory shows the processor's own.
    ///
    /// Channels 0 to 2 count 14 bits and channel 3 counts 16; channel 0
    /// reads from 27 bits of address and the others from 28; channels 0 to
    /// 2 write to 27 bits of address and channel 3 to 28.
    pub fn new(bios: Vec<u8>) -> (arm7: Arm7)
        requires
            bios.len() == BIOS_SIZE,
        ensures
            arm7.bios@ == bios@,
            arm7.wram.len() == WRAM_SIZE,
            forall|i: int| 0 <= i < WRAM_SIZE ==> #[trigger] arm7.wram[i] == 0,
            arm7.local_ex_mem_control.0 == 0,
            !arm7.post_boot_flag,
            arm7.bios_prot == 0,
            arm7.last_bios_word == 0,
            arm7.last_dma_words@ == seq![0u32, 0u32, 0u32, 0u32],
            arm7.dma.channels[0] == (Channel {
                unit_count_mask: 0x3FFF,
                src_addr_mask: 0x07FF_FFFF,
                dst_addr_mask: 0x07FF_FFFF,
                timing: Timing::Disabled,
            }),
            arm7.dma.channels[1] == (Channel {
                unit_count_mask: 0x3FFF,
                src_addr_mask: 0x0FFF_FFFF,
                dst_addr_mask: 0x07FF_FFFF,
                timing: Timing::Disabled,
            }),
            arm7.dma.channels[2] == arm7.dma.channels[1],
            arm7.dma.channels[3] == (Channel {
                unit_count_mask: 0xFFFF,
                src_addr_mask: 0x0FFF_FFFF,
                dst_addr_mask: 0x0FFF_FFFF,
                timing: Timing::Disabled,
            }),
            arm7.dma.cur_channel is None,
            arm7.dma.running_channels == 0,
            arm7.swram_window == spec_swram_mapping(0),
            arm7.regs.cur@ == Seq::new(16, |i: int| 0u32),
            arm7.regs.cpsr.0 == 0,
    {
        let mut wram: Vec<u8> = Vec::with_capacity(WRAM_SIZE);
        while wram.len() < WRAM_SIZE
            invariant
                wram.len() <= WRAM_SIZE,
                forall|i: int| 0 <= i < wram.len() ==> #[trigger] wram[i] == 0,
            decreases WRAM_SIZE - wram.len(),
        {
            wram.push(0);
        }
        let arm7 = Arm7 {
            regs: Regs {
                cur: [0u32; 16],
                cpsr: Cpsr(0),
                spsr: 0,
                r8_12_other: [0u32; 5],
                r8_12_fiq: [0u32; 5],
                r13_14: [[0u32; 2]; 6],
                spsr_banks: [0u32; 6],
            },
            bios,
            wram,
            local_ex_mem_control: LocalExMemControl(0),
            post_boot_flag: false,
            bios_prot: 0,
            last_bios_word: 0,
            dma: Controller {
                channels: [
                    Channel::new(0x3FFF, 0x07FF_FFFF, 0x07FF_FFFF, Timing::Disabled),
                    Channel::new(0x3FFF, 0x0FFF_FFFF, 0x07FF_FFFF, Timing::Disabled),
                    Channel::new(0x3FFF, 0x0FFF_FFFF, 0x07FF_FFFF, Timing::Disabled),
                    Channel::new(0xFFFF, 0x0FFF_FFFF, 0x0FFF_FFFF, Timing::Disabled),
                ],
                cur_channel: None,
                running_channels: 0,
            },
            last_dma_words: [0u32; 4],
            swram_window: Mapping {
                source: WindowSource::Wram,
                offset: 0,
                size: 0x1_0000,
                bounds: (0x0300_0000, 0x037F_FFFF),
            },
        };
        assert(arm7.regs.cur@ =~= Seq::new(16, |i: int| 0u32));
        assert(arm7.last_dma_words@ =~= seq![0u32, 0u32, 0u32, 0u32]);
        arm7
    }

    /// Continues at `addr`.
    pub fn jump(&mut self, addr: u32)
        ensures
            final(self).regs.cur@ == old(self).regs.cur@.update(15, addr),
            *final(self) == (Arm7 {
                regs: Regs { cur: final(self).regs.cur, ..old(self).regs },
                ..*old(self)
            }),
    {
        self.regs.cur[15] = addr;
    }

    /// The program counter.
    pub fn r15(&self) -> (r: u32)
        ensures
            r == self.regs.cur[15],
    {
        self.regs.cur[15]
    }

    /// The status register.
    pub fn cpsr(&self) -> (r: Cpsr)
        ensures
            r == self.regs.cpsr,
    {
        self.regs.cpsr
    }

    /// The register file.
    pub fn regs(&self) -> (r: Regs)
        ensures
            r == self.regs,
    {
        self.regs
    }

    /// Replaces the register file.
    pub fn set_regs(&mut self, regs: &Regs)
        ensures
            *final(self) == (Arm7 { regs: *regs, ..*old(self) }),
    {
        self.regs = *regs;
    }

    /// The boot code.
    pub fn bios(&self) -> (r: &Vec<u8>)
        ensures
            r@ == self.bios@,
    {
        &self.bios
    }

    /// Gives up the processor for its boot code.
    pub fn into_bios(self) -> (r: Vec<u8>)
        ensures
            r@ == self.bios@,
    {
        self.bios
    }

    /// The external memory control register.
    pub fn local_ex_mem_control(&self) -> (r: LocalExMemControl)
        ensures
            r == self.local_ex_mem_control,
    {
        self.local_ex_mem_control
    }

    /// Sets the external memory control register, of which the processor
    /// has the low seven bits.
    pub fn set_local_ex_mem_control(&mut self, value: LocalExMemControl)
        ensures
            final(self).local_ex_mem_control.0 == value.0 & 0x7F,
            *final(self) == (Arm7 {
                local_ex_mem_control: final(self).local_ex_mem_control,
                ..*old(self)
            }),
    {
        self.local_ex_mem_control = LocalExMemControl(value.0 & 0x7F);
    }

    /// Whether the boot code has run to its end.
    pub fn post_boot_flag(&self) -> (r: bool)
        ensures
            r == self.post_boot_flag,
    {
        self.post_boot_flag
    }

    /// Sets the flag that says whether the boot code has run to its end.
    pub fn set_post_boot_flag(&mut self, value: bool)
        ensures
            final(self).post_boot_flag == value,
            *final(self) == (Arm7 { post_boot_flag: value, ..*old(self) }),
    {
        self.post_boot_flag = value;
    }

    /// The address below which the boot code is protected from being read.
    pub fn bios_prot(&self) -> (r: u16)
        ensures
            r == self.bios_prot,
    {
        self.bios_prot
    }

    /// Sets the address below which the boot code is protected: an even
    /// address within the boot code.
    pub fn set_bios_prot(&mut self, value: u16)
        ensures
            final(self).bios_prot == value & 0x3FFE,
            *final(self) == (Arm7 { bios_prot: value & 0x3FFE, ..*old(self) }),
    {
        self.bios_prot = value & 0x3FFE;
    }

    /// The word of the boot code that was read last.
    pub fn last_bios_word(&self) -> (r: u32)
        ensures
            r == self.last_bios_word,
    {
        self.last_bios_word
    }

    /// The word that each channel of the controller transferred last.
    pub fn last_dma_words(&self) -> (r: [u32; 4])
        ensures
            r == self.last_dma_words,
    {
        self.last_dma_words
    }

    /// What the window onto work memory shows.
    pub fn swram_window(&self) -> (r: Mapping)
        ensures
            r == self.swram_window,
    {
        self.swram_window
    }

    /// Lets the window onto work memory show what the layout of the shared
    /// work memory gives the processor.
    pub fn recalc_swram(&mut self, swram: &Swram)
        ensures
            final(self).swram_window == spec_swram_mapping(swram.control.layout()),
            *final(self) == (Arm7 { swram_window: final(self).swram_window, ..*old(self) }),
    {
        let layout: u8 = swram.control.layout();
        let bounds: (u32, u32) = (SWRAM_WINDOW_START, SWRAM_WINDOW_END);
        self.swram_window =
        if layout == 0 {
            Mapping { source: WindowSource::Wram, offset: 0, size: WRAM_SIZE, bounds }
        } else if layout == 1 {
            Mapping { source: WindowSource::Swram, offset: 0, size: 0x4000, bounds }
        } else if layout == 2 {
            Mapping { source: WindowSource::Swram, offset: 0x4000, size: 0x4000, bounds }
        } else {
            Mapping { source: WindowSource::Swram, offset: 0, size: SWRAM_SIZE, bounds }
        };
    }

    /// The byte that the window onto work memory shows at `addr`.
    pub open spec fn spec_window_byte(&self, swram: &Swram, addr: u32) -> u8 {
        let mapping = self.swram_window;
        let at = mapping.offset + (addr as usize & (mapping.size - 1) as usize);
        match mapping.source {
            WindowSource::Wram => crate::bytes::byte_at(self.wram@, at),
            WindowSource::Swram => crate::bytes::byte_at(swram.contents@, at),
        }
    }

    /// Whether the window is one that `recalc_swram` sets.
    pub open spec fn window_wf(&self) -> bool {
        exists|layout: u8| self.swram_window == #[trigger] spec_swram_mapping(layout)
    }

    /// Reads a byte through the window onto work memory: the memory that the
    /// window shows repeats throughout the window.
    pub fn read_window_8(&self, swram: &Swram, addr: u32) -> (r: u8)
        requires
            self.window_wf(),
            SWRAM_WINDOW_START <= addr <= SWRAM_WINDOW_END,
        ensures
            r == self.spec_window_byte(swram, addr),
    {
        let mapping = self.swram_window;
        let within: usize = addr as usize & (mapping.size - 1);
        proof {
            crate::bytes::lemma_masked_offset(addr as usize, (mapping.size - 1) as usize);
        }
        let at: usize = mapping.offset + within;
        match mapping.source {
            WindowSource::Wram => crate::bytes::read_8(&self.wram, at),
            WindowSource::Swram => crate::bytes::read_8(&swram.contents, at),
        }
    }
}

} // verus!
