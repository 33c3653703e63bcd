//! Video memory as the compositor reads it.
//!
//! Each region is a run of bytes that starts at offset zero of the region.
//! Addresses wrap at the region's size, reads of more than one byte are
//! little-endian and start at the address rounded down to their size, and
//! whatever lies beyond the bytes that a region holds reads as zero.

use crate::bytes::{
    byte_at, le_16_at, le_32_at, le_64_at, lemma_masked_address, lemma_masked_offset, read_8,
    read_le_16, read_le_32, read_le_64,
};
use vstd::prelude::*;

verus! {

/// Which of the two display engines a piece of state belongs to.
#[derive(Clone, Copy, Debug, PartialEq, Eq)]
pub enum Role {
    /// The engine that can show the 3D layer and display a memory bank.
    A,
    /// The engine without those.
    B,
}

impl Role {
    pub open spec fn spec_is_a(self) -> bool {
        self is A
    }

    /// Whether this is engine A.
    #[verifier::when_used_as_spec(spec_is_a)]
    pub fn is_a(self) -> (r: bool)
        ensures
            r == self.spec_is_a(),
    {
        match self {
            Role::A => true,
            Role::B => false,
        }
    }

    pub open spec fn spec_bg_vram_mask(self) -> u32 {
        if self is A {
            0x7_FFFF
        } else {
            0x1_FFFF
        }
    }

    /// The highest address of the engine's background memory.
    #[verifier::when_used_as_spec(spec_bg_vram_mask)]
    pub fn bg_vram_mask(self) -> (r: u32)
        ensures
            r == self.spec_bg_vram_mask(),
    {
        match self {
            Role::A => 0x7_FFFF,
            Role::B => 0x1_FFFF,
        }
    }

    pub open spec fn spec_obj_vram_mask(self) -> u32 {
        if self is A {
            0x3_FFFF
        } else {
            0x1_FFFF
        }
    }

    /// The highest address of the engine's sprite memory.
    #[verifier::when_used_as_spec(spec_obj_vram_mask)]
    pub fn obj_vram_mask(self) -> (r: u32)
        ensures
            r == self.spec_obj_vram_mask(),
    {
        match self {
            Role::A => 0x3_FFFF,
            Role::B => 0x1_FFFF,
        }
    }

    pub open spec fn spec_palette_base(self) -> usize {
        if self is A {
            0
        } else {
            0x400
        }
    }

    /// Offset of the engine's palettes in palette memory, and of its sprites
    /// in object attribute memory.
    #[verifier::when_used_as_spec(spec_palette_base)]
    pub fn palette_base(self) -> (r: usize)
        ensures
            r == self.spec_palette_base(),
    {
        match self {
            Role::A => 0,
            Role::B => 0x400,
        }
    }
}

/// Everything the compositor reads, region by region.
pub struct Vram {
    /// Background memory of engine A: up to 512 KiB.
    pub a_bg: Vec<u8>,
    /// Background memory of engine B: up to 128 KiB.
    pub b_bg: Vec<u8>,
    /// Sprite memory of engine A: up to 256 KiB.
    pub a_obj: Vec<u8>,
    /// Sprite memory of engine B: up to 128 KiB.
    pub b_obj: Vec<u8>,
    /// Palette memory: background and sprite palette of engine A, then those
    /// of engine B, 512 bytes each.
    pub palette: Vec<u8>,
    /// Object attribute memory: 128 sprites of engine A, then those of engine
    /// B, 8 bytes each.
    pub oam: Vec<u8>,
    /// Extended background palettes of engine A: four slots of 8 KiB.
    pub a_bg_ext_pal: Vec<u8>,
    /// Extended background palettes of engine B.
    pub b_bg_ext_pal: Vec<u8>,
    /// Extended sprite palettes of engine A: 8 KiB.
    pub a_obj_ext_pal: Vec<u8>,
    /// Extended sprite palettes of engine B.
    pub b_obj_ext_pal: Vec<u8>,
    /// The four banks that engine A can display directly, 128 KiB each.
    pub lcdc_banks: [Vec<u8>; 4],
    /// What each of those banks is mapped as; zero means that it is open to
    /// direct display.
    pub lcdc_bank_mst: [u8; 4],
}

impl Vram {
    /// Background memory of an engine.
    pub open spec fn bg_mem(&self, role: Role) -> Seq<u8> {
        if role is A {
            self.a_bg@
        } else {
            self.b_bg@
        }
    }

    /// Sprite memory of an engine.
    pub open spec fn obj_mem(&self, role: Role) -> Seq<u8> {
        if role is A {
            self.a_obj@
        } else {
            self.b_obj@
        }
    }

    /// Extended background palettes of an engine.
    pub open spec fn bg_ext_pal_mem(&self, role: Role) -> Seq<u8> {
        if role is A {
            self.a_bg_ext_pal@
        } else {
            self.b_bg_ext_pal@
        }
    }

    /// Extended sprite palettes of an engine.
    pub open spec fn obj_ext_pal_mem(&self, role: Role) -> Seq<u8> {
        if role is A {
            self.a_obj_ext_pal@
        } else {
            self.b_obj_ext_pal@
        }
    }

    /// The byte of an engine's background memory at `addr`.
    pub open spec fn bg_byte(&self, role: Role, addr: u32) -> u8 {
        byte_at(self.bg_mem(role), (addr & role.bg_vram_mask()) as int)
    }

    /// The 16-bit value of an engine's background memory at `addr`.
    pub open spec fn bg_16(&self, role: Role, addr: u32) -> u16 {
        le_16_at(self.bg_mem(role), (addr & role.bg_vram_mask() & !1u32) as int)
    }

    /// The 32-bit value of an engine's background memory at `addr`.
    pub open spec fn bg_32(&self, role: Role, addr: u32) -> u32 {
        le_32_at(self.bg_mem(role), (addr & role.bg_vram_mask() & !3u32) as int)
    }

    /// The 64-bit value of an engine's background memory at `addr`.
    pub open spec fn bg_64(&self, role: Role, addr: u32) -> u64 {
        le_64_at(self.bg_mem(role), (addr & role.bg_vram_mask() & !7u32) as int)
    }

    /// The 32-bit value of an engine's sprite memory at `addr`.
    pub open spec fn obj_32(&self, role: Role, addr: u32) -> u32 {
        le_32_at(self.obj_mem(role), (addr & role.obj_vram_mask() & !3u32) as int)
    }

    /// The 64-bit value of an engine's sprite memory at `addr`.
    pub open spec fn obj_64(&self, role: Role, addr: u32) -> u64 {
        le_64_at(self.obj_mem(role), (addr & role.obj_vram_mask() & !7u32) as int)
    }

    /// The colour at byte offset `offset` of palette memory.
    pub open spec fn palette_16(&self, offset: usize) -> u16 {
        le_16_at(self.palette@, (offset & 0x7FE) as int)
    }

    /// The attribute word at byte offset `offset` of object attribute memory.
    pub open spec fn oam_16(&self, offset: usize) -> u16 {
        le_16_at(self.oam@, (offset & 0x7FE) as int)
    }

    /// Colour `index` of slot `slot` of an engine's extended background
    /// palettes. A slot holds 16 palettes of 256 colours.
    pub open spec fn bg_ext_pal_16(&self, role: Role, slot: u8, index: usize) -> u16 {
        le_16_at(
            self.bg_ext_pal_mem(role),
            ((slot & 3) as usize * 0x2000 + (index & 0xFFF) * 2) as int,
        )
    }

    /// Colour `index` of an engine's extended sprite palettes: 16 palettes of
    /// 256 colours.
    pub open spec fn obj_ext_pal_16(&self, role: Role, index: usize) -> u16 {
        le_16_at(self.obj_ext_pal_mem(role), ((index & 0xFFF) * 2) as int)
    }

    /// The colour at byte offset `offset` of a directly displayed bank.
    pub open spec fn lcdc_16(&self, bank: u8, offset: usize) -> u16 {
        le_16_at(self.lcdc_banks[(bank & 3) as int]@, (offset & 0x1_FFFE) as int)
    }

    /// Reads a byte of an engine's background memory.
    pub fn read_bg_8(&self, role: Role, addr: u32) -> (r: u8)
        ensures
            r == self.bg_byte(role, addr),
    {
        let at: u32 = addr & role.bg_vram_mask();
        match role {
            Role::A => read_8(&self.a_bg, at as usize),
            Role::B => read_8(&self.b_bg, at as usize),
        }
    }

    /// Reads 16 bits of an engine's background memory.
    pub fn read_bg_16(&self, role: Role, addr: u32) -> (r: u16)
        ensures
            r == self.bg_16(role, addr),
    {
        let at: u32 = addr & role.bg_vram_mask() & !1u32;
        proof {
            lemma_masked_address(addr, role.bg_vram_mask(), 1);
        }
        match role {
            Role::A => read_le_16(&self.a_bg, at as usize),
            Role::B => read_le_16(&self.b_bg, at as usize),
        }
    }

    /// Reads 32 bits of an engine's background memory.
    pub fn read_bg_32(&self, role: Role, addr: u32) -> (r: u32)
        ensures
            r == self.bg_32(role, addr),
    {
        let at: u32 = addr & role.bg_vram_mask() & !3u32;
        proof {
            lemma_masked_address(addr, role.bg_vram_mask(), 3);
        }
        match role {
            Role::A => read_le_32(&self.a_bg, at as usize),
            Role::B => read_le_32(&self.b_bg, at as usize),
        }
    }

    /// Reads 64 bits of an engine's background memory.
    pub fn read_bg_64(&self, role: Role, addr: u32) -> (r: u64)
        ensures
            r == self.bg_64(role, addr),
    {
        let at: u32 = addr & role.bg_vram_mask() & !7u32;
        proof {
            lemma_masked_address(addr, role.bg_vram_mask(), 7);
        }
        match role {
            Role::A => read_le_64(&self.a_bg, at as usize),
            Role::B => read_le_64(&self.b_bg, at as usize),
        }
    }

    /// Reads 32 bits of an engine's sprite memory.
    pub fn read_obj_32(&self, role: Role, addr: u32) -> (r: u32)
        ensures
            r == self.obj_32(role, addr),
    {
        let at: u32 = addr & role.obj_vram_mask() & !3u32;
        proof {
            lemma_masked_address(addr, role.obj_vram_mask(), 3);
        }
        match role {
            Role::A => read_le_32(&self.a_obj, at as usize),
            Role::B => read_le_32(&self.b_obj, at as usize),
        }
    }

    /// Reads 64 bits of an engine's sprite memory.
    pub fn read_obj_64(&self, role: Role, addr: u32) -> (r: u64)
        ensures
            r == self.obj_64(role, addr),
    {
        let at: u32 = addr & role.obj_vram_mask() & !7u32;
        proof {
            lemma_masked_address(addr, role.obj_vram_mask(), 7);
        }
        match role {
            Role::A => read_le_64(&self.a_obj, at as usize),
            Role::B => read_le_64(&self.b_obj, at as usize),
        }
    }

    /// Reads a colour of palette memory.
    pub fn read_palette_16(&self, offset: usize) -> (r: u16)
        ensures
            r == self.palette_16(offset),
    {
        let at: usize = offset & 0x7FE;
        proof {
            lemma_masked_offset(offset, 0x7FE);
        }
        read_le_16(&self.palette, at)
    }

    /// Reads an attribute word of object attribute memory.
    pub fn read_oam_16(&self, offset: usize) -> (r: u16)
        ensures
            r == self.oam_16(offset),
    {
        let at: usize = offset & 0x7FE;
        proof {
            lemma_masked_offset(offset, 0x7FE);
        }
        read_le_16(&self.oam, at)
    }

    /// Reads a colour of an engine's extended background palettes.
    pub fn read_bg_ext_pal_16(&self, role: Role, slot: u8, index: usize) -> (r: u16)
        ensures
            r == self.bg_ext_pal_16(role, slot, index),
    {
        let low_slot: u8 = slot & 3;
        let low_index: usize = index & 0xFFF;
        proof {
            lemma_masked_offset(index, 0xFFF);
            assert(low_slot <= 3) by (bit_vector)
                requires
                    low_slot == slot & 3,
            ;
        }
        let at: usize = low_slot as usize * 0x2000 + low_index * 2;
        match role {
            Role::A => read_le_16(&self.a_bg_ext_pal, at),
            Role::B => read_le_16(&self.b_bg_ext_pal, at),
        }
    }

    /// Reads a colour of an engine's extended sprite palettes.
    pub fn read_obj_ext_pal_16(&self, role: Role, index: usize) -> (r: u16)
        ensures
            r == self.obj_ext_pal_16(role, index),
    {
        let low_index: usize = index & 0xFFF;
        proof {
            lemma_masked_offset(index, 0xFFF);
        }
        match role {
            Role::A => read_le_16(&self.a_obj_ext_pal, low_index * 2),
            Role::B => read_le_16(&self.b_obj_ext_pal, low_index * 2),
        }
    }

    /// Reads a colour of a directly displayed bank.
    pub fn read_lcdc_16(&self, bank: u8, offset: usize) -> (r: u16)
        ensures
            r == self.lcdc_16(bank, offset),
    {
        let low_bank: u8 = bank & 3;
        let at: usize = offset & 0x1_FFFE;
        proof {
            lemma_masked_offset(offset, 0x1_FFFE);
            assert(low_bank <= 3) by (bit_vector)
                requires
                    low_bank == bank & 3,
            ;
        }
        read_le_16(&self.lcdc_banks[low_bank as usize], at)
    }
}

} // verus!
