//! The snapshot of the 3D state that the rendering thread works from.
//!
//! At the start of a frame the compositor's thread copies into the snapshot
//! what the frame is rendered from: the rendering registers, the textures and
//! their palettes, and the vertices and polygons of the frame. Textures and
//! palettes are copied slot by slot, and only the slots that were written to
//! since the frame before.

use vstd::prelude::*;

verus! {

/// Size of texture memory in bytes: four slots of 128 KiB.
pub const TEXTURE_SIZE: usize = 0x8_0000;

/// Size of texture palette memory in bytes: six slots of 16 KiB.
pub const TEX_PAL_SIZE: usize = 0x1_8000;

/// Size of the snapshot's copy of texture palette memory in bytes.
pub const TEX_PAL_COPY_SIZE: usize = 0x2_0000;

/// Number of vertices that a frame can hold.
pub const VERT_RAM_LEN: usize = 6144;

/// Number of polygons that a frame can hold.
pub const POLY_RAM_LEN: usize = 2048;

/// A colour of the 3D engine: red, green, blue and alpha.
#[derive(Clone, Copy, Debug, PartialEq, Eq)]
pub struct Color(pub [u8; 4]);

impl Color {
    /// Whether every channel is zero.
    pub open spec fn is_zero(self) -> bool {
        forall|i: int| 0 <= i < 4 ==> #[trigger] self.0[i] == 0
    }
}

/// The control register of the rendering engine.
#[derive(Clone, Copy, Debug, PartialEq, Eq)]
pub struct RenderingControl(pub u16);

impl RenderingControl {
    pub open spec fn spec_alpha_test_enabled(self) -> bool {
        self.0 & 1u16 << 2 != 0
    }

    /// Whether pixels of low alpha are discarded (bit 2).
    #[verifier::when_used_as_spec(spec_alpha_test_enabled)]
    pub fn alpha_test_enabled(self) -> (r: bool)
        ensures
            r == self.spec_alpha_test_enabled(),
    {
        self.0 & 1u16 << 2 != 0
    }
}

/// A vertex in screen space.
#[derive(Clone, Copy, Debug, PartialEq, Eq)]
pub struct ScreenVertex {
    pub coords: [u16; 2],
    pub depth: u32,
    pub w: u16,
    pub uv: [i16; 2],
    pub color: Color,
}

impl ScreenVertex {
    /// Whether everything about the vertex is zero.
    pub open spec fn is_zero(self) -> bool {
        &&& forall|i: int| 0 <= i < 2 ==> #[trigger] self.coords[i] == 0
        &&& self.depth == 0
        &&& self.w == 0
        &&& forall|i: int| 0 <= i < 2 ==> #[trigger] self.uv[i] == 0
        &&& self.color.is_zero()
    }
}

/// A polygon: its vertices, as indices into vertex memory, and its
/// attributes.
#[derive(Clone, Copy, Debug, PartialEq, Eq)]
pub struct Polygon {
    pub vertices: [u16; 10],
    pub vertices_len: u8,
    pub attrs: u32,
    pub tex_params: u32,
    pub tex_palette_base: u16,
}

impl Polygon {
    /// Whether everything about the polygon is zero.
    pub open spec fn is_zero(self) -> bool {
        &&& forall|i: int| 0 <= i < 10 ==> #[trigger] self.vertices[i] == 0
        &&& self.vertices_len == 0
        &&& self.attrs == 0
        &&& self.tex_params == 0
        &&& self.tex_palette_base == 0
    }
}

/// The rendering registers as the geometry engine holds them.
#[derive(Clone, Copy, Debug, PartialEq, Eq)]
pub struct RenderingState {
    pub control: RenderingControl,
    /// One bit per slot of texture memory, set if the slot was written to.
    pub texture_dirty: u8,
    /// One bit per slot of texture palette memory, set if the slot was
    /// written to.
    pub tex_pal_dirty: u8,
    pub alpha_test_ref: u8,
    pub clear_poly_id: u8,
    pub clear_image_offset: [u8; 2],
    pub clear_depth: u16,
    pub fog_offset: u16,
    pub fog_densities: [u8; 0x20],
    pub rear_plane_fog_enabled: bool,
    pub clear_color: Color,
    pub fog_color: Color,
    pub edge_colors: [Color; 8],
    pub toon_colors: [Color; 0x20],
}

/// The snapshot.
pub struct RenderingData {
    pub control: RenderingControl,
    pub w_buffering: bool,
    pub alpha_test_ref: u8,
    pub clear_poly_id: u8,
    pub clear_image_offset: [u8; 2],
    pub clear_depth: u16,
    pub fog_offset: u16,
    pub fog_densities: [u8; 0x20],
    pub rear_plane_fog_enabled: bool,
    pub clear_color: Color,
    pub fog_color: Color,
    pub edge_colors: [Color; 8],
    pub toon_colors: [Color; 0x20],
    pub texture: Vec<u8>,
    pub tex_pal: Vec<u8>,
    pub vert_ram: Vec<ScreenVertex>,
    pub poly_ram: Vec<Polygon>,
    /// The number of polygons of the frame.
    pub poly_ram_level: u16,
}

/// A run of bytes after the slots of `src` that `dirty` marks were copied
/// over it. A slot has `slot_size` bytes.
pub open spec fn spec_copy_dirty(dst: Seq<u8>, src: Seq<u8>, dirty: u8, slot_size: int) -> Seq<u8> {
    Seq::new(
        dst.len(),
        |i: int|
            if i < src.len() && dirty & 1u8 << ((i / slot_size) as u8) != 0 {
                src[i]
            } else {
                dst[i]
            },
    )
}

/// A run of elements after `src` was copied over its beginning.
pub open spec fn spec_copy_prefix<T>(dst: Seq<T>, src: Seq<T>) -> Seq<T> {
    Seq::new(
        dst.len(),
        |i: int|
            if i < src.len() {
                src[i]
            } else {
                dst[i]
            },
    )
}

/// Copies the bytes of `src` from `start` up to `end` over those of `dst`.
fn copy_range(dst: &mut Vec<u8>, src: &Vec<u8>, start: usize, end: usize)
    requires
        start <= end <= src.len() <= old(dst).len(),
    ensures
        final(dst).len() == old(dst).len(),
        forall|i: int|
            0 <= i < old(dst).len() ==> #[trigger] final(dst)[i] == (if start <= i < end {
                src[i]
            } else {
                old(dst)[i]
            }),
{
    let mut i: usize = start;
    while i < end
        invariant
            start <= i <= end <= src.len() <= dst.len(),
            dst.len() == old(dst).len(),
            forall|j: int|
                0 <= j < dst.len() ==> #[trigger] dst[j] == (if start <= j < i {
                    src[j]
                } else {
                    old(dst)[j]
                }),
        decreases end - i,
    {
        dst[i] = src[i];
        i += 1;
    }
}

/// A run of `len` copies of `value`.
fn filled<T: Copy>(value: T, len: usize) -> (run: Vec<T>)
    ensures
        run.len() == len,
        forall|i: int| 0 <= i < len ==> #[trigger] run[i] == value,
{
    let mut run: Vec<T> = Vec::with_capacity(len);
    while run.len() < len
        invariant
            run.len() <= len,
            forall|i: int| 0 <= i < run.len() ==> #[trigger] run[i] == value,
        decreases len - run.len(),
    {
        run.push(value);
    }
    run
}

impl RenderingData {
    /// A snapshot of nothing: every register and every byte is zero, and
    /// there are no polygons.
    pub fn new() -> (data: RenderingData)
        ensures
            data.wf(),
            data.control.0 == 0,
            data.alpha_test_ref == 0,
            data.clear_poly_id == 0,
            forall|i: int| 0 <= i < 2 ==> #[trigger] data.clear_image_offset[i] == 0,
            data.clear_depth == 0,
            data.fog_offset == 0,
            forall|i: int| 0 <= i < 0x20 ==> #[trigger] data.fog_densities[i] == 0,
            !data.rear_plane_fog_enabled,
            data.clear_color.is_zero(),
            data.fog_color.is_zero(),
            forall|i: int| 0 <= i < 8 ==> (#[trigger] data.edge_colors[i]).is_zero(),
            forall|i: int| 0 <= i < 0x20 ==> (#[trigger] data.toon_colors[i]).is_zero(),
            !data.w_buffering,
            data.poly_ram_level == 0,
            forall|i: int| 0 <= i < TEXTURE_SIZE ==> #[trigger] data.texture[i] == 0,
            forall|i: int| 0 <= i < TEX_PAL_COPY_SIZE ==> #[trigger] data.tex_pal[i] == 0,
            forall|i: int| 0 <= i < VERT_RAM_LEN ==> (#[trigger] data.vert_ram[i]).is_zero(),
            forall|i: int| 0 <= i < POLY_RAM_LEN ==> (#[trigger] data.poly_ram[i]).is_zero(),
    {
        let black = Color([0u8; 4]);
        RenderingData {
            control: RenderingControl(0),
            w_buffering: false,
            alpha_test_ref: 0,
            clear_poly_id: 0,
            clear_image_offset: [0u8, 0u8],
            clear_depth: 0,
            fog_offset: 0,
            fog_densities: [0u8; 0x20],
            rear_plane_fog_enabled: false,
            clear_color: black,
            fog_color: black,
            edge_colors: [black; 8],
            toon_colors: [black; 0x20],
            texture: filled(0u8, TEXTURE_SIZE),
            tex_pal: filled(0u8, TEX_PAL_COPY_SIZE),
            vert_ram: filled(
                ScreenVertex { coords: [0u16; 2], depth: 0, w: 0, uv: [0i16; 2], color: black },
                VERT_RAM_LEN,
            ),
            poly_ram: filled(
                Polygon {
                    vertices: [0u16; 10],
                    vertices_len: 0,
                    attrs: 0,
                    tex_params: 0,
                    tex_palette_base: 0,
                },
                POLY_RAM_LEN,
            ),
            poly_ram_level: 0,
        }
    }

    /// Whether the snapshot's memories have their sizes.
    pub open spec fn wf(&self) -> bool {
        &&& self.texture.len() == TEXTURE_SIZE
        &&& self.tex_pal.len() == TEX_PAL_COPY_SIZE
        &&& self.vert_ram.len() == VERT_RAM_LEN
        &&& self.poly_ram.len() == POLY_RAM_LEN
    }

    /// What the snapshot takes from the rendering registers: all of them,
    /// with a reference alpha of zero while the alpha test is off.
    pub open spec fn registers_match(&self, state: &RenderingState) -> bool {
        &&& self.control == state.control
        &&& self.alpha_test_ref == (if state.control.alpha_test_enabled() {
            state.alpha_test_ref
        } else {
            0
        })
        &&& self.clear_poly_id == state.clear_poly_id
        &&& self.clear_image_offset == state.clear_image_offset
        &&& self.clear_depth == state.clear_depth
        &&& self.fog_offset == state.fog_offset
        &&& self.fog_densities == state.fog_densities
        &&& self.rear_plane_fog_enabled == state.rear_plane_fog_enabled
        &&& self.fog_color == state.fog_color
        &&& self.edge_colors == state.edge_colors
        &&& self.clear_color == state.clear_color
        &&& self.toon_colors == state.toon_colors
    }

    /// The snapshot with the rendering registers taken over.
    pub open spec fn with_registers(self, state: &RenderingState) -> RenderingData {
        RenderingData {
            control: state.control,
            alpha_test_ref: if state.control.alpha_test_enabled() {
                state.alpha_test_ref
            } else {
                0
            },
            clear_poly_id: state.clear_poly_id,
            clear_image_offset: state.clear_image_offset,
            clear_depth: state.clear_depth,
            fog_offset: state.fog_offset,
            fog_densities: state.fog_densities,
            rear_plane_fog_enabled: state.rear_plane_fog_enabled,
            fog_color: state.fog_color,
            edge_colors: state.edge_colors,
            clear_color: state.clear_color,
            toon_colors: state.toon_colors,
            ..self
        }
    }

    /// Copies the rendering registers and the dirty slots of texture and
    /// texture palette memory into the snapshot.
    fn copy_rendering_data(&mut self, texture: &Vec<u8>, tex_pal: &Vec<u8>, state: &RenderingState)
        requires
            old(self).wf(),
            texture.len() == TEXTURE_SIZE,
            tex_pal.len() == TEX_PAL_SIZE,
        ensures
            final(self).wf(),
            final(self).registers_match(state),
            final(self).texture@ == spec_copy_dirty(
                old(self).texture@,
                texture@,
                state.texture_dirty,
                0x2_0000,
            ),
            final(self).tex_pal@ == spec_copy_dirty(
                old(self).tex_pal@,
                tex_pal@,
                state.tex_pal_dirty,
                0x4000,
            ),
            final(self).w_buffering == old(self).w_buffering,
            final(self).vert_ram == old(self).vert_ram,
            final(self).poly_ram == old(self).poly_ram,
            final(self).poly_ram_level == old(self).poly_ram_level,
    {
        self.control = state.control;
        self.alpha_test_ref = if state.control.alpha_test_enabled() {
            state.alpha_test_ref
        } else {
            0
        };
        self.clear_poly_id = state.clear_poly_id;
        self.clear_image_offset = state.clear_image_offset;
        self.clear_depth = state.clear_depth;
        self.fog_offset = state.fog_offset;
        self.fog_densities = state.fog_densities;
        self.rear_plane_fog_enabled = state.rear_plane_fog_enabled;
        self.fog_color = state.fog_color;
        self.edge_colors = state.edge_colors;
        self.clear_color = state.clear_color;
        self.toon_colors = state.toon_colors;
        let texture_dirty: u8 = state.texture_dirty;
        let mut slot: usize = 0;
        while slot < 4
            invariant
                slot <= 4,
                old(self).wf(),
                self.wf(),
                texture.len() == TEXTURE_SIZE,
                self.texture.len() == TEXTURE_SIZE,
                texture_dirty == state.texture_dirty,
                forall|i: int|
                    0 <= i < TEXTURE_SIZE ==> #[trigger] self.texture[i] == (if i / 0x2_0000
                        < slot {
                        spec_copy_dirty(old(self).texture@, texture@, texture_dirty, 0x2_0000)[i]
                    } else {
                        old(self).texture[i]
                    }),
                *self == (RenderingData { texture: self.texture, ..*old(self) }).with_registers(
                    state,
                ),
            decreases 4 - slot,
        {
            if texture_dirty & 1u8 << (slot as u8) != 0 {
                copy_range(&mut self.texture, texture, slot * 0x2_0000, (slot + 1) * 0x2_0000);
            }
            slot += 1;
        }
        assert(self.texture@ =~= spec_copy_dirty(
            old(self).texture@,
            texture@,
            texture_dirty,
            0x2_0000,
        ));
        let tex_pal_dirty: u8 = state.tex_pal_dirty;
        let mut slot: usize = 0;
        while slot < 6
            invariant
                slot <= 6,
                old(self).wf(),
                self.wf(),
                tex_pal.len() == TEX_PAL_SIZE,
                self.tex_pal.len() == TEX_PAL_COPY_SIZE,
                self.texture@ == spec_copy_dirty(
                    old(self).texture@,
                    texture@,
                    state.texture_dirty,
                    0x2_0000,
                ),
                tex_pal_dirty == state.tex_pal_dirty,
                forall|i: int|
                    0 <= i < TEX_PAL_COPY_SIZE ==> #[trigger] self.tex_pal[i] == (if i / 0x4000
                        < slot {
                        spec_copy_dirty(old(self).tex_pal@, tex_pal@, tex_pal_dirty, 0x4000)[i]
                    } else {
                        old(self).tex_pal[i]
                    }),
                *self == (RenderingData {
                    texture: self.texture,
                    tex_pal: self.tex_pal,
                    ..*old(self)
                }).with_registers(state),
            decreases 6 - slot,
        {
            if tex_pal_dirty & 1u8 << (slot as u8) != 0 {
                copy_range(&mut self.tex_pal, tex_pal, slot * 0x4000, (slot + 1) * 0x4000);
            }
            slot += 1;
        }
        assert(self.tex_pal@ =~= spec_copy_dirty(
            old(self).tex_pal@,
            tex_pal@,
            tex_pal_dirty,
            0x4000,
        ));
    }

    /// Takes over a new frame: its vertices and polygons, the rendering
    /// registers, and the textures and palettes that were written to.
    pub fn prepare(
        &mut self,
        texture: &Vec<u8>,
        tex_pal: &Vec<u8>,
        vert_ram: &Vec<ScreenVertex>,
        poly_ram: &Vec<Polygon>,
        state: &RenderingState,
        w_buffering: bool,
    )
        requires
            old(self).wf(),
            texture.len() == TEXTURE_SIZE,
            tex_pal.len() == TEX_PAL_SIZE,
            vert_ram.len() <= VERT_RAM_LEN,
            poly_ram.len() <= POLY_RAM_LEN,
        ensures
            final(self).wf(),
            final(self).registers_match(state),
            final(self).w_buffering == w_buffering,
            final(self).vert_ram@ == spec_copy_prefix(old(self).vert_ram@, vert_ram@),
            final(self).poly_ram@ == spec_copy_prefix(old(self).poly_ram@, poly_ram@),
            final(self).poly_ram_level == poly_ram.len(),
            final(self).texture@ == spec_copy_dirty(
                old(self).texture@,
                texture@,
                state.texture_dirty,
                0x2_0000,
            ),
            final(self).tex_pal@ == spec_copy_dirty(
                old(self).tex_pal@,
                tex_pal@,
                state.tex_pal_dirty,
                0x4000,
            ),
    {
        self.w_buffering = w_buffering;
        let mut i: usize = 0;
        while i < vert_ram.len()
            invariant
                i <= vert_ram.len() <= self.vert_ram.len(),
                old(self).wf(),
                self.wf(),
                self.vert_ram.len() == old(self).vert_ram.len(),
                forall|j: int|
                    0 <= j < self.vert_ram.len() ==> #[trigger] self.vert_ram[j] == (if j < i {
                        vert_ram[j]
                    } else {
                        old(self).vert_ram[j]
                    }),
                *self == (RenderingData { vert_ram: self.vert_ram, w_buffering, ..*old(self) }),
            decreases vert_ram.len() - i,
        {
            self.vert_ram[i] = vert_ram[i];
            i += 1;
        }
        assert(self.vert_ram@ =~= spec_copy_prefix(old(self).vert_ram@, vert_ram@));
        let mut i: usize = 0;
        while i < poly_ram.len()
            invariant
                i <= poly_ram.len() <= self.poly_ram.len(),
                old(self).wf(),
                self.wf(),
                self.vert_ram@ == spec_copy_prefix(old(self).vert_ram@, vert_ram@),
                self.poly_ram.len() == old(self).poly_ram.len(),
                forall|j: int|
                    0 <= j < self.poly_ram.len() ==> #[trigger] self.poly_ram[j] == (if j < i {
                        poly_ram[j]
                    } else {
                        old(self).poly_ram[j]
                    }),
                *self == (RenderingData {
                    vert_ram: self.vert_ram,
                    poly_ram: self.poly_ram,
                    w_buffering,
                    ..*old(self)
                }),
            decreases poly_ram.len() - i,
        {
            self.poly_ram[i] = poly_ram[i];
            i += 1;
        }
        assert(self.poly_ram@ =~= spec_copy_prefix(old(self).poly_ram@, poly_ram@));
        self.poly_ram_level = poly_ram.len() as u16;
        self.copy_rendering_data(texture, tex_pal, state);
    }

    /// Takes over the rendering registers, textures and palettes for another
    /// rendering of the frame before.
    pub fn repeat_last_frame(
        &mut self,
        texture: &Vec<u8>,
        tex_pal: &Vec<u8>,
        state: &RenderingState,
    )
        requires
            old(self).wf(),
            texture.len() == TEXTURE_SIZE,
            tex_pal.len() == TEX_PAL_SIZE,
        ensures
            final(self).wf(),
            final(self).registers_match(state),
            final(self).texture@ == spec_copy_dirty(
                old(self).texture@,
                texture@,
                state.texture_dirty,
                0x2_0000,
            ),
            final(self).tex_pal@ == spec_copy_dirty(
                old(self).tex_pal@,
                tex_pal@,
                state.tex_pal_dirty,
                0x4000,
            ),
            final(self).w_buffering == old(self).w_buffering,
            final(self).vert_ram == old(self).vert_ram,
            final(self).poly_ram == old(self).poly_ram,
            final(self).poly_ram_level == old(self).poly_ram_level,
    {
        self.copy_rendering_data(texture, tex_pal, state);
    }
}

} // verus!
