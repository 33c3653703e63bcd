//! One 2D display engine: its registers and the buffers of the scanline that
//! is being composited.

pub mod bg_affine;
pub mod bg_extended;
pub mod bg_large;
pub mod bg_text;
pub mod compose;
pub mod effects;
pub mod render;
pub mod sprites;
pub mod window;

use crate::pixel::{ObjPixel, WindowPixel, SCREEN_WIDTH};
use crate::regs::{
    AffineBgData, Bg, BgControl, ColorEffectsControl, Control, MasterBrightnessControl,
    WindowControl, WindowRanges,
};
use crate::vram::Role;
use vstd::prelude::*;

verus! {

/// One value per dot of a scanline.
pub struct Scanline<T>(pub [T; SCREEN_WIDTH]);

/// The number of a background, 0 to 3.
#[derive(Clone, Copy, Debug, PartialEq, Eq)]
pub struct BgIndex {
    index: u8,
}

impl BgIndex {
    #[verifier::type_invariant]
    spec fn in_range(self) -> bool {
        self.index < 4
    }

    /// The number.
    pub closed spec fn view(self) -> u8 {
        self.index
    }

    /// The background of number `index`.
    pub fn new(index: u8) -> (r: BgIndex)
        requires
            index < 4,
        ensures
            r@ == index,
    {
        BgIndex { index }
    }

    /// The number.
    pub fn get(self) -> (r: u8)
        ensures
            r == self@,
            r < 4,
    {
        proof {
            use_type_invariant(&self);
        }
        self.index
    }
}

/// The number of an affine background: 0 for background 2, 1 for
/// background 3.
#[derive(Clone, Copy, Debug, PartialEq, Eq)]
pub struct AffineBgIndex {
    index: u8,
}

impl AffineBgIndex {
    #[verifier::type_invariant]
    spec fn in_range(self) -> bool {
        self.index < 2
    }

    /// The number.
    pub closed spec fn view(self) -> u8 {
        self.index
    }

    /// The affine background of number `index`.
    pub fn new(index: u8) -> (r: AffineBgIndex)
        requires
            index < 2,
        ensures
            r@ == index,
    {
        AffineBgIndex { index }
    }

    /// The number.
    pub fn get(self) -> (r: u8)
        ensures
            r == self@,
            r < 2,
    {
        proof {
            use_type_invariant(&self);
        }
        self.index
    }
}

/// A 2D display engine.
///
/// The registers are set from outside; the four buffers at the end are
/// scratch space that the renderers fill anew for every scanline.
pub struct Engine2d {
    pub role: Role,
    /// Whether the engine is switched on. Engine A renders regardless.
    pub enabled: bool,
    pub control: Control,
    pub bgs: [Bg; 4],
    /// Affine state of backgrounds 2 and 3.
    pub affine_bg_data: [AffineBgData; 2],
    /// Rectangles of windows 0 and 1.
    pub window_ranges: [WindowRanges; 2],
    /// What is visible inside window 0, inside window 1, outside of all
    /// windows, and inside the sprite window.
    pub window_control: [WindowControl; 4],
    /// Whether windows 0 and 1 cover the current scanline.
    pub windows_active: [bool; 2],
    pub color_effects_control: ColorEffectsControl,
    /// Weights of the top and the second pixel in a blend, in sixteenths.
    pub blend_coeffs: (u8, u8),
    /// Strength of the brightness effects, in sixteenths.
    pub brightness_coeff: u8,
    pub master_brightness_control: MasterBrightnessControl,
    /// Strength of the brightness applied to the finished scanline, in
    /// sixteenths.
    pub master_brightness_factor: u32,
    /// The two topmost composited pixels of each dot.
    pub bg_obj_scanline: Scanline<u64>,
    /// The sprite pixel of each dot.
    pub obj_scanline: Scanline<ObjPixel>,
    /// One bit per dot, set where the sprite window covers it.
    pub obj_window: [u8; 32],
    /// The layers visible at each dot.
    pub window: Scanline<WindowPixel>,
}

impl Engine2d {
    /// An engine with all registers zero, all backgrounds disabled and empty
    /// buffers.
    pub fn new(role: Role) -> (engine: Engine2d)
        ensures
            engine.role == role,
            !engine.enabled,
            engine.control.0 == 0,
            forall|i: int| 0 <= i < 4 ==> engine.bgs[i] == (Bg {
                control: BgControl(0),
                priority: 4,
                scroll: [0u16, 0u16],
            }),
            forall|i: int| 0 <= i < 2 ==> engine.affine_bg_data[i] == (AffineBgData {
                params: [0i16, 0i16, 0i16, 0i16],
                pos: [0i32, 0i32],
            }),
            forall|i: int| 0 <= i < 2 ==> engine.window_ranges[i] == (WindowRanges {
                x_range: [0u8, 0u8],
                y_range: [0u8, 0u8],
            }),
            forall|i: int| 0 <= i < 4 ==> engine.window_control[i].0 == 0,
            forall|i: int| 0 <= i < 2 ==> !engine.windows_active[i],
            engine.color_effects_control.0 == 0,
            engine.blend_coeffs == (0u8, 0u8),
            engine.brightness_coeff == 0,
            engine.master_brightness_control.0 == 0,
            engine.master_brightness_factor == 0,
            forall|i: int| 0 <= i < 256 ==> engine.bg_obj_scanline.0[i] == 0,
            forall|i: int| 0 <= i < 256 ==> engine.obj_scanline.0[i].0 == 0,
            forall|i: int| 0 <= i < 32 ==> engine.obj_window[i] == 0,
            forall|i: int| 0 <= i < 256 ==> engine.window.0[i].0 == 0,
    {
        let bg = Bg { control: BgControl(0), priority: 4, scroll: [0, 0] };
        let affine = AffineBgData { params: [0, 0, 0, 0], pos: [0, 0] };
        let ranges = WindowRanges { x_range: [0, 0], y_range: [0, 0] };
        Engine2d {
            role,
            enabled: false,
            control: Control(0),
            bgs: [bg, bg, bg, bg],
            affine_bg_data: [affine, affine],
            window_ranges: [ranges, ranges],
            window_control: [
                WindowControl(0),
                WindowControl(0),
                WindowControl(0),
                WindowControl(0),
            ],
            windows_active: [false, false],
            color_effects_control: ColorEffectsControl(0),
            blend_coeffs: (0, 0),
            brightness_coeff: 0,
            master_brightness_control: MasterBrightnessControl(0),
            master_brightness_factor: 0,
            bg_obj_scanline: Scanline([0u64; 256]),
            obj_scanline: Scanline([ObjPixel(0); 256]),
            obj_window: [0u8; 32],
            window: Scanline([WindowPixel(0); 256]),
        }
    }
}

} // verus!
