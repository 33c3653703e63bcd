//! The window engine: which layers are visible at each dot.

use crate::engine_2d::Engine2d;
use crate::pixel::WindowPixel;
use crate::regs::{Control, WindowControl, WindowRanges};
use vstd::prelude::*;

verus! {

/// Where a window ends on an axis: at its second coordinate, or at `edge`
/// where that lies below the first.
pub open spec fn range_end(range: [u8; 2], edge: int) -> int {
    if range[1] < range[0] {
        edge
    } else {
        range[1] as int
    }
}

/// Whether a window covers a scanline, given whether it covered the one
/// before. A disabled window covers nothing. An enabled one starts to cover at
/// its first line and ceases at its end, which wins where both are the same
/// line; on every other line it stays as it was.
pub open spec fn window_active_after(
    enabled: bool,
    y_range: [u8; 2],
    vcount: u16,
    was_active: bool,
) -> bool {
    if !enabled {
        false
    } else if (vcount as u8) as int == range_end(y_range, 192) {
        false
    } else if vcount as u8 == y_range[0] {
        true
    } else {
        was_active
    }
}

/// Whether dot `x` lies in the horizontal range of a window.
pub open spec fn in_x_range(ranges: WindowRanges, x: int) -> bool {
    ranges.x_range[0] <= x < range_end(ranges.x_range, 256)
}

/// Whether the sprite window covers dot `x`.
pub open spec fn obj_window_bit(obj_window: [u8; 32], x: int) -> bool {
    obj_window[x / 8] & (1u8 << (x % 8) as u8) != 0
}

/// The layers visible at dot `x`. Without any window enabled everything is
/// visible. Otherwise the dot takes the mask of the first of these that
/// covers it: window 0, window 1, the sprite window; or else the mask for the
/// outside of all windows.
pub open spec fn window_dot(
    control: Control,
    window_control: [WindowControl; 4],
    windows_active: [bool; 2],
    window_ranges: [WindowRanges; 2],
    obj_window: [u8; 32],
    x: int,
) -> WindowPixel {
    if windows_active[0] && in_x_range(window_ranges[0], x) {
        WindowPixel(window_control[0].0)
    } else if windows_active[1] && in_x_range(window_ranges[1], x) {
        WindowPixel(window_control[1].0)
    } else if control.obj_win_enabled() && obj_window_bit(obj_window, x) {
        WindowPixel(window_control[3].0)
    } else if control.wins_enabled() == 0 {
        WindowPixel(0x3F)
    } else {
        WindowPixel(window_control[2].0)
    }
}

impl Engine2d {
    /// The layers visible at dot `x` of the current scanline.
    pub open spec fn window_at(&self, x: int) -> WindowPixel {
        window_dot(
            self.control,
            self.window_control,
            self.windows_active,
            self.window_ranges,
            self.obj_window,
            x,
        )
    }

    /// Latches for scanline `vcount` whether windows 0 and 1 cover it.
    pub fn update_windows(&mut self, vcount: u16)
        ensures
            forall|i: int|
                0 <= i < 2 ==> final(self).windows_active[i] == window_active_after(
                    old(self).control.win01_enabled() & (1u8 << i as u8) != 0,
                    old(self).window_ranges[i].y_range,
                    vcount,
                    old(self).windows_active[i],
                ),
            *final(self) == (Engine2d { windows_active: final(self).windows_active, ..*old(self) }),
    {
        for i in 0..2usize
            invariant
                forall|j: int|
                    0 <= j < i ==> self.windows_active[j] == window_active_after(
                        old(self).control.win01_enabled() & (1u8 << j as u8) != 0,
                        old(self).window_ranges[j].y_range,
                        vcount,
                        old(self).windows_active[j],
                    ),
                forall|j: int| i <= j < 2 ==> self.windows_active[j] == old(self).windows_active[j],
                *self == (Engine2d { windows_active: self.windows_active, ..*old(self) }),
        {
            if self.control.win01_enabled() & (1u8 << i as u8) == 0 {
                self.windows_active[i] = false;
            } else {
                let y_start: u8 = self.window_ranges[i].y_range[0];
                let mut y_end: u8 = self.window_ranges[i].y_range[1];
                if y_end < y_start {
                    y_end = 192;
                }
                if vcount as u8 == y_start {
                    self.windows_active[i] = true;
                }
                if vcount as u8 == y_end {
                    self.windows_active[i] = false;
                }
            }
        }
    }

    /// Gives every dot from `start` up to `end` the mask `value`.
    fn fill_window(&mut self, start: usize, end: usize, value: WindowPixel)
        requires
            end <= 256,
        ensures
            forall|x: int|
                0 <= x < 256 ==> #[trigger] final(self).window.0[x] == (if start <= x < end {
                    value
                } else {
                    old(self).window.0[x]
                }),
            *final(self) == (Engine2d { window: final(self).window, ..*old(self) }),
    {
        let mut x: usize = start;
        while x < end
            invariant
                end <= 256,
                start <= x,
                forall|k: int|
                    0 <= k < 256 ==> #[trigger] self.window.0[k] == (if start <= k < x && k < end {
                        value
                    } else {
                        old(self).window.0[k]
                    }),
                *self == (Engine2d { window: self.window, ..*old(self) }),
            decreases end - x,
        {
            self.window.0[x] = value;
            x += 1;
        }
    }

    /// Computes the visible layers of every dot of the current scanline from
    /// the window registers, the latched window state and the sprite window.
    /// Nothing of the masks of the scanline before goes into them.
    pub fn render_windows(&mut self)
        ensures
            forall|x: int|
                0 <= x < 256 ==> #[trigger] final(self).window.0[x] == old(self).window_at(x),
            *final(self) == (Engine2d { window: final(self).window, ..*old(self) }),
    {
        let outside = WindowPixel(
            if self.control.wins_enabled() == 0 {
                0x3F
            } else {
                self.window_control[2].0
            },
        );
        self.fill_window(0, 256, outside);
        if self.control.obj_win_enabled() {
            let obj_window_pixel = WindowPixel(self.window_control[3].0);
            for x in 0..256usize
                invariant
                    obj_window_pixel.0 == self.window_control[3].0,
                    forall|k: int|
                        0 <= k < 256 ==> #[trigger] self.window.0[k] == (if k < x && obj_window_bit(
                            self.obj_window,
                            k,
                        ) {
                            obj_window_pixel
                        } else {
                            outside
                        }),
                    *self == (Engine2d { window: self.window, ..*old(self) }),
            {
                if self.obj_window[x / 8] & (1u8 << (x % 8) as u8) != 0 {
                    self.window.0[x] = obj_window_pixel;
                }
            }
        }
        let mut i: usize = 2;
        while i > 0
            invariant
                i <= 2,
                forall|k: int|
                    0 <= k < 256 ==> #[trigger] self.window.0[k] == (if i <= 0
                        && self.windows_active[0] && in_x_range(self.window_ranges[0], k) {
                        WindowPixel(self.window_control[0].0)
                    } else if i <= 1 && self.windows_active[1] && in_x_range(
                        self.window_ranges[1],
                        k,
                    ) {
                        WindowPixel(self.window_control[1].0)
                    } else if self.control.obj_win_enabled() && obj_window_bit(self.obj_window, k) {
                        WindowPixel(self.window_control[3].0)
                    } else {
                        outside
                    }),
                *self == (Engine2d { window: self.window, ..*old(self) }),
            decreases i,
        {
            i -= 1;
            if self.windows_active[i] {
                let x_start: usize = self.window_ranges[i].x_range[0] as usize;
                let mut x_end: usize = self.window_ranges[i].x_range[1] as usize;
                if x_end < x_start {
                    x_end = 256;
                }
                let value = WindowPixel(self.window_control[i].0);
                self.fill_window(x_start, x_end, value);
            }
        }
    }
}

/// Windows that show nothing hide every layer of every dot, and no trace of
/// that is left once the windows are switched off: whatever the masks of the
/// scanline before were, every dot then shows everything.
pub proof fn lemma_windows_hide_and_release(
    control: Control,
    window_control: [WindowControl; 4],
    windows_active: [bool; 2],
    window_ranges: [WindowRanges; 2],
    obj_window: [u8; 32],
    x: int,
)
    requires
        0 <= x < 256,
    ensures
        control.wins_enabled() != 0 && (forall|i: int| 0 <= i < 4 ==> window_control[i].0 == 0)
            ==> window_dot(control, window_control, windows_active, window_ranges, obj_window, x).0
            == 0,
        control.wins_enabled() == 0 && !windows_active[0] && !windows_active[1] ==> window_dot(
            control,
            window_control,
            windows_active,
            window_ranges,
            obj_window,
            x,
        ).0 == 0x3F,
{
    let word = control.0;
    assert((word >> 13 & 7) as u8 == 0 ==> word & 1u32 << 15 == 0) by (bit_vector);
}

} // verus!
