//! The framebuffer: a 128x64 grid of pixels on two planes.
//!
//! Low-resolution modes use the top-left 64x32 quadrant (or, on a high-res
//! device, a 2x2 block per logical pixel).  The secondary plane and the
//! write mask belong to the XO-CHIP dialect; the mask selects which plane(s)
//! a draw toggles.

use vstd::prelude::*;

verus! {

pub const LOWRES_SCREEN_WIDTH: usize = 64;

pub const LOWRES_SCREEN_HEIGHT: usize = 32;

pub const HIGHRES_SCREEN_WIDTH: usize = 128;

pub const HIGHRES_SCREEN_HEIGHT: usize = 64;

/// Physical width of the stored grid.
pub const SCREEN_WIDTH: usize = 128;

/// Physical height of the stored grid.
pub const SCREEN_HEIGHT: usize = 64;

/// Mathematical image of a `Display`.
pub ghost struct DisplayView {
    pub buffer: Seq<bool>,
    pub secondary: Seq<bool>,
    pub write_mask: u8,
    pub high_res: bool,
}

impl DisplayView {
    /// Both planes hold exactly one bit per grid cell.
    pub open spec fn wf(self) -> bool {
        &&& self.buffer.len() == SCREEN_WIDTH * SCREEN_HEIGHT
        &&& self.secondary.len() == SCREEN_WIDTH * SCREEN_HEIGHT
    }
}

/// Index of cell (x, y) in a plane.
pub open spec fn pix(x: int, y: int) -> int {
    x + y * (SCREEN_WIDTH as int)
}

/// The display after toggling cell (x, y) on every plane the mask selects.
pub open spec fn spec_write_pixel(d: DisplayView, x: int, y: int) -> DisplayView {
    let p = pix(x, y);
    (DisplayView {
        buffer: if d.write_mask & 1 != 0 {
            d.buffer.update(p, !d.buffer[p])
        } else {
            d.buffer
        },
        secondary: if d.write_mask & 2 != 0 {
            d.secondary.update(p, !d.secondary[p])
        } else {
            d.secondary
        },
        ..d
    })
}

/// Whether cell (x, y) was lit on some plane the mask selects (the collision
/// signal of a toggle).
pub open spec fn spec_pixel_toggled(d: DisplayView, x: int, y: int) -> bool {
    let p = pix(x, y);
    ||| (d.write_mask & 1 != 0 && d.buffer[p])
    ||| (d.write_mask & 2 != 0 && d.secondary[p])
}

/// A plane whose content has been displaced by (dx, dy); vacated cells are
/// cleared, nothing wraps.
pub open spec fn shift_plane(b: Seq<bool>, dx: int, dy: int) -> Seq<bool> {
    Seq::new(
        (SCREEN_WIDTH * SCREEN_HEIGHT) as nat,
        |p: int|
            {
                let x = p % (SCREEN_WIDTH as int);
                let y = p / (SCREEN_WIDTH as int);
                let sx = x - dx;
                let sy = y - dy;
                if 0 <= sx < SCREEN_WIDTH && 0 <= sy < SCREEN_HEIGHT {
                    b[pix(sx, sy)]
                } else {
                    false
                }
            },
    )
}

/// Magnitude of a signed scroll argument.
pub open spec fn abs_i8(v: i8) -> int {
    if v < 0 {
        -(v as int)
    } else {
        v as int
    }
}

/// Content displacement along x encoded by a scroll argument: the sign keeps
/// its direction, the magnitude is reduced modulo the width.
pub open spec fn scroll_dx(scroll_x: i8) -> int {
    let m = abs_i8(scroll_x) % (SCREEN_WIDTH as int);
    if scroll_x < 0 {
        -m
    } else {
        m
    }
}

/// Content displacement along y encoded by a scroll argument; negative
/// arguments move content toward +y.
pub open spec fn scroll_dy(scroll_y: i8) -> int {
    let m = abs_i8(scroll_y) % (SCREEN_HEIGHT as int);
    if scroll_y < 0 {
        m
    } else {
        -m
    }
}

/// The display after a scroll: both planes move together.
pub open spec fn spec_scroll(d: DisplayView, scroll_x: i8, scroll_y: i8) -> DisplayView {
    (DisplayView {
        buffer: shift_plane(d.buffer, scroll_dx(scroll_x), scroll_dy(scroll_y)),
        secondary: shift_plane(d.secondary, scroll_dx(scroll_x), scroll_dy(scroll_y)),
        ..d
    })
}

/// Palette entry for a combined pixel value 0..4: both planes off, primary
/// only, secondary only, both.
pub open spec fn spec_color(c: int) -> u32 {
    if c == 0 {
        0x00000000
    } else if c == 1 {
        0x00A9A9A9
    } else if c == 2 {
        0x00545454
    } else {
        0x00FFFFFF
    }
}

/// Palette entry of the two-color palette of the pre-XO-CHIP dialects: a
/// lit primary-plane cell is white, everything else black.
pub open spec fn spec_color_mono(on: bool) -> u32 {
    if on {
        0x00FFFFFF
    } else {
        0x00000000
    }
}

/// Combined value of cell (x, y): primary plane bit plus twice the secondary
/// plane bit.
pub open spec fn spec_read_pixel(d: DisplayView, x: int, y: int) -> int {
    (if d.buffer[pix(x, y)] {
        1int
    } else {
        0int
    }) + (if d.secondary[pix(x, y)] {
        2int
    } else {
        0int
    })
}

/// The two-plane framebuffer.
#[derive(Clone, Debug)]
pub struct Display {
    pub buffer: Vec<bool>,
    pub secondary: Vec<bool>,
    /// Which plane(s) a draw toggles: bit 0 the primary, bit 1 the secondary.
    pub write_mask: u8,
    /// Whether the logical resolution is 128x64 rather than 64x32.
    pub high_res: bool,
}

impl View for Display {
    type V = DisplayView;

    open spec fn view(&self) -> DisplayView {
        DisplayView {
            buffer: self.buffer@,
            secondary: self.secondary@,
            write_mask: self.write_mask,
            high_res: self.high_res,
        }
    }
}

impl Display {
    /// A blank display: both planes dark, primary plane targeted, low
    /// resolution.
    pub fn new() -> (r: Display)
        ensures
            r@.wf(),
            forall|p: int| 0 <= p < SCREEN_WIDTH * SCREEN_HEIGHT ==> !r@.buffer[p],
            forall|p: int| 0 <= p < SCREEN_WIDTH * SCREEN_HEIGHT ==> !r@.secondary[p],
            r@.write_mask == 1,
            r@.high_res == false,
    {
        Display {
            buffer: vec![false; SCREEN_WIDTH * SCREEN_HEIGHT],
            secondary: vec![false; SCREEN_WIDTH * SCREEN_HEIGHT],
            write_mask: 1,
            high_res: false,
        }
    }

    /// Toggles cell (x, y) on the masked planes; returns whether a lit pixel
    /// was toggled (off) somewhere.
    pub fn write_pixel_unchecked(&mut self, x: u8, y: u8) -> (r: bool)
        requires
            old(self)@.wf(),
            x < SCREEN_WIDTH,
            y < SCREEN_HEIGHT,
        ensures
            final(self)@.wf(),
            final(self)@ == spec_write_pixel(old(self)@, x as int, y as int),
            r == spec_pixel_toggled(old(self)@, x as int, y as int),
    {
        let pos: usize = x as usize + (y as usize) * SCREEN_WIDTH;
        let mut toggle: bool = false;
        if self.write_mask & 1 != 0 {
            let prior: bool = self.buffer[pos];
            toggle = toggle || prior;
            self.buffer.set(pos, !prior);
        }
        if self.write_mask & 2 != 0 {
            let prior: bool = self.secondary[pos];
            toggle = toggle || prior;
            self.secondary.set(pos, !prior);
        }
        toggle
    }

    /// Bounds-checked toggle: out-of-range coordinates do nothing and report
    /// no collision.
    pub fn write_pixel(&mut self, x: u8, y: u8) -> (r: bool)
        requires
            old(self)@.wf(),
        ensures
            final(self)@.wf(),
            x < SCREEN_WIDTH && y < SCREEN_HEIGHT ==> final(self)@ == spec_write_pixel(
                old(self)@,
                x as int,
                y as int,
            ) && r == spec_pixel_toggled(old(self)@, x as int, y as int),
            !(x < SCREEN_WIDTH && y < SCREEN_HEIGHT) ==> final(self)@ == old(self)@ && r == false,
    {
        if x >= SCREEN_WIDTH as u8 || y >= SCREEN_HEIGHT as u8 {
            false
        } else {
            self.write_pixel_unchecked(x, y)
        }
    }

    /// Toggles one logical pixel: the cell itself in high resolution, a 2x2
    /// block at doubled coordinates in low resolution.  Returns the collision
    /// signal; coordinates off the grid do nothing.
    pub fn write_to_screen(&mut self, x: u8, y: u8) -> (r: bool)
        requires
            old(self)@.wf(),
        ensures
            final(self)@.wf(),
            old(self)@.high_res ==> final(self)@ == spec_write_screen_high(
                old(self)@,
                x as int,
                y as int,
            ) && r == spec_screen_toggled_high(old(self)@, x as int, y as int),
            !old(self)@.high_res ==> final(self)@ == spec_write_screen_low(
                old(self)@,
                x as int,
                y as int,
            ) && r == spec_screen_toggled_low(old(self)@, x as int, y as int),
    {
        if self.high_res {
            if x >= SCREEN_WIDTH as u8 || y >= SCREEN_HEIGHT as u8 {
                return false;
            }
            self.write_pixel_unchecked(x, y)
        } else {
            let xx: u16 = 2 * (x as u16);
            let yy: u16 = 2 * (y as u16);
            if xx >= SCREEN_WIDTH as u16 || yy >= SCREEN_HEIGHT as u16 {
                return false;
            }
            let x2: u8 = xx as u8;
            let y2: u8 = yy as u8;
            let mut toggle: bool = self.write_pixel_unchecked(x2, y2);
            toggle = self.write_pixel_unchecked(x2 + 1, y2) || toggle;
            toggle = self.write_pixel_unchecked(x2, y2 + 1) || toggle;
            toggle = self.write_pixel_unchecked(x2 + 1, y2 + 1) || toggle;
            toggle
        }
    }

    /// An identical copy of the display.
    pub fn duplicate(&self) -> (r: Display)
        ensures
            r@ == self@,
    {
        Display {
            buffer: crate::common::copy_vec(&self.buffer),
            secondary: crate::common::copy_vec(&self.secondary),
            write_mask: self.write_mask,
            high_res: self.high_res,
        }
    }

    /// Combined value of cell (x, y): 0..4 over the two planes.
    pub fn read_pixel_unchecked(&self, x: u8, y: u8) -> (r: usize)
        requires
            self@.wf(),
            x < SCREEN_WIDTH,
            y < SCREEN_HEIGHT,
        ensures
            r == spec_read_pixel(self@, x as int, y as int),
    {
        let pos: usize = x as usize + (y as usize) * SCREEN_WIDTH;
        let a: usize = if self.buffer[pos] {
            1
        } else {
            0
        };
        let b: usize = if self.secondary[pos] {
            2
        } else {
            0
        };
        a + b
    }

    /// Bounds-checked combined read; off-grid cells read as dark.
    pub fn read_pixel(&self, x: u8, y: u8) -> (r: usize)
        requires
            self@.wf(),
        ensures
            x < SCREEN_WIDTH && y < SCREEN_HEIGHT ==> r == spec_read_pixel(
                self@,
                x as int,
                y as int,
            ),
            !(x < SCREEN_WIDTH && y < SCREEN_HEIGHT) ==> r == 0,
    {
        if x >= SCREEN_WIDTH as u8 || y >= SCREEN_HEIGHT as u8 {
            0
        } else {
            self.read_pixel_unchecked(x, y)
        }
    }

    /// Darkens the primary plane; the secondary plane, mask and resolution
    /// are untouched.
    pub fn clear(&mut self)
        requires
            old(self)@.wf(),
        ensures
            final(self)@.wf(),
            forall|p: int| 0 <= p < SCREEN_WIDTH * SCREEN_HEIGHT ==> !final(self)@.buffer[p],
            final(self)@.secondary == old(self)@.secondary,
            final(self)@.write_mask == old(self)@.write_mask,
            final(self)@.high_res == old(self)@.high_res,
    {
        self.buffer = vec![false; SCREEN_WIDTH * SCREEN_HEIGHT];
    }

    /// Scrolls both planes: positive x to the right, positive y upward
    /// (toward -y), negative y downward.  Vacated cells are cleared; nothing
    /// wraps.
    pub fn scroll(&mut self, scroll_x: i8, scroll_y: i8)
        requires
            old(self)@.wf(),
        ensures
            final(self)@.wf(),
            final(self)@ == spec_scroll(old(self)@, scroll_x, scroll_y),
    {
        let w: i32 = SCREEN_WIDTH as i32;
        let h: i32 = SCREEN_HEIGHT as i32;
        let ax: i32 = if scroll_x < 0 {
            -(scroll_x as i32)
        } else {
            scroll_x as i32
        };
        let mx: i32 = ax % w;
        let dx: i32 = if scroll_x < 0 {
            -mx
        } else {
            mx
        };
        let ay: i32 = if scroll_y < 0 {
            -(scroll_y as i32)
        } else {
            scroll_y as i32
        };
        let my: i32 = ay % h;
        let dy: i32 = if scroll_y < 0 {
            my
        } else {
            -my
        };
        proof {
            assert(dx == scroll_dx(scroll_x));
            assert(dy == scroll_dy(scroll_y));
        }
        let shifted: Vec<bool> = shift_plane_exec(&self.buffer, dx, dy);
        self.buffer = shifted;
        let shifted2: Vec<bool> = shift_plane_exec(&self.secondary, dx, dy);
        self.secondary = shifted2;
    }

    /// Renders the grid as a row-major 32-bit image, each cell repeated
    /// `scale_x` times across and `scale_y` times down.  Zero scales give an
    /// empty image.
    pub fn to_buffer(&self, scale_x: usize, scale_y: usize) -> (r: Vec<u32>)
        requires
            self@.wf(),
            scale_x * scale_y * (SCREEN_WIDTH * SCREEN_HEIGHT) <= usize::MAX,
        ensures
            scale_x == 0 || scale_y == 0 ==> r@.len() == 0,
            scale_x > 0 && scale_y > 0 ==> r@.len() == scale_x * scale_y * (SCREEN_WIDTH
                * SCREEN_HEIGHT) && forall|i: int|
                0 <= i < r@.len() ==> r@[i] == spec_color(
                    spec_read_pixel(
                        self@,
                        (i % (SCREEN_WIDTH * scale_x) as int) / scale_x as int,
                        (i / (SCREEN_WIDTH * scale_x) as int) / scale_y as int,
                    ),
                ),
    {
        let mut out: Vec<u32> = Vec::new();
        if scale_x == 0 || scale_y == 0 {
            return out;
        }
        proof {
            assert(SCREEN_WIDTH * scale_x <= scale_x * scale_y * (SCREEN_WIDTH * SCREEN_HEIGHT)
                && SCREEN_HEIGHT * scale_y <= scale_x * scale_y * (SCREEN_WIDTH * SCREEN_HEIGHT)
                && (SCREEN_WIDTH * scale_x) * (SCREEN_HEIGHT * scale_y) == scale_x * scale_y * (
            SCREEN_WIDTH * SCREEN_HEIGHT)) by (nonlinear_arith)
                requires
                    scale_x >= 1,
                    scale_y >= 1,
            ;
        }
        let row: usize = SCREEN_WIDTH * scale_x;
        let total: usize = row * (SCREEN_HEIGHT * scale_y);
        let mut i: usize = 0;
        while i < total
            invariant
                self@.wf(),
                0 < scale_x,
                0 < scale_y,
                row == SCREEN_WIDTH * scale_x,
                total == row * (SCREEN_HEIGHT * scale_y),
                total == scale_x * scale_y * (SCREEN_WIDTH * SCREEN_HEIGHT),
                0 <= i <= total,
                out@.len() == i,
                forall|j: int|
                    0 <= j < i ==> out@[j] == spec_color(
                        spec_read_pixel(
                            self@,
                            (j % row as int) / scale_x as int,
                            (j / row as int) / scale_y as int,
                        ),
                    ),
            decreases total - i,
        {
            let ox: usize = i % row;
            let oy: usize = i / row;
            let x: usize = ox / scale_x;
            let y: usize = oy / scale_y;
            proof {
                vstd::arithmetic::div_mod::lemma_fundamental_div_mod(i as int, row as int);
                assert(ox < scale_x * SCREEN_WIDTH);
                vstd::arithmetic::div_mod::lemma_multiply_divide_lt(
                    ox as int,
                    scale_x as int,
                    SCREEN_WIDTH as int,
                );
                assert(i < row * (SCREEN_HEIGHT * scale_y));
                vstd::arithmetic::div_mod::lemma_multiply_divide_lt(
                    i as int,
                    row as int,
                    (SCREEN_HEIGHT * scale_y) as int,
                );
                assert(oy < scale_y * SCREEN_HEIGHT);
                vstd::arithmetic::div_mod::lemma_multiply_divide_lt(
                    oy as int,
                    scale_y as int,
                    SCREEN_HEIGHT as int,
                );
                assert(x < SCREEN_WIDTH);
                assert(y < SCREEN_HEIGHT);
            }
            let c: usize = self.read_pixel_unchecked(x as u8, y as u8);
            let color: u32 = if c == 0 {
                0x00000000
            } else if c == 1 {
                0x00A9A9A9
            } else if c == 2 {
                0x00545454
            } else {
                0x00FFFFFF
            };
            out.push(color);
            i = i + 1;
        }
        out
    }

    /// Renders the grid with the two-color palette of the pre-XO-CHIP
    /// dialects: a lit primary-plane cell is white, everything else black.
    /// Zero scales give an empty image.
    pub fn to_buffer_mono(&self, scale_x: usize, scale_y: usize) -> (r: Vec<u32>)
        requires
            self@.wf(),
            scale_x * scale_y * (SCREEN_WIDTH * SCREEN_HEIGHT) <= usize::MAX,
        ensures
            scale_x == 0 || scale_y == 0 ==> r@.len() == 0,
            scale_x > 0 && scale_y > 0 ==> r@.len() == scale_x * scale_y * (SCREEN_WIDTH
                * SCREEN_HEIGHT) && forall|i: int|
                0 <= i < r@.len() ==> r@[i] == spec_color_mono(
                    self@.buffer[pix(
                        (i % (SCREEN_WIDTH * scale_x) as int) / scale_x as int,
                        (i / (SCREEN_WIDTH * scale_x) as int) / scale_y as int,
                    )],
                ),
    {
        let mut out: Vec<u32> = Vec::new();
        if scale_x == 0 || scale_y == 0 {
            return out;
        }
        proof {
            assert(SCREEN_WIDTH * scale_x <= scale_x * scale_y * (SCREEN_WIDTH * SCREEN_HEIGHT)
                && SCREEN_HEIGHT * scale_y <= scale_x * scale_y * (SCREEN_WIDTH * SCREEN_HEIGHT)
                && (SCREEN_WIDTH * scale_x) * (SCREEN_HEIGHT * scale_y) == scale_x * scale_y * (
            SCREEN_WIDTH * SCREEN_HEIGHT)) by (nonlinear_arith)
                requires
                    scale_x >= 1,
                    scale_y >= 1,
            ;
        }
        let row: usize = SCREEN_WIDTH * scale_x;
        let total: usize = row * (SCREEN_HEIGHT * scale_y);
        let mut i: usize = 0;
        while i < total
            invariant
                self@.wf(),
                0 < scale_x,
                0 < scale_y,
                row == SCREEN_WIDTH * scale_x,
                total == row * (SCREEN_HEIGHT * scale_y),
                total == scale_x * scale_y * (SCREEN_WIDTH * SCREEN_HEIGHT),
                0 <= i <= total,
                out@.len() == i,
                forall|j: int|
                    0 <= j < i ==> out@[j] == spec_color_mono(
                        self@.buffer[pix(
                            (j % row as int) / scale_x as int,
                            (j / row as int) / scale_y as int,
                        )],
                    ),
            decreases total - i,
        {
            let ox: usize = i % row;
            let oy: usize = i / row;
            let x: usize = ox / scale_x;
            let y: usize = oy / scale_y;
            proof {
                vstd::arithmetic::div_mod::lemma_fundamental_div_mod(i as int, row as int);
                assert(ox < scale_x * SCREEN_WIDTH);
                vstd::arithmetic::div_mod::lemma_multiply_divide_lt(
                    ox as int,
                    scale_x as int,
                    SCREEN_WIDTH as int,
                );
                assert(i < row * (SCREEN_HEIGHT * scale_y));
                vstd::arithmetic::div_mod::lemma_multiply_divide_lt(
                    i as int,
                    row as int,
                    (SCREEN_HEIGHT * scale_y) as int,
                );
                assert(oy < scale_y * SCREEN_HEIGHT);
                vstd::arithmetic::div_mod::lemma_multiply_divide_lt(
                    oy as int,
                    scale_y as int,
                    SCREEN_HEIGHT as int,
                );
                assert(x < SCREEN_WIDTH);
                assert(y < SCREEN_HEIGHT);
            }
            let on: bool = self.buffer[x + y * SCREEN_WIDTH];
            let color: u32 = if on {
                0x00FFFFFF
            } else {
                0x00000000
            };
            out.push(color);
            i = i + 1;
        }
        out
    }
}

impl Default for Display {
    /// A blank display.
    fn default() -> (r: Display)
        ensures
            r@.wf(),
            forall|p: int| 0 <= p < SCREEN_WIDTH * SCREEN_HEIGHT ==> !r@.buffer[p],
            forall|p: int| 0 <= p < SCREEN_WIDTH * SCREEN_HEIGHT ==> !r@.secondary[p],
            r@.write_mask == 1,
            r@.high_res == false,
    {
        Display::new()
    }
}

/// The display after a high-resolution logical write at (x, y): the single
/// cell, when on the grid.
pub open spec fn spec_write_screen_high(d: DisplayView, x: int, y: int) -> DisplayView {
    if 0 <= x < SCREEN_WIDTH && 0 <= y < SCREEN_HEIGHT {
        spec_write_pixel(d, x, y)
    } else {
        d
    }
}

/// Collision signal of a high-resolution logical write.
pub open spec fn spec_screen_toggled_high(d: DisplayView, x: int, y: int) -> bool {
    &&& 0 <= x < SCREEN_WIDTH
    &&& 0 <= y < SCREEN_HEIGHT
    &&& spec_pixel_toggled(d, x, y)
}

/// The display after a low-resolution logical write at (x, y): a 2x2 block
/// at the doubled coordinates, when on the grid.
pub open spec fn spec_write_screen_low(d: DisplayView, x: int, y: int) -> DisplayView {
    if 0 <= 2 * x < SCREEN_WIDTH && 0 <= 2 * y < SCREEN_HEIGHT {
        let d1 = spec_write_pixel(d, 2 * x, 2 * y);
        let d2 = spec_write_pixel(d1, 2 * x + 1, 2 * y);
        let d3 = spec_write_pixel(d2, 2 * x, 2 * y + 1);
        spec_write_pixel(d3, 2 * x + 1, 2 * y + 1)
    } else {
        d
    }
}

/// Collision signal of a low-resolution logical write: any of the four block
/// cells was lit on a masked plane.
pub open spec fn spec_screen_toggled_low(d: DisplayView, x: int, y: int) -> bool {
    let d1 = spec_write_pixel(d, 2 * x, 2 * y);
    let d2 = spec_write_pixel(d1, 2 * x + 1, 2 * y);
    let d3 = spec_write_pixel(d2, 2 * x, 2 * y + 1);
    &&& 0 <= 2 * x < SCREEN_WIDTH
    &&& 0 <= 2 * y < SCREEN_HEIGHT
    &&& {
        ||| spec_pixel_toggled(d, 2 * x, 2 * y)
        ||| spec_pixel_toggled(d1, 2 * x + 1, 2 * y)
        ||| spec_pixel_toggled(d2, 2 * x, 2 * y + 1)
        ||| spec_pixel_toggled(d3, 2 * x + 1, 2 * y + 1)
    }
}

/// A copy of one plane displaced by (dx, dy).
fn shift_plane_exec(b: &Vec<bool>, dx: i32, dy: i32) -> (r: Vec<bool>)
    requires
        b@.len() == SCREEN_WIDTH * SCREEN_HEIGHT,
        -128 <= dx < 128,
        -64 <= dy < 64,
    ensures
        r@ == shift_plane(b@, dx as int, dy as int),
{
    let mut r: Vec<bool> = Vec::new();
    let total: usize = SCREEN_WIDTH * SCREEN_HEIGHT;
    let mut p: usize = 0;
    while p < total
        invariant
            b@.len() == SCREEN_WIDTH * SCREEN_HEIGHT,
            -128 <= dx < 128,
            -64 <= dy < 64,
            total == SCREEN_WIDTH * SCREEN_HEIGHT,
            0 <= p <= total,
            r@.len() == p,
            forall|q: int| 0 <= q < p ==> r@[q] == shift_plane(b@, dx as int, dy as int)[q],
        decreases total - p,
    {
        let x: i32 = (p % SCREEN_WIDTH) as i32;
        let y: i32 = (p / SCREEN_WIDTH) as i32;
        let sx: i32 = x - dx;
        let sy: i32 = y - dy;
        let v: bool = if 0 <= sx && sx < SCREEN_WIDTH as i32 && 0 <= sy && sy < SCREEN_HEIGHT as i32 {
            let sp: usize = sx as usize + (sy as usize) * SCREEN_WIDTH;
            b[sp]
        } else {
            false
        };
        r.push(v);
        p = p + 1;
    }
    proof {
        assert(r@ =~= shift_plane(b@, dx as int, dy as int));
    }
    r
}

} // verus!
