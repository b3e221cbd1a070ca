//! Physical layout of the LED matrix and the serpentine mapping from logical
//! pixel coordinates to framebuffer byte offsets.

use vstd::prelude::*;

verus! {

/// LEDs along one physical string (the logical x extent).
pub const LED_COUNT: usize = 118;

/// Number of logical strings (the logical y extent).
pub const STRING_COUNT: usize = 46;

pub const PIXEL_COUNT: usize = LED_COUNT * STRING_COUNT;

pub const BYTES_PER_LED: usize = 3;

pub const FRAME_SIZE_BYTES: usize = PIXEL_COUNT * BYTES_PER_LED;

/// The device moves the frame in 16-bit transfer words.
pub const FRAME_SIZE_WORDS: usize = FRAME_SIZE_BYTES / 2;

/// Dimensions of a deployed matrix.
#[derive(Clone, Copy, Debug, PartialEq, Eq)]
pub struct Geometry {
    pub led_count: usize,
    pub string_count: usize,
}

/// Byte offset of logical pixel (x, y) in a matrix of `leds` by `strings`:
/// strings are folded at their midpoint, so odd rows run mirrored.
pub open spec fn serpentine_offset(leds: int, strings: int, x: int, y: int) -> int {
    let half_row = y / 2;
    let mirrored_column = if y % 2 == 0 { x } else { 2 * leds - 1 - x };
    (half_row + mirrored_column * strings / 2) * 3
}

impl Geometry {
    /// The geometry of the installed hardware.
    pub fn deployed() -> (g: Geometry)
        ensures
            g.led_count == LED_COUNT,
            g.string_count == STRING_COUNT,
            g.wf(),
    {
        Geometry { led_count: LED_COUNT, string_count: STRING_COUNT }
    }

    /// Both extents are positive, strings pair up into folded halves, and a
    /// whole frame of bytes is addressable.
    pub open spec fn wf(&self) -> bool {
        &&& self.led_count > 0
        &&& self.string_count > 0
        &&& self.string_count % 2 == 0
        &&& self.led_count * self.string_count * 3 <= usize::MAX
    }

    pub open spec fn pixel_count(&self) -> int {
        self.led_count * self.string_count
    }

    pub open spec fn frame_bytes(&self) -> int {
        self.pixel_count() * 3
    }

    pub open spec fn in_bounds(&self, x: int, y: int) -> bool {
        0 <= x < self.led_count && 0 <= y < self.string_count
    }

    pub open spec fn offset(&self, x: int, y: int) -> int {
        serpentine_offset(self.led_count as int, self.string_count as int, x, y)
    }

    /// Number of bytes in one frame.
    pub fn frame_size_bytes(&self) -> (r: usize)
        requires
            self.wf(),
        ensures
            r == self.frame_bytes(),
    {
        proof {
            assert(self.led_count * self.string_count * 3 <= usize::MAX);
        }
        self.led_count * self.string_count * 3
    }

    /// Number of 16-bit transfer words in one frame.
    pub fn frame_size_words(&self) -> (r: usize)
        requires
            self.wf(),
        ensures
            r == self.frame_bytes() / 2,
    {
        self.frame_size_bytes() / 2
    }

    /// Framebuffer byte offset of the first channel of pixel (x, y).
    pub fn fb_idx(&self, x: usize, y: usize) -> (r: usize)
        requires
            self.wf(),
            self.in_bounds(x as int, y as int),
        ensures
            r as int == self.offset(x as int, y as int),
            r as int + 3 <= self.frame_bytes(),
    {
        proof {
            lemma_offset_in_frame(*self, x as int, y as int);
        }
        proof {
            let l = self.led_count as int;
            let s = self.string_count as int;
            assert(2 * l <= l * s * 3) by (nonlinear_arith)
                requires l > 0, s >= 2;
        }
        let half_row = y / 2;
        let mirrored_column: usize;
        if y % 2 == 0 {
            mirrored_column = x;
        } else {
            mirrored_column = 2 * self.led_count - 1 - x;
        }
        proof {
            let l = self.led_count as int;
            let s = self.string_count as int;
            assert(mirrored_column < 2 * l);
            assert(mirrored_column * s <= 2 * l * s) by (nonlinear_arith)
                requires mirrored_column < 2 * l, s > 0;
            assert(l * s * 3 == 3 * (l * s)) by (nonlinear_arith);
            assert(2 * l * s == 2 * (l * s)) by (nonlinear_arith);
        }
        (half_row + mirrored_column * self.string_count / 2) * BYTES_PER_LED
    }
}

/// Offset split into its folded row and column, with the row inside a half.
proof fn lemma_offset_parts(g: Geometry, x: int, y: int)
    requires
        g.wf(),
        g.in_bounds(x, y),
    ensures
        ({
            let h = g.string_count as int / 2;
            let mc = if y % 2 == 0 { x } else { 2 * g.led_count - 1 - x };
            &&& 0 <= y / 2 < h
            &&& 0 <= mc < 2 * g.led_count
            &&& g.offset(x, y) == (y / 2 + mc * h) * 3
        }),
{
    let s = g.string_count as int;
    let h: int = s / 2;
    let mc = if y % 2 == 0 { x } else { 2 * g.led_count - 1 - x };
    assert(mc * s / 2 == mc * h) by (nonlinear_arith)
        requires s % 2 == 0, h == s / 2, mc >= 0;
}

/// Every in-bounds pixel occupies three bytes inside the frame.
pub proof fn lemma_offset_in_frame(g: Geometry, x: int, y: int)
    requires
        g.wf(),
        g.in_bounds(x, y),
    ensures
        0 <= g.offset(x, y),
        g.offset(x, y) + 3 <= g.frame_bytes(),
        g.offset(x, y) % 3 == 0,
{
    lemma_offset_parts(g, x, y);
    let l = g.led_count as int;
    let h = g.string_count as int / 2;
    let mc = if y % 2 == 0 { x } else { 2 * l - 1 - x };
    let k = y / 2 + mc * h;
    assert(0 <= k < 2 * l * h) by (nonlinear_arith)
        requires 0 <= y / 2 < h, 0 <= mc < 2 * l, k == y / 2 + mc * h;
    assert(2 * l * h == l * g.string_count) by (nonlinear_arith)
        requires h == g.string_count / 2, g.string_count % 2 == 0;
    assert((k * 3) % 3 == 0) by (nonlinear_arith);
}

/// The serpentine mapping is a bijection from the matrix onto the pixel
/// slots of the frame: every in-bounds pixel gets a multiple of three inside
/// the frame, and two pixels share an offset only if they are the same pixel.
pub proof fn lemma_fb_idx_injective(g: Geometry, x1: int, y1: int, x2: int, y2: int)
    requires
        g.wf(),
        g.in_bounds(x1, y1),
        g.in_bounds(x2, y2),
    ensures
        g.offset(x1, y1) % 3 == 0,
        0 <= g.offset(x1, y1) < g.frame_bytes(),
        g.offset(x1, y1) == g.offset(x2, y2) ==> x1 == x2 && y1 == y2,
{
    lemma_offset_in_frame(g, x1, y1);
    lemma_offset_parts(g, x1, y1);
    lemma_offset_parts(g, x2, y2);
    let l = g.led_count as int;
    let h = g.string_count as int / 2;
    let mc1 = if y1 % 2 == 0 { x1 } else { 2 * l - 1 - x1 };
    let mc2 = if y2 % 2 == 0 { x2 } else { 2 * l - 1 - x2 };
    if g.offset(x1, y1) == g.offset(x2, y2) {
        let k = y1 / 2 + mc1 * h;
        assert(k == y2 / 2 + mc2 * h);
        vstd::arithmetic::div_mod::lemma_fundamental_div_mod_converse(k, h, mc1, y1 / 2);
        vstd::arithmetic::div_mod::lemma_fundamental_div_mod_converse(k, h, mc2, y2 / 2);
        assert(mc1 == mc2);
        assert(y1 / 2 == y2 / 2);
    }
}

/// Every pixel slot of the frame is the offset of some in-bounds pixel.
pub proof fn lemma_fb_idx_onto(g: Geometry, offset: int)
    requires
        g.wf(),
        0 <= offset < g.frame_bytes(),
        offset % 3 == 0,
    ensures
        exists|x: int, y: int| g.in_bounds(x, y) && g.offset(x, y) == offset,
{
    let l = g.led_count as int;
    let h = g.string_count as int / 2;
    let k = offset / 3;
    assert(0 <= k < 2 * l * h) by (nonlinear_arith)
        requires
            0 <= offset < l * g.string_count * 3,
            k == offset / 3,
            h == g.string_count / 2,
            g.string_count % 2 == 0;
    let mc = k / h;
    let half_row = k % h;
    assert(k == mc * h + half_row) by (nonlinear_arith)
        requires h > 0, mc == k / h, half_row == k % h;
    assert(0 <= mc < 2 * l) by (nonlinear_arith)
        requires h > 0, mc == k / h, 0 <= k < 2 * l * h;
    let (x, y) = if mc < l { (mc, 2 * half_row) } else { (2 * l - 1 - mc, 2 * half_row + 1) };
    assert(g.in_bounds(x, y));
    lemma_offset_parts(g, x, y);
    assert(g.offset(x, y) == offset);
}

/// Framebuffer byte offset of pixel (x, y) on the installed hardware.
pub fn fb_idx(x: usize, y: usize) -> (r: usize)
    requires
        x < LED_COUNT,
        y < STRING_COUNT,
    ensures
        r as int == serpentine_offset(LED_COUNT as int, STRING_COUNT as int, x as int, y as int),
        r + 3 <= FRAME_SIZE_BYTES,
{
    Geometry::deployed().fb_idx(x, y)
}

} // verus!
