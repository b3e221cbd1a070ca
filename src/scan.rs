//! The frame scanner: visits every pixel, lets the blocks compute its color
//! and stores that color in the frame at the pixel's serpentine offset.

use vstd::prelude::*;
use crate::channel::Pipeline;
use crate::color::Color;
use crate::frame::{lemma_put_pixel_isolated, native_bytes, Frame};
use crate::store::{RenderState, VarsView};

verus! {

/// Runs a block list for one pixel: binds Scalar[0] to the frame number and
/// Scalar[1], Scalar[2] to the coordinates, then executes every block in
/// order against the store, and returns the store.
pub trait PixelShader<S, P, R, B> {
    fn shade(&self, blocks: &Vec<B>, state: RenderState<S, P, R>, frame: u32, x: usize, y: usize) -> RenderState<S, P, R>;
}

/// The chain's output: Color[0], black when the store has no color slot.
pub open spec fn output_of<S, P, R>(v: VarsView<S, P, R>) -> Color {
    if v.colors.len() > 0 {
        v.colors[0]
    } else {
        Color { r: 0, g: 0, b: 0 }
    }
}

/// `after` is a store that shading pixel (x, y) can leave when it starts
/// from `before`.
pub open spec fn shaded_by<S, P, R, B, H: PixelShader<S, P, R, B>>(
    sh: &H,
    blocks: &Vec<B>,
    before: RenderState<S, P, R>,
    frame: u32,
    x: int,
    y: int,
    after: RenderState<S, P, R>,
) -> bool {
    call_ensures(H::shade, (sh, blocks, before, frame, x as usize, y as usize), after)
}

/// In an x-major scan with history `hist` (the store after each pixel, by
/// column) that started from `start`, the store that pixel (x, y) was
/// shaded against.
pub open spec fn store_before<S, P, R>(
    hist: Seq<Seq<RenderState<S, P, R>>>,
    start: RenderState<S, P, R>,
    strings: int,
    x: int,
    y: int,
) -> RenderState<S, P, R> {
    if y > 0 {
        hist[x][y - 1]
    } else if x > 0 {
        hist[x - 1][strings - 1]
    } else {
        start
    }
}

/// The color a pixel gets: the chain's output slot, black when the store
/// has no color slot.
pub fn output_color<S, P, R>(state: &RenderState<S, P, R>) -> (c: Color)
    ensures
        state@.colors.len() > 0 ==> c == state@.colors[0],
        state@.colors.len() == 0 ==> c == (Color { r: 0, g: 0, b: 0 }),
{
    match state.get_color(0) {
        Some(c) => c,
        None => Color { r: 0, g: 0, b: 0 },
    }
}

impl<S, P, R, B> Pipeline<S, P, R, B> {
    /// Renders frame number `frame_no` into `out`, x-major: x runs over the
    /// LEDs of a string and, for each x, y runs over the strings. Each pixel
    /// is shaded against the store the previous pixel left. Returns, by
    /// column, the store each call of the shader returned; the pixel then
    /// holds that store's Color[0] in the device's channel order, and the
    /// pipeline keeps the store of the last pixel.
    pub fn render_frame<H: PixelShader<S, P, R, B>>(&mut self, shader: &H, frame_no: u32, out: &mut Frame) -> (hist: Ghost<Seq<Seq<RenderState<S, P, R>>>>)
        requires
            old(out).wf(),
        ensures
            final(out).wf(),
            final(out).geometry() == old(out).geometry(),
            final(self).blocks == old(self).blocks,
            hist@.len() == old(out).geometry().led_count,
            forall|x: int| 0 <= x < hist@.len() ==> #[trigger] hist@[x].len() == old(out).geometry().string_count,
            forall|x: int, y: int|
                old(out).geometry().in_bounds(x, y) ==> shaded_by(
                    shader,
                    &old(self).blocks,
                    store_before(hist@, old(self).state, old(out).geometry().string_count as int, x, y),
                    frame_no,
                    x,
                    y,
                    #[trigger] hist@[x][y],
                ),
            forall|x: int, y: int|
                old(out).geometry().in_bounds(x, y) ==> #[trigger] final(out).pixel(x, y) == native_bytes(
                    output_of(hist@[x][y]@),
                ),
            final(self).state == hist@[hist@.len() - 1][old(out).geometry().string_count - 1],
    {
        let g = out.geometry_value();
        let ghost v0 = self.state;
        let ghost bl = self.blocks;
        let ghost strings = g.string_count as int;
        let ghost mut cols: Seq<Seq<RenderState<S, P, R>>> = Seq::empty();
        let mut x: usize = 0;
        while x < g.led_count
            invariant
                out.wf(),
                out.geometry() == g,
                g.wf(),
                strings == g.string_count as int,
                self.blocks == bl,
                x <= g.led_count,
                cols.len() == x,
                forall|i: int| 0 <= i < cols.len() ==> #[trigger] cols[i].len() == g.string_count,
                x == 0 ==> self.state == v0,
                x > 0 ==> self.state == cols[x - 1][strings - 1],
                forall|i: int, j: int|
                    0 <= i < x && 0 <= j < g.string_count ==> shaded_by(
                        shader,
                        &bl,
                        store_before(cols, v0, strings, i, j),
                        frame_no,
                        i,
                        j,
                        #[trigger] cols[i][j],
                    ),
                forall|i: int, j: int|
                    0 <= i < x && 0 <= j < g.string_count ==> #[trigger] out.pixel(i, j) == native_bytes(
                        output_of(cols[i][j]@),
                    ),
            decreases g.led_count - x,
        {
            let ghost mut col: Seq<RenderState<S, P, R>> = Seq::empty();
            let mut y: usize = 0;
            while y < g.string_count
                invariant
                    out.wf(),
                    out.geometry() == g,
                    g.wf(),
                    strings == g.string_count as int,
                    self.blocks == bl,
                    x < g.led_count,
                    y <= g.string_count,
                    cols.len() == x,
                    col.len() == y,
                    forall|i: int| 0 <= i < cols.len() ==> #[trigger] cols[i].len() == g.string_count,
                    self.state == store_before(cols.push(col), v0, strings, x as int, y as int),
                    forall|i: int, j: int|
                        0 <= i < x && 0 <= j < g.string_count ==> shaded_by(
                            shader,
                            &bl,
                            store_before(cols, v0, strings, i, j),
                            frame_no,
                            i,
                            j,
                            #[trigger] cols[i][j],
                        ),
                    forall|j: int|
                        0 <= j < y ==> shaded_by(
                            shader,
                            &bl,
                            store_before(cols.push(col), v0, strings, x as int, j),
                            frame_no,
                            x as int,
                            j,
                            #[trigger] col[j],
                        ),
                    forall|i: int, j: int|
                        0 <= i < x && 0 <= j < g.string_count ==> #[trigger] out.pixel(i, j) == native_bytes(
                            output_of(cols[i][j]@),
                        ),
                    forall|j: int|
                        0 <= j < y ==> #[trigger] out.pixel(x as int, j) == native_bytes(output_of(col[j]@)),
                decreases g.string_count - y,
            {
                let mut st = RenderState::new();
                core::mem::swap(&mut st, &mut self.state);
                let ghost before = st;
                let shade = H::shade;
                let next = shade(shader, &self.blocks, st, frame_no, x, y);
                self.state = next;
                let c = output_color(&self.state);
                let ghost before_out = *out;
                out.put_pixel(x, y, c);
                proof {
                    assert forall|i: int, j: int|
                        0 <= i < x && 0 <= j < g.string_count implies #[trigger] out.pixel(i, j) == native_bytes(
                            output_of(cols[i][j]@),
                        ) by {
                        lemma_put_pixel_isolated(before_out, *out, x as int, y as int, i, j);
                    }
                    assert forall|j: int| 0 <= j < y implies #[trigger] out.pixel(x as int, j) == native_bytes(
                        output_of(col[j]@),
                    ) by {
                        lemma_put_pixel_isolated(before_out, *out, x as int, y as int, x as int, j);
                    }
                    let ghost old_col = col;
                    col = col.push(next);
                    assert forall|j: int|
                        0 <= j < y + 1 implies shaded_by(
                            shader,
                            &bl,
                            store_before(cols.push(col), v0, strings, x as int, j),
                            frame_no,
                            x as int,
                            j,
                            #[trigger] col[j],
                        ) by {
                        assert(store_before(cols.push(col), v0, strings, x as int, j) == store_before(
                            cols.push(old_col),
                            v0,
                            strings,
                            x as int,
                            j,
                        ));
                    }
                    assert forall|j: int| 0 <= j < y + 1 implies #[trigger] out.pixel(x as int, j) == native_bytes(
                        output_of(col[j]@),
                    ) by {}
                }
                y = y + 1;
            }
            proof {
                let ghost old_cols = cols;
                cols = cols.push(col);
                assert forall|i: int, j: int|
                    0 <= i < x + 1 && 0 <= j < g.string_count implies shaded_by(
                        shader,
                        &bl,
                        store_before(cols, v0, strings, i, j),
                        frame_no,
                        i,
                        j,
                        #[trigger] cols[i][j],
                    ) by {
                    if i < x {
                        assert(cols[i] == old_cols[i]);
                        assert(store_before(cols, v0, strings, i, j) == store_before(old_cols, v0, strings, i, j));
                    }
                }
                assert forall|i: int| 0 <= i < cols.len() implies #[trigger] cols[i].len() == g.string_count by {
                    if i < x {
                        assert(cols[i] == old_cols[i]);
                    }
                }
                assert forall|i: int, j: int|
                    0 <= i < x + 1 && 0 <= j < g.string_count implies #[trigger] out.pixel(i, j) == native_bytes(
                        output_of(cols[i][j]@),
                    ) by {
                    if i < x {
                        assert(cols[i] == old_cols[i]);
                    }
                }
            }
            x = x + 1;
        }
        Ghost(cols)
    }
}

} // verus!
