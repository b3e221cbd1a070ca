//! The frame being rendered, laid out byte for byte as the device reads it.

use vstd::prelude::*;
use crate::color::Color;
use crate::geometry::{lemma_fb_idx_injective, Geometry};

verus! {

/// The three bytes the device expects for color `c`: blue, red, green.
pub open spec fn native_bytes(c: Color) -> Seq<u8> {
    seq![c.b, c.r, c.g]
}

pub struct Frame {
    geometry: Geometry,
    bytes: Vec<u8>,
}

impl Frame {
    pub closed spec fn geometry(&self) -> Geometry {
        self.geometry
    }

    pub closed spec fn bytes(&self) -> Seq<u8> {
        self.bytes@
    }

    pub open spec fn wf(&self) -> bool {
        &&& self.geometry().wf()
        &&& self.bytes().len() == self.geometry().frame_bytes()
    }

    /// The three bytes of pixel (x, y).
    pub open spec fn pixel(&self, x: int, y: int) -> Seq<u8> {
        let o = self.geometry().offset(x, y);
        self.bytes().subrange(o, o + 3)
    }

    /// A black frame for `g`.
    pub fn new(g: Geometry) -> (f: Frame)
        requires
            g.wf(),
        ensures
            f.wf(),
            f.geometry() == g,
            forall|i: int| 0 <= i < f.bytes().len() ==> f.bytes()[i] == 0,
    {
        let n = g.frame_size_bytes();
        Frame { geometry: g, bytes: vec![0u8; n] }
    }

    /// Writes color `c` at pixel (x, y) in the device's channel order.
    pub fn put_pixel(&mut self, x: usize, y: usize, c: Color)
        requires
            old(self).wf(),
            old(self).geometry().in_bounds(x as int, y as int),
        ensures
            final(self).wf(),
            final(self).geometry() == old(self).geometry(),
            final(self).pixel(x as int, y as int) == native_bytes(c),
            ({
                let o = old(self).geometry().offset(x as int, y as int);
                forall|i: int|
                    0 <= i < old(self).bytes().len() && !(o <= i < o + 3) ==> final(self).bytes()[i]
                        == old(self).bytes()[i]
            }),
    {
        let o = self.geometry.fb_idx(x, y);
        self.bytes.set(o, c.b);
        self.bytes.set(o + 1, c.r);
        self.bytes.set(o + 2, c.g);
        assert(self.bytes@.subrange(o as int, o + 3) =~= native_bytes(c));
    }

    /// Sets every byte to zero.
    pub fn clear(&mut self)
        requires
            old(self).wf(),
        ensures
            final(self).wf(),
            final(self).geometry() == old(self).geometry(),
            forall|i: int| 0 <= i < final(self).bytes().len() ==> final(self).bytes()[i] == 0,
    {
        let n = self.bytes.len();
        self.bytes = vec![0u8; n];
    }

    pub fn geometry_value(&self) -> (g: Geometry)
        ensures
            g == self.geometry(),
    {
        self.geometry
    }

    /// The bytes to hand to the device.
    pub fn as_bytes(&self) -> (r: &Vec<u8>)
        ensures
            r@ == self.bytes(),
    {
        &self.bytes
    }
}

/// Writing one pixel leaves every other pixel as it was.
pub proof fn lemma_put_pixel_isolated(before: Frame, after: Frame, x: int, y: int, x2: int, y2: int)
    requires
        before.wf(),
        after.geometry() == before.geometry(),
        after.bytes().len() == before.bytes().len(),
        before.geometry().in_bounds(x, y),
        before.geometry().in_bounds(x2, y2),
        x != x2 || y != y2,
        ({
            let o = before.geometry().offset(x, y);
            forall|i: int|
                0 <= i < before.bytes().len() && !(o <= i < o + 3) ==> after.bytes()[i]
                    == before.bytes()[i]
        }),
    ensures
        after.pixel(x2, y2) == before.pixel(x2, y2),
{
    let g = before.geometry();
    lemma_fb_idx_injective(g, x, y, x2, y2);
    lemma_fb_idx_injective(g, x2, y2, x, y);
    crate::geometry::lemma_offset_in_frame(g, x2, y2);
    let o = g.offset(x, y);
    let o2 = g.offset(x2, y2);
    assert(o2 + 3 <= o || o + 3 <= o2);
    assert(after.pixel(x2, y2) =~= before.pixel(x2, y2));
}

} // verus!
