//! The variable store: five independently indexed containers that the
//! render blocks read and write.
//!
//! Per-pixel access is fail-safe: a read out of range yields nothing and a
//! write out of range changes nothing. Whole contents are replaced only by
//! `reset_from`, on a full reconfiguration.

use vstd::prelude::*;
use crate::color::Color;

verus! {

/// Initial contents for every container: scalars `S`, positions `P` and real
/// colors `R`, with display colors and raw byte buffers.
pub struct Vars<S, P, R> {
    pub scalars: Vec<S>,
    pub positions: Vec<P>,
    pub colors: Vec<Color>,
    pub rcolors: Vec<R>,
    pub data: Vec<Vec<u8>>,
}

pub struct VarsView<S, P, R> {
    pub scalars: Seq<S>,
    pub positions: Seq<P>,
    pub colors: Seq<Color>,
    pub rcolors: Seq<R>,
    pub data: Seq<Seq<u8>>,
}

pub open spec fn data_view(d: Seq<Vec<u8>>) -> Seq<Seq<u8>> {
    d.map_values(|b: Vec<u8>| b@)
}

impl<S, P, R> View for Vars<S, P, R> {
    type V = VarsView<S, P, R>;

    open spec fn view(&self) -> VarsView<S, P, R> {
        VarsView {
            scalars: self.scalars@,
            positions: self.positions@,
            colors: self.colors@,
            rcolors: self.rcolors@,
            data: data_view(self.data@),
        }
    }
}

/// The store that blocks execute against.
pub struct RenderState<S, P, R> {
    scalars: Vec<S>,
    positions: Vec<P>,
    colors: Vec<Color>,
    rcolors: Vec<R>,
    data: Vec<Vec<u8>>,
}

impl<S, P, R> View for RenderState<S, P, R> {
    type V = VarsView<S, P, R>;

    closed spec fn view(&self) -> VarsView<S, P, R> {
        VarsView {
            scalars: self.scalars@,
            positions: self.positions@,
            colors: self.colors@,
            rcolors: self.rcolors@,
            data: data_view(self.data@),
        }
    }
}

/// `s` with slot `i` replaced by `v` when it exists.
pub open spec fn write_slot<T>(s: Seq<T>, i: int, v: T) -> Seq<T> {
    if 0 <= i < s.len() {
        s.update(i, v)
    } else {
        s
    }
}

impl<S, P, R> VarsView<S, P, R> {
    pub open spec fn empty() -> Self {
        VarsView {
            scalars: Seq::empty(),
            positions: Seq::empty(),
            colors: Seq::empty(),
            rcolors: Seq::empty(),
            data: Seq::empty(),
        }
    }

    pub open spec fn with_scalar(self, i: int, v: S) -> Self {
        VarsView { scalars: write_slot(self.scalars, i, v), ..self }
    }

    pub open spec fn with_position(self, i: int, v: P) -> Self {
        VarsView { positions: write_slot(self.positions, i, v), ..self }
    }

    pub open spec fn with_color(self, i: int, v: Color) -> Self {
        VarsView { colors: write_slot(self.colors, i, v), ..self }
    }

    pub open spec fn with_rcolor(self, i: int, v: R) -> Self {
        VarsView { rcolors: write_slot(self.rcolors, i, v), ..self }
    }

    pub open spec fn with_data(self, i: int, v: Seq<u8>) -> Self {
        VarsView { data: write_slot(self.data, i, v), ..self }
    }
}

impl<S, P, R> RenderState<S, P, R> {
    /// An empty store.
    pub fn new() -> (r: Self)
        ensures
            r@ == VarsView::<S, P, R>::empty(),
    {
        let r = RenderState {
            scalars: Vec::new(),
            positions: Vec::new(),
            colors: Vec::new(),
            rcolors: Vec::new(),
            data: Vec::new(),
        };
        assert(data_view(r.data@) =~= Seq::<Seq<u8>>::empty());
        r
    }

    /// Discards every container and takes the contents of `vars` whole.
    pub fn reset_from(&mut self, vars: Vars<S, P, R>)
        ensures
            final(self)@ == vars@,
    {
        self.scalars = vars.scalars;
        self.positions = vars.positions;
        self.colors = vars.colors;
        self.rcolors = vars.rcolors;
        self.data = vars.data;
    }

    pub fn scalar_count(&self) -> (r: usize)
        ensures
            r == self@.scalars.len(),
    {
        self.scalars.len()
    }

    pub fn color_count(&self) -> (r: usize)
        ensures
            r == self@.colors.len(),
    {
        self.colors.len()
    }

    /// Writes scalar slot `idx`; an index out of range changes nothing.
    pub fn set_scalar(&mut self, idx: usize, val: S)
        ensures
            final(self)@ == old(self)@.with_scalar(idx as int, val),
    {
        if idx < self.scalars.len() {
            self.scalars.set(idx, val);
        }
    }

    /// Reads scalar slot `idx`, if it exists.
    pub fn get_scalar(&self, idx: usize) -> (r: Option<&S>)
        ensures
            r is Some <==> idx < self@.scalars.len(),
            r is Some ==> *r.unwrap() == self@.scalars[idx as int],
    {
        if idx < self.scalars.len() {
            Some(&self.scalars[idx])
        } else {
            None
        }
    }

    /// Writes position slot `idx`; an index out of range changes nothing.
    pub fn set_position(&mut self, idx: usize, val: P)
        ensures
            final(self)@ == old(self)@.with_position(idx as int, val),
    {
        if idx < self.positions.len() {
            self.positions.set(idx, val);
        }
    }

    /// Reads position slot `idx`, if it exists.
    pub fn get_position(&self, idx: usize) -> (r: Option<&P>)
        ensures
            r is Some <==> idx < self@.positions.len(),
            r is Some ==> *r.unwrap() == self@.positions[idx as int],
    {
        if idx < self.positions.len() {
            Some(&self.positions[idx])
        } else {
            None
        }
    }

    /// Writes color slot `idx`; an index out of range changes nothing.
    pub fn set_color(&mut self, idx: usize, val: Color)
        ensures
            final(self)@ == old(self)@.with_color(idx as int, val),
    {
        if idx < self.colors.len() {
            self.colors.set(idx, val);
        }
    }

    /// Reads color slot `idx`, if it exists.
    pub fn get_color(&self, idx: usize) -> (r: Option<Color>)
        ensures
            r is Some <==> idx < self@.colors.len(),
            r is Some ==> r.unwrap() == self@.colors[idx as int],
    {
        if idx < self.colors.len() {
            Some(self.colors[idx])
        } else {
            None
        }
    }

    /// Writes real-color slot `idx`; an index out of range changes nothing.
    pub fn set_rcolor(&mut self, idx: usize, val: R)
        ensures
            final(self)@ == old(self)@.with_rcolor(idx as int, val),
    {
        if idx < self.rcolors.len() {
            self.rcolors.set(idx, val);
        }
    }

    /// Reads real-color slot `idx`, if it exists.
    pub fn get_rcolor(&self, idx: usize) -> (r: Option<&R>)
        ensures
            r is Some <==> idx < self@.rcolors.len(),
            r is Some ==> *r.unwrap() == self@.rcolors[idx as int],
    {
        if idx < self.rcolors.len() {
            Some(&self.rcolors[idx])
        } else {
            None
        }
    }

    /// Writes data slot `idx`; an index out of range changes nothing.
    pub fn set_data(&mut self, idx: usize, val: Vec<u8>)
        ensures
            final(self)@ == old(self)@.with_data(idx as int, val@),
    {
        if idx < self.data.len() {
            proof {
                assert(data_view(self.data@.update(idx as int, val)) =~= data_view(self.data@).update(idx as int, val@));
            }
            self.data.set(idx, val);
        }
    }

    /// Reads data slot `idx`, if it exists.
    pub fn get_data(&self, idx: usize) -> (r: Option<&Vec<u8>>)
        ensures
            r is Some <==> idx < self@.data.len(),
            r is Some ==> r.unwrap()@ == self@.data[idx as int],
    {
        if idx < self.data.len() {
            Some(&self.data[idx])
        } else {
            None
        }
    }
}

} // verus!
