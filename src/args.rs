//! Run options of the frame loop.

use vstd::prelude::*;

verus! {

pub struct Args {
    /// Frames to render; zero renders without end.
    pub frame_cnt: u32,
    /// Path of the initial configuration document.
    pub json: String,
}

impl Args {
    /// Whether frame number `frame` is still within the budget.
    pub fn should_render(&self, frame: u32) -> (r: bool)
        ensures
            r == (self.frame_cnt == 0 || frame < self.frame_cnt),
    {
        self.frame_cnt == 0 || frame < self.frame_cnt
    }
}

} // verus!
