//! The flush protocol: a frame is handed to the device only once its FIFO
//! has drained enough room for the whole frame.
//!
//! The caller owns the registers and the clock. It reads the FIFO empty
//! count, hands it to `FlushGate::poll`, and either pauses and polls again or
//! issues the flush with the length it is given. A device whose count never
//! rises keeps the caller polling: there is no timeout that would flush into
//! a full FIFO.

use vstd::prelude::*;
use crate::geometry::Geometry;

verus! {

#[derive(Clone, Copy, Debug, PartialEq, Eq, Structural)]
pub enum GateAction {
    /// Too little room: pause briefly and read the count again.
    Wait,
    /// Issue the flush for a frame of this many bytes.
    Flush { len_bytes: usize },
}

/// Decision for one reading of the FIFO empty count, in transfer words.
pub open spec fn decide(frame_bytes: usize, empty_count: u16) -> GateAction {
    if empty_count as int >= frame_bytes / 2 {
        GateAction::Flush { len_bytes: frame_bytes }
    } else {
        GateAction::Wait
    }
}

/// Decisions for a run of readings.
pub open spec fn decisions(frame_bytes: usize, readings: Seq<u16>) -> Seq<GateAction> {
    readings.map_values(|c: u16| decide(frame_bytes, c))
}

pub struct FlushGate {
    frame_bytes: usize,
    polls: u64,
}

impl FlushGate {
    pub closed spec fn frame_bytes(&self) -> usize {
        self.frame_bytes
    }

    /// Readings below the threshold seen so far.
    pub closed spec fn polls(&self) -> u64 {
        self.polls
    }

    /// A gate for frames of `g`.
    pub fn new(g: &Geometry) -> (r: FlushGate)
        requires
            g.wf(),
        ensures
            r.frame_bytes() == g.frame_bytes(),
            r.polls() == 0,
    {
        FlushGate { frame_bytes: g.frame_size_bytes(), polls: 0 }
    }

    /// Frame size in transfer words: the empty count that a flush waits for.
    pub fn threshold_words(&self) -> (r: usize)
        ensures
            r == self.frame_bytes() / 2,
    {
        self.frame_bytes / 2
    }

    /// Decides on one reading of the empty count.
    pub fn poll(&mut self, empty_count: u16) -> (a: GateAction)
        ensures
            a == decide(old(self).frame_bytes(), empty_count),
            final(self).frame_bytes() == old(self).frame_bytes(),
            final(self).polls() == (if a == GateAction::Wait {
                if old(self).polls() == u64::MAX { u64::MAX } else { (old(self).polls() + 1) as u64 }
            } else {
                old(self).polls()
            }),
    {
        if empty_count as usize >= self.frame_bytes / 2 {
            GateAction::Flush { len_bytes: self.frame_bytes }
        } else {
            if self.polls < u64::MAX {
                self.polls = self.polls + 1;
            }
            GateAction::Wait
        }
    }

    /// Readings that came in below the threshold.
    pub fn wait_polls(&self) -> (r: u64)
        ensures
            r == self.polls(),
    {
        self.polls
    }
}

/// Backpressure: a flush is only ever issued on a reading that shows room
/// for the whole frame.
pub proof fn lemma_flush_needs_room(frame_bytes: usize, readings: Seq<u16>, i: int)
    requires
        0 <= i < readings.len(),
        decisions(frame_bytes, readings)[i] is Flush,
    ensures
        readings[i] >= frame_bytes / 2,
{
}

/// A device whose empty count stays below the frame's transfer-word size is
/// never flushed, however long it is polled.
pub proof fn lemma_stalled_fifo_never_flushes(frame_bytes: usize, readings: Seq<u16>)
    requires
        forall|i: int| 0 <= i < readings.len() ==> readings[i] < frame_bytes / 2,
    ensures
        forall|i: int|
            0 <= i < readings.len() ==> #[trigger] decisions(frame_bytes, readings)[i]
                == GateAction::Wait,
{
}

/// The white-LED bias register word: cool in bits 0-7, cold in 8-15, hot in
/// 16-23.
pub fn white_led_word(cold: u8, cool: u8, hot: u8) -> (r: u32)
    ensures
        r == cool as int + 256 * cold as int + 65536 * hot as int,
{
    let value: u32 = (cold as u32) << 8u32 | (cool as u32) | (hot as u32) << 16u32;
    assert(value == cool as int + 256 * cold as int + 65536 * hot as int) by (bit_vector)
        requires
            value == (cold as u32) << 8u32 | (cool as u32) | (hot as u32) << 16u32;
    value
}

} // verus!
