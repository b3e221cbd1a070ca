//! Reconfiguration events and the frame-boundary state they act on.
//!
//! The control plane only produces events; the frame loop drains them before
//! binding coordinates, so one frame always runs against one store and one
//! block list. A full configuration replaces both; a parameter poke writes
//! one slot and leaves the blocks alone. The transport may drop pokes under
//! load (oldest first); nothing here depends on every poke arriving.

use vstd::prelude::*;
use crate::builder::Config;
use crate::color::Color;
use crate::store::{RenderState, VarsView};

verus! {

/// A value addressed to one store slot.
#[derive(Debug)]
pub struct VarMsg<T> {
    pub index: usize,
    pub value: T,
}

pub enum Message<S, P, R, B> {
    Config(Config<S, P, R, B>),
    SetScalar(VarMsg<S>),
    SetPosition(VarMsg<P>),
    SetColor(VarMsg<Color>),
    SetRColor(VarMsg<R>),
    SetData(VarMsg<Vec<u8>>),
}

/// The store and the block list that the next frame runs against.
pub struct Pipeline<S, P, R, B> {
    pub state: RenderState<S, P, R>,
    pub blocks: Vec<B>,
}

pub struct PipelineView<S, P, R, B> {
    pub vars: VarsView<S, P, R>,
    pub blocks: Seq<B>,
}

impl<S, P, R, B> View for Pipeline<S, P, R, B> {
    type V = PipelineView<S, P, R, B>;

    open spec fn view(&self) -> PipelineView<S, P, R, B> {
        PipelineView { vars: self.state@, blocks: self.blocks@ }
    }
}

/// What one event does.
pub open spec fn step<S, P, R, B>(p: PipelineView<S, P, R, B>, m: Message<S, P, R, B>) -> PipelineView<
    S,
    P,
    R,
    B,
> {
    match m {
        Message::Config(c) => PipelineView { vars: c.vars@, blocks: c.blocks@ },
        Message::SetScalar(v) => PipelineView { vars: p.vars.with_scalar(v.index as int, v.value), ..p },
        Message::SetPosition(v) => PipelineView {
            vars: p.vars.with_position(v.index as int, v.value),
            ..p
        },
        Message::SetColor(v) => PipelineView { vars: p.vars.with_color(v.index as int, v.value), ..p },
        Message::SetRColor(v) => PipelineView { vars: p.vars.with_rcolor(v.index as int, v.value), ..p },
        Message::SetData(v) => PipelineView { vars: p.vars.with_data(v.index as int, v.value@), ..p },
    }
}

/// Events applied in the order they arrived.
pub open spec fn apply_all<S, P, R, B>(
    p: PipelineView<S, P, R, B>,
    msgs: Seq<Message<S, P, R, B>>,
) -> PipelineView<S, P, R, B>
    decreases msgs.len(),
{
    if msgs.len() == 0 {
        p
    } else {
        apply_all(step(p, msgs[0]), msgs.drop_first())
    }
}

/// Applying one more event after a run is one more step.
pub proof fn lemma_apply_all_push<S, P, R, B>(
    p: PipelineView<S, P, R, B>,
    msgs: Seq<Message<S, P, R, B>>,
    m: Message<S, P, R, B>,
)
    ensures
        apply_all(p, msgs.push(m)) == step(apply_all(p, msgs), m),
    decreases msgs.len(),
{
    if msgs.len() > 0 {
        assert(msgs.push(m)[0] == msgs[0]);
        assert(msgs.push(m).drop_first() =~= msgs.drop_first().push(m));
        lemma_apply_all_push(step(p, msgs[0]), msgs.drop_first(), m);
    } else {
        assert(msgs.push(m).drop_first() =~= Seq::<Message<S, P, R, B>>::empty());
        assert(msgs.push(m)[0] == m);
        assert(apply_all(step(p, m), Seq::<Message<S, P, R, B>>::empty()) == step(p, m));
    }
}

/// Two runs in sequence are one run over both.
pub proof fn lemma_apply_all_concat<S, P, R, B>(
    p: PipelineView<S, P, R, B>,
    a: Seq<Message<S, P, R, B>>,
    b: Seq<Message<S, P, R, B>>,
)
    ensures
        apply_all(p, a + b) == apply_all(apply_all(p, a), b),
    decreases a.len(),
{
    if a.len() > 0 {
        assert((a + b).drop_first() =~= a.drop_first() + b);
        lemma_apply_all_concat(step(p, a[0]), a.drop_first(), b);
    } else {
        assert(a + b =~= b);
    }
}

/// A full configuration supersedes everything queued before it: whatever
/// the earlier events and the state they met, the frame after the drain runs
/// against the new snapshot and block list, changed only by the events that
/// came after the configuration.
pub proof fn lemma_config_supersedes<S, P, R, B>(
    p: PipelineView<S, P, R, B>,
    before: Seq<Message<S, P, R, B>>,
    c: Config<S, P, R, B>,
    after: Seq<Message<S, P, R, B>>,
)
    ensures
        apply_all(p, before.push(Message::Config(c)) + after) == apply_all(
            PipelineView { vars: c.vars@, blocks: c.blocks@ },
            after,
        ),
{
    lemma_apply_all_concat(p, before.push(Message::Config(c)), after);
    lemma_apply_all_push(p, before, Message::Config(c));
}

/// A drain that ends in a full configuration leaves exactly that
/// configuration, with nothing of the events before it.
pub proof fn lemma_last_config_wins<S, P, R, B>(
    p: PipelineView<S, P, R, B>,
    before: Seq<Message<S, P, R, B>>,
    c: Config<S, P, R, B>,
)
    ensures
        apply_all(p, before.push(Message::Config(c))) == (PipelineView {
            vars: c.vars@,
            blocks: c.blocks@,
        }),
{
    lemma_apply_all_push(p, before, Message::Config(c));
}

impl<S, P, R, B> Pipeline<S, P, R, B> {
    /// An empty store and no blocks.
    pub fn new() -> (r: Self)
        ensures
            r@.vars == VarsView::<S, P, R>::empty(),
            r@.blocks.len() == 0,
    {
        Pipeline { state: RenderState::new(), blocks: Vec::new() }
    }

    /// Applies one event.
    pub fn apply(&mut self, msg: Message<S, P, R, B>)
        ensures
            final(self)@ == step(old(self)@, msg),
    {
        match msg {
            Message::Config(c) => {
                self.state.reset_from(c.vars);
                self.blocks = c.blocks;
            },
            Message::SetScalar(v) => self.state.set_scalar(v.index, v.value),
            Message::SetPosition(v) => self.state.set_position(v.index, v.value),
            Message::SetColor(v) => self.state.set_color(v.index, v.value),
            Message::SetRColor(v) => self.state.set_rcolor(v.index, v.value),
            Message::SetData(v) => self.state.set_data(v.index, v.value),
        }
    }

    /// Applies every pending event, oldest first.
    pub fn drain(&mut self, msgs: Vec<Message<S, P, R, B>>)
        ensures
            final(self)@ == apply_all(old(self)@, msgs@),
    {
        let mut msgs = msgs;
        let ghost target = apply_all(self@, msgs@);
        while msgs.len() > 0
            invariant
                apply_all(self@, msgs@) == target,
            decreases msgs@.len(),
        {
            let ghost rest = msgs@.drop_first();
            let m = msgs.remove(0);
            assert(msgs@ =~= rest);
            self.apply(m);
        }
    }
}

} // verus!
