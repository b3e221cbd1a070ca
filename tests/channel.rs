use ledmatrix::builder::Config;
use ledmatrix::channel::{Message, Pipeline, VarMsg};
use ledmatrix::color::Color;
use ledmatrix::store::{RenderState, Vars};

type Msg = Message<i64, (i64, i64), u8, u32>;

fn snapshot(scalars: Vec<i64>, blocks: Vec<u32>) -> Config<i64, (i64, i64), u8, u32> {
    Config {
        vars: Vars { scalars, positions: vec![(0, 0)], colors: vec![Color::black()], rcolors: vec![1], data: vec![vec![9]] },
        blocks,
    }
}

#[test]
fn set_scalar_outside_the_store_is_ignored() {
    let mut s: RenderState<i64, (i64, i64), u8> = RenderState::new();
    s.reset_from(snapshot(vec![1, 2, 3], vec![]).vars);
    s.set_scalar(1, 20);
    s.set_scalar(7, 70);
    assert_eq!(s.get_scalar(1), Some(&20));
    assert_eq!(s.get_scalar(7), None);
    assert_eq!(s.scalar_count(), 3);
}

#[test]
fn typed_slots_are_independent() {
    let mut s: RenderState<i64, (i64, i64), u8> = RenderState::new();
    s.reset_from(snapshot(vec![1], vec![]).vars);
    s.set_color(0, Color::new(1, 2, 3));
    s.set_position(0, (4, 5));
    s.set_rcolor(0, 6);
    s.set_data(0, vec![7, 8]);
    assert_eq!(s.get_color(0), Some(Color::new(1, 2, 3)));
    assert_eq!(s.get_position(0), Some(&(4, 5)));
    assert_eq!(s.get_rcolor(0), Some(&6));
    assert_eq!(s.get_data(0), Some(&vec![7u8, 8]));
    assert_eq!(s.get_scalar(0), Some(&1));
    assert_eq!(s.get_data(1), None);
}

#[test]
fn config_after_pokes_leaves_only_the_new_snapshot() {
    let mut p: Pipeline<i64, (i64, i64), u8, u32> = Pipeline::new();
    p.apply(Message::Config(snapshot(vec![0, 0, 0, 5], vec![1, 2])));
    let mut msgs: Vec<Msg> = Vec::new();
    for i in 0..10 {
        msgs.push(Message::SetScalar(VarMsg { index: 3, value: 100 + i }));
    }
    msgs.push(Message::Config(snapshot(vec![0, 0, 0, 42], vec![7])));
    p.drain(msgs);
    assert_eq!(p.state.get_scalar(3), Some(&42));
    assert_eq!(p.blocks, vec![7]);
}

#[test]
fn pokes_after_config_apply_to_the_new_snapshot() {
    let mut p: Pipeline<i64, (i64, i64), u8, u32> = Pipeline::new();
    let msgs: Vec<Msg> = vec![
        Message::SetScalar(VarMsg { index: 0, value: 9 }),
        Message::Config(snapshot(vec![1, 2], vec![3])),
        Message::SetScalar(VarMsg { index: 1, value: 20 }),
        Message::SetColor(VarMsg { index: 0, value: Color::new(5, 5, 5) }),
    ];
    p.drain(msgs);
    assert_eq!(p.state.get_scalar(0), Some(&1));
    assert_eq!(p.state.get_scalar(1), Some(&20));
    assert_eq!(p.state.get_color(0), Some(Color::new(5, 5, 5)));
    assert_eq!(p.blocks, vec![3]);
}

#[test]
fn pokes_leave_blocks_alone() {
    let mut p: Pipeline<i64, (i64, i64), u8, u32> = Pipeline::new();
    p.apply(Message::Config(snapshot(vec![1], vec![4, 5])));
    p.apply(Message::SetData(VarMsg { index: 0, value: vec![1, 2] }));
    p.apply(Message::SetRColor(VarMsg { index: 0, value: 3 }));
    p.apply(Message::SetPosition(VarMsg { index: 0, value: (1, 1) }));
    assert_eq!(p.blocks, vec![4, 5]);
    assert_eq!(p.state.get_data(0), Some(&vec![1u8, 2]));
}
