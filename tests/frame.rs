use ledmatrix::channel::{Message, Pipeline};
use ledmatrix::builder::Config;
use ledmatrix::color::Color;
use ledmatrix::frame::Frame;
use ledmatrix::geometry::{fb_idx, Geometry};
use ledmatrix::scan::{output_color, PixelShader};
use ledmatrix::store::{RenderState, Vars};

#[test]
fn put_pixel_writes_blue_red_green() {
    let mut f = Frame::new(Geometry::deployed());
    f.put_pixel(5, 3, Color::new(10, 20, 30));
    let i = fb_idx(5, 3);
    assert_eq!(&f.as_bytes()[i..i + 3], &[30, 10, 20]);
    assert_eq!(f.as_bytes().iter().filter(|b| **b != 0).count(), 3);
    f.clear();
    assert!(f.as_bytes().iter().all(|b| *b == 0));
}

struct Gradient;

impl PixelShader<i64, (), (), u8> for Gradient {
    fn shade(&self, blocks: &Vec<u8>, mut state: RenderState<i64, (), ()>, frame: u32, x: usize, y: usize) -> RenderState<i64, (), ()> {
        state.set_scalar(0, frame as i64);
        state.set_scalar(1, x as i64);
        state.set_scalar(2, y as i64);
        let k = blocks[0];
        state.set_color(0, Color::new(x as u8, y as u8, k));
        state
    }
}

#[test]
fn render_frame_fills_every_pixel() {
    let g = Geometry { led_count: 4, string_count: 2 };
    let mut p: Pipeline<i64, (), (), u8> = Pipeline::new();
    p.apply(Message::Config(Config {
        vars: Vars { scalars: vec![0, 0, 0], positions: vec![], colors: vec![Color::black()], rcolors: vec![], data: vec![] },
        blocks: vec![9],
    }));
    let mut f = Frame::new(g);
    p.render_frame(&Gradient, 7, &mut f);
    for x in 0..4 {
        for y in 0..2 {
            let i = g.fb_idx(x, y);
            assert_eq!(&f.as_bytes()[i..i + 3], &[9, x as u8, y as u8]);
        }
    }
    assert_eq!(p.state.get_scalar(0), Some(&7));
    assert_eq!(output_color(&p.state), Color::new(3, 1, 9));
}

#[test]
fn output_color_without_slot_is_black() {
    let s: RenderState<i64, (), ()> = RenderState::new();
    assert_eq!(output_color(&s), Color::black());
}
