use ledmatrix::blocks::{block_factory, Block, ColorInterp, Dither, Gamma, ImageLookup, LookupMode, ScalarAdd, ScalarHsv2Rgb, ScalarMacc, ScalarRamp, ScalarTriangle};
use ledmatrix::color::Color;
use ledmatrix::document::{ConfigError, Json};
use ledmatrix::number::Number;

fn num(n: u64) -> Json {
    Json::Number(Number::from_parts(true, n, 0))
}

fn dec(positive: bool, mantissa: u64, exponent: i16) -> Json {
    Json::Number(Number::from_parts(positive, mantissa, exponent))
}

fn obj(members: Vec<(&str, Json)>) -> Json {
    Json::Object(members.into_iter().map(|(k, v)| (k.to_string(), v)).collect())
}

fn nums(ns: &[u64]) -> Json {
    Json::Array(ns.iter().map(|n| num(*n)).collect())
}

fn descriptor(kind: &str, inputs: Json, outputs: Json, params: Option<Json>) -> Json {
    let mut m = vec![("type", Json::Str(kind.to_string())), ("inputs", inputs), ("outputs", outputs)];
    if let Some(p) = params {
        m.push(("params", p));
    }
    obj(m)
}

fn curve() -> Json {
    obj(vec![("gamma", dec(true, 22, -1)), ("rc", num(1)), ("gc", dec(true, 9, -1)), ("bc", dec(true, 8, -1))])
}

#[test]
fn scalar_add_reads_its_slots() {
    let d = descriptor("scalar_add", obj(vec![("a", num(3)), ("b", num(4))]), obj(vec![("o", num(5))]), None);
    let b = ScalarAdd::from_obj(&d).unwrap();
    assert_eq!(b, ScalarAdd { a_idx: 3, b_idx: 4, o_idx: 5 });
}

#[test]
fn scalar_add_missing_input_is_refused() {
    let d = descriptor("scalar_add", obj(vec![("a", num(3))]), obj(vec![("o", num(5))]), None);
    assert_eq!(ScalarAdd::from_obj(&d), Err(ConfigError::Missing));
}

#[test]
fn scalar_add_fractional_index_is_refused() {
    let d = descriptor("scalar_add", obj(vec![("a", dec(true, 35, -1)), ("b", num(4))]), obj(vec![("o", num(5))]), None);
    assert_eq!(ScalarAdd::from_obj(&d), Err(ConfigError::WrongType));
}

#[test]
fn inputs_must_be_an_object() {
    let d = descriptor("scalar_add", nums(&[1, 2]), obj(vec![("o", num(5))]), None);
    assert_eq!(ScalarAdd::from_obj(&d), Err(ConfigError::WrongType));
}

#[test]
fn ramp_and_triangle_read_four_inputs() {
    let ins = obj(vec![("f", num(3)), ("min", num(4)), ("max", num(5)), ("i", num(0))]);
    let d = descriptor("scalar_ramp", ins, obj(vec![("o", num(6))]), None);
    let r = ScalarRamp::from_obj(&d).unwrap();
    assert_eq!(r, ScalarRamp { f_idx: 3, min_idx: 4, max_idx: 5, i_idx: 0, o_idx: 6 });
    let t = ScalarTriangle::from_obj(&d).unwrap();
    assert_eq!(t, ScalarTriangle { f_idx: 3, min_idx: 4, max_idx: 5, i_idx: 0, o_idx: 6 });
}

#[test]
fn hsv_reads_three_inputs() {
    let d = descriptor("scalar_hsv2rgb", obj(vec![("h", num(1)), ("s", num(2)), ("v", num(3))]), obj(vec![("o", num(0))]), None);
    assert_eq!(ScalarHsv2Rgb::from_obj(&d).unwrap(), ScalarHsv2Rgb { h_idx: 1, s_idx: 2, v_idx: 3, o_idx: 0 });
}

#[test]
fn macc_reads_paired_lists() {
    let d = descriptor("scalar_macc", obj(vec![("m", nums(&[1, 2])), ("x", nums(&[3, 4]))]), obj(vec![("o", num(7))]), None);
    let b = ScalarMacc::from_obj(&d).unwrap();
    assert_eq!(b.m_idxs, vec![1, 2]);
    assert_eq!(b.x_idxs, vec![3, 4]);
    assert_eq!(b.o_idx, 7);
    assert_eq!(b.len(), 2);
}

#[test]
fn macc_length_mismatch_is_refused() {
    let d = descriptor("scalar_macc", obj(vec![("m", nums(&[1, 2])), ("x", nums(&[3]))]), obj(vec![("o", num(7))]), None);
    assert_eq!(ScalarMacc::from_obj(&d).unwrap_err(), ConfigError::LengthMismatch);
}

#[test]
fn color_interp_reads_tables() {
    let ins = obj(vec![("color", nums(&[0, 1, 2])), ("point", nums(&[3, 4, 5])), ("val", num(6))]);
    let d = descriptor("color_interp", ins, obj(vec![("o", num(0))]), None);
    let b = ColorInterp::from_obj(&d).unwrap();
    assert_eq!(b.color_idxs, vec![0, 1, 2]);
    assert_eq!(b.point_idxs, vec![3, 4, 5]);
    assert_eq!(b.val_idx, 6);
    assert_eq!(b.o_idx, 0);
}

#[test]
fn gamma_reads_params_and_slots() {
    let ins = obj(vec![("i", num(0)), ("x", num(1)), ("y", num(2))]);
    let d = descriptor("gamma", ins, obj(vec![("o", num(0))]), Some(curve()));
    let g = Gamma::from_obj(&d).unwrap();
    assert_eq!(g.gamma, Number::from_parts(true, 22, -1));
    assert_eq!(g.gc, Number::from_parts(true, 9, -1));
    assert_eq!((g.i_idx, g.x_idx, g.y_idx, g.o_idx), (0, 1, 2, 0));
}

#[test]
fn gamma_without_params_is_refused() {
    let ins = obj(vec![("i", num(0)), ("x", num(1)), ("y", num(2))]);
    let d = descriptor("gamma", ins, obj(vec![("o", num(0))]), None);
    assert_eq!(Gamma::from_obj(&d), Err(ConfigError::Missing));
}

#[test]
fn gamma_param_must_be_a_number() {
    let p = obj(vec![("gamma", Json::Str("x".to_string())), ("rc", num(1)), ("gc", num(1)), ("bc", num(1))]);
    let ins = obj(vec![("i", num(0)), ("x", num(1)), ("y", num(2))]);
    let d = descriptor("gamma", ins, obj(vec![("o", num(0))]), Some(p));
    assert_eq!(Gamma::from_obj(&d), Err(ConfigError::WrongType));
}

#[test]
fn dither_reads_scale_slot() {
    let ins = obj(vec![("scale", num(9)), ("i", num(0)), ("x", num(1)), ("y", num(2))]);
    let d = descriptor("dither", ins, obj(vec![("o", num(0))]), Some(curve()));
    let b = Dither::from_obj(&d).unwrap();
    assert_eq!((b.scale_idx, b.i_idx, b.x_idx, b.y_idx, b.o_idx), (9, 0, 1, 2, 0));
    assert_eq!(b.bc, Number::from_parts(true, 8, -1));
}

#[test]
fn image_lookup_reads_six_inputs() {
    let ins = obj(vec![("width", num(3)), ("height", num(4)), ("x", num(1)), ("y", num(2)), ("mode", num(5)), ("data", num(0))]);
    let d = descriptor("image_lookup", ins, obj(vec![("o", num(0))]), None);
    let b = ImageLookup::from_obj(&d).unwrap();
    assert_eq!(b, ImageLookup { width_idx: 3, height_idx: 4, x_idx: 1, y_idx: 2, mode_idx: 5, data_idx: 0, o_idx: 0 });
}

#[test]
fn factory_dispatches_on_type() {
    let d = descriptor("scalar_add", obj(vec![("a", num(3)), ("b", num(4))]), obj(vec![("o", num(5))]), None);
    match block_factory(&d).unwrap() {
        Block::ScalarAdd(b) => assert_eq!(b.o_idx, 5),
        other => panic!("unexpected block {:?}", other),
    }
}

#[test]
fn factory_refuses_unknown_type() {
    let d = descriptor("strobe", obj(vec![]), obj(vec![("o", num(5))]), None);
    assert_eq!(block_factory(&d).unwrap_err(), ConfigError::UnknownBlock);
}

#[test]
fn factory_needs_a_type_string() {
    let d = obj(vec![("inputs", obj(vec![]))]);
    assert_eq!(block_factory(&d).unwrap_err(), ConfigError::Missing);
    let d = obj(vec![("type", num(1))]);
    assert_eq!(block_factory(&d).unwrap_err(), ConfigError::WrongType);
    assert_eq!(block_factory(&num(1)).unwrap_err(), ConfigError::WrongType);
}

#[test]
fn dither_offset_is_bit_reversed_phase() {
    let expected = [0u8, 4, 2, 6, 1, 5, 3, 7];
    for phase in 0..32usize {
        assert_eq!(Dither::offset_eighths(phase), expected[phase % 8]);
    }
}

#[test]
fn dither_offset_is_deterministic_per_pixel() {
    // x = 3, y = 2, frame 0: phase sum 3 + 5*2 = 13
    let first = Dither::offset_eighths(13);
    for _ in 0..10 {
        assert_eq!(Dither::offset_eighths(13), first);
    }
    assert_eq!(first, 5);
}

#[test]
fn lookup_mode_codes() {
    assert_eq!(LookupMode::from_code(0), LookupMode::Single);
    assert_eq!(LookupMode::from_code(1), LookupMode::Tile);
    assert_eq!(LookupMode::from_code(7), LookupMode::Single);
}

#[test]
fn image_pixel_is_row_major() {
    // 2x2 image
    let data: Vec<u8> = (0u8..12).collect();
    assert_eq!(ImageLookup::pixel(&data, 2, 0, 0), Color::new(0, 1, 2));
    assert_eq!(ImageLookup::pixel(&data, 2, 1, 0), Color::new(3, 4, 5));
    assert_eq!(ImageLookup::pixel(&data, 2, 0, 1), Color::new(6, 7, 8));
    assert_eq!(ImageLookup::pixel(&data, 2, 1, 1), Color::new(9, 10, 11));
}

#[test]
fn image_pixel_outside_is_black() {
    let data: Vec<u8> = (0u8..12).collect();
    assert_eq!(ImageLookup::pixel(&data, 2, -1, 0), Color::black());
    assert_eq!(ImageLookup::pixel(&data, 2, 0, 2), Color::black());
    assert_eq!(ImageLookup::pixel(&data, 2, 0, -1), Color::black());
}

#[test]
fn color_interp_segment_is_first_point_at_or_above() {
    // points -1, 0, 1 and value 0.5
    assert_eq!(ColorInterp::segment(&vec![false, false, true]), Some(2));
    // value equal to the first point
    assert_eq!(ColorInterp::segment(&vec![true, true, true]), Some(0));
    // value above the last point
    assert_eq!(ColorInterp::segment(&vec![false, false, false]), None);
    assert_eq!(ColorInterp::segment(&vec![]), None);
}

#[test]
fn image_pixel_accepts_any_width() {
    // 2000 pixels wide, one row
    let mut data = vec![0u8; 3 * 2000];
    data[3 * 1999] = 7;
    assert_eq!(ImageLookup::pixel(&data, 2000, 1999, 0), Color::new(7, 0, 0));
    assert_eq!(ImageLookup::pixel(&data, 2000, 0, 1), Color::black());
    assert_eq!(ImageLookup::pixel(&data, usize::MAX, 0, isize::MAX), Color::black());
    assert_eq!(ImageLookup::pixel(&data, 0, 5, 3), Color::new(0, 0, 0));
}
