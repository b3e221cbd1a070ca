//! The render blocks: the instruction set of the per-pixel interpreter, each
//! read from its descriptor in a configuration document.
//!
//! A block holds the store slots it reads and writes, and its literal
//! parameters. Reading a descriptor fails before any pixel is rendered when a
//! key is absent or malformed.

use vstd::prelude::*;
use crate::document::{
    array_field, index_field, index_key_parser, index_parser, indices_in, lemma_parse_list_len,
    member, number_key_parser, numbers_in, object_field, parse_indices, parse_list,
    section_indices, section_numbers, ConfigError, Json,
};
use crate::color::Color;
use crate::number::Number;

verus! {

broadcast use vstd::string::to_string_from_display_ensures_for_str;

/// `o = a + b` over scalars.
#[derive(Clone, Copy, Debug, PartialEq, Eq, Structural)]
pub struct ScalarAdd {
    pub a_idx: usize,
    pub b_idx: usize,
    pub o_idx: usize,
}

/// `o = sum of m[k] * x[k]` over two equally long scalar lists.
#[derive(Debug)]
pub struct ScalarMacc {
    pub m_idxs: Vec<usize>,
    pub x_idxs: Vec<usize>,
    pub o_idx: usize,
}

/// Sawtooth: `o = frac(i * f) * (max - min) + min`.
#[derive(Clone, Copy, Debug, PartialEq, Eq, Structural)]
pub struct ScalarRamp {
    pub f_idx: usize,
    pub min_idx: usize,
    pub max_idx: usize,
    pub i_idx: usize,
    pub o_idx: usize,
}

/// Triangle wave: `o = |frac(i * f) - 0.5| * 2 * (max - min) + min`.
#[derive(Clone, Copy, Debug, PartialEq, Eq, Structural)]
pub struct ScalarTriangle {
    pub f_idx: usize,
    pub min_idx: usize,
    pub max_idx: usize,
    pub i_idx: usize,
    pub o_idx: usize,
}

/// HSV scalars in [0, 1] to a real color.
#[derive(Clone, Copy, Debug, PartialEq, Eq, Structural)]
pub struct ScalarHsv2Rgb {
    pub h_idx: usize,
    pub s_idx: usize,
    pub v_idx: usize,
    pub o_idx: usize,
}

/// Piecewise-linear color map: real colors placed at increasing scalar points.
#[derive(Debug)]
pub struct ColorInterp {
    pub color_idxs: Vec<usize>,
    pub point_idxs: Vec<usize>,
    pub val_idx: usize,
    pub o_idx: usize,
}

/// Real color to display color through a power curve and channel gains.
#[derive(Clone, Copy, Debug, PartialEq, Eq, Structural)]
pub struct Gamma {
    pub gamma: Number,
    pub rc: Number,
    pub gc: Number,
    pub bc: Number,
    pub i_idx: usize,
    pub x_idx: usize,
    pub y_idx: usize,
    pub o_idx: usize,
}

/// As `Gamma`, with a scale input and an ordered-dither offset per pixel.
#[derive(Clone, Copy, Debug, PartialEq, Eq, Structural)]
pub struct Dither {
    pub gamma: Number,
    pub rc: Number,
    pub gc: Number,
    pub bc: Number,
    pub scale_idx: usize,
    pub i_idx: usize,
    pub x_idx: usize,
    pub y_idx: usize,
    pub o_idx: usize,
}

/// Color of a packed RGB image at a scalar coordinate.
#[derive(Clone, Copy, Debug, PartialEq, Eq, Structural)]
pub struct ImageLookup {
    pub width_idx: usize,
    pub height_idx: usize,
    pub x_idx: usize,
    pub y_idx: usize,
    pub mode_idx: usize,
    pub data_idx: usize,
    pub o_idx: usize,
}

/// One configured block.
#[derive(Debug)]
pub enum Block {
    ColorInterp(ColorInterp),
    Dither(Dither),
    Gamma(Gamma),
    ImageLookup(ImageLookup),
    ScalarAdd(ScalarAdd),
    ScalarHsv2Rgb(ScalarHsv2Rgb),
    ScalarMacc(ScalarMacc),
    ScalarRamp(ScalarRamp),
    ScalarTriangle(ScalarTriangle),
}

pub struct ScalarMaccView {
    pub m_idxs: Seq<usize>,
    pub x_idxs: Seq<usize>,
    pub o_idx: usize,
}

pub struct ColorInterpView {
    pub color_idxs: Seq<usize>,
    pub point_idxs: Seq<usize>,
    pub val_idx: usize,
    pub o_idx: usize,
}

pub enum BlockView {
    ColorInterp(ColorInterpView),
    Dither(Dither),
    Gamma(Gamma),
    ImageLookup(ImageLookup),
    ScalarAdd(ScalarAdd),
    ScalarHsv2Rgb(ScalarHsv2Rgb),
    ScalarMacc(ScalarMaccView),
    ScalarRamp(ScalarRamp),
    ScalarTriangle(ScalarTriangle),
}

impl View for ScalarMacc {
    type V = ScalarMaccView;

    open spec fn view(&self) -> ScalarMaccView {
        ScalarMaccView { m_idxs: self.m_idxs@, x_idxs: self.x_idxs@, o_idx: self.o_idx }
    }
}

impl View for ColorInterp {
    type V = ColorInterpView;

    open spec fn view(&self) -> ColorInterpView {
        ColorInterpView {
            color_idxs: self.color_idxs@,
            point_idxs: self.point_idxs@,
            val_idx: self.val_idx,
            o_idx: self.o_idx,
        }
    }
}

impl View for Block {
    type V = BlockView;

    open spec fn view(&self) -> BlockView {
        match self {
            Block::ColorInterp(b) => BlockView::ColorInterp(b@),
            Block::Dither(b) => BlockView::Dither(*b),
            Block::Gamma(b) => BlockView::Gamma(*b),
            Block::ImageLookup(b) => BlockView::ImageLookup(*b),
            Block::ScalarAdd(b) => BlockView::ScalarAdd(*b),
            Block::ScalarHsv2Rgb(b) => BlockView::ScalarHsv2Rgb(*b),
            Block::ScalarMacc(b) => BlockView::ScalarMacc(b@),
            Block::ScalarRamp(b) => BlockView::ScalarRamp(*b),
            Block::ScalarTriangle(b) => BlockView::ScalarTriangle(*b),
        }
    }
}

/// The input indices at `keys` and the output index `o` of descriptor `d`.
pub open spec fn io_spec(d: Json, keys: Seq<&'static str>) -> Result<(Seq<usize>, usize), ConfigError> {
    match section_indices(d, "inputs", keys) {
        Err(e) => Err(e),
        Ok(i) => match output_spec(d) {
            Err(e) => Err(e),
            Ok(o) => Ok((i, o)),
        },
    }
}

/// Reads the inputs named by `keys` and the single output `o`.
fn read_io(d: &Json, keys: &Vec<&'static str>) -> (r: Result<(Vec<usize>, usize), ConfigError>)
    ensures
        match r {
            Ok((i, o)) => io_spec(*d, keys@) == Ok::<(Seq<usize>, usize), ConfigError>((i@, o))
                && i@.len() == keys@.len(),
            Err(e) => io_spec(*d, keys@) == Err::<(Seq<usize>, usize), ConfigError>(e),
        },
{
    let ins = match indices_in(d, "inputs", keys) {
        Ok(v) => v,
        Err(e) => return Err(e),
    };
    proof {
        lemma_parse_list_len(keys@, index_key_parser(object_field(*d, "inputs"@)->Ok_0));
    }
    let o = match read_output(d) {
        Ok(v) => v,
        Err(e) => return Err(e),
    };
    Ok((ins, o))
}

pub open spec fn scalar_add_spec(d: Json) -> Result<ScalarAdd, ConfigError> {
    match io_spec(d, seq!["a", "b"]) {
        Err(e) => Err(e),
        Ok((i, o)) => Ok(ScalarAdd { a_idx: i[0], b_idx: i[1], o_idx: o }),
    }
}

impl ScalarAdd {
    pub fn from_obj(d: &Json) -> (r: Result<ScalarAdd, ConfigError>)
        ensures
            r == scalar_add_spec(*d),
    {
        let keys: Vec<&'static str> = vec!["a", "b"];
        assert(keys@ == seq!["a", "b"]);
        let (i, o) = match read_io(d, &keys) {
            Ok(v) => v,
            Err(e) => return Err(e),
        };
        Ok(ScalarAdd { a_idx: i[0], b_idx: i[1], o_idx: o })
    }
}

pub open spec fn scalar_ramp_spec(d: Json) -> Result<ScalarRamp, ConfigError> {
    match io_spec(d, seq!["f", "min", "max", "i"]) {
        Err(e) => Err(e),
        Ok((i, o)) => Ok(
            ScalarRamp { f_idx: i[0], min_idx: i[1], max_idx: i[2], i_idx: i[3], o_idx: o },
        ),
    }
}

impl ScalarRamp {
    pub fn from_obj(d: &Json) -> (r: Result<ScalarRamp, ConfigError>)
        ensures
            r == scalar_ramp_spec(*d),
    {
        let keys: Vec<&'static str> = vec!["f", "min", "max", "i"];
        assert(keys@ == seq!["f", "min", "max", "i"]);
        let (i, o) = match read_io(d, &keys) {
            Ok(v) => v,
            Err(e) => return Err(e),
        };
        Ok(ScalarRamp { f_idx: i[0], min_idx: i[1], max_idx: i[2], i_idx: i[3], o_idx: o })
    }
}

pub open spec fn scalar_triangle_spec(d: Json) -> Result<ScalarTriangle, ConfigError> {
    match io_spec(d, seq!["f", "min", "max", "i"]) {
        Err(e) => Err(e),
        Ok((i, o)) => Ok(
            ScalarTriangle { f_idx: i[0], min_idx: i[1], max_idx: i[2], i_idx: i[3], o_idx: o },
        ),
    }
}

impl ScalarTriangle {
    pub fn from_obj(d: &Json) -> (r: Result<ScalarTriangle, ConfigError>)
        ensures
            r == scalar_triangle_spec(*d),
    {
        let keys: Vec<&'static str> = vec!["f", "min", "max", "i"];
        assert(keys@ == seq!["f", "min", "max", "i"]);
        let (i, o) = match read_io(d, &keys) {
            Ok(v) => v,
            Err(e) => return Err(e),
        };
        Ok(ScalarTriangle { f_idx: i[0], min_idx: i[1], max_idx: i[2], i_idx: i[3], o_idx: o })
    }
}

pub open spec fn scalar_hsv2rgb_spec(d: Json) -> Result<ScalarHsv2Rgb, ConfigError> {
    match io_spec(d, seq!["h", "s", "v"]) {
        Err(e) => Err(e),
        Ok((i, o)) => Ok(ScalarHsv2Rgb { h_idx: i[0], s_idx: i[1], v_idx: i[2], o_idx: o }),
    }
}

impl ScalarHsv2Rgb {
    pub fn from_obj(d: &Json) -> (r: Result<ScalarHsv2Rgb, ConfigError>)
        ensures
            r == scalar_hsv2rgb_spec(*d),
    {
        let keys: Vec<&'static str> = vec!["h", "s", "v"];
        assert(keys@ == seq!["h", "s", "v"]);
        let (i, o) = match read_io(d, &keys) {
            Ok(v) => v,
            Err(e) => return Err(e),
        };
        Ok(ScalarHsv2Rgb { h_idx: i[0], s_idx: i[1], v_idx: i[2], o_idx: o })
    }
}

pub open spec fn image_lookup_spec(d: Json) -> Result<ImageLookup, ConfigError> {
    match io_spec(d, seq!["width", "height", "x", "y", "mode", "data"]) {
        Err(e) => Err(e),
        Ok((i, o)) => Ok(
            ImageLookup {
                width_idx: i[0],
                height_idx: i[1],
                x_idx: i[2],
                y_idx: i[3],
                mode_idx: i[4],
                data_idx: i[5],
                o_idx: o,
            },
        ),
    }
}

impl ImageLookup {
    pub fn from_obj(d: &Json) -> (r: Result<ImageLookup, ConfigError>)
        ensures
            r == image_lookup_spec(*d),
    {
        let keys: Vec<&'static str> = vec!["width", "height", "x", "y", "mode", "data"];
        assert(keys@ == seq!["width", "height", "x", "y", "mode", "data"]);
        let (i, o) = match read_io(d, &keys) {
            Ok(v) => v,
            Err(e) => return Err(e),
        };
        Ok(
            ImageLookup {
                width_idx: i[0],
                height_idx: i[1],
                x_idx: i[2],
                y_idx: i[3],
                mode_idx: i[4],
                data_idx: i[5],
                o_idx: o,
            },
        )
    }
}

/// The four curve parameters shared by `Gamma` and `Dither`.
pub open spec fn curve_params_spec(d: Json) -> Result<Seq<Number>, ConfigError> {
    section_numbers(d, "params", seq!["gamma", "rc", "gc", "bc"])
}

fn read_curve_params(d: &Json) -> (r: Result<Vec<Number>, ConfigError>)
    ensures
        match r {
            Ok(p) => curve_params_spec(*d) == Ok::<Seq<Number>, ConfigError>(p@) && p@.len() == 4,
            Err(e) => curve_params_spec(*d) == Err::<Seq<Number>, ConfigError>(e),
        },
{
    let keys: Vec<&'static str> = vec!["gamma", "rc", "gc", "bc"];
    assert(keys@ == seq!["gamma", "rc", "gc", "bc"]);
    let p = match numbers_in(d, "params", &keys) {
        Ok(v) => v,
        Err(e) => return Err(e),
    };
    proof {
        lemma_parse_list_len(keys@, number_key_parser(object_field(*d, "params"@)->Ok_0));
    }
    Ok(p)
}

pub open spec fn gamma_spec(d: Json) -> Result<Gamma, ConfigError> {
    match curve_params_spec(d) {
        Err(e) => Err(e),
        Ok(p) => match io_spec(d, seq!["i", "x", "y"]) {
            Err(e) => Err(e),
            Ok((i, o)) => Ok(
                Gamma {
                    gamma: p[0],
                    rc: p[1],
                    gc: p[2],
                    bc: p[3],
                    i_idx: i[0],
                    x_idx: i[1],
                    y_idx: i[2],
                    o_idx: o,
                },
            ),
        },
    }
}

impl Gamma {
    pub fn from_obj(d: &Json) -> (r: Result<Gamma, ConfigError>)
        ensures
            r == gamma_spec(*d),
    {
        let p = match read_curve_params(d) {
            Ok(v) => v,
            Err(e) => return Err(e),
        };
        let keys: Vec<&'static str> = vec!["i", "x", "y"];
        assert(keys@ == seq!["i", "x", "y"]);
        let (i, o) = match read_io(d, &keys) {
            Ok(v) => v,
            Err(e) => return Err(e),
        };
        Ok(
            Gamma {
                gamma: p[0],
                rc: p[1],
                gc: p[2],
                bc: p[3],
                i_idx: i[0],
                x_idx: i[1],
                y_idx: i[2],
                o_idx: o,
            },
        )
    }
}

pub open spec fn dither_spec(d: Json) -> Result<Dither, ConfigError> {
    match curve_params_spec(d) {
        Err(e) => Err(e),
        Ok(p) => match io_spec(d, seq!["scale", "i", "x", "y"]) {
            Err(e) => Err(e),
            Ok((i, o)) => Ok(
                Dither {
                    gamma: p[0],
                    rc: p[1],
                    gc: p[2],
                    bc: p[3],
                    scale_idx: i[0],
                    i_idx: i[1],
                    x_idx: i[2],
                    y_idx: i[3],
                    o_idx: o,
                },
            ),
        },
    }
}

impl Dither {
    pub fn from_obj(d: &Json) -> (r: Result<Dither, ConfigError>)
        ensures
            r == dither_spec(*d),
    {
        let p = match read_curve_params(d) {
            Ok(v) => v,
            Err(e) => return Err(e),
        };
        let keys: Vec<&'static str> = vec!["scale", "i", "x", "y"];
        assert(keys@ == seq!["scale", "i", "x", "y"]);
        let (i, o) = match read_io(d, &keys) {
            Ok(v) => v,
            Err(e) => return Err(e),
        };
        Ok(
            Dither {
                gamma: p[0],
                rc: p[1],
                gc: p[2],
                bc: p[3],
                scale_idx: i[0],
                i_idx: i[1],
                x_idx: i[2],
                y_idx: i[3],
                o_idx: o,
            },
        )
    }
}

/// The single output index `o` of descriptor `d`.
pub open spec fn output_spec(d: Json) -> Result<usize, ConfigError> {
    match section_indices(d, "outputs", seq!["o"]) {
        Err(e) => Err(e),
        Ok(o) => Ok(o[0]),
    }
}

fn read_output(d: &Json) -> (r: Result<usize, ConfigError>)
    ensures
        r == output_spec(*d),
{
    let keys: Vec<&'static str> = vec!["o"];
    assert(keys@ == seq!["o"]);
    let o = match indices_in(d, "outputs", &keys) {
        Ok(v) => v,
        Err(e) => return Err(e),
    };
    proof {
        lemma_parse_list_len(keys@, index_key_parser(object_field(*d, "outputs"@)->Ok_0));
    }
    Ok(o[0])
}

/// Index lists `m` and `x` must pair up; their lengths are compared before
/// their items are read.
pub open spec fn scalar_macc_spec(d: Json) -> Result<ScalarMaccView, ConfigError> {
    match object_field(d, "inputs"@) {
        Err(e) => Err(e),
        Ok(ins) => match array_field(ins, "m"@) {
            Err(e) => Err(e),
            Ok(m) => match array_field(ins, "x"@) {
                Err(e) => Err(e),
                Ok(x) => if m.len() != x.len() {
                    Err(ConfigError::LengthMismatch)
                } else {
                    match parse_list(m, index_parser()) {
                        Err(e) => Err(e),
                        Ok(mi) => match parse_list(x, index_parser()) {
                            Err(e) => Err(e),
                            Ok(xi) => match output_spec(d) {
                                Err(e) => Err(e),
                                Ok(o) => Ok(ScalarMaccView { m_idxs: mi, x_idxs: xi, o_idx: o }),
                            },
                        },
                    }
                },
            },
        },
    }
}

impl ScalarMacc {
    pub fn from_obj(d: &Json) -> (r: Result<ScalarMacc, ConfigError>)
        ensures
            match r {
                Ok(b) => scalar_macc_spec(*d) == Ok::<ScalarMaccView, ConfigError>(b@),
                Err(e) => scalar_macc_spec(*d) == Err::<ScalarMaccView, ConfigError>(e),
            },
    {
        let ins = match d.object_at("inputs") {
            Ok(v) => v,
            Err(e) => return Err(e),
        };
        let m = match ins.array_at("m") {
            Ok(v) => v,
            Err(e) => return Err(e),
        };
        let x = match ins.array_at("x") {
            Ok(v) => v,
            Err(e) => return Err(e),
        };
        if m.len() != x.len() {
            return Err(ConfigError::LengthMismatch);
        }
        let m_idxs = match parse_indices(m) {
            Ok(v) => v,
            Err(e) => return Err(e),
        };
        let x_idxs = match parse_indices(x) {
            Ok(v) => v,
            Err(e) => return Err(e),
        };
        let o_idx = match read_output(d) {
            Ok(v) => v,
            Err(e) => return Err(e),
        };
        Ok(ScalarMacc { m_idxs, x_idxs, o_idx })
    }

    /// Number of products summed.
    pub fn len(&self) -> (r: usize)
        ensures
            r == self.m_idxs@.len(),
    {
        self.m_idxs.len()
    }
}

pub open spec fn color_interp_spec(d: Json) -> Result<ColorInterpView, ConfigError> {
    match object_field(d, "inputs"@) {
        Err(e) => Err(e),
        Ok(ins) => match array_field(ins, "color"@) {
            Err(e) => Err(e),
            Ok(c) => match parse_list(c, index_parser()) {
                Err(e) => Err(e),
                Ok(ci) => match array_field(ins, "point"@) {
                    Err(e) => Err(e),
                    Ok(p) => match parse_list(p, index_parser()) {
                        Err(e) => Err(e),
                        Ok(pi) => match index_field(ins, "val"@) {
                            Err(e) => Err(e),
                            Ok(v) => match output_spec(d) {
                                Err(e) => Err(e),
                                Ok(o) => Ok(
                                    ColorInterpView {
                                        color_idxs: ci,
                                        point_idxs: pi,
                                        val_idx: v,
                                        o_idx: o,
                                    },
                                ),
                            },
                        },
                    },
                },
            },
        },
    }
}

impl ColorInterp {
    pub fn from_obj(d: &Json) -> (r: Result<ColorInterp, ConfigError>)
        ensures
            match r {
                Ok(b) => color_interp_spec(*d) == Ok::<ColorInterpView, ConfigError>(b@),
                Err(e) => color_interp_spec(*d) == Err::<ColorInterpView, ConfigError>(e),
            },
    {
        let ins = match d.object_at("inputs") {
            Ok(v) => v,
            Err(e) => return Err(e),
        };
        let c = match ins.array_at("color") {
            Ok(v) => v,
            Err(e) => return Err(e),
        };
        let color_idxs = match parse_indices(c) {
            Ok(v) => v,
            Err(e) => return Err(e),
        };
        let p = match ins.array_at("point") {
            Ok(v) => v,
            Err(e) => return Err(e),
        };
        let point_idxs = match parse_indices(p) {
            Ok(v) => v,
            Err(e) => return Err(e),
        };
        let val_idx = match ins.index_at("val") {
            Ok(v) => v,
            Err(e) => return Err(e),
        };
        let o_idx = match read_output(d) {
            Ok(v) => v,
            Err(e) => return Err(e),
        };
        Ok(ColorInterp { color_idxs, point_idxs, val_idx, o_idx })
    }
}

/// The block that descriptor `d` names by its `type` key.
pub open spec fn block_spec(d: Json) -> Result<BlockView, ConfigError> {
    match d {
        Json::Object(_) => match member(d, "type"@) {
            None => Err(ConfigError::Missing),
            Some(Json::Str(name)) => {
            if name@ == "color_interp"@ {
                match color_interp_spec(d) {
                    Err(e) => Err(e),
                    Ok(b) => Ok(BlockView::ColorInterp(b)),
                }
            } else if name@ == "dither"@ {
                match dither_spec(d) {
                    Err(e) => Err(e),
                    Ok(b) => Ok(BlockView::Dither(b)),
                }
            } else if name@ == "gamma"@ {
                match gamma_spec(d) {
                    Err(e) => Err(e),
                    Ok(b) => Ok(BlockView::Gamma(b)),
                }
            } else if name@ == "image_lookup"@ {
                match image_lookup_spec(d) {
                    Err(e) => Err(e),
                    Ok(b) => Ok(BlockView::ImageLookup(b)),
                }
            } else if name@ == "scalar_add"@ {
                match scalar_add_spec(d) {
                    Err(e) => Err(e),
                    Ok(b) => Ok(BlockView::ScalarAdd(b)),
                }
            } else if name@ == "scalar_hsv2rgb"@ {
                match scalar_hsv2rgb_spec(d) {
                    Err(e) => Err(e),
                    Ok(b) => Ok(BlockView::ScalarHsv2Rgb(b)),
                }
            } else if name@ == "scalar_macc"@ {
                match scalar_macc_spec(d) {
                    Err(e) => Err(e),
                    Ok(b) => Ok(BlockView::ScalarMacc(b)),
                }
            } else if name@ == "scalar_ramp"@ {
                match scalar_ramp_spec(d) {
                    Err(e) => Err(e),
                    Ok(b) => Ok(BlockView::ScalarRamp(b)),
                }
            } else if name@ == "scalar_triangle"@ {
                match scalar_triangle_spec(d) {
                    Err(e) => Err(e),
                    Ok(b) => Ok(BlockView::ScalarTriangle(b)),
                }
            } else {
                Err(ConfigError::UnknownBlock)
            }
            },
            Some(_) => Err(ConfigError::WrongType),
        },
        _ => Err(ConfigError::WrongType),
    }
}

fn same_text(s: &String, lit: &str) -> (r: bool)
    ensures
        r == (s@ == lit@),
{
    let t = lit.to_string();
    *s == t
}

/// Builds the block that a descriptor names.
pub fn block_factory(d: &Json) -> (r: Result<Block, ConfigError>)
    ensures
        match r {
            Ok(b) => block_spec(*d) == Ok::<BlockView, ConfigError>(b@),
            Err(e) => block_spec(*d) == Err::<BlockView, ConfigError>(e),
        },
{
    match d {
        Json::Object(_) => {},
        _ => return Err(ConfigError::WrongType),
    }
    let name = match d.get("type") {
        None => return Err(ConfigError::Missing),
        Some(Json::Str(name)) => name,
        Some(_) => return Err(ConfigError::WrongType),
    };
    if same_text(name, "color_interp") {
        match ColorInterp::from_obj(d) {
            Ok(b) => Ok(Block::ColorInterp(b)),
            Err(e) => Err(e),
        }
    } else if same_text(name, "dither") {
        match Dither::from_obj(d) {
            Ok(b) => Ok(Block::Dither(b)),
            Err(e) => Err(e),
        }
    } else if same_text(name, "gamma") {
        match Gamma::from_obj(d) {
            Ok(b) => Ok(Block::Gamma(b)),
            Err(e) => Err(e),
        }
    } else if same_text(name, "image_lookup") {
        match ImageLookup::from_obj(d) {
            Ok(b) => Ok(Block::ImageLookup(b)),
            Err(e) => Err(e),
        }
    } else if same_text(name, "scalar_add") {
        match ScalarAdd::from_obj(d) {
            Ok(b) => Ok(Block::ScalarAdd(b)),
            Err(e) => Err(e),
        }
    } else if same_text(name, "scalar_hsv2rgb") {
        match ScalarHsv2Rgb::from_obj(d) {
            Ok(b) => Ok(Block::ScalarHsv2Rgb(b)),
            Err(e) => Err(e),
        }
    } else if same_text(name, "scalar_macc") {
        match ScalarMacc::from_obj(d) {
            Ok(b) => Ok(Block::ScalarMacc(b)),
            Err(e) => Err(e),
        }
    } else if same_text(name, "scalar_ramp") {
        match ScalarRamp::from_obj(d) {
            Ok(b) => Ok(Block::ScalarRamp(b)),
            Err(e) => Err(e),
        }
    } else if same_text(name, "scalar_triangle") {
        match ScalarTriangle::from_obj(d) {
            Ok(b) => Ok(Block::ScalarTriangle(b)),
            Err(e) => Err(e),
        }
    } else {
        Err(ConfigError::UnknownBlock)
    }
}

/// The 3-bit reversal of `n` in [0, 8): the ordered-dither level, in eighths,
/// for phase `n`.
pub open spec fn bit_reverse3(n: int) -> int {
    (n % 2) * 4 + ((n / 2) % 2) * 2 + (n / 4) % 2
}

/// The eight dither levels are all different, so each phase of a period of
/// eight gets its own level.
pub proof fn lemma_dither_levels_distinct(a: int, b: int)
    requires
        0 <= a < 8,
        0 <= b < 8,
        a != b,
    ensures
        0 <= bit_reverse3(a) < 8,
        bit_reverse3(a) != bit_reverse3(b),
{
}

impl Dither {
    /// Dither offset, in eighths of one output level, for a pixel whose
    /// rounded phase sum `x + 5y + 3t` is `phase_sum`. It depends on the phase
    /// alone: not on the scale, the curve parameters or earlier calls.
    pub fn offset_eighths(phase_sum: usize) -> (r: u8)
        ensures
            r as int == bit_reverse3(phase_sum as int % 8),
    {
        let table: [u8; 8] = [0, 4, 2, 6, 1, 5, 3, 7];
        let phase = phase_sum % 8;
        assert(table@ == seq![0u8, 4, 2, 6, 1, 5, 3, 7]);
        table[phase]
    }
}

/// How an image is sampled outside its bounds.
#[derive(Clone, Copy, Debug, PartialEq, Eq, Structural)]
pub enum LookupMode {
    /// Black outside the image.
    Single,
    /// The image repeats in both directions.
    Tile,
}

impl LookupMode {
    /// Mode code 1 tiles; every other code samples a single copy.
    pub fn from_code(code: u8) -> (m: LookupMode)
        ensures
            m == (if code == 1 { LookupMode::Tile } else { LookupMode::Single }),
    {
        if code == 1 {
            LookupMode::Tile
        } else {
            LookupMode::Single
        }
    }
}

/// The pixel at column `i`, row `j` of a row-major image `width` pixels wide
/// with three bytes per pixel; black where the coordinate is negative or the
/// data ends before the pixel does.
pub open spec fn image_pixel(data: Seq<u8>, width: int, i: int, j: int) -> Color {
    let idx = 3 * (i + j * width);
    if i >= 0 && j >= 0 && idx + 2 < data.len() {
        Color { r: data[idx], g: data[idx + 1], b: data[idx + 2] }
    } else {
        Color { r: 0, g: 0, b: 0 }
    }
}

impl ImageLookup {
    /// Samples packed image `data` at integer coordinate (i, j).
    pub fn pixel(data: &Vec<u8>, width: usize, i: isize, j: isize) -> (c: Color)
        ensures
            c == image_pixel(data@, width as int, i as int, j as int),
    {
        if i < 0 || j < 0 {
            return Color { r: 0, g: 0, b: 0 };
        }
        let iu = i as u128;
        let ju = j as u128;
        let wu = width as u128;
        assert(ju * wu <= 0xffff_ffff_ffff_ffffu128 * 0xffff_ffff_ffff_ffffu128) by (nonlinear_arith)
            requires
                ju <= 0xffff_ffff_ffff_ffffu128,
                wu <= 0xffff_ffff_ffff_ffffu128;
        let cell: u128 = iu + ju * wu;
        // Each cell takes three bytes, so a cell index past the length is past the data.
        let n = data.len();
        if cell >= n as u128 {
            return Color { r: 0, g: 0, b: 0 };
        }
        let idx: u128 = 3 * cell;
        if idx + 2 < n as u128 {
            let k = idx as usize;
            Color { r: data[k], g: data[k + 1], b: data[k + 2] }
        } else {
            Color { r: 0, g: 0, b: 0 }
        }
    }
}

impl ColorInterp {
    /// The smallest `k` whose point lies at or above the value: the value
    /// then falls between points `k - 1` and `k`. `None` when the value lies
    /// above every point, where the table has no color for it.
    pub fn segment(at_or_below: &Vec<bool>) -> (r: Option<usize>)
        ensures
            match r {
                Some(k) => k < at_or_below@.len() && at_or_below@[k as int]
                    && forall|j: int| 0 <= j < k ==> !at_or_below@[j],
                None => forall|j: int| 0 <= j < at_or_below@.len() ==> !at_or_below@[j],
            },
    {
        let mut k: usize = 0;
        while k < at_or_below.len()
            invariant
                k <= at_or_below@.len(),
                forall|j: int| 0 <= j < k ==> !at_or_below@[j],
            decreases at_or_below@.len() - k,
        {
            if at_or_below[k] {
                return Some(k);
            }
            k = k + 1;
        }
        None
    }
}

} // verus!
