//! The `vars` stanza of a configuration document: literal initial values for
//! the five containers of the variable store.

use vstd::prelude::*;
use crate::color::Color;
use crate::document::{
    array_field, lemma_parse_list_err, lemma_parse_list_step, member, number_field,
    parse_list, parse_numbers, ConfigError, Json, number_parser,
};
use crate::number::Number;
use crate::store::{data_view, RenderState, Vars, VarsView};

verus! {

/// A position literal.
#[derive(Clone, Copy, Debug, PartialEq, Eq, Structural)]
pub struct Position {
    pub x: Number,
    pub y: Number,
}

/// A real-color literal: channels nominally in [0, 1].
#[derive(Clone, Copy, Debug, PartialEq, Eq, Structural)]
pub struct RealColor {
    pub r: Number,
    pub g: Number,
    pub b: Number,
}

/// What base64's standard (padded) engine decodes `s` to, if it accepts it.
pub uninterp spec fn base64_decoded(s: Seq<char>) -> Option<Seq<u8>>;

/// Relies on `base64::Engine::decode` with `general_purpose::STANDARD`: the
/// bytes, or a refusal, depend on the text alone.
#[verifier::external_body]
fn decode_base64(s: &str) -> (r: Option<Vec<u8>>)
    ensures
        match r {
            Some(v) => base64_decoded(s@) == Some(v@),
            None => base64_decoded(s@) is None,
        },
{
    base64::Engine::decode(&base64::engine::general_purpose::STANDARD, s).ok()
}

pub open spec fn position_value(j: Json) -> Result<Position, ConfigError> {
    match j {
        Json::Object(_) => match number_field(j, "x"@) {
            Err(e) => Err(e),
            Ok(x) => match number_field(j, "y"@) {
                Err(e) => Err(e),
                Ok(y) => Ok(Position { x, y }),
            },
        },
        _ => Err(ConfigError::WrongType),
    }
}

/// A channel literal: a whole number from 0 to 255.
pub open spec fn channel_field(j: Json, key: Seq<char>) -> Result<u8, ConfigError> {
    match member(j, key) {
        None => Err(ConfigError::Missing),
        Some(Json::Number(n)) => if n.natural() is Some && n.natural().unwrap() <= 255 {
            Ok(n.natural().unwrap() as u8)
        } else {
            Err(ConfigError::WrongType)
        },
        Some(_) => Err(ConfigError::WrongType),
    }
}

pub open spec fn color_value(j: Json) -> Result<Color, ConfigError> {
    match j {
        Json::Object(_) => match channel_field(j, "r"@) {
            Err(e) => Err(e),
            Ok(r) => match channel_field(j, "g"@) {
                Err(e) => Err(e),
                Ok(g) => match channel_field(j, "b"@) {
                    Err(e) => Err(e),
                    Ok(b) => Ok(Color { r, g, b }),
                },
            },
        },
        _ => Err(ConfigError::WrongType),
    }
}

pub open spec fn rcolor_value(j: Json) -> Result<RealColor, ConfigError> {
    match j {
        Json::Object(_) => match number_field(j, "r"@) {
            Err(e) => Err(e),
            Ok(r) => match number_field(j, "g"@) {
                Err(e) => Err(e),
                Ok(g) => match number_field(j, "b"@) {
                    Err(e) => Err(e),
                    Ok(b) => Ok(RealColor { r, g, b }),
                },
            },
        },
        _ => Err(ConfigError::WrongType),
    }
}

/// A data literal: a base64 string.
pub open spec fn data_value(j: Json) -> Result<Seq<u8>, ConfigError> {
    match j {
        Json::Str(s) => match base64_decoded(s@) {
            Some(b) => Ok(b),
            None => Err(ConfigError::BadData),
        },
        _ => Err(ConfigError::WrongType),
    }
}

pub open spec fn position_parser() -> spec_fn(Json) -> Result<Position, ConfigError> {
    |j: Json| position_value(j)
}

pub open spec fn color_parser() -> spec_fn(Json) -> Result<Color, ConfigError> {
    |j: Json| color_value(j)
}

pub open spec fn rcolor_parser() -> spec_fn(Json) -> Result<RealColor, ConfigError> {
    |j: Json| rcolor_value(j)
}

pub open spec fn data_parser() -> spec_fn(Json) -> Result<Seq<u8>, ConfigError> {
    |j: Json| data_value(j)
}

impl Position {
    pub fn from_obj(j: &Json) -> (r: Result<Position, ConfigError>)
        ensures
            r == position_value(*j),
    {
        match j {
            Json::Object(_) => {},
            _ => return Err(ConfigError::WrongType),
        }
        let x = match j.number_at("x") {
            Ok(v) => v,
            Err(e) => return Err(e),
        };
        let y = match j.number_at("y") {
            Ok(v) => v,
            Err(e) => return Err(e),
        };
        Ok(Position { x, y })
    }
}

fn channel_at(j: &Json, key: &str) -> (r: Result<u8, ConfigError>)
    ensures
        r == channel_field(*j, key@),
{
    match j.get(key) {
        None => Err(ConfigError::Missing),
        Some(Json::Number(n)) => match n.as_u8() {
            Some(c) => Ok(c),
            None => Err(ConfigError::WrongType),
        },
        Some(_) => Err(ConfigError::WrongType),
    }
}

impl Color {
    pub fn from_obj(j: &Json) -> (r: Result<Color, ConfigError>)
        ensures
            r == color_value(*j),
    {
        match j {
            Json::Object(_) => {},
            _ => return Err(ConfigError::WrongType),
        }
        let r = match channel_at(j, "r") {
            Ok(v) => v,
            Err(e) => return Err(e),
        };
        let g = match channel_at(j, "g") {
            Ok(v) => v,
            Err(e) => return Err(e),
        };
        let b = match channel_at(j, "b") {
            Ok(v) => v,
            Err(e) => return Err(e),
        };
        Ok(Color { r, g, b })
    }
}

impl RealColor {
    pub fn from_obj(j: &Json) -> (r: Result<RealColor, ConfigError>)
        ensures
            r == rcolor_value(*j),
    {
        match j {
            Json::Object(_) => {},
            _ => return Err(ConfigError::WrongType),
        }
        let r = match j.number_at("r") {
            Ok(v) => v,
            Err(e) => return Err(e),
        };
        let g = match j.number_at("g") {
            Ok(v) => v,
            Err(e) => return Err(e),
        };
        let b = match j.number_at("b") {
            Ok(v) => v,
            Err(e) => return Err(e),
        };
        Ok(RealColor { r, g, b })
    }
}

/// Decodes one data literal.
pub fn data_from_obj(j: &Json) -> (r: Result<Vec<u8>, ConfigError>)
    ensures
        match r {
            Ok(v) => data_value(*j) == Ok::<Seq<u8>, ConfigError>(v@),
            Err(e) => data_value(*j) == Err::<Seq<u8>, ConfigError>(e),
        },
{
    match j {
        Json::Str(s) => match decode_base64(s.as_str()) {
            Some(b) => Ok(b),
            None => Err(ConfigError::BadData),
        },
        _ => Err(ConfigError::WrongType),
    }
}

fn parse_positions(items: &Vec<Json>) -> (r: Result<Vec<Position>, ConfigError>)
    ensures
        match r {
            Ok(v) => parse_list(items@, position_parser()) == Ok::<Seq<Position>, ConfigError>(v@),
            Err(e) => parse_list(items@, position_parser()) == Err::<Seq<Position>, ConfigError>(e),
        },
{
    let ghost f = position_parser();
    let mut out: Vec<Position> = Vec::new();
    let mut i: usize = 0;
    assert(items@.take(0) =~= Seq::<Json>::empty());
    
    while i < items.len()
        invariant
            0 <= i <= items@.len(),
            f == position_parser(),
            parse_list(items@.take(i as int), f) == Ok::<Seq<Position>, ConfigError>(out@),
        decreases items@.len() - i,
    {
        proof {
            lemma_parse_list_step(items@, i as int, f);
        }
        match Position::from_obj(&items[i]) {
            Ok(v) => {
                
                out.push(v);
            },
            Err(e) => {
                proof {
                    lemma_parse_list_err(items@, i + 1, f);
                }
                return Err(e);
            },
        }
        i = i + 1;
    }
    assert(items@.take(items@.len() as int) =~= items@);
    Ok(out)
}

fn parse_colors(items: &Vec<Json>) -> (r: Result<Vec<Color>, ConfigError>)
    ensures
        match r {
            Ok(v) => parse_list(items@, color_parser()) == Ok::<Seq<Color>, ConfigError>(v@),
            Err(e) => parse_list(items@, color_parser()) == Err::<Seq<Color>, ConfigError>(e),
        },
{
    let ghost f = color_parser();
    let mut out: Vec<Color> = Vec::new();
    let mut i: usize = 0;
    assert(items@.take(0) =~= Seq::<Json>::empty());
    
    while i < items.len()
        invariant
            0 <= i <= items@.len(),
            f == color_parser(),
            parse_list(items@.take(i as int), f) == Ok::<Seq<Color>, ConfigError>(out@),
        decreases items@.len() - i,
    {
        proof {
            lemma_parse_list_step(items@, i as int, f);
        }
        match Color::from_obj(&items[i]) {
            Ok(v) => {
                
                out.push(v);
            },
            Err(e) => {
                proof {
                    lemma_parse_list_err(items@, i + 1, f);
                }
                return Err(e);
            },
        }
        i = i + 1;
    }
    assert(items@.take(items@.len() as int) =~= items@);
    Ok(out)
}

fn parse_rcolors(items: &Vec<Json>) -> (r: Result<Vec<RealColor>, ConfigError>)
    ensures
        match r {
            Ok(v) => parse_list(items@, rcolor_parser()) == Ok::<Seq<RealColor>, ConfigError>(v@),
            Err(e) => parse_list(items@, rcolor_parser()) == Err::<Seq<RealColor>, ConfigError>(e),
        },
{
    let ghost f = rcolor_parser();
    let mut out: Vec<RealColor> = Vec::new();
    let mut i: usize = 0;
    assert(items@.take(0) =~= Seq::<Json>::empty());
    
    while i < items.len()
        invariant
            0 <= i <= items@.len(),
            f == rcolor_parser(),
            parse_list(items@.take(i as int), f) == Ok::<Seq<RealColor>, ConfigError>(out@),
        decreases items@.len() - i,
    {
        proof {
            lemma_parse_list_step(items@, i as int, f);
        }
        match RealColor::from_obj(&items[i]) {
            Ok(v) => {
                
                out.push(v);
            },
            Err(e) => {
                proof {
                    lemma_parse_list_err(items@, i + 1, f);
                }
                return Err(e);
            },
        }
        i = i + 1;
    }
    assert(items@.take(items@.len() as int) =~= items@);
    Ok(out)
}

fn parse_data(items: &Vec<Json>) -> (r: Result<Vec<Vec<u8>>, ConfigError>)
    ensures
        match r {
            Ok(v) => parse_list(items@, data_parser()) == Ok::<Seq<Seq<u8>>, ConfigError>(data_view(v@)),
            Err(e) => parse_list(items@, data_parser()) == Err::<Seq<Seq<u8>>, ConfigError>(e),
        },
{
    let ghost f = data_parser();
    let mut out: Vec<Vec<u8>> = Vec::new();
    let mut i: usize = 0;
    assert(items@.take(0) =~= Seq::<Json>::empty());
    assert(data_view(out@) =~= Seq::<Seq<u8>>::empty());
    while i < items.len()
        invariant
            0 <= i <= items@.len(),
            f == data_parser(),
            parse_list(items@.take(i as int), f) == Ok::<Seq<Seq<u8>>, ConfigError>(data_view(out@)),
        decreases items@.len() - i,
    {
        proof {
            lemma_parse_list_step(items@, i as int, f);
        }
        match data_from_obj(&items[i]) {
            Ok(v) => {
                proof { assert(data_view(out@.push(v)) =~= data_view(out@).push(v@)); }
                out.push(v);
            },
            Err(e) => {
                proof {
                    lemma_parse_list_err(items@, i + 1, f);
                }
                return Err(e);
            },
        }
        i = i + 1;
    }
    assert(items@.take(items@.len() as int) =~= items@);
    Ok(out)
}

/// The `vars` stanza, read container by container.
pub open spec fn vars_spec(j: Json) -> Result<VarsView<Number, Position, RealColor>, ConfigError> {
    match j {
        Json::Object(_) => match array_field(j, "float"@) {
            Err(e) => Err(e),
            Ok(f) => match parse_list(f, number_parser()) {
                Err(e) => Err(e),
                Ok(scalars) => match array_field(j, "position"@) {
                    Err(e) => Err(e),
                    Ok(p) => match parse_list(p, position_parser()) {
                        Err(e) => Err(e),
                        Ok(positions) => match array_field(j, "color"@) {
                            Err(e) => Err(e),
                            Ok(c) => match parse_list(c, color_parser()) {
                                Err(e) => Err(e),
                                Ok(colors) => match array_field(j, "rcolor"@) {
                                    Err(e) => Err(e),
                                    Ok(rc) => match parse_list(rc, rcolor_parser()) {
                                        Err(e) => Err(e),
                                        Ok(rcolors) => match array_field(j, "data"@) {
                                            Err(e) => Err(e),
                                            Ok(d) => match parse_list(d, data_parser()) {
                                                Err(e) => Err(e),
                                                Ok(data) => Ok(
                                                    VarsView {
                                                        scalars,
                                                        positions,
                                                        colors,
                                                        rcolors,
                                                        data,
                                                    },
                                                ),
                                            },
                                        },
                                    },
                                },
                            },
                        },
                    },
                },
            },
        },
        _ => Err(ConfigError::WrongType),
    }
}

/// Reads the `vars` stanza into initial store contents.
pub fn parse_vars(j: &Json) -> (r: Result<Vars<Number, Position, RealColor>, ConfigError>)
    ensures
        match r {
            Ok(v) => vars_spec(*j) == Ok::<VarsView<Number, Position, RealColor>, ConfigError>(v@),
            Err(e) => vars_spec(*j) == Err::<VarsView<Number, Position, RealColor>, ConfigError>(e),
        },
{
    match j {
        Json::Object(_) => {},
        _ => return Err(ConfigError::WrongType),
    }
    let f = match j.array_at("float") {
        Ok(v) => v,
        Err(e) => return Err(e),
    };
    let scalars = match parse_numbers(f) {
        Ok(v) => v,
        Err(e) => return Err(e),
    };
    let p = match j.array_at("position") {
        Ok(v) => v,
        Err(e) => return Err(e),
    };
    let positions = match parse_positions(p) {
        Ok(v) => v,
        Err(e) => return Err(e),
    };
    let c = match j.array_at("color") {
        Ok(v) => v,
        Err(e) => return Err(e),
    };
    let colors = match parse_colors(c) {
        Ok(v) => v,
        Err(e) => return Err(e),
    };
    let rc = match j.array_at("rcolor") {
        Ok(v) => v,
        Err(e) => return Err(e),
    };
    let rcolors = match parse_rcolors(rc) {
        Ok(v) => v,
        Err(e) => return Err(e),
    };
    let d = match j.array_at("data") {
        Ok(v) => v,
        Err(e) => return Err(e),
    };
    let data = match parse_data(d) {
        Ok(v) => v,
        Err(e) => return Err(e),
    };
    Ok(Vars { scalars, positions, colors, rcolors, data })
}

impl RenderState<Number, Position, RealColor> {
    /// Replaces every container with the literals of a `vars` stanza. A
    /// malformed stanza leaves the store exactly as it was.
    pub fn from_obj(&mut self, j: &Json) -> (r: Result<(), ConfigError>)
        ensures
            match r {
                Ok(_) => vars_spec(*j) == Ok::<VarsView<Number, Position, RealColor>, ConfigError>(final(self)@),
                Err(e) => vars_spec(*j) == Err::<VarsView<Number, Position, RealColor>, ConfigError>(e)
                    && final(self)@ == old(self)@,
            },
    {
        match parse_vars(j) {
            Ok(v) => {
                self.reset_from(v);
                Ok(())
            },
            Err(e) => Err(e),
        }
    }
}

} // verus!
