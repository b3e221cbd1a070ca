//! Compiles a configuration document into initial store contents and an
//! ordered block list. Either the whole document is accepted or nothing is
//! built.

use vstd::prelude::*;
use crate::blocks::{block_factory, block_spec, Block, BlockView};
use crate::document::{
    array_field, lemma_parse_list_err, lemma_parse_list_step, member, parse_list, ConfigError,
    Json,
};
use crate::number::Number;
use crate::store::{Vars, VarsView};
use crate::vars::{parse_vars, vars_spec, Position, RealColor};

verus! {

/// A complete configuration: store contents and the blocks to run, in order.
pub struct Config<S, P, R, B> {
    pub vars: Vars<S, P, R>,
    pub blocks: Vec<B>,
}

pub open spec fn block_parser() -> spec_fn(Json) -> Result<BlockView, ConfigError> {
    |j: Json| block_spec(j)
}

pub open spec fn block_views(s: Seq<Block>) -> Seq<BlockView> {
    s.map_values(|b: Block| b@)
}

/// A document is an object with a `vars` stanza and a `primitives` list of
/// block descriptors.
pub open spec fn config_spec(doc: Json) -> Result<
    (VarsView<Number, Position, RealColor>, Seq<BlockView>),
    ConfigError,
> {
    match doc {
        Json::Object(_) => match member(doc, "vars"@) {
            None => Err(ConfigError::Missing),
            Some(v) => match vars_spec(v) {
                Err(e) => Err(e),
                Ok(vars) => match array_field(doc, "primitives"@) {
                    Err(e) => Err(e),
                    Ok(items) => match parse_list(items, block_parser()) {
                        Err(e) => Err(e),
                        Ok(blocks) => Ok((vars, blocks)),
                    },
                },
            },
        },
        _ => Err(ConfigError::WrongType),
    }
}

/// Every descriptor as a block, in document order.
pub fn build_blocks(items: &Vec<Json>) -> (r: Result<Vec<Block>, ConfigError>)
    ensures
        match r {
            Ok(v) => parse_list(items@, block_parser()) == Ok::<Seq<BlockView>, ConfigError>(
                block_views(v@),
            ),
            Err(e) => parse_list(items@, block_parser()) == Err::<Seq<BlockView>, ConfigError>(e),
        },
{
    let ghost f = block_parser();
    let mut out: Vec<Block> = Vec::new();
    let mut i: usize = 0;
    assert(items@.take(0) =~= Seq::<Json>::empty());
    assert(block_views(out@) =~= Seq::<BlockView>::empty());
    while i < items.len()
        invariant
            0 <= i <= items@.len(),
            f == block_parser(),
            parse_list(items@.take(i as int), f) == Ok::<Seq<BlockView>, ConfigError>(
                block_views(out@),
            ),
        decreases items@.len() - i,
    {
        proof {
            lemma_parse_list_step(items@, i as int, f);
        }
        match block_factory(&items[i]) {
            Ok(b) => {
                proof {
                    assert(block_views(out@.push(b)) =~= block_views(out@).push(b@));
                }
                out.push(b);
            },
            Err(e) => {
                proof {
                    lemma_parse_list_err(items@, i + 1, f);
                }
                return Err(e);
            },
        }
        i = i + 1;
    }
    assert(items@.take(items@.len() as int) =~= items@);
    Ok(out)
}

/// Builds a whole configuration from a document.
pub fn build_config(doc: &Json) -> (r: Result<Config<Number, Position, RealColor, Block>, ConfigError>)
    ensures
        match r {
            Ok(c) => config_spec(*doc) == Ok::<
                (VarsView<Number, Position, RealColor>, Seq<BlockView>),
                ConfigError,
            >((c.vars@, block_views(c.blocks@))),
            Err(e) => config_spec(*doc) == Err::<
                (VarsView<Number, Position, RealColor>, Seq<BlockView>),
                ConfigError,
            >(e),
        },
{
    match doc {
        Json::Object(_) => {},
        _ => return Err(ConfigError::WrongType),
    }
    let v = match doc.get("vars") {
        Some(v) => v,
        None => return Err(ConfigError::Missing),
    };
    let vars = match parse_vars(v) {
        Ok(x) => x,
        Err(e) => return Err(e),
    };
    let items = match doc.array_at("primitives") {
        Ok(x) => x,
        Err(e) => return Err(e),
    };
    let blocks = match build_blocks(items) {
        Ok(x) => x,
        Err(e) => return Err(e),
    };
    Ok(Config { vars, blocks })
}

} // verus!
