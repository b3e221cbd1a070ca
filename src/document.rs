//! The tree form of a configuration document, and the field access that the
//! builders share.

use vstd::prelude::*;
use crate::number::Number;

verus! {

broadcast use vstd::string::to_string_from_display_ensures_for_str;

/// A parsed JSON value. Object members keep their document order.
#[derive(Debug)]
pub enum Json {
    Null,
    Bool(bool),
    Number(Number),
    Str(String),
    Array(Vec<Json>),
    Object(Vec<(String, Json)>),
}

/// Why a configuration was refused.
#[derive(Clone, Copy, Debug, PartialEq, Eq, Structural)]
pub enum ConfigError {
    /// A required key is absent.
    Missing,
    /// A value has the wrong shape or does not fit its slot kind.
    WrongType,
    /// A block descriptor names no known block.
    UnknownBlock,
    /// Two input lists that must pair up differ in length.
    LengthMismatch,
    /// A data string is not valid base64.
    BadData,
}

/// The value of the first member named `key`.
pub open spec fn lookup(members: Seq<(String, Json)>, key: Seq<char>) -> Option<Json>
    decreases members.len(),
{
    if members.len() == 0 {
        None
    } else if members[0].0@ == key {
        Some(members[0].1)
    } else {
        lookup(members.drop_first(), key)
    }
}

/// `key` of an object; absent for anything that is not an object.
pub open spec fn member(j: Json, key: Seq<char>) -> Option<Json> {
    match j {
        Json::Object(m) => lookup(m@, key),
        _ => None,
    }
}

/// The index written at `key`.
pub open spec fn index_field(j: Json, key: Seq<char>) -> Result<usize, ConfigError> {
    match member(j, key) {
        None => Err(ConfigError::Missing),
        Some(v) => index_value(v),
    }
}

/// An index literal: a whole non-negative number that fits `usize`.
pub open spec fn index_value(v: Json) -> Result<usize, ConfigError> {
    match v {
        Json::Number(n) => if n.natural() is Some && n.natural().unwrap() <= usize::MAX {
            Ok(n.natural().unwrap() as usize)
        } else {
            Err(ConfigError::WrongType)
        },
        _ => Err(ConfigError::WrongType),
    }
}

/// The number written at `key`.
pub open spec fn number_field(j: Json, key: Seq<char>) -> Result<Number, ConfigError> {
    match member(j, key) {
        None => Err(ConfigError::Missing),
        Some(v) => number_value(v),
    }
}

pub open spec fn number_value(v: Json) -> Result<Number, ConfigError> {
    match v {
        Json::Number(n) => Ok(n),
        _ => Err(ConfigError::WrongType),
    }
}

/// The object written at `key`.
pub open spec fn object_field(j: Json, key: Seq<char>) -> Result<Json, ConfigError> {
    match member(j, key) {
        None => Err(ConfigError::Missing),
        Some(v) => match v {
            Json::Object(_) => Ok(v),
            _ => Err(ConfigError::WrongType),
        },
    }
}

/// The items of the array written at `key`.
pub open spec fn array_field(j: Json, key: Seq<char>) -> Result<Seq<Json>, ConfigError> {
    match member(j, key) {
        None => Err(ConfigError::Missing),
        Some(v) => match v {
            Json::Array(items) => Ok(items@),
            _ => Err(ConfigError::WrongType),
        },
    }
}

/// Every item read by `f`, or the error of the first item that fails.
pub open spec fn parse_list<A, T>(items: Seq<A>, f: spec_fn(A) -> Result<T, ConfigError>) -> Result<
    Seq<T>,
    ConfigError,
>
    decreases items.len(),
{
    if items.len() == 0 {
        Ok(Seq::empty())
    } else {
        match parse_list(items.drop_last(), f) {
            Err(e) => Err(e),
            Ok(s) => match f(items.last()) {
                Err(e) => Err(e),
                Ok(t) => Ok(s.push(t)),
            },
        }
    }
}

/// One step of `parse_list` over a growing prefix.
pub proof fn lemma_parse_list_step<A, T>(
    items: Seq<A>,
    i: int,
    f: spec_fn(A) -> Result<T, ConfigError>,
)
    requires
        0 <= i < items.len(),
    ensures
        parse_list(items.take(i + 1), f) == (match parse_list(items.take(i), f) {
            Err(e) => Err(e),
            Ok(s) => match f(items[i]) {
                Err(e) => Err(e),
                Ok(t) => Ok(s.push(t)),
            },
        }),
{
    assert(items.take(i + 1).drop_last() =~= items.take(i));
}

/// A failed prefix fails the whole list with the same error.
pub proof fn lemma_parse_list_err<A, T>(
    items: Seq<A>,
    i: int,
    f: spec_fn(A) -> Result<T, ConfigError>,
)
    requires
        0 <= i <= items.len(),
        parse_list(items.take(i), f) is Err,
    ensures
        parse_list(items, f) == parse_list(items.take(i), f),
    decreases items.len() - i,
{
    if i < items.len() {
        lemma_parse_list_step(items, i, f);
        lemma_parse_list_err(items, i + 1, f);
    } else {
        assert(items.take(i) =~= items);
    }
}

/// A list that reads whole has one result per item.
pub proof fn lemma_parse_list_len<A, T>(items: Seq<A>, f: spec_fn(A) -> Result<T, ConfigError>)
    requires
        parse_list(items, f) is Ok,
    ensures
        parse_list(items, f)->Ok_0.len() == items.len(),
    decreases items.len(),
{
    if items.len() > 0 {
        lemma_parse_list_len(items.drop_last(), f);
    }
}

impl Json {
    /// The first member named `key`, if this is an object that has one.
    pub fn get(&self, key: &str) -> (r: Option<&Json>)
        ensures
            match r {
                Some(v) => member(*self, key@) == Some(*v),
                None => member(*self, key@) is None,
            },
    {
        match self {
            Json::Object(members) => {
                let k = key.to_string();
                let mut i: usize = 0;
                assert(members@.skip(0) =~= members@);
                while i < members.len()
                    invariant
                        0 <= i <= members@.len(),
                        k@ == key@,
                        member(*self, key@) == lookup(members@, key@),
                        lookup(members@.skip(i as int), key@) == lookup(members@, key@),
                    decreases members@.len() - i,
                {
                    assert(members@.skip(i as int).drop_first() =~= members@.skip(i + 1));
                    if members[i].0 == k {
                        assert(members@.skip(i as int)[0] == members@[i as int]);
                        return Some(&members[i].1);
                    }
                    i = i + 1;
                }
                None
            },
            _ => None,
        }
    }

    /// The index written at `key`.
    pub fn index_at(&self, key: &str) -> (r: Result<usize, ConfigError>)
        ensures
            r == index_field(*self, key@),
    {
        match self.get(key) {
            None => Err(ConfigError::Missing),
            Some(v) => v.as_index(),
        }
    }

    /// This value as an index literal.
    pub fn as_index(&self) -> (r: Result<usize, ConfigError>)
        ensures
            r == index_value(*self),
    {
        match self {
            Json::Number(n) => match n.as_usize() {
                Some(i) => Ok(i),
                None => Err(ConfigError::WrongType),
            },
            _ => Err(ConfigError::WrongType),
        }
    }

    /// The number written at `key`.
    pub fn number_at(&self, key: &str) -> (r: Result<Number, ConfigError>)
        ensures
            r == number_field(*self, key@),
    {
        match self.get(key) {
            None => Err(ConfigError::Missing),
            Some(v) => v.as_number(),
        }
    }

    pub fn as_number(&self) -> (r: Result<Number, ConfigError>)
        ensures
            r == number_value(*self),
    {
        match self {
            Json::Number(n) => Ok(*n),
            _ => Err(ConfigError::WrongType),
        }
    }

    /// The object written at `key`.
    pub fn object_at(&self, key: &str) -> (r: Result<&Json, ConfigError>)
        ensures
            match r {
                Ok(v) => object_field(*self, key@) == Ok::<Json, ConfigError>(*v),
                Err(e) => object_field(*self, key@) == Err::<Json, ConfigError>(e),
            },
    {
        match self.get(key) {
            None => Err(ConfigError::Missing),
            Some(v) => match v {
                Json::Object(_) => Ok(v),
                _ => Err(ConfigError::WrongType),
            },
        }
    }

    /// The items of the array written at `key`.
    pub fn array_at(&self, key: &str) -> (r: Result<&Vec<Json>, ConfigError>)
        ensures
            match r {
                Ok(v) => array_field(*self, key@) == Ok::<Seq<Json>, ConfigError>(v@),
                Err(e) => array_field(*self, key@) == Err::<Seq<Json>, ConfigError>(e),
            },
    {
        match self.get(key) {
            None => Err(ConfigError::Missing),
            Some(v) => match v {
                Json::Array(items) => Ok(items),
                _ => Err(ConfigError::WrongType),
            },
        }
    }
}

pub open spec fn index_parser() -> spec_fn(Json) -> Result<usize, ConfigError> {
    |j: Json| index_value(j)
}

pub open spec fn number_parser() -> spec_fn(Json) -> Result<Number, ConfigError> {
    |j: Json| number_value(j)
}

/// Every item as an index literal.
pub fn parse_indices(items: &Vec<Json>) -> (r: Result<Vec<usize>, ConfigError>)
    ensures
        match r {
            Ok(v) => parse_list(items@, index_parser()) == Ok::<Seq<usize>, ConfigError>(v@),
            Err(e) => parse_list(items@, index_parser()) == Err::<Seq<usize>, ConfigError>(e),
        },
{
    let ghost f = index_parser();
    let mut out: Vec<usize> = Vec::new();
    let mut i: usize = 0;
    assert(items@.take(0) =~= Seq::<Json>::empty());
    while i < items.len()
        invariant
            0 <= i <= items@.len(),
            parse_list(items@.take(i as int), f) == Ok::<Seq<usize>, ConfigError>(out@),
            f == index_parser(),
        decreases items@.len() - i,
    {
        proof {
            lemma_parse_list_step(items@, i as int, f);
        }
        match items[i].as_index() {
            Ok(v) => out.push(v),
            Err(e) => {
                proof {
                    lemma_parse_list_err(items@, i + 1, f);
                }
                return Err(e);
            },
        }
        i = i + 1;
    }
    assert(items@.take(items@.len() as int) =~= items@);
    Ok(out)
}

/// Every item as a number.
pub fn parse_numbers(items: &Vec<Json>) -> (r: Result<Vec<Number>, ConfigError>)
    ensures
        match r {
            Ok(v) => parse_list(items@, number_parser()) == Ok::<Seq<Number>, ConfigError>(v@),
            Err(e) => parse_list(items@, number_parser()) == Err::<Seq<Number>, ConfigError>(e),
        },
{
    let ghost f = number_parser();
    let mut out: Vec<Number> = Vec::new();
    let mut i: usize = 0;
    assert(items@.take(0) =~= Seq::<Json>::empty());
    while i < items.len()
        invariant
            0 <= i <= items@.len(),
            parse_list(items@.take(i as int), f) == Ok::<Seq<Number>, ConfigError>(out@),
            f == number_parser(),
        decreases items@.len() - i,
    {
        proof {
            lemma_parse_list_step(items@, i as int, f);
        }
        match items[i].as_number() {
            Ok(v) => out.push(v),
            Err(e) => {
                proof {
                    lemma_parse_list_err(items@, i + 1, f);
                }
                return Err(e);
            },
        }
        i = i + 1;
    }
    assert(items@.take(items@.len() as int) =~= items@);
    Ok(out)
}


pub open spec fn index_key_parser(obj: Json) -> spec_fn(&'static str) -> Result<usize, ConfigError> {
    |k: &'static str| index_field(obj, k@)
}

pub open spec fn number_key_parser(obj: Json) -> spec_fn(&'static str) -> Result<Number, ConfigError> {
    |k: &'static str| number_field(obj, k@)
}

/// The indices written at `keys` of the object `section` of `d`, or the
/// first error met in that order.
pub open spec fn section_indices(d: Json, section: &str, keys: Seq<&'static str>) -> Result<
    Seq<usize>,
    ConfigError,
> {
    match object_field(d, section@) {
        Err(e) => Err(e),
        Ok(obj) => parse_list(keys, index_key_parser(obj)),
    }
}

/// The numbers written at `keys` of the object `section` of `d`.
pub open spec fn section_numbers(d: Json, section: &str, keys: Seq<&'static str>) -> Result<
    Seq<Number>,
    ConfigError,
> {
    match object_field(d, section@) {
        Err(e) => Err(e),
        Ok(obj) => parse_list(keys, number_key_parser(obj)),
    }
}

/// Reads the indices named by `keys` from the object `section` of `d`.
pub fn indices_in(d: &Json, section: &str, keys: &Vec<&'static str>) -> (r: Result<Vec<usize>, ConfigError>)
    ensures
        match r {
            Ok(v) => section_indices(*d, section, keys@) == Ok::<Seq<usize>, ConfigError>(v@),
            Err(e) => section_indices(*d, section, keys@) == Err::<Seq<usize>, ConfigError>(e),
        },
{
    let obj = match d.object_at(section) {
        Ok(o) => o,
        Err(e) => return Err(e),
    };
    let ghost f = index_key_parser(*obj);
    let mut out: Vec<usize> = Vec::new();
    let mut i: usize = 0;
    assert(keys@.take(0) =~= Seq::<&'static str>::empty());
    while i < keys.len()
        invariant
            0 <= i <= keys@.len(),
            f == index_key_parser(*obj),
            object_field(*d, section@) == Ok::<Json, ConfigError>(*obj),
            parse_list(keys@.take(i as int), f) == Ok::<Seq<usize>, ConfigError>(out@),
        decreases keys@.len() - i,
    {
        proof {
            lemma_parse_list_step(keys@, i as int, f);
        }
        match obj.index_at(keys[i]) {
            Ok(v) => out.push(v),
            Err(e) => {
                proof {
                    lemma_parse_list_err(keys@, i + 1, f);
                }
                return Err(e);
            },
        }
        i = i + 1;
    }
    assert(keys@.take(keys@.len() as int) =~= keys@);
    Ok(out)
}

/// Reads the numbers named by `keys` from the object `section` of `d`.
pub fn numbers_in(d: &Json, section: &str, keys: &Vec<&'static str>) -> (r: Result<Vec<Number>, ConfigError>)
    ensures
        match r {
            Ok(v) => section_numbers(*d, section, keys@) == Ok::<Seq<Number>, ConfigError>(v@),
            Err(e) => section_numbers(*d, section, keys@) == Err::<Seq<Number>, ConfigError>(e),
        },
{
    let obj = match d.object_at(section) {
        Ok(o) => o,
        Err(e) => return Err(e),
    };
    let ghost f = number_key_parser(*obj);
    let mut out: Vec<Number> = Vec::new();
    let mut i: usize = 0;
    assert(keys@.take(0) =~= Seq::<&'static str>::empty());
    while i < keys.len()
        invariant
            0 <= i <= keys@.len(),
            f == number_key_parser(*obj),
            object_field(*d, section@) == Ok::<Json, ConfigError>(*obj),
            parse_list(keys@.take(i as int), f) == Ok::<Seq<Number>, ConfigError>(out@),
        decreases keys@.len() - i,
    {
        proof {
            lemma_parse_list_step(keys@, i as int, f);
        }
        match obj.number_at(keys[i]) {
            Ok(v) => out.push(v),
            Err(e) => {
                proof {
                    lemma_parse_list_err(keys@, i + 1, f);
                }
                return Err(e);
            },
        }
        i = i + 1;
    }
    assert(keys@.take(keys@.len() as int) =~= keys@);
    Ok(out)
}

} // verus!
