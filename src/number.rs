//! Numeric literals of a configuration document, held exactly as decimal
//! parts so that the library never rounds them.

use vstd::prelude::*;

verus! {

/// The decimal value `(+/-) mantissa * 10^exponent`.
#[derive(Clone, Copy, Debug, PartialEq, Eq, Structural)]
pub struct Number {
    pub positive: bool,
    pub mantissa: u64,
    pub exponent: i16,
}

impl Number {
    /// The number as a plain non-negative integer literal: positive, with no
    /// decimal exponent.
    pub open spec fn natural(&self) -> Option<nat> {
        if self.positive && self.exponent == 0 {
            Some(self.mantissa as nat)
        } else {
            None
        }
    }

    pub fn from_parts(positive: bool, mantissa: u64, exponent: i16) -> (r: Number)
        ensures
            r == (Number { positive, mantissa, exponent }),
    {
        Number { positive, mantissa, exponent }
    }

    /// A whole number that can index a container.
    pub fn as_usize(&self) -> (r: Option<usize>)
        ensures
            r is Some <==> (self.natural() is Some && self.natural().unwrap() <= usize::MAX),
            r is Some ==> r.unwrap() as nat == self.natural().unwrap(),
    {
        if self.positive && self.exponent == 0 && self.mantissa <= usize::MAX as u64 {
            Some(self.mantissa as usize)
        } else {
            None
        }
    }

    /// A whole number that fits one color channel.
    pub fn as_u8(&self) -> (r: Option<u8>)
        ensures
            r is Some <==> (self.natural() is Some && self.natural().unwrap() <= 255),
            r is Some ==> r.unwrap() as nat == self.natural().unwrap(),
    {
        if self.positive && self.exponent == 0 && self.mantissa <= 255 {
            Some(self.mantissa as u8)
        } else {
            None
        }
    }
}

} // verus!
