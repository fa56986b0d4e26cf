use vstd::prelude::*;

verus! {

/// A number as a structured-value parser hands it over: a non-negative
/// integer, a negative integer, or a binary64 value kept as its IEEE-754 bit
/// pattern, so that it passes through decoding unchanged.
#[derive(Clone, Copy, Debug, PartialEq, Eq, Structural)]
pub enum Number {
    PosInt(u64),
    NegInt(i64),
    Float(u64),
}

/// A generic structured value: what the transport layer produces from the
/// bytes of one message, before any protocol-specific decoding.
///
/// An object keeps its entries in wire order; a key is looked up by its first
/// occurrence.
#[derive(Debug, PartialEq)]
pub enum Value {
    Null,
    Bool(bool),
    Number(Number),
    Str(String),
    Array(Vec<Value>),
    Object(Vec<(String, Value)>),
}

impl Default for Number {
    fn default() -> (r: Number)
        ensures
            r == Number::PosInt(0),
    {
        Number::PosInt(0)
    }
}

} // verus!
