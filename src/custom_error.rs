//! Errors of the wire format.

use vstd::prelude::*;

verus! {

/// A payload that is not UTF-8 text, or is empty.
#[derive(Debug, PartialEq, Eq, Structural, Clone, Copy)]
pub struct Byte2JsonErr;

/// A record that could not be written as JSON.
#[derive(Debug, PartialEq, Eq, Structural, Clone, Copy)]
pub struct Struct2JsonErr;

/// A JSON body that does not match the record its kind calls for.
#[derive(Debug, PartialEq, Eq, Structural, Clone, Copy)]
pub struct Json2StructErr;

impl Byte2JsonErr {
    /// The text of the error.
    pub fn message(&self) -> (r: String)
        ensures
            r@ == "Byte To Json Fail !"@,
    {
        String::from_str("Byte To Json Fail !")
    }
}

impl Struct2JsonErr {
    /// The text of the error.
    pub fn message(&self) -> (r: String)
        ensures
            r@ == "Struct To Json Fail !"@,
    {
        String::from_str("Struct To Json Fail !")
    }
}

impl Json2StructErr {
    /// The text of the error.
    pub fn message(&self) -> (r: String)
        ensures
            r@ == "Json To Struct Fail !"@,
    {
        String::from_str("Json To Struct Fail !")
    }
}

} // verus!
