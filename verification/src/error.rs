//! Why an analysis step gave no answer.

use vstd::prelude::*;

verus! {

/// Why a step gave no answer.
///
/// The first group names the constructs that type resolution does not
/// cover: each is the first thing, in the order of evaluation, that stood in
/// the way of an answer. The second group names what a rule misses when a
/// step reaches it that the walk did not prepare. The last is the failed
/// lookup of a line.
#[derive(Clone, Copy, Debug, PartialEq, Eq, Structural)]
pub enum Error {
    /// The expression could not be parsed in the first place.
    MalformedExpr,
    /// A path that is not the bare name of a known variable.
    UnknownPath,
    /// A character literal: the language has no type for it.
    CharLiteral,
    /// A call of a free function.
    FunctionCall,
    /// A call of a method: signatures are not looked up through
    /// implementations.
    MethodCall,
    /// An index into something that is not an array.
    NotAnArray,
    /// `storage.NAME` where no storage declaration of `NAME` is in scope.
    UnknownStorageField,
    /// A field projection on something that does not resolve to a struct.
    NotAStruct,
    /// A field projection that names no field of the struct.
    UnknownField,
    /// A numbered projection on something that is not a tuple.
    NotATuple,
    /// A numbered projection on the empty tuple.
    EmptyTuple,
    /// A numbered projection past the end of a tuple.
    TupleIndexOutOfRange,
    /// A written path type that the resolver does not know.
    UnresolvedType,
    /// A step in a module that was not entered.
    MissingModuleState,
    /// A step in a function that was not entered.
    MissingFnState,
    /// A step in a block that was not entered, or outside any block.
    MissingBlockState,
    /// A span that starts on no line of a known file.
    LineNotFound,
}

impl Error {
    /// A short description for whoever maintains the engine.
    pub fn describe(&self) -> (text: &'static str) {
        match self {
            Error::MalformedExpr => "malformed expression",
            Error::UnknownPath => "path that names no known variable",
            Error::CharLiteral => "character literal",
            Error::FunctionCall => "function call",
            Error::MethodCall => "method call",
            Error::NotAnArray => "index into a value that is not an array",
            Error::UnknownStorageField => "storage field that is not declared",
            Error::NotAStruct => "field projection on a value that is not a struct",
            Error::UnknownField => "field that the struct does not declare",
            Error::NotATuple => "numbered projection on a value that is not a tuple",
            Error::EmptyTuple => "numbered projection on the empty tuple",
            Error::TupleIndexOutOfRange => "numbered projection past the end of a tuple",
            Error::UnresolvedType => "path type that the resolver does not know",
            Error::MissingModuleState => "step in a module that was not entered",
            Error::MissingFnState => "step in a function that was not entered",
            Error::MissingBlockState => "step in a block that was not entered",
            Error::LineNotFound => "span that starts on no known line",
        }
    }
}

} // verus!
