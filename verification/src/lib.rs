//! Generates, for an error type `T`, the declaration
//! `impl From<T> for wasm_bindgen::JsValue`, which converts a `T` through
//! `wasm_bindgen::JsError` into the value that crosses to JavaScript.
//!
//! The generator works on source text: it reads a type declaration far enough
//! to learn the type's name and answers with the text of the conversion. It
//! never asks whether the type is an error that `JsError` can wrap: a type
//! that is not gets its declaration all the same, and the compiler refuses
//! that declaration when it checks it.

use vstd::prelude::*;

pub mod conversion;
pub mod declaration;

pub use crate::conversion::emit;

use crate::conversion::{
    between, closing, conversion_text, impl_header, lemma_declaration_identifies_type,
    lemma_shape_is_fixed, opening,
};
use crate::declaration::{declared_ident, parse_declared_ident, texts};

verus! {

/// The generator's only failure: the input is not a type declaration.
#[derive(Debug, PartialEq, Eq)]
pub struct DeriveError {
    /// The parser's diagnostic.
    pub message: String,
}

/// What the generator answers to `input`: the conversion for the declared
/// type, or the parser's diagnostic.
pub open spec fn derived(input: Seq<char>) -> Result<Seq<char>, Seq<char>> {
    expansion(declared_ident(input))
}

/// What the generator makes of a parser's outcome.
pub open spec fn expansion(parsed: Result<Seq<char>, Seq<char>>) -> Result<Seq<char>, Seq<char>> {
    match parsed {
        Ok(ident) => Ok(conversion_text(ident)),
        Err(message) => Err(message),
    }
}

/// The outcome of the generator as the texts it carries.
pub open spec fn outcome(result: Result<String, DeriveError>) -> Result<Seq<char>, Seq<char>> {
    match result {
        Ok(text) => Ok(text@),
        Err(error) => Err(error.message@),
    }
}

/// Turns the parser's outcome into the generator's: a declared name gets its
/// conversion, a diagnostic is handed on unchanged.
pub fn expand(parsed: Result<String, String>) -> (result: Result<String, DeriveError>)
    ensures
        outcome(result) == expansion(texts(parsed)),
{
    match parsed {
        Ok(ident) => Ok(emit(ident.as_str())),
        Err(message) => Err(DeriveError { message }),
    }
}

/// Generates the conversion for the type that `input` declares.
///
/// Succeeds exactly when `input` parses as a struct, enum or union
/// declaration, and then the answer depends on the declared name alone:
/// generic parameters, like fields and variants, are read and left out of the
/// conversion. The parser recurses on nested types and expressions, so the
/// calling thread needs stack for the depth of the declaration.
pub fn derive(input: &str) -> (result: Result<String, DeriveError>)
    ensures
        outcome(result) == derived(input@),
        result is Ok <==> declared_ident(input@) is Ok,
{
    expand(parse_declared_ident(input))
}

/// The name alone decides: two declarations of a type of one name get the same
/// conversion, whatever their fields, variants, generics, attributes and
/// visibility.
pub proof fn lemma_name_alone_decides(first: Seq<char>, second: Seq<char>)
    requires
        declared_ident(first) is Ok,
        declared_ident(second) is Ok,
        declared_ident(first)->Ok_0 == declared_ident(second)->Ok_0,
    ensures
        derived(first) == derived(second),
{
}

/// The conversion emitted for a declaration is the fixed text around the
/// declared name and opens with the convert-from relation on that name; two
/// declarations with the same conversion declare types of the same name.
pub proof fn lemma_conversion_is_for_declared_type(input: Seq<char>, other: Seq<char>)
    requires
        declared_ident(input) is Ok,
    ensures
        derived(input) is Ok,
        derived(input)->Ok_0 == opening() + declared_ident(input)->Ok_0 + between()
            + declared_ident(input)->Ok_0 + closing(),
        impl_header(declared_ident(input)->Ok_0).is_prefix_of(derived(input)->Ok_0),
        derived(other) == derived(input) ==> declared_ident(other) == declared_ident(input),
{
    let ident = declared_ident(input)->Ok_0;
    lemma_shape_is_fixed(ident);
    if derived(other) == derived(input) {
        lemma_declaration_identifies_type(declared_ident(other)->Ok_0, ident);
    }
}

} // verus!
