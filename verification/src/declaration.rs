//! Reading the declaration that the generator is attached to.
//!
//! The grammar of declarations is `syn`'s, not this crate's: the text is
//! handed to `syn`, and all that comes back is the declared type's name or
//! the message of the parse error.

use vstd::prelude::*;

verus! {

/// What `syn::parse_str::<syn::DeriveInput>` makes of `input`: `Ok` with the
/// name of the declared type where `input` is a struct, enum or union
/// declaration, else `Err` with the message of the parse error.
///
/// `syn` is built here without its `proc-macro` feature, so the text is always
/// cut into tokens by `proc-macro2`'s own lexer and the outcome depends on
/// `input` alone.
pub uninterp spec fn declared_ident(input: Seq<char>) -> Result<Seq<char>, Seq<char>>;

/// A parser's outcome as the texts it carries.
pub open spec fn texts(parsed: Result<String, String>) -> Result<Seq<char>, Seq<char>> {
    match parsed {
        Ok(ident) => Ok(ident@),
        Err(message) => Err(message@),
    }
}

/// Calls `syn::parse_str::<syn::DeriveInput>` on `input`.
///
/// Trusted: the outcome, by its texts, is `declared_ident(input@)`. On success
/// the name is the `ident` field of the parsed `DeriveInput`, printed as
/// `proc_macro2::Ident` prints it (a raw identifier keeps its `r#`);
/// attributes, visibility, generics, fields and variants are parsed and
/// dropped. On failure the message is the `syn::Error` printed by its
/// `Display` impl, which is its first message without a position.
///
/// The contract speaks of the outcome only. `syn` reads nested types and
/// expressions by recursion and sets no limit of its own, so a declaration
/// nested some hundred levels deep can use up the stack of the calling thread
/// before any outcome is there.
#[verifier::external_body]
pub(crate) fn parse_declared_ident(input: &str) -> (parsed: Result<String, String>)
    ensures
        texts(parsed) == declared_ident(input@),
{
    match syn::parse_str::<syn::DeriveInput>(input) {
        Ok(declaration) => Ok(declaration.ident.to_string()),
        Err(error) => Err(error.to_string()),
    }
}

} // verus!
