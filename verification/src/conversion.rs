//! The emitted conversion declaration, as text.

use vstd::prelude::*;

verus! {

/// The line that opens the implementation: the convert-from relation on
/// `ident`, implemented for the foreign error value.
pub open spec fn impl_header(ident: Seq<char>) -> Seq<char> {
    "impl From<"@ + ident + "> for wasm_bindgen::JsValue"@
}

/// The signature of the one operation: it takes a value of `ident` by
/// ownership and returns the foreign error value by ownership.
pub open spec fn method_signature(ident: Seq<char>) -> Seq<char> {
    "fn from(error: "@ + ident + ") -> Self"@
}

/// The body of the operation: the input is wrapped as a `JsError`, and the
/// wrapper is converted into the foreign error value.
pub open spec fn method_body() -> Seq<char> {
    "wasm_bindgen::JsError::from(error).into()"@
}

/// The whole declaration emitted for the type named `ident`.
pub open spec fn conversion_text(ident: Seq<char>) -> Seq<char> {
    impl_header(ident) + " { "@ + method_signature(ident) + " { "@ + method_body() + " } }"@
}

/// Writes the conversion declaration for the type named `ident`.
///
/// Nothing is asked of `ident`: whether the type it names can be wrapped as a
/// `JsError` is left to the compiler that later reads the declaration.
pub fn emit(ident: &str) -> (text: String)
    ensures
        text@ == conversion_text(ident@),
{
    let mut text = String::from_str("impl From<");
    text.append(ident);
    text.append("> for wasm_bindgen::JsValue");
    text.append(" { ");
    text.append("fn from(error: ");
    text.append(ident);
    text.append(") -> Self");
    text.append(" { ");
    text.append("wasm_bindgen::JsError::from(error).into()");
    text.append(" } }");
    text
}

/// The text that stands before the first mention of the type.
pub open spec fn opening() -> Seq<char> {
    "impl From<"@
}

/// The text that stands between the two mentions of the type.
pub open spec fn between() -> Seq<char> {
    "> for wasm_bindgen::JsValue"@ + " { "@ + "fn from(error: "@
}

/// The text that stands after the second mention of the type.
pub open spec fn closing() -> Seq<char> {
    ") -> Self"@ + " { "@ + method_body() + " } }"@
}

/// Every declaration has one shape: three texts that no input reaches, with
/// the type's name set between them, once as the argument of `From` and once
/// as the type of the parameter. Nothing else of the declaration varies, and
/// no other name taken from the input stands in it.
pub proof fn lemma_shape_is_fixed(ident: Seq<char>)
    ensures
        conversion_text(ident) == opening() + ident + between() + ident + closing(),
        impl_header(ident).is_prefix_of(conversion_text(ident)),
{
    let shaped = opening() + ident + between() + ident + closing();
    assert(conversion_text(ident) =~= shaped);
    assert(conversion_text(ident).subrange(0, impl_header(ident).len() as int) =~= impl_header(
        ident,
    ));
}

/// A declaration tells which type it was emitted for: two names with the same
/// declaration are the same name.
pub proof fn lemma_declaration_identifies_type(a: Seq<char>, b: Seq<char>)
    requires
        conversion_text(a) == conversion_text(b),
    ensures
        a == b,
{
    lemma_shape_is_fixed(a);
    lemma_shape_is_fixed(b);
    let start = opening().len() as int;
    let of_a = opening() + a + between() + a + closing();
    let of_b = opening() + b + between() + b + closing();
    assert(of_a.len() == of_b.len());
    assert(a.len() == b.len());
    assert(of_a.subrange(start, start + a.len()) =~= a);
    assert(of_b.subrange(start, start + b.len()) =~= b);
}

} // verus!
