//! Rust tokens: how types, literals and lexing errors are read and printed.
//!
//! `proc_macro2` works through the compiler while a macro is expanded, and on its
//! own everywhere else. The two space tokens and word errors in their own ways, so
//! what is printed is not fixed by the arguments alone. Nothing is claimed of it
//! here but which call it came from: each relation below holds of an argument and a
//! text that the call on that argument has given.

use crate::text::optional_text;
use vstd::prelude::*;

verus! {

/// Wraps `proc_macro2::Literal::string`, and the printing of the literal that it
/// gives. Nothing is claimed of the text.
#[verifier::external_body]
fn literal_text(s: &str) -> (r: String) {
    proc_macro2::Literal::string(s).to_string()
}

/// Whether `out` is a text that the string literal of value `s` has been printed as.
pub closed spec fn prints_literal(s: Seq<char>, out: Seq<char>) -> bool {
    exists|x: &str, r: String| #[trigger]
        call_ensures(literal_text, (x,), r) && x@ == s && r@ == out
}

/// The string literal of value `s`, as Rust source.
pub fn literal_of(s: &str) -> (r: String)
    ensures
        prints_literal(s@, r@),
{
    let r = literal_text(s);
    assert(call_ensures(literal_text, (s,), r));
    r
}

/// Wraps `syn::parse_str` at `syn::Type`, and the printing of the tokens it gives.
/// Nothing is claimed of which texts it takes, nor of how their tokens are printed.
#[verifier::external_body]
fn type_text(source: &str) -> (r: Option<String>) {
    match syn::parse_str::<syn::Type>(source) {
        Ok(ty) => Some(quote::ToTokens::to_token_stream(&ty).to_string()),
        Err(_) => None,
    }
}

/// Whether `out` is what reading `source` as a Rust type has given: the printed
/// tokens, or nothing where it was not taken for a type.
pub closed spec fn reads_type(source: Seq<char>, out: Option<Seq<char>>) -> bool {
    exists|x: &str, r: Option<String>| #[trigger]
        call_ensures(type_text, (x,), r) && x@ == source && optional_text(r) == out
}

/// Read `source` as a Rust type: the printed tokens, or nothing where it is no type.
pub fn type_of(source: &str) -> (r: Option<String>)
    ensures
        reads_type(source@, optional_text(r)),
{
    let r = type_text(source);
    assert(call_ensures(type_text, (source,), r));
    r
}

/// Wraps the parsing of a `proc_macro2::TokenStream`, and
/// `syn::Error::to_compile_error` on the error where it fails. Nothing is claimed of
/// which texts are tokens, nor of how the report is worded.
#[verifier::external_body]
fn lex_text(source: &str) -> (r: Option<String>) {
    match source.parse::<proc_macro2::TokenStream>() {
        Ok(_) => None,
        Err(e) => Some(syn::Error::from(e).to_compile_error().to_string()),
    }
}

/// Whether `report` is what lexing `source` has given: nothing where it was taken
/// for Rust tokens, else the `compile_error!` call that reports why not.
pub closed spec fn lexes(source: Seq<char>, report: Option<Seq<char>>) -> bool {
    exists|x: &str, r: Option<String>| #[trigger]
        call_ensures(lex_text, (x,), r) && x@ == source && optional_text(r) == report
}

/// The `compile_error!` call that reports why `source` is not a list of Rust tokens;
/// nothing where it is one.
pub fn lex_report(source: &str) -> (r: Option<String>)
    ensures
        lexes(source@, optional_text(r)),
{
    let r = lex_text(source);
    assert(call_ensures(lex_text, (source,), r));
    r
}

} // verus!
