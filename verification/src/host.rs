//! The host language's primitive grammar, reached through trusted calls.
//!
//! The parser captures expressions and types as token runs and only asks the
//! host grammar one question about them: does this text form one complete
//! expression (or type)? Those judgments are functions of the text alone and
//! are given names here; nothing else is assumed about them.

use vstd::prelude::*;

verus! {

/// Whether a piece of text is one complete host-language expression.
pub uninterp spec fn is_rust_expr(s: Seq<char>) -> bool;

/// Whether a piece of text is one complete host-language type.
pub uninterp spec fn is_rust_type(s: Seq<char>) -> bool;

/// Relies on `syn::parse_str::<syn::Expr>`: it parses a string as one
/// complete expression, with an error when tokens are left over, and its
/// verdict depends on the string alone.
#[verifier::external_body]
pub(crate) fn accepts_expr(s: &str) -> (r: bool)
    ensures
        r == is_rust_expr(s@),
{
    syn::parse_str::<syn::Expr>(s).is_ok()
}

/// Relies on `syn::parse_str::<syn::Type>`: it parses a string as one
/// complete type, with an error when tokens are left over, and its verdict
/// depends on the string alone.
#[verifier::external_body]
pub(crate) fn accepts_type(s: &str) -> (r: bool)
    ensures
        r == is_rust_type(s@),
{
    syn::parse_str::<syn::Type>(s).is_ok()
}

/// Relies on `str`'s `PartialEq`: two slices are equal exactly when they hold
/// the same characters.
#[verifier::external_body]
pub(crate) fn str_eq(a: &str, b: &str) -> (r: bool)
    ensures
        r == (a@ == b@),
{
    a == b
}

/// Relies on `String::push`: it appends exactly one character.
#[verifier::external_body]
pub(crate) fn push_char(s: &mut String, c: char)
    ensures
        final(s)@ == old(s)@.push(c),
{
    s.push(c)
}

} // verus!
