//! The source-location and delimiter types of `proc_macro2`, as the library
//! carries them.

use proc_macro2::{Delimiter, Span};
use vstd::prelude::*;

verus! {

/// `proc_macro2::Span`, a region of source code. The library never looks
/// inside a span: it stores spans and hands them on, so the type is declared
/// without its contents.
#[verifier::external_type_specification]
#[verifier::external_body]
pub struct ExSpan(Span);

/// `proc_macro2::Delimiter`, the four ways in which a group of tokens can be
/// enclosed. The enum has no fields, so it is declared with its variants.
#[verifier::external_type_specification]
pub struct ExDelimiter(Delimiter);

/// Whether two delimiters are the same kind.
pub fn same_delimiter(left: Delimiter, right: Delimiter) -> (same: bool)
    ensures
        same == (left == right),
{
    match (left, right) {
        (Delimiter::Parenthesis, Delimiter::Parenthesis) => true,
        (Delimiter::Brace, Delimiter::Brace) => true,
        (Delimiter::Bracket, Delimiter::Bracket) => true,
        (Delimiter::None, Delimiter::None) => true,
        _ => false,
    }
}

} // verus!
