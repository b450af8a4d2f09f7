//! The token kinds that a lookahead can ask for.
//!
//! Each kind is a type without contents. It knows whether a token tree of its
//! kind stands at a position, and what to call itself in a diagnostic. The
//! set is closed: [`Token`] is sealed.

use crate::lookahead::{is_delimiter, Lookahead1};
use crate::buffer::Cursor;
use crate::private::Sealed;
use proc_macro2::Delimiter;
use vstd::prelude::*;

verus! {

/// A kind of token.
pub trait Token: Sealed {
    /// Whether a token of this kind stands at `cursor`.
    spec fn matches(cursor: Cursor) -> bool;

    /// What a diagnostic calls this kind. It does not depend on any input.
    spec fn name() -> Seq<char>;

    /// Tests the position of `lookahead` for a token of this kind.
    fn peek(lookahead: &Lookahead1) -> (hit: bool)
        ensures
            hit == Self::matches(lookahead.position()),
    ;

    /// What a diagnostic calls this kind.
    fn display() -> (text: String)
        ensures
            text@ == Self::name(),
    ;
}

/// An identifier.
pub struct Ident;

/// A literal.
pub struct Lit;

/// The punctuation `,`.
pub struct Comma;

/// The punctuation `;`.
pub struct Semi;

/// A group in `(` and `)`.
pub struct Paren;

/// A group in `{` and `}`.
pub struct Brace;

/// A group in `[` and `]`.
pub struct Bracket;

impl Sealed for Ident {
}

impl Sealed for Lit {
}

impl Sealed for Comma {
}

impl Sealed for Semi {
}

impl Sealed for Paren {
}

impl Sealed for Brace {
}

impl Sealed for Bracket {
}

impl Token for Ident {
    open spec fn matches(cursor: Cursor) -> bool {
        cursor.at_ident()
    }

    open spec fn name() -> Seq<char> {
        "identifier"@
    }

    fn peek(lookahead: &Lookahead1) -> (hit: bool) {
        lookahead.cursor().is_ident()
    }

    fn display() -> (text: String) {
        String::from_str("identifier")
    }
}

impl Token for Lit {
    open spec fn matches(cursor: Cursor) -> bool {
        cursor.at_literal()
    }

    open spec fn name() -> Seq<char> {
        "literal"@
    }

    fn peek(lookahead: &Lookahead1) -> (hit: bool) {
        lookahead.cursor().is_literal()
    }

    fn display() -> (text: String) {
        String::from_str("literal")
    }
}

impl Token for Comma {
    open spec fn matches(cursor: Cursor) -> bool {
        cursor.at_punct(',')
    }

    open spec fn name() -> Seq<char> {
        "`,`"@
    }

    fn peek(lookahead: &Lookahead1) -> (hit: bool) {
        lookahead.cursor().is_punct(',')
    }

    fn display() -> (text: String) {
        String::from_str("`,`")
    }
}

impl Token for Semi {
    open spec fn matches(cursor: Cursor) -> bool {
        cursor.at_punct(';')
    }

    open spec fn name() -> Seq<char> {
        "`;`"@
    }

    fn peek(lookahead: &Lookahead1) -> (hit: bool) {
        lookahead.cursor().is_punct(';')
    }

    fn display() -> (text: String) {
        String::from_str("`;`")
    }
}

impl Token for Paren {
    open spec fn matches(cursor: Cursor) -> bool {
        cursor.at_group(Delimiter::Parenthesis)
    }

    open spec fn name() -> Seq<char> {
        "parentheses"@
    }

    fn peek(lookahead: &Lookahead1) -> (hit: bool) {
        is_delimiter(lookahead, Delimiter::Parenthesis)
    }

    fn display() -> (text: String) {
        String::from_str("parentheses")
    }
}

impl Token for Brace {
    open spec fn matches(cursor: Cursor) -> bool {
        cursor.at_group(Delimiter::Brace)
    }

    open spec fn name() -> Seq<char> {
        "curly braces"@
    }

    fn peek(lookahead: &Lookahead1) -> (hit: bool) {
        is_delimiter(lookahead, Delimiter::Brace)
    }

    fn display() -> (text: String) {
        String::from_str("curly braces")
    }
}

impl Token for Bracket {
    open spec fn matches(cursor: Cursor) -> bool {
        cursor.at_group(Delimiter::Bracket)
    }

    open spec fn name() -> Seq<char> {
        "square brackets"@
    }

    fn peek(lookahead: &Lookahead1) -> (hit: bool) {
        is_delimiter(lookahead, Delimiter::Bracket)
    }

    fn display() -> (text: String) {
        String::from_str("square brackets")
    }
}

} // verus!
