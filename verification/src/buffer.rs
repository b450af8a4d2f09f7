//! Token trees and a read position over them.

use crate::span::same_delimiter;
use proc_macro2::{Delimiter, Span};
use vstd::prelude::*;

verus! {

/// One node of a token stream: a single token, or a delimited group with the
/// token trees that it encloses.
pub enum TokenTree {
    Group { delimiter: Delimiter, span: Span, inner: Vec<TokenTree> },
    Ident { name: String, span: Span },
    Punct { symbol: char, span: Span },
    Literal { text: String, span: Span },
}

impl TokenTree {
    /// The span that a diagnostic about this token tree blames.
    pub open spec fn spec_span(self) -> Span {
        match self {
            TokenTree::Group { span, .. } => span,
            TokenTree::Ident { span, .. } => span,
            TokenTree::Punct { span, .. } => span,
            TokenTree::Literal { span, .. } => span,
        }
    }

    /// Whether this is a group enclosed by `delimiter`.
    pub open spec fn is_group_of(self, delimiter: Delimiter) -> bool {
        match self {
            TokenTree::Group { delimiter: own, .. } => own == delimiter,
            _ => false,
        }
    }

    /// Whether this is the punctuation character `symbol`.
    pub open spec fn is_punct_of(self, symbol: char) -> bool {
        match self {
            TokenTree::Punct { symbol: own, .. } => own == symbol,
            _ => false,
        }
    }

    /// The token trees inside a group; nothing for a single token.
    pub open spec fn children(self) -> Seq<TokenTree> {
        match self {
            TokenTree::Group { inner, .. } => inner@,
            _ => Seq::empty(),
        }
    }

    /// The span that a diagnostic about this token tree blames.
    pub fn span(&self) -> (span: Span)
        ensures
            span == self.spec_span(),
    {
        match self {
            TokenTree::Group { span, .. } => *span,
            TokenTree::Ident { span, .. } => *span,
            TokenTree::Punct { span, .. } => *span,
            TokenTree::Literal { span, .. } => *span,
        }
    }
}

/// A read position in a sequence of token trees. It is a plain value: copying
/// it is cheap, and no operation changes the position it was called on.
///
/// Its view is the sequence of token trees that are still to be read, the
/// current one first.
#[derive(Clone, Copy)]
pub struct Cursor<'a> {
    pub tokens: &'a [TokenTree],
    pub index: usize,
}

impl<'a> View for Cursor<'a> {
    type V = Seq<TokenTree>;

    open spec fn view(&self) -> Seq<TokenTree> {
        if self.index <= self.tokens@.len() {
            self.tokens@.skip(self.index as int)
        } else {
            Seq::empty()
        }
    }
}

impl<'a> Cursor<'a> {
    /// Whether nothing is left to read.
    pub open spec fn at_end(self) -> bool {
        self@.len() == 0
    }

    /// The token tree at the position.
    pub open spec fn current(self) -> TokenTree
        recommends
            !self.at_end(),
    {
        self@[0]
    }

    /// Whether a group enclosed by `delimiter` starts at the position.
    pub open spec fn at_group(self, delimiter: Delimiter) -> bool {
        !self.at_end() && self.current().is_group_of(delimiter)
    }

    /// Whether an identifier stands at the position.
    pub open spec fn at_ident(self) -> bool {
        !self.at_end() && self.current() is Ident
    }

    /// Whether a literal stands at the position.
    pub open spec fn at_literal(self) -> bool {
        !self.at_end() && self.current() is Literal
    }

    /// Whether the punctuation character `symbol` stands at the position.
    pub open spec fn at_punct(self, symbol: char) -> bool {
        !self.at_end() && self.current().is_punct_of(symbol)
    }

    /// A cursor at the first of `tokens`.
    pub fn new(tokens: &'a [TokenTree]) -> (cursor: Cursor<'a>)
        ensures
            cursor@ == tokens@,
            cursor.tokens == tokens,
            cursor.index == 0,
    {
        let cursor = Cursor { tokens, index: 0 };
        assert(cursor@ =~= tokens@);
        cursor
    }

    /// Whether the cursor stands behind the last token tree.
    pub fn eof(self) -> (end: bool)
        ensures
            end == self.at_end(),
    {
        self.index >= self.tokens.len()
    }

    /// The span of the token tree at the position, if there is one.
    pub fn span(self) -> (span: Option<Span>)
        ensures
            span == if self.at_end() {
                None
            } else {
                Some(self.current().spec_span())
            },
    {
        if self.index >= self.tokens.len() {
            None
        } else {
            Some(self.tokens[self.index].span())
        }
    }

    /// If a group enclosed by `delimiter` starts at the position, a cursor at
    /// the first token tree inside that group.
    pub fn group(self, delimiter: Delimiter) -> (inside: Option<Cursor<'a>>)
        ensures
            inside.is_some() == self.at_group(delimiter),
            inside matches Some(cursor) ==> cursor@ == self.current().children()
                && cursor.index == 0,
    {
        if self.index >= self.tokens.len() {
            return None;
        }
        match &self.tokens[self.index] {
            TokenTree::Group { delimiter: own, inner, .. } => {
                if same_delimiter(*own, delimiter) {
                    Some(Cursor::new(inner.as_slice()))
                } else {
                    None
                }
            },
            _ => None,
        }
    }

    /// Whether an identifier stands at the position.
    pub fn is_ident(self) -> (hit: bool)
        ensures
            hit == self.at_ident(),
    {
        if self.index >= self.tokens.len() {
            return false;
        }
        match &self.tokens[self.index] {
            TokenTree::Ident { .. } => true,
            _ => false,
        }
    }

    /// Whether a literal stands at the position.
    pub fn is_literal(self) -> (hit: bool)
        ensures
            hit == self.at_literal(),
    {
        if self.index >= self.tokens.len() {
            return false;
        }
        match &self.tokens[self.index] {
            TokenTree::Literal { .. } => true,
            _ => false,
        }
    }

    /// Whether the punctuation character `symbol` stands at the position.
    pub fn is_punct(self, symbol: char) -> (hit: bool)
        ensures
            hit == self.at_punct(symbol),
    {
        if self.index >= self.tokens.len() {
            return false;
        }
        match &self.tokens[self.index] {
            TokenTree::Punct { symbol: own, .. } => *own == symbol,
            _ => false,
        }
    }

    /// The position behind the current token tree; at the end, the same
    /// position.
    pub fn advance(self) -> (next: Cursor<'a>)
        ensures
            next@ == if self.at_end() {
                self@
            } else {
                self@.skip(1)
            },
            next.tokens == self.tokens,
    {
        if self.index >= self.tokens.len() {
            self
        } else {
            let next = Cursor { tokens: self.tokens, index: self.index + 1 };
            assert(next@ =~= self@.skip(1));
            next
        }
    }
}

} // verus!
