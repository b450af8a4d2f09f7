//! The diagnostic that a failed parse reports.

use crate::buffer::Cursor;
use proc_macro2::Span;
use vstd::prelude::*;

verus! {

/// A message and the span that it blames.
pub struct Error {
    pub span: Span,
    pub message: String,
}

/// The span that a diagnostic at `cursor` blames: the span of the token tree
/// at the cursor, or `scope` where the cursor is at the end of its input and
/// so has no token to point at.
pub open spec fn blamed_span(scope: Span, cursor: Cursor) -> Span {
    if cursor.at_end() {
        scope
    } else {
        cursor.current().spec_span()
    }
}

impl Error {
    /// A diagnostic that blames `span`.
    pub fn new(span: Span, message: &str) -> (error: Error)
        ensures
            error.span == span,
            error.message@ == message@,
    {
        Error { span, message: String::from_str(message) }
    }

    /// The span that the diagnostic blames.
    pub fn span(&self) -> (span: Span)
        ensures
            span == self.span,
    {
        self.span
    }

    /// The text of the diagnostic.
    pub fn to_string(&self) -> (text: String)
        ensures
            text@ == self.message@,
    {
        self.message.clone()
    }
}

/// A diagnostic at `cursor`: it blames the token tree at the cursor, and
/// `scope` at the end of the input.
pub fn new_at(scope: Span, cursor: Cursor, message: &str) -> (error: Error)
    ensures
        error.span == blamed_span(scope, cursor),
        error.message@ == message@,
{
    match cursor.span() {
        Some(span) => Error::new(span, message),
        None => Error::new(scope, message),
    }
}

} // verus!
