//! One-token lookahead over a delimiter-structured token stream.
//!
//! A [`lookahead::Lookahead1`] is bound to one read position. A grammar rule
//! asks it, alternative by alternative, whether the next token is of a given
//! kind. Asking never moves the position; each alternative that does not
//! match is remembered, and if none matches the probe turns what it
//! remembered into one diagnostic that names every alternative in the order
//! in which it was tried.

pub mod buffer;
pub mod error;
pub mod lookahead;
mod private;
pub mod span;
pub mod token;
