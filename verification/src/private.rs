//! The seal on the set of token kinds.

use vstd::prelude::*;

verus! {

/// A trait that only this crate can name, and so only this crate can
/// implement. Every trait that is bound by it is closed: its impls are the
/// ones written here and no others.
pub trait Sealed {
}

} // verus!
