//! The seal that closes the set of capturable types.

use vstd::prelude::*;

verus! {

/// Sealing marker for [`crate::Visit`].  This module is private, so no
/// outside crate can name the trait, and the set of capturable types
/// stays closed: the visitor's dispatch assumes exactly those cases.
pub trait VisitPrivate {
}

} // verus!
